use vstd::prelude::*;
use crate::color::Color;
use crate::console::{glyph_at, BackgroundFlag, DrawCommand};
use crate::map::{in_bounds, Game, MAP_HEIGHT, MAP_WIDTH};
use crate::object::RogueObject;

verus! {

/// The commands that draw `objects` one after the other, so that a later
/// object covers an earlier one on the same cell.
pub open spec fn object_commands(objects: Seq<RogueObject>) -> Seq<DrawCommand>
    decreases objects.len(),
{
    if objects.len() == 0 {
        Seq::empty()
    } else {
        object_commands(objects.drop_last()) + objects.last().draw_commands()
    }
}

/// The command that paints the background of the cell `(x, y)`: the wall
/// colour where the tile blocks sight, the ground colour elsewhere.
pub open spec fn cell_background(game: Game, x: int, y: int) -> DrawCommand {
    DrawCommand::SetCharBackground {
        x: x as i32,
        y: y as i32,
        color: if game.tile(x, y).block_sight {
            Color::dark_wall()
        } else {
            Color::dark_ground()
        },
        flag: BackgroundFlag::Overwrite,
    }
}

/// The commands that paint the background of every cell, row by row from the
/// top and from left to right within a row.
pub open spec fn background_commands(game: Game) -> Seq<DrawCommand> {
    Seq::new(
        (MAP_WIDTH * MAP_HEIGHT) as nat,
        |i: int| cell_background(game, i % (MAP_WIDTH as int), i / (MAP_WIDTH as int)),
    )
}

/// One frame: the objects first, then the backgrounds of all cells.
pub open spec fn frame_commands(game: Game, objects: Seq<RogueObject>) -> Seq<DrawCommand> {
    object_commands(objects) + background_commands(game)
}

/// Draws one frame onto `con`: every object in the order of `objects`, then
/// the background of every cell of the map.
pub fn render_all(con: &mut Vec<DrawCommand>, game: &Game, objects: &[RogueObject])
    ensures
        final(con)@ == old(con)@ + frame_commands(*game, objects@),
{
    let ghost before = con@;
    for i in 0..objects.len()
        invariant
            con@ == before + object_commands(objects@.take(i as int)),
    {
        proof {
            assert(objects@.take(i + 1).drop_last() == objects@.take(i as int));
        }
        objects[i].draw(con);
    }
    proof {
        assert(objects@.take(objects@.len() as int) == objects@);
    }
    let ghost drawn = con@;
    for y in 0..MAP_HEIGHT
        invariant
            con@ == drawn + background_commands(*game).take(y * MAP_WIDTH),
    {
        for x in 0..MAP_WIDTH
            invariant
                0 <= y < MAP_HEIGHT,
                con@ == drawn + background_commands(*game).take(y * MAP_WIDTH + x),
        {
            let wall = game.cell(x, y).block_sight;
            let color = if wall {
                Color::dark_wall()
            } else {
                Color::dark_ground()
            };
            proof {
                let k: int = y * MAP_WIDTH + x;
                assert(k % (MAP_WIDTH as int) == x && k / (MAP_WIDTH as int) == y);
                assert(background_commands(*game).take(k + 1) == background_commands(*game).take(
                    k,
                ).push(cell_background(*game, x as int, y as int)));
            }
            con.push(
                DrawCommand::SetCharBackground { x, y, color, flag: BackgroundFlag::Overwrite },
            );
        }
    }
    proof {
        assert(background_commands(*game).take(MAP_HEIGHT * MAP_WIDTH) == background_commands(
            *game,
        ));
    }
}

/// Commands that put no glyph at `(x, y)` leave the glyph there as it was.
pub proof fn lemma_glyph_kept(before: Seq<DrawCommand>, after: Seq<DrawCommand>, x: int, y: int)
    requires
        forall|k: int| 0 <= k < after.len() ==> !(#[trigger] after[k]).puts_glyph_at(x, y),
    ensures
        glyph_at(before + after, x, y) == glyph_at(before, x, y),
    decreases after.len(),
{
    if after.len() == 0 {
        assert(before + after == before);
    } else {
        assert((before + after).drop_last() == before + after.drop_last());
        assert((before + after).last() == after.last());
        lemma_glyph_kept(before, after.drop_last(), x, y);
    }
}

/// Among the commands that draw `objects`, the glyph put last at the
/// position of `objects[i]` is its own, if no later object stands there.
proof fn lemma_object_on_top(objects: Seq<RogueObject>, i: int)
    requires
        0 <= i < objects.len(),
        forall|j: int|
            i < j < objects.len() ==> !(#[trigger] objects[j]).stands_on(
                objects[i].x as int,
                objects[i].y as int,
            ),
    ensures
        glyph_at(object_commands(objects), objects[i].x as int, objects[i].y as int) == Some(
            objects[i].char,
        ),
    decreases objects.len(),
{
    let x = objects[i].x as int;
    let y = objects[i].y as int;
    let earlier = object_commands(objects.drop_last());
    let own = objects.last().draw_commands();
    assert((earlier + own).last() == own[1]);
    if i < objects.len() - 1 {
        assert(!objects[objects.len() - 1].stands_on(x, y));
        lemma_glyph_kept(earlier, own, x, y);
        lemma_object_on_top(objects.drop_last(), i);
    }
}

/// Painting the backgrounds touches no glyph: at every position the finished
/// frame shows the glyph that the objects left there.
pub proof fn lemma_backgrounds_keep_glyphs(game: Game, objects: Seq<RogueObject>, x: int, y: int)
    ensures
        glyph_at(frame_commands(game, objects), x, y) == glyph_at(object_commands(objects), x, y),
{
    lemma_glyph_kept(object_commands(objects), background_commands(game), x, y);
}

/// An object's glyph is visible on the finished frame at the object's
/// position, whatever the tile below it, unless a later object stands on the
/// same cell.
pub proof fn lemma_object_glyph_visible(game: Game, objects: Seq<RogueObject>, i: int)
    requires
        0 <= i < objects.len(),
        forall|j: int|
            i < j < objects.len() ==> !(#[trigger] objects[j]).stands_on(
                objects[i].x as int,
                objects[i].y as int,
            ),
    ensures
        glyph_at(frame_commands(game, objects), objects[i].x as int, objects[i].y as int) == Some(
            objects[i].char,
        ),
{
    lemma_backgrounds_keep_glyphs(game, objects, objects[i].x as int, objects[i].y as int);
    lemma_object_on_top(objects, i);
}

} // verus!
