use vstd::prelude::*;
use crate::color::Color;
use crate::console::{BackgroundFlag, DrawCommand};
use crate::map::Game;

verus! {

/// A positioned, drawable thing on the map: the player or another character.
#[derive(Clone, Copy, Debug, PartialEq, Eq, Structural)]
pub struct RogueObject {
    pub x: i32,
    pub y: i32,
    pub char: char,
    pub color: Color,
}

impl RogueObject {
    /// An object at `(x, y)` that is shown as `char` in `color`.
    pub fn new(x: i32, y: i32, char: char, color: Color) -> (object: Self)
        ensures
            object == (RogueObject { x, y, char, color }),
    {
        RogueObject { x, y, char, color }
    }

    /// Whether the object stands on the cell `(x, y)`.
    pub open spec fn stands_on(self, x: int, y: int) -> bool {
        self.x == x && self.y == y
    }

    /// Where a step by `(dx, dy)` leads: onto the candidate cell
    /// `(x + dx, y + dy)` unless that is blocked in `game`, in which case the
    /// object stays where it is.
    pub open spec fn moved_by(self, dx: int, dy: int, game: Game) -> RogueObject {
        if game.blocked_at(self.x + dx, self.y + dy) {
            self
        } else {
            RogueObject { x: (self.x + dx) as i32, y: (self.y + dy) as i32, ..self }
        }
    }

    /// Steps by `(dx, dy)` if the candidate cell is free. Bumping into a
    /// blocked cell or the edge of the map silently does nothing.
    ///
    /// Only the candidate cell is looked at: a step of more than one cell
    /// jumps over whatever lies between.
    pub fn move_by(&mut self, dx: i32, dy: i32, game: &Game)
        ensures
            *final(self) == old(self).moved_by(dx as int, dy as int, *game),
            game.blocked_at(old(self).x + dx, old(self).y + dy) ==> *final(self) == *old(self),
            !game.blocked_at(old(self).x + dx, old(self).y + dy) ==> {
                &&& final(self).x == old(self).x + dx
                &&& final(self).y == old(self).y + dy
                &&& final(self).char == old(self).char
                &&& final(self).color == old(self).color
            },
            dx == 0 && dy == 0 ==> *final(self) == *old(self),
    {
        match (self.x.checked_add(dx), self.y.checked_add(dy)) {
            (Some(x), Some(y)) => {
                if !game.is_blocked(x, y) {
                    self.x = x;
                    self.y = y;
                }
            },
            _ => {},
        }
    }

    /// What drawing this object takes: its colour becomes the foreground
    /// colour, then its glyph is put at its position, with the background
    /// left as it is.
    pub open spec fn draw_commands(self) -> Seq<DrawCommand> {
        seq![
            DrawCommand::SetDefaultForeground { color: self.color },
            DrawCommand::PutChar {
                x: self.x,
                y: self.y,
                glyph: self.char,
                flag: BackgroundFlag::NoFill,
            },
        ]
    }

    /// Draws the object onto `con`.
    pub fn draw(&self, con: &mut Vec<DrawCommand>)
        ensures
            final(con)@ == old(con)@ + self.draw_commands(),
    {
        con.push(DrawCommand::SetDefaultForeground { color: self.color });
        con.push(
            DrawCommand::PutChar {
                x: self.x,
                y: self.y,
                glyph: self.char,
                flag: BackgroundFlag::NoFill,
            },
        );
    }
}

} // verus!
