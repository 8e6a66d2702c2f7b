use vstd::prelude::*;
use crate::tile::Tile;

verus! {

/// Number of columns of the map.
pub const MAP_WIDTH: i32 = 40;

/// Number of rows of the map.
pub const MAP_HEIGHT: i32 = 20;

/// Column-major grid of tiles: `grid[x][y]`.
pub type TileGrid = Vec<Vec<Tile>>;

/// Whether `(x, y)` names a cell of the map.
pub open spec fn in_bounds(x: int, y: int) -> bool {
    0 <= x < MAP_WIDTH && 0 <= y < MAP_HEIGHT
}

/// The hand-drawn maze, row by row: whether the cell `(x, y)` is a wall.
///
/// ```text
///   x: 2 . . . . . . . . . 12
/// y= 2 # # # # # # # # # # #
///    3 # . . . . . . . # . #
///    4 # . # . # . # # # . #
///    5 # . # . # . # . . . #
///    6 # . # . # # # . # # #
///    7 . . # . . . # . . . .
///    8 # . # # # . # # # . #
///    9 # . # . # . . . # . #
///   10 # . # . # # # . # . #
///   11 # . . . . . # . . . #
///   12 # # # # # # # # # # #
/// ```
pub open spec fn is_wall_cell(x: int, y: int) -> bool {
    if y == 2 || y == 12 {
        2 <= x <= 12
    } else if y == 3 {
        x == 2 || x == 10 || x == 12
    } else if y == 4 {
        x == 2 || x == 4 || x == 6 || 8 <= x <= 10 || x == 12
    } else if y == 5 {
        x == 2 || x == 4 || x == 6 || x == 8 || x == 12
    } else if y == 6 {
        x == 2 || x == 4 || 6 <= x <= 8 || 10 <= x <= 12
    } else if y == 7 {
        x == 4 || x == 8
    } else if y == 8 {
        x == 2 || 4 <= x <= 6 || 8 <= x <= 10 || x == 12
    } else if y == 9 {
        x == 2 || x == 4 || x == 6 || x == 10 || x == 12
    } else if y == 10 {
        x == 2 || x == 4 || 6 <= x <= 8 || x == 10 || x == 12
    } else if y == 11 {
        x == 2 || x == 8 || x == 12
    } else {
        false
    }
}

/// The tile that the fixed map holds at `(x, y)`.
pub open spec fn layout_tile(x: int, y: int) -> Tile {
    if is_wall_cell(x, y) {
        Tile::wall()
    } else {
        Tile::empty()
    }
}

/// A grid is full when it has `MAP_WIDTH` columns of `MAP_HEIGHT` tiles each.
pub open spec fn full_grid(grid: Seq<Vec<Tile>>) -> bool {
    &&& grid.len() == MAP_WIDTH
    &&& forall|x: int| 0 <= x < MAP_WIDTH ==> (#[trigger] grid[x])@.len() == MAP_HEIGHT
}

/// Turns the cell `(x, y)` into a wall and leaves every other cell as it is.
fn put_wall(grid: &mut TileGrid, x: usize, y: usize)
    requires
        full_grid(old(grid)@),
        in_bounds(x as int, y as int),
    ensures
        full_grid(final(grid)@),
        forall|i: int, j: int|
            in_bounds(i, j) ==> #[trigger] final(grid)@[i]@[j] == if i == x && j == y {
                Tile::wall()
            } else {
                old(grid)@[i]@[j]
            },
{
    grid[x][y] = Tile::wall();
}

/// Builds the fixed map: every cell of the maze is a wall, every other cell
/// is open floor.
pub fn make_map() -> (grid: TileGrid)
    ensures
        full_grid(grid@),
        forall|x: int, y: int| in_bounds(x, y) ==> #[trigger] grid@[x]@[y] == layout_tile(x, y),
        forall|x: int, y: int| in_bounds(x, y) ==> (#[trigger] grid@[x]@[y]).is_canonical(),
{
    let mut grid = vec![vec![Tile::empty(); MAP_HEIGHT as usize]; MAP_WIDTH as usize];
    put_wall(&mut grid, 2, 2);
    put_wall(&mut grid, 3, 2);
    put_wall(&mut grid, 4, 2);
    put_wall(&mut grid, 5, 2);
    put_wall(&mut grid, 6, 2);
    put_wall(&mut grid, 7, 2);
    put_wall(&mut grid, 8, 2);
    put_wall(&mut grid, 9, 2);
    put_wall(&mut grid, 10, 2);
    put_wall(&mut grid, 11, 2);
    put_wall(&mut grid, 12, 2);

    put_wall(&mut grid, 2, 3);
    put_wall(&mut grid, 10, 3);
    put_wall(&mut grid, 12, 3);

    put_wall(&mut grid, 2, 4);
    put_wall(&mut grid, 4, 4);
    put_wall(&mut grid, 6, 4);
    put_wall(&mut grid, 8, 4);
    put_wall(&mut grid, 9, 4);
    put_wall(&mut grid, 10, 4);
    put_wall(&mut grid, 12, 4);

    put_wall(&mut grid, 2, 5);
    put_wall(&mut grid, 4, 5);
    put_wall(&mut grid, 6, 5);
    put_wall(&mut grid, 8, 5);
    put_wall(&mut grid, 12, 5);

    put_wall(&mut grid, 2, 6);
    put_wall(&mut grid, 4, 6);
    put_wall(&mut grid, 6, 6);
    put_wall(&mut grid, 7, 6);
    put_wall(&mut grid, 8, 6);
    put_wall(&mut grid, 10, 6);
    put_wall(&mut grid, 11, 6);
    put_wall(&mut grid, 12, 6);

    put_wall(&mut grid, 4, 7);
    put_wall(&mut grid, 8, 7);

    put_wall(&mut grid, 2, 8);
    put_wall(&mut grid, 4, 8);
    put_wall(&mut grid, 5, 8);
    put_wall(&mut grid, 6, 8);
    put_wall(&mut grid, 8, 8);
    put_wall(&mut grid, 9, 8);
    put_wall(&mut grid, 10, 8);
    put_wall(&mut grid, 12, 8);

    put_wall(&mut grid, 2, 9);
    put_wall(&mut grid, 4, 9);
    put_wall(&mut grid, 6, 9);
    put_wall(&mut grid, 10, 9);
    put_wall(&mut grid, 12, 9);

    put_wall(&mut grid, 2, 10);
    put_wall(&mut grid, 4, 10);
    put_wall(&mut grid, 6, 10);
    put_wall(&mut grid, 7, 10);
    put_wall(&mut grid, 8, 10);
    put_wall(&mut grid, 10, 10);
    put_wall(&mut grid, 12, 10);

    put_wall(&mut grid, 2, 11);
    put_wall(&mut grid, 8, 11);
    put_wall(&mut grid, 12, 11);

    put_wall(&mut grid, 2, 12);
    put_wall(&mut grid, 3, 12);
    put_wall(&mut grid, 4, 12);
    put_wall(&mut grid, 5, 12);
    put_wall(&mut grid, 6, 12);
    put_wall(&mut grid, 7, 12);
    put_wall(&mut grid, 8, 12);
    put_wall(&mut grid, 9, 12);
    put_wall(&mut grid, 10, 12);
    put_wall(&mut grid, 11, 12);
    put_wall(&mut grid, 12, 12);
    grid
}

/// The world that objects move in: the map of one session.
///
/// The grid is private, so a `Game` always holds a full grid of canonical
/// tiles.
pub struct Game {
    map: TileGrid,
}

impl Game {
    #[verifier::type_invariant]
    spec fn well_formed(self) -> bool {
        &&& full_grid(self.map@)
        &&& forall|x: int, y: int|
            in_bounds(x, y) ==> (#[trigger] self.map@[x]@[y]).is_canonical()
    }

    /// The tile of the cell `(x, y)`, for `(x, y)` in bounds.
    pub closed spec fn tile(self, x: int, y: int) -> Tile {
        self.map@[x]@[y]
    }

    /// The tile at `(x, y)`, or `None` where `(x, y)` is no cell of the map.
    pub open spec fn spec_tile_at(self, x: int, y: int) -> Option<Tile> {
        if in_bounds(x, y) {
            Some(self.tile(x, y))
        } else {
            None
        }
    }

    /// Whether an object is kept from standing on `(x, y)`: the cell is a
    /// blocking tile, or `(x, y)` lies outside the map.
    pub open spec fn blocked_at(self, x: int, y: int) -> bool {
        !in_bounds(x, y) || self.tile(x, y).blocked
    }

    /// Whether this game holds the fixed map.
    pub open spec fn is_fixed_map(self) -> bool {
        forall|x: int, y: int| in_bounds(x, y) ==> #[trigger] self.tile(x, y) == layout_tile(x, y)
    }

    /// A game on the fixed map.
    pub fn new() -> (game: Game)
        ensures
            game.is_fixed_map(),
            forall|x: int, y: int| in_bounds(x, y) ==> (#[trigger] game.tile(x, y)).is_canonical(),
    {
        Game { map: make_map() }
    }

    /// The tile of a cell of the map.
    pub(crate) fn cell(&self, x: i32, y: i32) -> (tile: Tile)
        requires
            in_bounds(x as int, y as int),
        ensures
            tile == self.tile(x as int, y as int),
            tile.is_canonical(),
    {
        proof {
            use_type_invariant(self);
        }
        self.map[x as usize][y as usize]
    }

    /// Looks up the tile at `(x, y)`; `None` outside the map.
    pub fn tile_at(&self, x: i32, y: i32) -> (tile: Option<Tile>)
        ensures
            tile == self.spec_tile_at(x as int, y as int),
            tile matches Some(t) ==> t.is_canonical(),
    {
        if 0 <= x && x < MAP_WIDTH && 0 <= y && y < MAP_HEIGHT {
            Some(self.cell(x, y))
        } else {
            None
        }
    }

    /// Whether `(x, y)` is closed to movement. Coordinates outside the map
    /// count as blocked.
    pub fn is_blocked(&self, x: i32, y: i32) -> (blocked: bool)
        ensures
            blocked == self.blocked_at(x as int, y as int),
    {
        match self.tile_at(x, y) {
            Some(tile) => tile.blocked,
            None => true,
        }
    }
}

/// On the fixed map a cell is blocked exactly if it belongs to the maze;
/// whatever lies outside the map is blocked too.
pub proof fn lemma_fixed_map_blocks_the_maze(game: Game, x: int, y: int)
    requires
        game.is_fixed_map(),
    ensures
        game.blocked_at(x, y) <==> !in_bounds(x, y) || is_wall_cell(x, y),
        in_bounds(x, y) ==> game.tile(x, y).blocked == game.tile(x, y).block_sight,
{
}

} // verus!
