use vstd::prelude::*;

verus! {

/// One cell of the map grid.
///
/// `blocked` obstructs movement; `block_sight` only selects the colour the
/// cell is painted with.
#[derive(Clone, Copy, Debug, PartialEq, Eq, Structural)]
pub struct Tile {
    pub blocked: bool,
    pub block_sight: bool,
}

impl Tile {
    /// A tile is canonical when its two flags agree: it is either open floor
    /// or a wall.
    pub open spec fn is_canonical(self) -> bool {
        self.blocked == self.block_sight
    }

    /// The open-floor tile.
    pub open spec fn spec_empty() -> Tile {
        Tile { blocked: false, block_sight: false }
    }

    /// The wall tile.
    pub open spec fn spec_wall() -> Tile {
        Tile { blocked: true, block_sight: true }
    }

    /// Open floor: neither blocks movement nor sight.
    #[verifier::when_used_as_spec(spec_empty)]
    pub fn empty() -> (t: Self)
        ensures
            t == Tile::spec_empty(),
            !t.blocked && !t.block_sight,
            t.is_canonical(),
    {
        Tile { blocked: false, block_sight: false }
    }

    /// A wall: blocks both movement and sight.
    #[verifier::when_used_as_spec(spec_wall)]
    pub fn wall() -> (t: Self)
        ensures
            t == Tile::spec_wall(),
            t.blocked && t.block_sight,
            t.is_canonical(),
    {
        Tile { blocked: true, block_sight: true }
    }
}

} // verus!
