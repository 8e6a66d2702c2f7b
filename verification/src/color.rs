use vstd::prelude::*;

verus! {

/// An RGB colour.
#[derive(Clone, Copy, Debug, PartialEq, Eq, Structural)]
pub struct Color {
    pub r: u8,
    pub g: u8,
    pub b: u8,
}

impl Color {
    /// `(255, 255, 255)`.
    pub open spec fn spec_white() -> Color {
        Color { r: 255, g: 255, b: 255 }
    }

    /// `(255, 255, 0)`.
    pub open spec fn spec_yellow() -> Color {
        Color { r: 255, g: 255, b: 0 }
    }

    /// `(0, 0, 100)`.
    pub open spec fn spec_dark_wall() -> Color {
        Color { r: 0, g: 0, b: 100 }
    }

    /// `(50, 50, 50)`.
    pub open spec fn spec_dark_ground() -> Color {
        Color { r: 50, g: 50, b: 50 }
    }

    /// Pure white.
    #[verifier::when_used_as_spec(spec_white)]
    pub fn white() -> (c: Color)
        ensures
            c == Color::spec_white(),
    {
        Color { r: 255, g: 255, b: 255 }
    }

    /// Pure yellow.
    #[verifier::when_used_as_spec(spec_yellow)]
    pub fn yellow() -> (c: Color)
        ensures
            c == Color::spec_yellow(),
    {
        Color { r: 255, g: 255, b: 0 }
    }

    /// Background of a cell that blocks sight.
    #[verifier::when_used_as_spec(spec_dark_wall)]
    pub fn dark_wall() -> (c: Color)
        ensures
            c == Color::spec_dark_wall(),
    {
        Color { r: 0, g: 0, b: 100 }
    }

    /// Background of a cell that does not block sight.
    #[verifier::when_used_as_spec(spec_dark_ground)]
    pub fn dark_ground() -> (c: Color)
        ensures
            c == Color::spec_dark_ground(),
    {
        Color { r: 50, g: 50, b: 50 }
    }
}

} // verus!
