use vstd::prelude::*;
use crate::color::Color;

verus! {

/// What drawing on a cell does to the background colour that is already
/// there.
#[derive(Clone, Copy, Debug, PartialEq, Eq, Structural)]
pub enum BackgroundFlag {
    /// The background is left as it is.
    NoFill,
    /// The background is replaced.
    Overwrite,
}

/// One drawing operation on a character-cell surface.
///
/// A surface keeps, for every cell, a glyph with its foreground colour and,
/// apart from them, a background colour. A frame is a sequence of these
/// commands, carried out in order on a cleared surface.
#[derive(Clone, Copy, Debug, PartialEq, Eq, Structural)]
pub enum DrawCommand {
    /// Makes `color` the foreground colour of the glyphs put after it.
    SetDefaultForeground { color: Color },
    /// Writes `glyph` at `(x, y)` in the current foreground colour.
    PutChar { x: i32, y: i32, glyph: char, flag: BackgroundFlag },
    /// Changes the background colour of the cell `(x, y)`; its glyph and
    /// foreground colour stay.
    SetCharBackground { x: i32, y: i32, color: Color, flag: BackgroundFlag },
}

impl DrawCommand {
    /// Whether the command writes a glyph at `(x, y)`.
    pub open spec fn puts_glyph_at(self, x: int, y: int) -> bool {
        self matches DrawCommand::PutChar { x: px, y: py, .. } && px == x && py == y
    }
}

/// The glyph that a cleared surface shows at `(x, y)` once `commands` have
/// been carried out: the one that was put there last, if any.
pub open spec fn glyph_at(commands: Seq<DrawCommand>, x: int, y: int) -> Option<char>
    decreases commands.len(),
{
    if commands.len() == 0 {
        None
    } else {
        match commands.last() {
            DrawCommand::PutChar { x: px, y: py, glyph, .. } if px == x && py == y => Some(glyph),
            _ => glyph_at(commands.drop_last(), x, y),
        }
    }
}

} // verus!
