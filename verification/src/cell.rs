//! A single console cell: a glyph index plus foreground and background
//! colours.

use crate::color::Rgb;
use vstd::prelude::*;

verus! {

/// The glyph a blank cell holds: the space character.  Cells carrying it
/// produce no foreground geometry.
pub const BLANK_GLYPH: u16 = 32;

/// One character cell of a console.
#[derive(Clone, Copy, PartialEq, Eq, Structural, Debug)]
pub struct Cell {
    pub glyph: u16,
    pub fg: Rgb,
    pub bg: Rgb,
}

impl Cell {
    pub fn new(glyph: u16, fg: Rgb, bg: Rgb) -> (c: Cell)
        ensures
            c == (Cell { glyph, fg, bg }),
    {
        Cell { glyph, fg, bg }
    }

    /// The contents of an untouched cell: a space in white on black.
    pub open spec fn blank_spec() -> Cell {
        Cell { glyph: BLANK_GLYPH, fg: Rgb::white_spec(), bg: Rgb::black_spec() }
    }

    pub fn blank() -> (c: Cell)
        ensures
            c == Cell::blank_spec(),
    {
        Cell { glyph: BLANK_GLYPH, fg: Rgb::white(), bg: Rgb::black() }
    }
}

} // verus!
