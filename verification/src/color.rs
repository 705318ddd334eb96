//! Plain 8-bit RGB colour values, as stored in console cells.

use vstd::prelude::*;

verus! {

/// A colour with one byte per channel.  The platform layer converts these to
/// whatever floating-point representation its graphics API wants.
#[derive(Clone, Copy, PartialEq, Eq, Structural, Debug)]
pub struct Rgb {
    pub r: u8,
    pub g: u8,
    pub b: u8,
}

impl Rgb {
    pub fn new(r: u8, g: u8, b: u8) -> (c: Rgb)
        ensures
            c == (Rgb { r, g, b }),
    {
        Rgb { r, g, b }
    }

    /// The default foreground of a freshly created console cell.
    pub open spec fn white_spec() -> Rgb {
        Rgb { r: 255, g: 255, b: 255 }
    }

    pub fn white() -> (c: Rgb)
        ensures
            c == Rgb::white_spec(),
    {
        Rgb { r: 255, g: 255, b: 255 }
    }

    /// The default background of a freshly created console cell.
    pub open spec fn black_spec() -> Rgb {
        Rgb { r: 0, g: 0, b: 0 }
    }

    pub fn black() -> (c: Rgb)
        ensures
            c == Rgb::black_spec(),
    {
        Rgb { r: 0, g: 0, b: 0 }
    }

    /// The default screen-burn tint: full green and blue, no red.
    pub open spec fn burn_default_spec() -> Rgb {
        Rgb { r: 0, g: 255, b: 255 }
    }

    pub fn burn_default() -> (c: Rgb)
        ensures
            c == Rgb::burn_default_spec(),
    {
        Rgb { r: 0, g: 255, b: 255 }
    }
}

} // verus!
