//! Glyph-sheet fonts: a loaded image divided into a 16 x 16 grid of
//! fixed-size tiles, plus the tile geometry the sprite builder needs.

use vstd::prelude::*;

verus! {

/// A glyph-sheet font.  The platform texture (or sprite-sheet) handle is
/// populated lazily on first backend binding and owned for the session.
pub struct Font {
    pub tile_size: (u32, u32),
    pub filename: String,
    pub sheet: Option<u32>,
}

impl Font {
    /// Create a font from a file name and tile size; no texture yet.
    pub fn load(filename: String, tile_size: (u32, u32)) -> (f: Font)
        ensures
            f.tile_size == tile_size,
            f.filename@ == filename@,
            f.sheet is None,
    {
        Font { tile_size, filename, sheet: None }
    }

    /// Attach the platform texture handle on first binding.
    pub fn setup_gl_texture(&mut self, handle: u32)
        ensures
            final(self).sheet == Some(handle),
            final(self).tile_size == old(self).tile_size,
            final(self).filename@ == old(self).filename@,
    {
        self.sheet = Some(handle);
    }
}

/// The pixel rectangle `(x, y, w, h)` of a glyph inside its sheet: glyphs
/// run left to right, top to bottom, 16 per row.
pub open spec fn glyph_rect_spec(tile_size: (u32, u32), glyph: int) -> (u32, u32, u32, u32) {
    (
        ((glyph % 16) * tile_size.0 as int) as u32,
        ((glyph / 16) * tile_size.1 as int) as u32,
        tile_size.0,
        tile_size.1,
    )
}

pub fn glyph_rect(tile_size: (u32, u32), glyph: u16) -> (r: (u32, u32, u32, u32))
    requires
        glyph < 256,
        tile_size.0 as int * 16 <= u32::MAX as int,
        tile_size.1 as int * 16 <= u32::MAX as int,
    ensures
        r == glyph_rect_spec(tile_size, glyph as int),
{
    let gx: u32 = (glyph as u32) % 16;
    let gy: u32 = (glyph as u32) / 16;
    assert(gx as int * tile_size.0 as int <= 15 * tile_size.0 as int && gy as int * tile_size.1
        as int <= 15 * tile_size.1 as int) by (nonlinear_arith)
        requires
            gx < 16,
            gy < 16,
    ;
    (gx * tile_size.0, gy * tile_size.1, tile_size.0, tile_size.1)
}

/// The pixel size of a whole glyph sheet: 16 tiles in each direction.
pub fn sheet_size(tile_size: (u32, u32)) -> (r: (u32, u32))
    requires
        tile_size.0 as int * 16 <= u32::MAX as int,
        tile_size.1 as int * 16 <= u32::MAX as int,
    ensures
        r.0 == tile_size.0 * 16,
        r.1 == tile_size.1 * 16,
{
    (tile_size.0 * 16, tile_size.1 * 16)
}

/// The source rectangles of all 256 glyph sprites of a sheet, in glyph
/// order: row by row, 16 sprites per row.
pub fn build_sprite_rects(tile_size: (u32, u32)) -> (v: Vec<(u32, u32, u32, u32)>)
    requires
        tile_size.0 as int * 16 <= u32::MAX as int,
        tile_size.1 as int * 16 <= u32::MAX as int,
    ensures
        v@.len() == 256,
        forall|g: int| 0 <= g < 256 ==> v@[g] == glyph_rect_spec(tile_size, g),
{
    let mut v: Vec<(u32, u32, u32, u32)> = Vec::new();
    let mut y: u32 = 0;
    while y < 16
        invariant
            y <= 16,
            v@.len() == y * 16,
            tile_size.0 as int * 16 <= u32::MAX as int,
            tile_size.1 as int * 16 <= u32::MAX as int,
            forall|g: int| 0 <= g < v@.len() ==> v@[g] == glyph_rect_spec(tile_size, g),
        decreases 16 - y,
    {
        let mut x: u32 = 0;
        while x < 16
            invariant
                y < 16,
                x <= 16,
                v@.len() == y * 16 + x,
                tile_size.0 as int * 16 <= u32::MAX as int,
                tile_size.1 as int * 16 <= u32::MAX as int,
                forall|g: int| 0 <= g < v@.len() ==> v@[g] == glyph_rect_spec(tile_size, g),
            decreases 16 - x,
        {
            let g: u32 = y * 16 + x;
            let rect = glyph_rect(tile_size, g as u16);
            assert(g as int % 16 == x as int && g as int / 16 == y as int);
            v.push(rect);
            x = x + 1;
        }
        y = y + 1;
    }
    v
}

} // verus!
