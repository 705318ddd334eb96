//! Per-console vertex generation.
//!
//! Consoles store rows top-down; rendering uses a bottom-left origin, so a
//! cell at `(x, y)` draws at `(x, height - 1 - y)`.  The background pass
//! covers every cell of a dense grid with a solid tile tinted by the cell's
//! background; the glyph pass emits one quad per cell whose glyph is not
//! the blank glyph.  A sparse console emits geometry only for its entries.

use crate::cell::BLANK_GLYPH;
use crate::color::Rgb;
use crate::console::{DenseConsole, SparseConsole};
use vstd::prelude::*;

verus! {

/// The solid tile of the glyph sheet used to paint cell backgrounds.
pub const BACKGROUND_GLYPH: u16 = 254;

/// One screen-aligned quad: a tile of the glyph sheet drawn at a grid
/// position (bottom-left origin) with a tint.
#[derive(Clone, Copy, PartialEq, Eq, Structural, Debug)]
pub struct TileQuad {
    pub x: u32,
    pub y: u32,
    pub glyph: u16,
    pub tint: Rgb,
}

/// The background quad of the dense cell stored at index `i`.
pub open spec fn bg_quad_at(c: DenseConsole, i: int) -> TileQuad {
    TileQuad {
        x: (i % c.width as int) as u32,
        y: (c.height as int - 1 - i / c.width as int) as u32,
        glyph: BACKGROUND_GLYPH,
        tint: c.tiles@[i].bg,
    }
}

/// The glyph quad of the dense cell stored at index `i`.
pub open spec fn fg_quad_at(c: DenseConsole, i: int) -> TileQuad {
    TileQuad {
        x: (i % c.width as int) as u32,
        y: (c.height as int - 1 - i / c.width as int) as u32,
        glyph: c.tiles@[i].glyph,
        tint: c.tiles@[i].fg,
    }
}

/// The glyph quads of the first `n` cells of a dense console: one quad per
/// cell holding a non-blank glyph, in storage order.
pub open spec fn dense_glyph_quads(c: DenseConsole, n: int) -> Seq<TileQuad>
    decreases n,
{
    if n <= 0 {
        Seq::empty()
    } else if c.tiles@[n - 1].glyph != BLANK_GLYPH {
        dense_glyph_quads(c, n - 1).push(fg_quad_at(c, n - 1))
    } else {
        dense_glyph_quads(c, n - 1)
    }
}

/// Build the background batch of a dense console: one solid quad per cell,
/// covering the whole grid whatever the contents.
pub fn build_dense_background(c: &DenseConsole) -> (q: Vec<TileQuad>)
    requires
        c.wf(),
    ensures
        q@.len() == c.tiles@.len(),
        forall|i: int| 0 <= i < q@.len() ==> q@[i] == bg_quad_at(*c, i),
{
    let n: usize = c.tiles.len();
    let mut q: Vec<TileQuad> = Vec::new();
    let mut i: usize = 0;
    while i < n
        invariant
            c.wf(),
            i <= n,
            n == c.tiles@.len(),
            q@.len() == i,
            forall|j: int| 0 <= j < i ==> q@[j] == bg_quad_at(*c, j),
        decreases n - i,
    {
        let w: usize = c.width as usize;
        assert(w > 0 && i as int / (w as int) < c.height as int) by (nonlinear_arith)
            requires
                (i as int) < (c.width as int) * (c.height as int),
                w as int == c.width as int,
                0 <= i as int,
        ;
        let col: u32 = (i % w) as u32;
        let row: u32 = (i / w) as u32;
        q.push(
            TileQuad {
                x: col,
                y: c.height - 1 - row,
                glyph: BACKGROUND_GLYPH,
                tint: c.tiles[i].bg,
            },
        );
        i = i + 1;
    }
    q
}

/// Build the glyph batch of a dense console: one quad per non-blank cell,
/// in storage order; an all-blank grid emits nothing.
pub fn build_dense_glyphs(c: &DenseConsole) -> (q: Vec<TileQuad>)
    requires
        c.wf(),
    ensures
        q@ == dense_glyph_quads(*c, c.tiles@.len() as int),
{
    let n: usize = c.tiles.len();
    let mut q: Vec<TileQuad> = Vec::new();
    let mut i: usize = 0;
    while i < n
        invariant
            c.wf(),
            i <= n,
            n == c.tiles@.len(),
            q@ == dense_glyph_quads(*c, i as int),
        decreases n - i,
    {
        let cell = c.tiles[i];
        if cell.glyph != BLANK_GLYPH {
            let w: usize = c.width as usize;
            assert(w > 0 && i as int / (w as int) < c.height as int) by (nonlinear_arith)
                requires
                    (i as int) < (c.width as int) * (c.height as int),
                    w as int == c.width as int,
                    0 <= i as int,
            ;
            let col: u32 = (i % w) as u32;
            let row: u32 = (i / w) as u32;
            q.push(TileQuad { x: col, y: c.height - 1 - row, glyph: cell.glyph, tint: cell.fg });
        }
        i = i + 1;
    }
    q
}

/// The glyph quad of sparse entry `i`.
pub open spec fn sparse_fg_quad(c: SparseConsole, i: int) -> TileQuad {
    TileQuad {
        x: c.entries@[i].x,
        y: (c.height as int - 1 - c.entries@[i].y as int) as u32,
        glyph: c.entries@[i].cell.glyph,
        tint: c.entries@[i].cell.fg,
    }
}

/// The background quad of sparse entry `i`.
pub open spec fn sparse_bg_quad(c: SparseConsole, i: int) -> TileQuad {
    TileQuad {
        x: c.entries@[i].x,
        y: (c.height as int - 1 - c.entries@[i].y as int) as u32,
        glyph: BACKGROUND_GLYPH,
        tint: c.entries@[i].cell.bg,
    }
}

/// Build the glyph batch of a sparse console: one quad per entry, in entry
/// order; cost scales with occupied cells, not grid area.
pub fn build_sparse_glyphs(c: &SparseConsole) -> (q: Vec<TileQuad>)
    requires
        c.wf(),
    ensures
        q@.len() == c.entries@.len(),
        forall|i: int| 0 <= i < q@.len() ==> q@[i] == sparse_fg_quad(*c, i),
{
    let n: usize = c.entries.len();
    let mut q: Vec<TileQuad> = Vec::new();
    let mut i: usize = 0;
    while i < n
        invariant
            c.wf(),
            i <= n,
            n == c.entries@.len(),
            q@.len() == i,
            forall|j: int| 0 <= j < i ==> q@[j] == sparse_fg_quad(*c, j),
        decreases n - i,
    {
        let e = c.entries[i];
        q.push(TileQuad { x: e.x, y: c.height - 1 - e.y, glyph: e.cell.glyph, tint: e.cell.fg });
        i = i + 1;
    }
    q
}

/// Build the background batch of a sparse console: one solid quad per
/// entry; absent coordinates stay transparent.
pub fn build_sparse_background(c: &SparseConsole) -> (q: Vec<TileQuad>)
    requires
        c.wf(),
    ensures
        q@.len() == c.entries@.len(),
        forall|i: int| 0 <= i < q@.len() ==> q@[i] == sparse_bg_quad(*c, i),
{
    let n: usize = c.entries.len();
    let mut q: Vec<TileQuad> = Vec::new();
    let mut i: usize = 0;
    while i < n
        invariant
            c.wf(),
            i <= n,
            n == c.entries@.len(),
            q@.len() == i,
            forall|j: int| 0 <= j < i ==> q@[j] == sparse_bg_quad(*c, j),
        decreases n - i,
    {
        let e = c.entries[i];
        q.push(
            TileQuad { x: e.x, y: c.height - 1 - e.y, glyph: BACKGROUND_GLYPH, tint: e.cell.bg },
        );
        i = i + 1;
    }
    q
}

/// LAW: a dense grid whose cells are all blank emits no glyph geometry,
/// while its background batch still covers every cell.
pub proof fn lemma_blank_grid_emits_no_glyphs(c: DenseConsole, n: int)
    requires
        0 <= n <= c.tiles@.len(),
        forall|i: int| 0 <= i < c.tiles@.len() ==> (#[trigger] c.tiles@[i]).glyph == BLANK_GLYPH,
    ensures
        dense_glyph_quads(c, n).len() == 0,
    decreases n,
{
    if n > 0 {
        lemma_blank_grid_emits_no_glyphs(c, n - 1);
    }
}

/// LAW: a dense grid blank everywhere but at storage index `k` emits
/// exactly one glyph quad, the quad of cell `k`.
pub proof fn lemma_single_glyph_quad(c: DenseConsole, k: int, n: int)
    requires
        0 <= k < c.tiles@.len(),
        c.tiles@[k].glyph != BLANK_GLYPH,
        forall|i: int|
            0 <= i < c.tiles@.len() && i != k ==> (#[trigger] c.tiles@[i]).glyph == BLANK_GLYPH,
        0 <= n <= c.tiles@.len(),
    ensures
        dense_glyph_quads(c, n) == if n > k {
            seq![fg_quad_at(c, k)]
        } else {
            Seq::<TileQuad>::empty()
        },
    decreases n,
{
    if n > 0 {
        lemma_single_glyph_quad(c, k, n - 1);
        if n - 1 == k {
            assert(dense_glyph_quads(c, n) =~= seq![fg_quad_at(c, k)]);
        }
    } else {
        assert(dense_glyph_quads(c, n) =~= Seq::<TileQuad>::empty());
    }
}

} // verus!
