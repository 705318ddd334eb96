//! The host-engine bridge: once per frame the core publishes a read-only
//! snapshot of one dense console's dimensions and cells for a host
//! engine's own render plugins to consume.  The integration supports at
//! most one bridged dense console; a second is a loud resource-limit
//! failure, never silently ignored.

use crate::cell::Cell;
use crate::color::Rgb;
use crate::console::{Console, DenseConsole};
use crate::error::RunError;
use crate::session::{ConsoleLayer, Session};
use crate::vertex::BACKGROUND_GLYPH;
use vstd::prelude::*;

verus! {

/// The plain-data snapshot that crosses the host-engine boundary: grid
/// dimensions and a copy of the cells, nothing of the core's own types.
pub struct ConsoleSnapshot {
    pub width: u32,
    pub height: u32,
    pub tiles: Vec<Cell>,
}

impl ConsoleSnapshot {
    pub open spec fn wf(self) -> bool {
        self.tiles@.len() == self.width as int * self.height as int
    }
}

/// Whether a snapshot reproduces a dense console exactly.
pub open spec fn snapshot_matches(snap: ConsoleSnapshot, d: DenseConsole) -> bool {
    &&& snap.width == d.width
    &&& snap.height == d.height
    &&& snap.tiles@ == d.tiles@
}

fn copy_cells(v: &Vec<Cell>) -> (r: Vec<Cell>)
    ensures
        r@ == v@,
{
    let n: usize = v.len();
    let mut r: Vec<Cell> = Vec::new();
    let mut i: usize = 0;
    while i < n
        invariant
            i <= n,
            n == v@.len(),
            r@ == v@.take(i as int),
        decreases n - i,
    {
        r.push(v[i]);
        assert(r@ =~= v@.take(i as int + 1));
        i = i + 1;
    }
    assert(r@ =~= v@);
    r
}

/// Snapshot one dense console.
pub fn snapshot_dense(d: &DenseConsole) -> (snap: ConsoleSnapshot)
    requires
        d.wf(),
    ensures
        snap.wf(),
        snapshot_matches(snap, *d),
{
    ConsoleSnapshot { width: d.width, height: d.height, tiles: copy_cells(&d.tiles) }
}

/// Publish a console to the host engine: only the dense variant crosses
/// the boundary; sparse consoles have no bridged representation.
pub fn snapshot_of(c: &Console) -> (r: Option<ConsoleSnapshot>)
    requires
        c.wf(),
    ensures
        (c is Dense) <==> (r is Some),
        (*c) matches Console::Dense(d) ==> r matches Some(snap) && snap.wf() && snapshot_matches(
            snap,
            d,
        ),
{
    match c {
        Console::Dense(d) => Some(snapshot_dense(d)),
        Console::Sparse(_) => None,
    }
}

/// How many of the first `n` layers hold a dense console.
pub open spec fn dense_count(layers: Seq<ConsoleLayer>, n: int) -> int
    decreases n,
{
    if n <= 0 {
        0
    } else {
        dense_count(layers, n - 1) + if layers[n - 1].console is Dense {
            1int
        } else {
            0int
        }
    }
}

/// The dense count only grows with the prefix considered.
pub proof fn lemma_dense_count_monotone(layers: Seq<ConsoleLayer>, a: int, b: int)
    requires
        0 <= a <= b,
    ensures
        dense_count(layers, a) <= dense_count(layers, b),
    decreases b - a,
{
    if a < b {
        lemma_dense_count_monotone(layers, a, b - 1);
    }
}

/// Set up the host-engine console objects: walk the layers bottom to top
/// and bridge the dense console found; a second dense console exceeds
/// what the integration supports and fails loudly.
pub fn initialize_bridges(s: &Session) -> (r: Result<Option<ConsoleSnapshot>, RunError>)
    requires
        s.wf(),
    ensures
        match r {
            Ok(opt) => {
                &&& dense_count(s.consoles@, s.consoles@.len() as int) <= 1
                &&& ((opt is Some) <==> dense_count(s.consoles@, s.consoles@.len() as int) == 1)
                &&& (opt matches Some(snap) ==> exists|j: int|
                    0 <= j < s.consoles@.len() && (#[trigger] s.consoles@[j]).console is Dense
                        && snapshot_matches(snap, s.consoles@[j].console->Dense_0))
            },
            Err(e) => e == RunError::ResourceLimit && dense_count(
                s.consoles@,
                s.consoles@.len() as int,
            ) >= 2,
        },
{
    let n: usize = s.consoles.len();
    let mut found: Option<ConsoleSnapshot> = None;
    let mut i: usize = 0;
    while i < n
        invariant
            s.wf(),
            i <= n,
            n == s.consoles@.len(),
            0 <= dense_count(s.consoles@, i as int) <= 1,
            (found is Some) <==> dense_count(s.consoles@, i as int) == 1,
            found matches Some(snap) ==> exists|j: int|
                0 <= j < i && (#[trigger] s.consoles@[j]).console is Dense && snapshot_matches(
                    snap,
                    s.consoles@[j].console->Dense_0,
                ),
        decreases n - i,
    {
        match &s.consoles[i].console {
            Console::Dense(d) => {
                if found.is_some() {
                    proof {
                        assert(dense_count(s.consoles@, i as int + 1) == 2);
                        lemma_dense_count_monotone(s.consoles@, i as int + 1, n as int);
                    }
                    return Err(RunError::ResourceLimit);
                }
                found = Some(snapshot_dense(d));
            },
            Console::Sparse(_) => {},
        }
        proof {
            assert(dense_count(s.consoles@, i as int + 1) == dense_count(s.consoles@, i as int)
                + if s.consoles@[i as int].console is Dense {
                    1int
                } else {
                    0int
                });
        }
        i = i + 1;
    }
    Ok(found)
}

/// Host-engine tile callback: the sprite index shown at a bottom-left
/// origin point of the bridged grid (the grid itself is stored top-down,
/// so the row is flipped).
pub fn sprite_at(snap: &ConsoleSnapshot, px: u32, py: u32) -> (g: Option<usize>)
    requires
        snap.wf(),
        px < snap.width,
        py < snap.height,
    ensures
        g == Some(
            snap.tiles@[(snap.height - 1 - py) * snap.width as int + px as int].glyph as usize,
        ),
{
    let row: u32 = snap.height - 1 - py;
    let n: usize = snap.tiles.len();
    assert((row as int) * (snap.width as int) + (px as int) < n as int) by (nonlinear_arith)
        requires
            (px as int) < (snap.width as int),
            (row as int) < (snap.height as int),
            0 <= px as int,
            0 <= row as int,
            n as int == (snap.width as int) * (snap.height as int),
    ;
    let idx: usize = (row as usize) * (snap.width as usize) + (px as usize);
    Some(snap.tiles[idx].glyph as usize)
}

/// Host-engine tile callback: the foreground tint at a bottom-left origin
/// point of the bridged grid.
pub fn fg_tint_at(snap: &ConsoleSnapshot, px: u32, py: u32) -> (c: Rgb)
    requires
        snap.wf(),
        px < snap.width,
        py < snap.height,
    ensures
        c == snap.tiles@[(snap.height - 1 - py) * snap.width as int + px as int].fg,
{
    let row: u32 = snap.height - 1 - py;
    let n: usize = snap.tiles.len();
    assert((row as int) * (snap.width as int) + (px as int) < n as int) by (nonlinear_arith)
        requires
            (px as int) < (snap.width as int),
            (row as int) < (snap.height as int),
            0 <= px as int,
            0 <= row as int,
            n as int == (snap.width as int) * (snap.height as int),
    ;
    let idx: usize = (row as usize) * (snap.width as usize) + (px as usize);
    snap.tiles[idx].fg
}

/// Host-engine tile callback: the background tint at a bottom-left origin
/// point of the bridged grid.
pub fn bg_tint_at(snap: &ConsoleSnapshot, px: u32, py: u32) -> (c: Rgb)
    requires
        snap.wf(),
        px < snap.width,
        py < snap.height,
    ensures
        c == snap.tiles@[(snap.height - 1 - py) * snap.width as int + px as int].bg,
{
    let row: u32 = snap.height - 1 - py;
    let n: usize = snap.tiles.len();
    assert((row as int) * (snap.width as int) + (px as int) < n as int) by (nonlinear_arith)
        requires
            (px as int) < (snap.width as int),
            (row as int) < (snap.height as int),
            0 <= px as int,
            0 <= row as int,
            n as int == (snap.width as int) * (snap.height as int),
    ;
    let idx: usize = (row as usize) * (snap.width as usize) + (px as usize);
    snap.tiles[idx].bg
}

/// Host-engine tile callback for the background layer: always the solid
/// tile.
pub fn background_sprite() -> (g: Option<usize>)
    ensures
        g == Some(BACKGROUND_GLYPH as usize),
{
    Some(BACKGROUND_GLYPH as usize)
}

} // verus!
