//! Logical character consoles.
//!
//! A console is a grid of cells, stored either densely (every cell of a
//! `width x height` grid) or sparsely (an ordered list of occupied cells,
//! at most one entry per coordinate).  Writes outside the grid are silent
//! no-ops: the hot path never panics and never corrupts neighbouring cells.

use crate::cell::Cell;
use vstd::pervasive::VecAdditionalExecFns;
use vstd::prelude::*;

verus! {

/// A full-grid console: one cell per coordinate, indexed `y * width + x`,
/// row origin at the top.
pub struct DenseConsole {
    pub width: u32,
    pub height: u32,
    pub tiles: Vec<Cell>,
    pub dirty: bool,
}

impl DenseConsole {
    /// The storage invariant: the cell buffer covers the grid exactly, and
    /// its length never changes after creation.
    pub open spec fn wf(self) -> bool {
        self.tiles@.len() == self.width as int * self.height as int
    }

    pub open spec fn in_bounds(self, x: int, y: int) -> bool {
        0 <= x < self.width as int && 0 <= y < self.height as int
    }

    /// Row-major index of a coordinate.
    pub open spec fn idx_of(self, x: int, y: int) -> int {
        y * self.width as int + x
    }

    pub open spec fn cell_at(self, x: int, y: int) -> Cell {
        self.tiles@[self.idx_of(x, y)]
    }

    pub open spec fn char_size_spec(self) -> (u32, u32) {
        (self.width, self.height)
    }

    /// How one `set` call relates the console before it to the console
    /// after it: an in-range write replaces exactly the addressed cell and
    /// marks the console dirty; an out-of-range write changes nothing.
    pub open spec fn set_rel(
        pre: DenseConsole,
        post: DenseConsole,
        x: u32,
        y: u32,
        cell: Cell,
    ) -> bool {
        &&& post.width == pre.width
        &&& post.height == pre.height
        &&& if pre.in_bounds(x as int, y as int) {
            post.tiles@ == pre.tiles@.update(pre.idx_of(x as int, y as int), cell) && post.dirty
        } else {
            post.tiles@ == pre.tiles@ && post.dirty == pre.dirty
        }
    }

    /// A fresh console: every cell blank, marked dirty so the first frame
    /// rebuilds its vertices.
    pub fn new(width: u32, height: u32) -> (c: DenseConsole)
        requires
            width as int * height as int <= usize::MAX as int,
        ensures
            c.wf(),
            c.width == width,
            c.height == height,
            c.dirty,
            forall|i: int| 0 <= i < c.tiles@.len() ==> c.tiles@[i] == Cell::blank_spec(),
    {
        let n: usize = (width as usize) * (height as usize);
        let mut tiles: Vec<Cell> = Vec::new();
        let mut i: usize = 0;
        while i < n
            invariant
                i <= n,
                tiles@.len() == i,
                forall|j: int| 0 <= j < i ==> tiles@[j] == Cell::blank_spec(),
            decreases n - i,
        {
            tiles.push(Cell::blank());
            i = i + 1;
        }
        DenseConsole { width, height, tiles, dirty: true }
    }

    /// The grid dimensions; constant for the console's lifetime.
    pub fn get_char_size(&self) -> (r: (u32, u32))
        ensures
            r == self.char_size_spec(),
    {
        (self.width, self.height)
    }

    /// Write one cell.  Out-of-range coordinates are ignored.
    pub fn set(&mut self, x: u32, y: u32, cell: Cell)
        requires
            old(self).wf(),
        ensures
            final(self).wf(),
            DenseConsole::set_rel(*old(self), *final(self), x, y, cell),
    {
        if x < self.width && y < self.height {
            let n: usize = self.tiles.len();
            assert((y as int) * (self.width as int) + (x as int) < n as int) by (nonlinear_arith)
                requires
                    (x as int) < (self.width as int),
                    (y as int) < (self.height as int),
                    0 <= x as int,
                    0 <= y as int,
                    n as int == (self.width as int) * (self.height as int),
            ;
            let i: usize = (y as usize) * (self.width as usize) + (x as usize);
            self.tiles.set(i, cell);
            self.dirty = true;
        }
    }

    /// Read one cell back; `None` outside the grid.
    pub fn get(&self, x: u32, y: u32) -> (r: Option<Cell>)
        requires
            self.wf(),
        ensures
            r == if self.in_bounds(x as int, y as int) {
                Some(self.cell_at(x as int, y as int))
            } else {
                None::<Cell>
            },
    {
        if x < self.width && y < self.height {
            let n: usize = self.tiles.len();
            assert((y as int) * (self.width as int) + (x as int) < n as int) by (nonlinear_arith)
                requires
                    (x as int) < (self.width as int),
                    (y as int) < (self.height as int),
                    0 <= x as int,
                    0 <= y as int,
                    n as int == (self.width as int) * (self.height as int),
            ;
            let i: usize = (y as usize) * (self.width as usize) + (x as usize);
            Some(self.tiles[i])
        } else {
            None
        }
    }

    /// Consume the dirty mark: true when content changed since the last
    /// vertex rebuild, which this call completes.
    pub fn take_dirty(&mut self) -> (was: bool)
        ensures
            was == old(self).dirty,
            final(self).dirty == false,
            final(self).width == old(self).width,
            final(self).height == old(self).height,
            final(self).tiles@ == old(self).tiles@,
    {
        let was = self.dirty;
        self.dirty = false;
        was
    }
}

/// Row-major indices are injective over in-range coordinates.
pub proof fn lemma_idx_injective(w: int, x1: int, y1: int, x2: int, y2: int)
    requires
        0 <= x1 < w,
        0 <= x2 < w,
        0 <= y1,
        0 <= y2,
        y1 * w + x1 == y2 * w + x2,
    ensures
        x1 == x2 && y1 == y2,
{
    assert(x1 == x2 && y1 == y2) by (nonlinear_arith)
        requires
            0 <= x1 < w,
            0 <= x2 < w,
            0 <= y1,
            0 <= y2,
            y1 * w + x1 == y2 * w + x2,
    ;
}

/// LAW: the character size of a dense console is invariant under `set`,
/// whatever the coordinates written.
pub proof fn lemma_dense_set_preserves_char_size(
    pre: DenseConsole,
    post: DenseConsole,
    x: u32,
    y: u32,
    cell: Cell,
)
    requires
        DenseConsole::set_rel(pre, post, x, y, cell),
    ensures
        post.char_size_spec() == pre.char_size_spec(),
{
}

/// LAW: an out-of-range `set` on a dense console leaves the whole cell
/// buffer, and in particular every in-range cell, unchanged.
pub proof fn lemma_dense_set_out_of_range_noop(
    pre: DenseConsole,
    post: DenseConsole,
    x: u32,
    y: u32,
    cell: Cell,
)
    requires
        DenseConsole::set_rel(pre, post, x, y, cell),
        !pre.in_bounds(x as int, y as int),
    ensures
        post.tiles@ == pre.tiles@,
        forall|cx: int, cy: int|
            pre.in_bounds(cx, cy) ==> post.cell_at(cx, cy) == pre.cell_at(cx, cy),
{
}

/// LAW: writing a cell and reading it back yields that cell, and no other
/// in-range cell moves (round trip).
pub proof fn lemma_dense_set_get_round_trip(
    pre: DenseConsole,
    post: DenseConsole,
    x: u32,
    y: u32,
    cell: Cell,
)
    requires
        pre.wf(),
        DenseConsole::set_rel(pre, post, x, y, cell),
        pre.in_bounds(x as int, y as int),
    ensures
        post.cell_at(x as int, y as int) == cell,
        forall|cx: int, cy: int|
            pre.in_bounds(cx, cy) && (cx != x as int || cy != y as int) ==> post.cell_at(cx, cy)
                == pre.cell_at(cx, cy),
{
    let w = pre.width as int;
    let i = pre.idx_of(x as int, y as int);
    assert(0 <= i < pre.tiles@.len()) by (nonlinear_arith)
        requires
            0 <= (x as int) < w,
            0 <= (y as int) < pre.height as int,
            i == (y as int) * w + x as int,
            pre.tiles@.len() == w * pre.height as int,
    ;
    assert forall|cx: int, cy: int|
        pre.in_bounds(cx, cy) && (cx != x as int || cy != y as int) implies post.cell_at(cx, cy)
        == pre.cell_at(cx, cy) by {
        let j = pre.idx_of(cx, cy);
        assert(0 <= j < pre.tiles@.len()) by (nonlinear_arith)
            requires
                0 <= cx < w,
                0 <= cy < pre.height as int,
                j == cy * w + cx,
                pre.tiles@.len() == w * pre.height as int,
        ;
        if j == i {
            lemma_idx_injective(w, cx, cy, x as int, y as int);
        }
    }
}

/// LAW: a repeated identical write to a dense console is idempotent: the
/// second write changes nothing.
pub proof fn lemma_dense_set_idempotent(
    pre: DenseConsole,
    mid: DenseConsole,
    post: DenseConsole,
    x: u32,
    y: u32,
    cell: Cell,
)
    requires
        pre.wf(),
        DenseConsole::set_rel(pre, mid, x, y, cell),
        DenseConsole::set_rel(mid, post, x, y, cell),
    ensures
        post.tiles@ == mid.tiles@,
        post.char_size_spec() == mid.char_size_spec(),
{
    if pre.in_bounds(x as int, y as int) {
        let w = pre.width as int;
        let i = pre.idx_of(x as int, y as int);
        assert(0 <= i < pre.tiles@.len()) by (nonlinear_arith)
            requires
                0 <= (x as int) < w,
                0 <= (y as int) < pre.height as int,
                i == (y as int) * w + x as int,
                pre.tiles@.len() == w * pre.height as int,
        ;
        assert(post.tiles@ =~= mid.tiles@);
    }
}

/// One occupied cell of a sparse console.
#[derive(Clone, Copy, PartialEq, Eq, Structural, Debug)]
pub struct SparseEntry {
    pub x: u32,
    pub y: u32,
    pub cell: Cell,
}

/// An occupied-cells-only console: an ordered list of entries, at most one
/// per coordinate; a coordinate without an entry is transparent.
pub struct SparseConsole {
    pub width: u32,
    pub height: u32,
    pub entries: Vec<SparseEntry>,
    pub dirty: bool,
}

impl SparseConsole {
    pub open spec fn entries_in_bounds(self) -> bool {
        forall|i: int|
            0 <= i < self.entries@.len() ==> (#[trigger] self.entries@[i]).x < self.width
                && self.entries@[i].y < self.height
    }

    /// No two entries share a coordinate (last write wins at steady state).
    pub open spec fn no_duplicates(self) -> bool {
        forall|i: int, j: int|
            #![trigger self.entries@[i], self.entries@[j]]
            0 <= i < self.entries@.len() && 0 <= j < self.entries@.len() && i != j ==> !(
            self.entries@[i].x == self.entries@[j].x && self.entries@[i].y == self.entries@[j].y)
    }

    pub open spec fn wf(self) -> bool {
        self.entries_in_bounds() && self.no_duplicates()
    }

    pub open spec fn in_bounds(self, x: int, y: int) -> bool {
        0 <= x < self.width as int && 0 <= y < self.height as int
    }

    pub open spec fn has_entry(self, x: int, y: int) -> bool {
        exists|i: int|
            0 <= i < self.entries@.len() && (#[trigger] self.entries@[i]).x == x
                && self.entries@[i].y == y
    }

    /// The index of the entry for a coordinate; meaningful only where
    /// `has_entry` holds (and unique under `no_duplicates`).
    pub open spec fn entry_index(self, x: int, y: int) -> int {
        choose|i: int|
            0 <= i < self.entries@.len() && (#[trigger] self.entries@[i]).x == x
                && self.entries@[i].y == y
    }

    pub open spec fn cell_at(self, x: int, y: int) -> Cell {
        self.entries@[self.entry_index(x, y)].cell
    }

    pub open spec fn char_size_spec(self) -> (u32, u32) {
        (self.width, self.height)
    }

    /// How one `set` call relates the console before it to the console
    /// after it: in range, the entry for the coordinate is replaced in
    /// place if present and appended otherwise; out of range, nothing
    /// changes.
    pub open spec fn set_rel(
        pre: SparseConsole,
        post: SparseConsole,
        x: u32,
        y: u32,
        cell: Cell,
    ) -> bool {
        &&& post.width == pre.width
        &&& post.height == pre.height
        &&& if !pre.in_bounds(x as int, y as int) {
            post.entries@ == pre.entries@ && post.dirty == pre.dirty
        } else if pre.has_entry(x as int, y as int) {
            post.entries@ == pre.entries@.update(
                pre.entry_index(x as int, y as int),
                SparseEntry { x, y, cell },
            ) && post.dirty
        } else {
            post.entries@ == pre.entries@.push(SparseEntry { x, y, cell }) && post.dirty
        }
    }

    /// A fresh sparse console: no entries, marked dirty.
    pub fn new(width: u32, height: u32) -> (c: SparseConsole)
        ensures
            c.wf(),
            c.width == width,
            c.height == height,
            c.entries@.len() == 0,
            c.dirty,
    {
        SparseConsole { width, height, entries: Vec::new(), dirty: true }
    }

    /// The grid dimensions; constant for the console's lifetime.
    pub fn get_char_size(&self) -> (r: (u32, u32))
        ensures
            r == self.char_size_spec(),
    {
        (self.width, self.height)
    }

    /// Linear search for the entry at a coordinate.
    fn find_entry(&self, x: u32, y: u32) -> (r: Option<usize>)
        ensures
            match r {
                Some(i) => i < self.entries@.len() && self.entries@[i as int].x == x
                    && self.entries@[i as int].y == y,
                None => !self.has_entry(x as int, y as int),
            },
    {
        let n: usize = self.entries.len();
        let mut i: usize = 0;
        while i < n
            invariant
                i <= n,
                n == self.entries@.len(),
                forall|j: int|
                    0 <= j < i ==> !((#[trigger] self.entries@[j]).x == x && self.entries@[j].y
                        == y),
            decreases n - i,
        {
            let e = self.entries[i];
            if e.x == x && e.y == y {
                return Some(i);
            }
            i = i + 1;
        }
        None
    }

    /// Write one cell: replace the entry for `(x, y)` if one exists, append
    /// otherwise.  Out-of-range coordinates are ignored.
    pub fn set(&mut self, x: u32, y: u32, cell: Cell)
        requires
            old(self).wf(),
        ensures
            final(self).wf(),
            SparseConsole::set_rel(*old(self), *final(self), x, y, cell),
    {
        if x < self.width && y < self.height {
            match self.find_entry(x, y) {
                Some(i) => {
                    proof {
                        assert(old(self).has_entry(x as int, y as int));
                        let k = old(self).entry_index(x as int, y as int);
                        if k != i as int {
                            assert(old(self).entries@[k].x == x && old(self).entries@[k].y == y);
                            assert(false);
                        }
                    }
                    self.entries.set(i, SparseEntry { x, y, cell });
                    self.dirty = true;
                    proof {
                        let pre = *old(self);
                        assert forall|a: int, b: int|
                            #![trigger self.entries@[a], self.entries@[b]]
                            0 <= a < self.entries@.len() && 0 <= b < self.entries@.len() && a != b
                            implies !(self.entries@[a].x == self.entries@[b].x && self.entries@[a].y
                            == self.entries@[b].y) by {
                            assert(pre.entries@[a].x == self.entries@[a].x || a == i as int);
                            assert(pre.entries@[b].x == self.entries@[b].x || b == i as int);
                        }
                    }
                },
                None => {
                    self.entries.push(SparseEntry { x, y, cell });
                    self.dirty = true;
                    proof {
                        let pre = *old(self);
                        let m = self.entries@.len() - 1;
                        assert forall|a: int, b: int|
                            #![trigger self.entries@[a], self.entries@[b]]
                            0 <= a < self.entries@.len() && 0 <= b < self.entries@.len() && a != b
                            implies !(self.entries@[a].x == self.entries@[b].x && self.entries@[a].y
                            == self.entries@[b].y) by {
                            if a == m && b < m {
                                if self.entries@[b].x == x && self.entries@[b].y == y {
                                    assert(pre.has_entry(x as int, y as int));
                                }
                            } else if b == m && a < m {
                                if self.entries@[a].x == x && self.entries@[a].y == y {
                                    assert(pre.has_entry(x as int, y as int));
                                }
                            }
                        }
                    }
                },
            }
        }
    }

    /// Read back the cell written at a coordinate, if any.
    pub fn get(&self, x: u32, y: u32) -> (r: Option<Cell>)
        requires
            self.wf(),
        ensures
            r == if self.has_entry(x as int, y as int) {
                Some(self.cell_at(x as int, y as int))
            } else {
                None::<Cell>
            },
    {
        match self.find_entry(x, y) {
            Some(i) => {
                proof {
                    assert(self.has_entry(x as int, y as int));
                    let k = self.entry_index(x as int, y as int);
                    if k != i as int {
                        assert(self.entries@[k].x == x && self.entries@[k].y == y);
                        assert(false);
                    }
                }
                Some(self.entries[i].cell)
            },
            None => None,
        }
    }

    /// Consume the dirty mark: true when content changed since the last
    /// vertex rebuild, which this call completes.
    pub fn take_dirty(&mut self) -> (was: bool)
        ensures
            was == old(self).dirty,
            final(self).dirty == false,
            final(self).width == old(self).width,
            final(self).height == old(self).height,
            final(self).entries@ == old(self).entries@,
    {
        let was = self.dirty;
        self.dirty = false;
        was
    }
}

/// If some entry holds a coordinate, it is the one `entry_index` picks:
/// under `no_duplicates` the entry for a coordinate is unique.
pub proof fn lemma_sparse_entry_index_unique(c: SparseConsole, x: int, y: int, i: int)
    requires
        c.no_duplicates(),
        0 <= i < c.entries@.len(),
        c.entries@[i].x == x,
        c.entries@[i].y == y,
    ensures
        c.has_entry(x, y),
        c.entry_index(x, y) == i,
        c.cell_at(x, y) == c.entries@[i].cell,
{
    assert(c.has_entry(x, y));
    let k = c.entry_index(x, y);
    assert(0 <= k < c.entries@.len() && c.entries@[k].x == x && c.entries@[k].y == y);
    if k != i {
        assert(false);
    }
}

/// LAW: after two writes at the same coordinate, exactly one entry exists
/// for it and it holds the second cell (last write wins).
pub proof fn lemma_sparse_last_write_wins(
    pre: SparseConsole,
    mid: SparseConsole,
    post: SparseConsole,
    x: u32,
    y: u32,
    c1: Cell,
    c2: Cell,
)
    requires
        pre.wf(),
        mid.wf(),
        post.wf(),
        SparseConsole::set_rel(pre, mid, x, y, c1),
        SparseConsole::set_rel(mid, post, x, y, c2),
        pre.in_bounds(x as int, y as int),
    ensures
        post.has_entry(x as int, y as int),
        post.cell_at(x as int, y as int) == c2,
        forall|i: int, j: int|
            #![trigger post.entries@[i], post.entries@[j]]
            0 <= i < post.entries@.len() && 0 <= j < post.entries@.len() && post.entries@[i].x == x
                && post.entries@[i].y == y && post.entries@[j].x == x && post.entries@[j].y == y
                ==> i == j,
{
    let xi = x as int;
    let yi = y as int;
    if pre.has_entry(xi, yi) {
        let k1 = pre.entry_index(xi, yi);
        assert(0 <= k1 < pre.entries@.len() && pre.entries@[k1].x == x && pre.entries@[k1].y == y);
        assert(mid.entries@[k1] == (SparseEntry { x, y, cell: c1 }));
        lemma_sparse_entry_index_unique(mid, xi, yi, k1);
    } else {
        let m = pre.entries@.len() as int;
        assert(mid.entries@[m] == (SparseEntry { x, y, cell: c1 }));
        lemma_sparse_entry_index_unique(mid, xi, yi, m);
    }
    let k2 = mid.entry_index(xi, yi);
    assert(post.entries@ == mid.entries@.update(k2, SparseEntry { x, y, cell: c2 }));
    assert(post.entries@[k2] == (SparseEntry { x, y, cell: c2 }));
    lemma_sparse_entry_index_unique(post, xi, yi, k2);
}

/// LAW: an identical repeated write to a sparse console is idempotent: the
/// second write changes nothing.
pub proof fn lemma_sparse_set_idempotent(
    pre: SparseConsole,
    mid: SparseConsole,
    post: SparseConsole,
    x: u32,
    y: u32,
    cell: Cell,
)
    requires
        pre.wf(),
        mid.wf(),
        SparseConsole::set_rel(pre, mid, x, y, cell),
        SparseConsole::set_rel(mid, post, x, y, cell),
        pre.in_bounds(x as int, y as int),
    ensures
        post.entries@ == mid.entries@,
        post.char_size_spec() == mid.char_size_spec(),
{
    let xi = x as int;
    let yi = y as int;
    if pre.has_entry(xi, yi) {
        let k1 = pre.entry_index(xi, yi);
        assert(0 <= k1 < pre.entries@.len() && pre.entries@[k1].x == x && pre.entries@[k1].y == y);
        assert(mid.entries@[k1] == (SparseEntry { x, y, cell }));
        lemma_sparse_entry_index_unique(mid, xi, yi, k1);
    } else {
        let m = pre.entries@.len() as int;
        assert(mid.entries@[m] == (SparseEntry { x, y, cell }));
        lemma_sparse_entry_index_unique(mid, xi, yi, m);
    }
    let k2 = mid.entry_index(xi, yi);
    assert(mid.entries@[k2] == (SparseEntry { x, y, cell }));
    assert(post.entries@ =~= mid.entries@);
}

/// LAW: writing a sparse cell and reading it back yields that cell, and
/// every other coordinate keeps both its occupancy and its cell.
pub proof fn lemma_sparse_set_get_round_trip(
    pre: SparseConsole,
    post: SparseConsole,
    x: u32,
    y: u32,
    cell: Cell,
)
    requires
        pre.wf(),
        post.wf(),
        SparseConsole::set_rel(pre, post, x, y, cell),
        pre.in_bounds(x as int, y as int),
    ensures
        post.has_entry(x as int, y as int),
        post.cell_at(x as int, y as int) == cell,
        forall|x2: int, y2: int|
            #![trigger post.has_entry(x2, y2)]
            (x2 != x as int || y2 != y as int) ==> (post.has_entry(x2, y2) <==> pre.has_entry(
                x2,
                y2,
            )),
        forall|x2: int, y2: int|
            #![trigger post.cell_at(x2, y2)]
            (x2 != x as int || y2 != y as int) && pre.has_entry(x2, y2) ==> post.cell_at(x2, y2)
                == pre.cell_at(x2, y2),
{
    let xi = x as int;
    let yi = y as int;
    let replaced: int = if pre.has_entry(xi, yi) {
        pre.entry_index(xi, yi)
    } else {
        pre.entries@.len() as int
    };
    if pre.has_entry(xi, yi) {
        assert(0 <= replaced < pre.entries@.len() && pre.entries@[replaced].x == x
            && pre.entries@[replaced].y == y);
    }
    assert(post.entries@[replaced] == (SparseEntry { x, y, cell }));
    lemma_sparse_entry_index_unique(post, xi, yi, replaced);
    assert forall|x2: int, y2: int|
        #![trigger post.has_entry(x2, y2)]
        (x2 != xi || y2 != yi) implies (post.has_entry(x2, y2) <==> pre.has_entry(x2, y2)) by {
        if pre.has_entry(x2, y2) {
            let i = pre.entry_index(x2, y2);
            assert(0 <= i < pre.entries@.len() && pre.entries@[i].x == x2 && pre.entries@[i].y
                == y2);
            assert(i != replaced);
            assert(post.entries@[i] == pre.entries@[i]);
            assert(post.has_entry(x2, y2));
        }
        if post.has_entry(x2, y2) {
            let i = post.entry_index(x2, y2);
            assert(0 <= i < post.entries@.len() && post.entries@[i].x == x2 && post.entries@[i].y
                == y2);
            assert(i != replaced);
            assert(post.entries@[i] == pre.entries@[i]);
            assert(pre.has_entry(x2, y2));
        }
    }
    assert forall|x2: int, y2: int|
        #![trigger post.cell_at(x2, y2)]
        (x2 != xi || y2 != yi) && pre.has_entry(x2, y2) implies post.cell_at(x2, y2) == pre.cell_at(
        x2,
        y2,
    ) by {
        let i = pre.entry_index(x2, y2);
        assert(0 <= i < pre.entries@.len() && pre.entries@[i].x == x2 && pre.entries@[i].y == y2);
        assert(i != replaced);
        assert(post.entries@[i] == pre.entries@[i]);
        lemma_sparse_entry_index_unique(post, x2, y2, i);
        lemma_sparse_entry_index_unique(pre, x2, y2, i);
    }
}

/// A console of either storage variant, matched exhaustively wherever the
/// variants behave differently.
pub enum Console {
    Dense(DenseConsole),
    Sparse(SparseConsole),
}

impl Console {
    pub open spec fn wf(self) -> bool {
        match self {
            Console::Dense(d) => d.wf(),
            Console::Sparse(sp) => sp.wf(),
        }
    }

    pub open spec fn char_size_spec(self) -> (u32, u32) {
        match self {
            Console::Dense(d) => d.char_size_spec(),
            Console::Sparse(sp) => sp.char_size_spec(),
        }
    }

    pub open spec fn is_dense(self) -> bool {
        self is Dense
    }

    /// The grid dimensions; constant for the console's lifetime.
    pub fn get_char_size(&self) -> (r: (u32, u32))
        ensures
            r == self.char_size_spec(),
    {
        match self {
            Console::Dense(d) => d.get_char_size(),
            Console::Sparse(sp) => sp.get_char_size(),
        }
    }

    /// Write one cell through either variant; out-of-range writes are
    /// silent no-ops in both.
    pub fn set(&mut self, x: u32, y: u32, cell: Cell)
        requires
            old(self).wf(),
        ensures
            final(self).wf(),
            (*old(self)) is Dense ==> (*final(self)) is Dense && DenseConsole::set_rel(
                (*old(self))->Dense_0,
                (*final(self))->Dense_0,
                x,
                y,
                cell,
            ),
            (*old(self)) is Sparse ==> (*final(self)) is Sparse && SparseConsole::set_rel(
                (*old(self))->Sparse_0,
                (*final(self))->Sparse_0,
                x,
                y,
                cell,
            ),
    {
        match self {
            Console::Dense(d) => d.set(x, y, cell),
            Console::Sparse(sp) => sp.set(x, y, cell),
        }
    }

    /// Consume the dirty mark of either variant; the frame loop rebuilds
    /// the vertex batches of exactly the consoles that report true.
    pub fn take_dirty(&mut self) -> (was: bool)
        requires
            old(self).wf(),
        ensures
            final(self).wf(),
            final(self).char_size_spec() == old(self).char_size_spec(),
            (*old(self)) is Dense ==> (*final(self)) is Dense && was == (*old(
            self))->Dense_0.dirty && (*final(self))->Dense_0.dirty == false && (*final(
            self))->Dense_0.tiles@ == (*old(self))->Dense_0.tiles@,
            (*old(self)) is Sparse ==> (*final(self)) is Sparse && was == (*old(
            self))->Sparse_0.dirty && (*final(self))->Sparse_0.dirty == false && (*final(
            self))->Sparse_0.entries@ == (*old(self))->Sparse_0.entries@,
    {
        match self {
            Console::Dense(d) => d.take_dirty(),
            Console::Sparse(sp) => sp.take_dirty(),
        }
    }
}

} // verus!
