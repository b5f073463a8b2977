//! The automaton rule that the simulation pass applies to each pixel: a
//! bounded Game of Life grid whose neighbour reads clamp to the edge texel.
use vstd::prelude::*;
use vstd::arithmetic::div_mod::lemma_fundamental_div_mod_converse;

verus! {

/// `v` clamped into `0 .. n`, as clamp-to-edge addressing reads it.
pub open spec fn clamp(v: int, n: int) -> int {
    if v < 0 {
        0
    } else if v >= n {
        n - 1
    } else {
        v
    }
}

/// The cell that a read at `(x, y)` returns from a row-major `w` by `h`
/// grid: a coordinate outside the grid reads the nearest edge cell.
pub open spec fn texel(cells: Seq<bool>, w: int, h: int, x: int, y: int) -> bool {
    cell_at(cells, w, clamp(x, w), clamp(y, h))
}

/// The cell at column `x` of row `y` of a row-major grid `w` cells wide.
#[verifier::opaque]
pub open spec fn cell_at(cells: Seq<bool>, w: int, x: int, y: int) -> bool {
    cells[y * w + x]
}

/// 1 for a live cell, 0 for a dead one.
pub open spec fn live(b: bool) -> int {
    if b {
        1
    } else {
        0
    }
}

/// The number of live cells among the eight reads around `(x, y)`.
pub open spec fn live_neighbours(cells: Seq<bool>, w: int, h: int, x: int, y: int) -> int {
    live(texel(cells, w, h, x - 1, y - 1)) + live(texel(cells, w, h, x, y - 1)) + live(
        texel(cells, w, h, x + 1, y - 1),
    ) + live(texel(cells, w, h, x - 1, y)) + live(texel(cells, w, h, x + 1, y)) + live(
        texel(cells, w, h, x - 1, y + 1),
    ) + live(texel(cells, w, h, x, y + 1)) + live(texel(cells, w, h, x + 1, y + 1))
}

/// Birth on exactly three live neighbours; survival on two or three.
pub open spec fn next_alive(alive: bool, neighbours: int) -> bool {
    neighbours == 3 || (alive && neighbours == 2)
}

/// The next state of cell `(x, y)`.
pub open spec fn next_at(cells: Seq<bool>, w: int, h: int, x: int, y: int) -> bool {
    next_alive(texel(cells, w, h, x, y), live_neighbours(cells, w, h, x, y))
}

/// The next generation of a row-major `w` by `h` grid.
pub open spec fn stepped(cells: Seq<bool>, w: int, h: int) -> Seq<bool> {
    Seq::new((w * h) as nat, |k: int| next_at(cells, w, h, k % w, k / w))
}

/// The index of cell `(x, y)` lies inside a `w` by `h` grid.
proof fn lemma_index_in_bounds(w: int, h: int, x: int, y: int)
    requires
        0 <= x < w,
        0 <= y < h,
    ensures
        0 <= y * w + x < w * h,
        y * w + x <= y * w + w <= w * h,
{
    assert(0 <= y * w) by (nonlinear_arith)
        requires
            0 <= y,
            0 < w,
    ;
    assert(y * w + w <= w * h) by (nonlinear_arith)
        requires
            y + 1 <= h,
            0 < w,
    ;
}

/// 1 for a live cell, 0 for a dead one.
fn live_count(b: bool) -> (r: u8)
    ensures
        r == live(b),
{
    if b {
        1
    } else {
        0
    }
}

/// A grid of cells, live or dead, stored row by row: the state the two
/// image buffers hold, one cell per pixel.
pub struct Grid {
    width: usize,
    height: usize,
    cells: Vec<bool>,
}

impl View for Grid {
    type V = Seq<bool>;

    closed spec fn view(&self) -> Seq<bool> {
        self.cells@
    }
}

impl Grid {
    /// The number of columns.
    pub closed spec fn width_spec(&self) -> int {
        self.width as int
    }

    /// The number of rows.
    pub closed spec fn height_spec(&self) -> int {
        self.height as int
    }

    /// Both sides are positive and there is one cell per position.
    pub open spec fn wf(&self) -> bool {
        &&& self.width_spec() > 0
        &&& self.height_spec() > 0
        &&& self@.len() == self.width_spec() * self.height_spec()
    }

    /// An all-dead grid of `width` by `height` cells; `None` when a side is
    /// zero or the cell count does not fit in `usize`.
    pub fn new(width: usize, height: usize) -> (r: Option<Grid>)
        ensures
            r.is_some() <==> (width > 0 && height > 0 && width * height <= usize::MAX),
            r matches Some(g) ==> {
                &&& g.wf()
                &&& g.width_spec() == width
                &&& g.height_spec() == height
                &&& forall|k: int| 0 <= k < g@.len() ==> !g@[k]
            },
    {
        if width == 0 || height == 0 {
            return None;
        }
        let count = match width.checked_mul(height) {
            Some(c) => c,
            None => return None,
        };
        let mut cells: Vec<bool> = Vec::new();
        let mut k: usize = 0;
        while k < count
            invariant
                k <= count,
                cells@.len() == k,
                forall|i: int| 0 <= i < k ==> !cells@[i],
            decreases count - k,
        {
            cells.push(false);
            k += 1;
        }
        Some(Grid { width, height, cells })
    }

    /// The number of columns.
    pub fn width(&self) -> (r: usize)
        ensures
            r == self.width_spec(),
    {
        self.width
    }

    /// The number of rows.
    pub fn height(&self) -> (r: usize)
        ensures
            r == self.height_spec(),
    {
        self.height
    }

    /// Whether cell `(x, y)` is live.
    pub fn get(&self, x: usize, y: usize) -> (r: bool)
        requires
            self.wf(),
            x < self.width_spec(),
            y < self.height_spec(),
        ensures
            r == texel(self@, self.width_spec(), self.height_spec(), x as int, y as int),
    {
        let _count = self.cells.len();
        proof {
            lemma_index_in_bounds(self.width as int, self.height as int, x as int, y as int);
            reveal(cell_at);
        }
        self.cells[y * self.width + x]
    }

    /// Makes cell `(x, y)` live or dead, leaving the others as they are.
    pub fn set(&mut self, x: usize, y: usize, alive: bool)
        requires
            old(self).wf(),
            x < old(self).width_spec(),
            y < old(self).height_spec(),
        ensures
            final(self).wf(),
            final(self).width_spec() == old(self).width_spec(),
            final(self).height_spec() == old(self).height_spec(),
            final(self)@ == old(self)@.update(y * old(self).width_spec() + x, alive),
    {
        let _count = self.cells.len();
        proof {
            lemma_index_in_bounds(self.width as int, self.height as int, x as int, y as int);
        }
        let i = y * self.width + x;
        self.cells.set(i, alive);
    }

    /// A read at `(x, y)` with clamp-to-edge addressing: a coordinate beyond
    /// an edge reads the edge cell, never wraps.
    pub fn sample(&self, x: isize, y: isize) -> (r: bool)
        requires
            self.wf(),
        ensures
            r == texel(self@, self.width_spec(), self.height_spec(), x as int, y as int),
    {
        let cx: usize = if x < 0 {
            0
        } else if x as usize >= self.width {
            self.width - 1
        } else {
            x as usize
        };
        let cy: usize = if y < 0 {
            0
        } else if y as usize >= self.height {
            self.height - 1
        } else {
            y as usize
        };
        self.get(cx, cy)
    }

    /// The next state of cell `(x, y)`: the automaton rule over its eight
    /// clamped neighbour reads.
    pub fn next_cell(&self, x: usize, y: usize) -> (r: bool)
        requires
            self.wf(),
            x < self.width_spec(),
            y < self.height_spec(),
        ensures
            r == next_at(self@, self.width_spec(), self.height_spec(), x as int, y as int),
    {
        let w = self.width;
        let h = self.height;
        let left: usize = if x == 0 {
            0
        } else {
            x - 1
        };
        let right: usize = if x + 1 >= w {
            w - 1
        } else {
            x + 1
        };
        let up: usize = if y == 0 {
            0
        } else {
            y - 1
        };
        let down: usize = if y + 1 >= h {
            h - 1
        } else {
            y + 1
        };
        let ghost c = self@;
        let ghost wi = w as int;
        let ghost hi = h as int;
        let a0 = self.get(left, up);
        let a1 = self.get(x, up);
        let a2 = self.get(right, up);
        let a3 = self.get(left, y);
        let a4 = self.get(right, y);
        let a5 = self.get(left, down);
        let a6 = self.get(x, down);
        let a7 = self.get(right, down);
        let alive = self.get(x, y);
        proof {
            assert(texel(c, wi, hi, x - 1, y - 1) == a0);
            assert(texel(c, wi, hi, x as int, y - 1) == a1);
            assert(texel(c, wi, hi, x + 1, y - 1) == a2);
            assert(texel(c, wi, hi, x - 1, y as int) == a3);
            assert(texel(c, wi, hi, x + 1, y as int) == a4);
            assert(texel(c, wi, hi, x - 1, y + 1) == a5);
            assert(texel(c, wi, hi, x as int, y + 1) == a6);
            assert(texel(c, wi, hi, x + 1, y + 1) == a7);
        }
        let n: u8 = live_count(a0) + live_count(a1) + live_count(a2) + live_count(a3);
        let n: u8 = n + live_count(a4) + live_count(a5) + live_count(a6) + live_count(a7);
        n == 3 || (alive && n == 2)
    }

    /// The next generation: every cell advanced by the automaton rule, all
    /// reads taken from this grid.
    pub fn step(&self) -> (r: Grid)
        requires
            self.wf(),
        ensures
            r.wf(),
            r.width_spec() == self.width_spec(),
            r.height_spec() == self.height_spec(),
            r@ == stepped(self@, self.width_spec(), self.height_spec()),
    {
        let w = self.width;
        let h = self.height;
        let ghost wi = w as int;
        let ghost hi = h as int;
        let mut out: Vec<bool> = Vec::new();
        let mut y: usize = 0;
        while y < h
            invariant
                self.wf(),
                wi == self.width_spec(),
                hi == self.height_spec(),
                w == wi,
                h == hi,
                y <= h,
                out@.len() == y * wi,
                forall|k: int| 0 <= k < out@.len() ==> out@[k] == next_at(self@, wi, hi, k % wi, k / wi),
            decreases h - y,
        {
            let mut x: usize = 0;
            while x < w
                invariant
                    self.wf(),
                    wi == self.width_spec(),
                    hi == self.height_spec(),
                    w == wi,
                    h == hi,
                    y < h,
                    x <= w,
                    out@.len() == y * wi + x,
                    forall|k: int| 0 <= k < out@.len() ==> out@[k] == next_at(self@, wi, hi, k % wi, k / wi),
                decreases w - x,
            {
                let alive = self.next_cell(x, y);
                proof {
                    lemma_fundamental_div_mod_converse(y * wi + x, wi, y as int, x as int);
                }
                out.push(alive);
                x += 1;
            }
            proof {
                assert(y * wi + wi == (y + 1) * wi) by (nonlinear_arith);
            }
            y += 1;
        }
        let r = Grid { width: w, height: h, cells: out };
        proof {
            assert(h * w == w * h) by (nonlinear_arith);
            assert(r@ =~= stepped(self@, wi, hi));
        }
        r
    }
}

/// A read one cell beyond any edge returns that edge's cell: reads clamp to
/// the border rather than wrap around to the opposite side.
pub proof fn lemma_border_reads_clamp(cells: Seq<bool>, w: int, h: int, x: int, y: int)
    requires
        0 <= x < w,
        0 <= y < h,
    ensures
        texel(cells, w, h, -1, y) == texel(cells, w, h, 0, y),
        texel(cells, w, h, w, y) == texel(cells, w, h, w - 1, y),
        texel(cells, w, h, x, -1) == texel(cells, w, h, x, 0),
        texel(cells, w, h, x, h) == texel(cells, w, h, x, h - 1),
{
}

} // verus!
