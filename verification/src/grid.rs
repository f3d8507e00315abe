//! The toroidal scalar field.
//!
//! A [`Grid`] is a dense, row-major, `width`-by-`height` field of raw
//! fixed-point values. Direct access by [`Grid::read`] and [`Grid::write`]
//! rejects out-of-range coordinates; neighborhood scanning by
//! [`Grid::neighbor_sum`] wraps both coordinates modulo the dimensions,
//! so the field has no edges.

use vstd::arithmetic::div_mod::lemma_mod_add_multiples_vanish;
use vstd::prelude::*;

use crate::errors::EngineError;
use crate::event::{apply_event_spec, event_in_bounds, event_payload_ok, Event};
use crate::scalar::{add_raw, clamp_raw, in_range, mul_raw};

verus! {

/// Largest width or height a grid may take.
pub const MAX_DIM: usize = 65535;

/// A coordinate wrapped onto a dimension of size `n`: the representative
/// of `i` modulo `n` in `[0, n)`.
pub open spec fn wrap_coord(i: int, n: int) -> int {
    i % n
}

/// The cell of the scan window at offset `(dx, dy)` from its low corner:
/// the window of radius `r` around `(x, y)` spans `[x - r, x + r)` by
/// `[y - r, y + r)`, each coordinate wrapped onto the torus.
pub open spec fn window_cell(
    g: Seq<int>,
    w: int,
    h: int,
    x: int,
    y: int,
    r: int,
    dy: int,
    dx: int,
) -> int {
    g[wrap_coord(y - r + dy, h) * w + wrap_coord(x - r + dx, w)]
}

/// Sum of the first `cols` cells of window row `dy`.
pub open spec fn row_sum_spec(
    g: Seq<int>,
    w: int,
    h: int,
    x: int,
    y: int,
    r: int,
    dy: int,
    cols: int,
) -> int
    decreases cols,
{
    if cols <= 0 {
        0
    } else {
        row_sum_spec(g, w, h, x, y, r, dy, cols - 1) + window_cell(g, w, h, x, y, r, dy, cols - 1)
    }
}

/// Sum of the first `rows` full rows (each `2*r` cells wide) of the
/// scan window of radius `r` around `(x, y)`.
pub open spec fn window_rows_spec(
    g: Seq<int>,
    w: int,
    h: int,
    x: int,
    y: int,
    r: int,
    rows: int,
) -> int
    decreases rows,
{
    if rows <= 0 {
        0
    } else {
        window_rows_spec(g, w, h, x, y, r, rows - 1) + row_sum_spec(
            g,
            w,
            h,
            x,
            y,
            r,
            rows - 1,
            2 * r,
        )
    }
}

/// Sum over the full square scan window of radius `r` around `(x, y)`:
/// `2*r` rows of `2*r` cells, offsets `[-r, r)` on each axis, wrapped
/// onto the torus.
pub open spec fn neighbor_sum_spec(g: Seq<int>, w: int, h: int, x: int, y: int, r: int) -> int {
    window_rows_spec(g, w, h, x, y, r, 2 * r)
}

/// Updating one cell of a well-formed grid with a storable value keeps
/// the grid well-formed and updates exactly that cell of the view.
proof fn lemma_in_range_after_update(g0: Grid, g1: Grid, i: int, nv: i64)
    requires
        g0.wf(),
        in_range(nv as int),
        0 <= i < g0.cells@.len(),
        g1.width == g0.width,
        g1.height == g0.height,
        g1.cells@ == g0.cells@.update(i, nv),
    ensures
        g1.wf(),
        g1@ =~= g0@.update(i, nv as int),
{
    assert(g1@ =~= g0@.update(i, nv as int));
    assert forall|j: int| 0 <= j < g1@.len() implies in_range(#[trigger] g1@[j]) by {
        if j != i {
            assert(g1@[j] == g0@[j]);
        }
    };
}

/// A toroidal 2D scalar field with fixed dimensions, stored row-major.
pub struct Grid {
    /// Number of columns; fixed for the grid's lifetime.
    pub width: usize,
    /// Number of rows; fixed for the grid's lifetime.
    pub height: usize,
    /// Row-major cells: the cell at column `x`, row `y` is `cells[y * width + x]`.
    pub cells: Vec<i64>,
}

impl View for Grid {
    type V = Seq<int>;

    open spec fn view(&self) -> Seq<int> {
        self.cells@.map_values(|v: i64| v as int)
    }
}

impl Grid {
    /// Dimensions are nonzero and bounded, the cell vector fills the
    /// rectangle exactly, and every stored value is storable.
    pub open spec fn wf(&self) -> bool {
        &&& 1 <= self.width <= MAX_DIM
        &&& 1 <= self.height <= MAX_DIM
        &&& self.cells@.len() == self.width * self.height
        &&& forall|i: int| 0 <= i < self@.len() ==> in_range(#[trigger] self@[i])
    }

    /// The raw value at column `x`, row `y`.
    pub open spec fn cell(&self, x: int, y: int) -> int {
        self@[y * self.width + x]
    }

    /// A zero-filled grid of the given dimensions.
    pub fn new(width: usize, height: usize) -> (g: Grid)
        requires
            1 <= width <= MAX_DIM,
            1 <= height <= MAX_DIM,
        ensures
            g.wf(),
            g.width == width,
            g.height == height,
            g@.len() == width * height,
            forall|i: int| 0 <= i < g@.len() ==> g@[i] == 0,
    {
        proof {
            assert(width * height <= 65535 * 65535) by (nonlinear_arith)
                requires
                    width <= 65535,
                    height <= 65535,
            ;
        }
        let n = width * height;
        let mut cells: Vec<i64> = Vec::new();
        let mut i: usize = 0;
        while i < n
            invariant
                i <= n,
                cells@.len() == i,
                forall|j: int| 0 <= j < i ==> cells@[j] == 0,
            decreases n - i,
        {
            cells.push(0);
            i = i + 1;
        }
        Grid { width, height, cells }
    }

    /// The flat index of an in-range cell.
    fn index_of(&self, x: usize, y: usize) -> (i: usize)
        requires
            self.wf(),
            x < self.width,
            y < self.height,
        ensures
            i == y * self.width + x,
            i < self@.len(),
    {
        proof {
            assert(y * self.width + x < self.width * self.height && y * self.width + x <= 65534
                * 65535 + 65534) by (nonlinear_arith)
                requires
                    x < self.width,
                    y < self.height,
                    self.width <= 65535,
                    self.height <= 65535,
            ;
        }
        y * self.width + x
    }

    /// The current value at `(x, y)`; rejects out-of-range coordinates
    /// instead of wrapping them. Never mutates.
    pub fn read(&self, x: usize, y: usize) -> (r: Result<i64, EngineError>)
        requires
            self.wf(),
        ensures
            match r {
                Ok(v) => x < self.width && y < self.height && v as int == self.cell(
                    x as int,
                    y as int,
                ),
                Err(e) => (x >= self.width || y >= self.height) && e == EngineError::OutOfRange,
            },
    {
        if x < self.width && y < self.height {
            let i = self.index_of(x, y);
            Ok(self.cells[i])
        } else {
            Err(EngineError::OutOfRange)
        }
    }

    /// Store a storable raw value at `(x, y)`; rejects out-of-range
    /// coordinates instead of wrapping them.
    pub fn write(&mut self, x: usize, y: usize, v: i64) -> (r: Result<(), EngineError>)
        requires
            old(self).wf(),
            in_range(v as int),
        ensures
            final(self).wf(),
            final(self).width == old(self).width,
            final(self).height == old(self).height,
            match r {
                Ok(u) => x < old(self).width && y < old(self).height && final(self)@ =~= old(
                    self,
                )@.update(y * old(self).width + x, v as int),
                Err(e) => (x >= old(self).width || y >= old(self).height) && final(self)@ == old(
                    self,
                )@ && e == EngineError::OutOfRange,
            },
    {
        if x < self.width && y < self.height {
            let i = self.index_of(x, y);
            self.cells[i] = v;
            proof {
                assert(self@ =~= old(self)@.update(i as int, v as int));
                assert forall|j: int| 0 <= j < self@.len() implies in_range(
                    #[trigger] self@[j],
                ) by {
                    if j != i as int {
                        assert(self@[j] == old(self)@[j]);
                    }
                };
            }
            Ok(())
        } else {
            Err(EngineError::OutOfRange)
        }
    }

    /// Commit one pending mutation to its target cell: `Assign`
    /// overwrites, `Add` adds, `Mul` multiplies in place, each result
    /// saturated into the storable range.
    pub fn apply_event(&mut self, e: &Event)
        requires
            old(self).wf(),
            event_in_bounds(e@, old(self).width as int, old(self).height as int),
            event_payload_ok(e@),
        ensures
            final(self).wf(),
            final(self).width == old(self).width,
            final(self).height == old(self).height,
            final(self)@ =~= apply_event_spec(old(self)@, old(self).width as int, e@),
    {
        match *e {
            Event::Assign(x, y, v) => {
                let i = self.index_of(x, y);
                let nv = clamp_raw(v);
                self.cells[i] = nv;
                proof {
                    lemma_in_range_after_update(*old(self), *self, i as int, nv);
                }
            },
            Event::Add(x, y, d) => {
                let i = self.index_of(x, y);
                let cur = self.cells[i];
                proof {
                    assert(self@[i as int] == self.cells@[i as int] as int);
                    assert(in_range(cur as int));
                }
                let nv = add_raw(cur, d);
                self.cells[i] = nv;
                proof {
                    lemma_in_range_after_update(*old(self), *self, i as int, nv);
                }
            },
            Event::Mul(x, y, f) => {
                let i = self.index_of(x, y);
                let cur = self.cells[i];
                proof {
                    assert(self@[i as int] == self.cells@[i as int] as int);
                    assert(in_range(cur as int));
                }
                let nv = mul_raw(cur, f);
                self.cells[i] = nv;
                proof {
                    lemma_in_range_after_update(*old(self), *self, i as int, nv);
                }
            },
        }
    }

    /// Sum the scan window of the given radius around `(x, y)`: offsets
    /// `[-radius, radius)` on each axis (radius cells below and left,
    /// `radius - 1` above and right), each coordinate wrapped modulo its
    /// dimension.
    pub fn neighbor_sum(&self, x: usize, y: usize, radius: usize) -> (r: i64)
        requires
            self.wf(),
            x < self.width,
            y < self.height,
            radius <= self.width,
            radius <= self.height,
        ensures
            r as int == neighbor_sum_spec(
                self@,
                self.width as int,
                self.height as int,
                x as int,
                y as int,
                radius as int,
            ),
    {
        let w = self.width;
        let h = self.height;
        let side = 2 * radius;
        let mut sum: i64 = 0;
        let mut dy: usize = 0;
        while dy < side
            invariant
                self.wf(),
                w == self.width,
                h == self.height,
                x < w,
                y < h,
                radius <= w,
                radius <= h,
                side == 2 * radius,
                dy <= side,
                sum as int == window_rows_spec(
                    self@,
                    w as int,
                    h as int,
                    x as int,
                    y as int,
                    radius as int,
                    dy as int,
                ),
                -(dy as int) * 131_070_000_000 <= sum as int <= (dy as int) * 131_070_000_000,
            decreases side - dy,
        {
            let row = (y + dy + h - radius) % h;
            proof {
                lemma_mod_add_multiples_vanish(y + dy - radius, h as int);
                assert(row == wrap_coord(y - radius + dy, h as int));
                assert(row * w <= 65534 * 65535 && row * w + w <= self@.len()) by (nonlinear_arith)
                    requires
                        (row as int) < h as int,
                        w <= 65535,
                        h <= 65535,
                        self@.len() == w * h,
                ;
            }
            let row_base = row * w;
            let mut rsum: i64 = 0;
            let mut dx: usize = 0;
            while dx < side
                invariant
                    self.wf(),
                    w == self.width,
                    h == self.height,
                    x < w,
                    y < h,
                    radius <= w,
                    radius <= h,
                    side == 2 * radius,
                    dx <= side,
                    row == wrap_coord(y - radius + dy as int, h as int),
                    row < h,
                    row_base == row * w,
                    row_base <= 65534 * 65535,
                    row_base + w <= self@.len(),
                    rsum as int == row_sum_spec(
                        self@,
                        w as int,
                        h as int,
                        x as int,
                        y as int,
                        radius as int,
                        dy as int,
                        dx as int,
                    ),
                    -(dx as int) * 1_000_000 <= rsum as int <= (dx as int) * 1_000_000,
                decreases side - dx,
            {
                let col = (x + dx + w - radius) % w;
                proof {
                    lemma_mod_add_multiples_vanish(x + dx - radius, w as int);
                    assert(col == wrap_coord(x - radius + dx, w as int));
                }
                let v = self.cells[row_base + col];
                assert(v as int == window_cell(
                    self@,
                    w as int,
                    h as int,
                    x as int,
                    y as int,
                    radius as int,
                    dy as int,
                    dx as int,
                ));
                assert(in_range(v as int));
                rsum = rsum + v;
                dx = dx + 1;
            }
            sum = sum + rsum;
            dy = dy + 1;
        }
        sum
    }
}

} // verus!
