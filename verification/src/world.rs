//! One channel's world: a grid, an event queue, and a rule.
//!
//! A tick runs two strictly separated phases. The scan phase walks every
//! cell row by row, reads only the grid, and appends one event per cell
//! to the queue; it never writes a cell, so scanning is a pure function
//! of the previously committed state. The apply phase then drains the
//! queue front to back and commits each event; it is the sole writer.
//! The queue is empty at the start and at the end of every tick.

use vstd::arithmetic::div_mod::lemma_fundamental_div_mod_converse;
use vstd::prelude::*;

use crate::errors::EngineError;
use crate::event::{
    apply_events_spec, event_in_bounds, event_payload_ok, lemma_apply_events_snoc, EventModel,
    EventQueue,
};
use crate::grid::{neighbor_sum_spec, Grid, MAX_DIM};
use crate::rule::{rule_for, rule_spec, Color, RuleTable};
use crate::scalar::{clamp_unit, clamp_unit_raw, in_range};

verus! {

/// Every queued event targets a cell of a `w`-by-`h` grid and carries a
/// storable payload.
pub open spec fn queue_ok(q: Seq<EventModel>, w: int, h: int) -> bool {
    forall|i: int|
        0 <= i < q.len() ==> event_in_bounds(#[trigger] q[i], w, h) && event_payload_ok(q[i])
}

proof fn lemma_queue_ok_push(q: Seq<EventModel>, e: EventModel, w: int, h: int)
    requires
        queue_ok(q, w, h),
        event_in_bounds(e, w, h),
        event_payload_ok(e),
    ensures
        queue_ok(q.push(e), w, h),
{
    assert forall|i: int| 0 <= i < q.push(e).len() implies event_in_bounds(
        #[trigger] q.push(e)[i],
        w,
        h,
    ) && event_payload_ok(q.push(e)[i]) by {
        if i < q.len() {
            assert(q.push(e)[i] == q[i]);
        } else {
            assert(q.push(e)[i] == e);
        }
    };
}

/// The events one full scan of grid `g` produces, in scan order: cell
/// `i` (row-major, so column `i % w` of row `i / w`) contributes the
/// event the rule picks for its radius-1 neighbor sum.
pub open spec fn scan_events_spec(g: Seq<int>, w: int, h: int, t: RuleTable) -> Seq<EventModel> {
    Seq::new(
        (w * h) as nat,
        |i: int| rule_spec(t, neighbor_sum_spec(g, w, h, i % w, i / w, 1), i % w, i / w),
    )
}

/// The grid one tick leaves behind: every event the scan of `g` produces,
/// committed in scan order. A tick's outcome is a pure function of the
/// prior grid and the rule constants alone.
pub open spec fn tick_spec(g: Seq<int>, w: int, h: int, t: RuleTable) -> Seq<int> {
    apply_events_spec(g, w, scan_events_spec(g, w, h, t))
}

/// One color channel's simulation state.
pub struct World {
    /// The channel this world evolves.
    pub color: Color,
    /// The channel's scalar field.
    pub grid: Grid,
    /// Mutations pending for the current tick only.
    pub events: EventQueue,
    /// The channel's threshold-ladder constants.
    pub rule: RuleTable,
}

impl World {
    /// The grid and rule are well-formed and every queued event fits the
    /// grid.
    pub open spec fn inv(&self) -> bool {
        &&& self.grid.wf()
        &&& self.rule.wf()
        &&& queue_ok(self.events@, self.grid.width as int, self.grid.height as int)
    }

    /// A world of the given color with a zero-filled grid, an empty
    /// queue, and the color's rule table.
    pub fn new(color: Color, width: usize, height: usize) -> (w: World)
        requires
            1 <= width <= MAX_DIM,
            1 <= height <= MAX_DIM,
        ensures
            w.inv(),
            w.color == color,
            w.rule == rule_for(color),
            w.events@.len() == 0,
            w.grid.width == width,
            w.grid.height == height,
            w.grid@.len() == width * height,
            forall|i: int| 0 <= i < w.grid@.len() ==> w.grid@[i] == 0,
    {
        World {
            color,
            grid: Grid::new(width, height),
            events: EventQueue::new(),
            rule: RuleTable::for_color(color),
        }
    }

    /// The channel this world evolves.
    pub fn get_color(&self) -> (c: Color)
        ensures
            c == self.color,
    {
        self.color
    }

    /// Scan phase: for every cell, row by row and column by column within
    /// the row, read the radius-1 neighbor sum, evaluate the rule, and
    /// append the event. The grid itself is left untouched: no event
    /// becomes visible in the grid before the apply phase.
    pub fn scan(&mut self)
        requires
            old(self).inv(),
        ensures
            final(self).inv(),
            final(self).grid == old(self).grid,
            final(self).color == old(self).color,
            final(self).rule == old(self).rule,
            final(self).events@ == old(self).events@ + scan_events_spec(
                old(self).grid@,
                old(self).grid.width as int,
                old(self).grid.height as int,
                old(self).rule,
            ),
    {
        let w = self.grid.width;
        let h = self.grid.height;
        let ghost se = scan_events_spec(
            self.grid@,
            w as int,
            h as int,
            self.rule,
        );
        let ghost q0 = self.events@;
        let mut y: usize = 0;
        while y < h
            invariant
                self.inv(),
                self.grid == old(self).grid,
                self.color == old(self).color,
                self.rule == old(self).rule,
                w == self.grid.width,
                h == self.grid.height,
                q0 == old(self).events@,
                se == scan_events_spec(self.grid@, w as int, h as int, self.rule),
                se.len() == w * h,
                y <= h,
                y * w <= se.len(),
                self.events@ == q0 + se.take((y * w) as int),
            decreases h - y,
        {
            let mut x: usize = 0;
            proof {
                assert((y + 1) * w == y * w + w && (y + 1) * w <= h * w && h * w == w * h)
                    by (nonlinear_arith)
                    requires
                        y < h,
                ;
            }
            while x < w
                invariant
                    self.inv(),
                    self.grid == old(self).grid,
                    self.color == old(self).color,
                    self.rule == old(self).rule,
                    w == self.grid.width,
                    h == self.grid.height,
                    q0 == old(self).events@,
                    se == scan_events_spec(self.grid@, w as int, h as int, self.rule),
                    se.len() == w * h,
                    y < h,
                    x <= w,
                    y * w + w <= se.len(),
                    self.events@ == q0 + se.take((y * w + x) as int),
                decreases w - x,
            {
                let s = self.grid.neighbor_sum(x, y, 1);
                let e = self.rule.eval(s, x, y);
                proof {
                    let i = (y * w + x) as int;
                    lemma_fundamental_div_mod_converse(i, w as int, y as int, x as int);
                    assert(se[i] == e@);
                    assert(event_in_bounds(e@, w as int, h as int));
                    lemma_queue_ok_push(self.events@, e@, w as int, h as int);
                    assert(se.take(i + 1) =~= se.take(i).push(se[i]));
                    assert((q0 + se.take(i)).push(e@) =~= q0 + se.take(i + 1));
                }
                self.events.push(e);
                x = x + 1;
            }
            y = y + 1;
        }
        proof {
            assert(se.take((h * w) as int) =~= se);
        }
    }

    /// Apply phase: drain the queue in first-in, first-out order and
    /// commit each event to the grid; the sole writer of the tick. Ties
    /// on one cell resolve by queue order. Leaves the queue empty.
    pub fn apply(&mut self)
        requires
            old(self).inv(),
        ensures
            final(self).inv(),
            final(self).grid.width == old(self).grid.width,
            final(self).grid.height == old(self).grid.height,
            final(self).grid@ == apply_events_spec(
                old(self).grid@,
                old(self).grid.width as int,
                old(self).events@,
            ),
            final(self).events@.len() == 0,
            final(self).color == old(self).color,
            final(self).rule == old(self).rule,
    {
        let w = self.grid.width;
        let h = self.grid.height;
        let n = self.events.items.len();
        let mut i: usize = 0;
        while i < n
            invariant
                self.grid.wf(),
                self.rule == old(self).rule,
                self.color == old(self).color,
                self.rule.wf(),
                self.events == old(self).events,
                queue_ok(self.events@, w as int, h as int),
                w == self.grid.width,
                h == self.grid.height,
                w == old(self).grid.width,
                h == old(self).grid.height,
                n == self.events@.len(),
                n == self.events.items@.len(),
                i <= n,
                self.grid@ == apply_events_spec(
                    old(self).grid@,
                    w as int,
                    self.events@.take(i as int),
                ),
            decreases n - i,
        {
            let e = self.events.items[i];
            proof {
                assert(e@ == self.events@[i as int]);
            }
            self.grid.apply_event(&e);
            proof {
                lemma_apply_events_snoc(
                    old(self).grid@,
                    w as int,
                    self.events@.take(i as int),
                    e@,
                );
                assert(self.events@.take(i as int + 1) =~= self.events@.take(i as int).push(e@));
            }
            i = i + 1;
        }
        proof {
            assert(self.events@.take(n as int) =~= self.events@);
        }
        self.events.items.clear();
        proof {
            assert(self.events@ =~= Seq::<EventModel>::empty());
        }
    }

    /// One full generation: scan, then apply. The resulting grid is a
    /// pure function of the prior grid and the rule constants, however
    /// the scan work is interleaved, and the queue ends empty.
    pub fn tick(&mut self)
        requires
            old(self).inv(),
            old(self).events@.len() == 0,
        ensures
            final(self).inv(),
            final(self).events@.len() == 0,
            final(self).grid.width == old(self).grid.width,
            final(self).grid.height == old(self).grid.height,
            final(self).grid@ == tick_spec(
                old(self).grid@,
                old(self).grid.width as int,
                old(self).grid.height as int,
                old(self).rule,
            ),
            final(self).color == old(self).color,
            final(self).rule == old(self).rule,
    {
        self.scan();
        proof {
            assert(self.events@ =~= scan_events_spec(
                old(self).grid@,
                old(self).grid.width as int,
                old(self).grid.height as int,
                old(self).rule,
            ));
        }
        self.apply();
    }

    /// Store a storable raw value at `(x, y)` of this world's grid;
    /// rejects out-of-range coordinates. Leaves the queue untouched.
    pub fn write(&mut self, x: usize, y: usize, v: i64) -> (r: Result<(), EngineError>)
        requires
            old(self).inv(),
            in_range(v as int),
        ensures
            final(self).inv(),
            final(self).grid.width == old(self).grid.width,
            final(self).grid.height == old(self).grid.height,
            final(self).color == old(self).color,
            final(self).rule == old(self).rule,
            final(self).events == old(self).events,
            match r {
                Ok(u) => x < old(self).grid.width && y < old(self).grid.height
                    && final(self).grid@ =~= old(self).grid@.update(
                    y * old(self).grid.width + x,
                    v as int,
                ),
                Err(e) => (x >= old(self).grid.width || y >= old(self).grid.height)
                    && final(self).grid@ == old(self).grid@ && e == EngineError::OutOfRange,
            },
    {
        self.grid.write(x, y, v)
    }

    /// The channel's value at `(x, y)`, clamped into the unit interval
    /// `[0, SCALE]` so a renderer can map it onto one color channel; the
    /// stored cell itself is left unclamped. Rejects out-of-range
    /// coordinates instead of wrapping them.
    pub fn get_data_at(&self, x: usize, y: usize) -> (r: Result<i64, EngineError>)
        requires
            self.inv(),
        ensures
            match r {
                Ok(v) => x < self.grid.width && y < self.grid.height
                    && v as int == clamp_unit(self.grid.cell(x as int, y as int)),
                Err(e) => (x >= self.grid.width || y >= self.grid.height) && e
                    == EngineError::OutOfRange,
            },
    {
        match self.grid.read(x, y) {
            Ok(v) => Ok(clamp_unit_raw(v)),
            Err(e) => Err(e),
        }
    }
}

} // verus!
