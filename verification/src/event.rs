//! Pending cell mutations and the queue that orders them.
//!
//! An [`Event`] describes one mutation of one cell: assign, add, or
//! multiply. Events are produced while a world scans its grid and are
//! committed, first-in first-out, while it applies them.

use vstd::prelude::*;

use crate::scalar::{clamp, in_range, mul_fixed};

verus! {

/// Mathematical model of one pending mutation.
pub enum EventModel {
    Assign { x: int, y: int, v: int },
    Add { x: int, y: int, d: int },
    Mul { x: int, y: int, f: int },
}

/// One pending mutation of one cell: `Assign` overwrites, `Add` adds, and
/// `Mul` multiplies the raw fixed-point value at column `x`, row `y`.
#[derive(Clone, Copy, Debug, PartialEq, Eq, Structural)]
pub enum Event {
    Assign(usize, usize, i64),
    Add(usize, usize, i64),
    Mul(usize, usize, i64),
}

impl View for Event {
    type V = EventModel;

    open spec fn view(&self) -> EventModel {
        match *self {
            Event::Assign(x, y, v) => EventModel::Assign { x: x as int, y: y as int, v: v as int },
            Event::Add(x, y, d) => EventModel::Add { x: x as int, y: y as int, d: d as int },
            Event::Mul(x, y, f) => EventModel::Mul { x: x as int, y: y as int, f: f as int },
        }
    }
}

/// The event's target cell lies inside a `w`-by-`h` grid.
pub open spec fn event_in_bounds(e: EventModel, w: int, h: int) -> bool {
    match e {
        EventModel::Assign { x, y, v } => 0 <= x < w && 0 <= y < h,
        EventModel::Add { x, y, d } => 0 <= x < w && 0 <= y < h,
        EventModel::Mul { x, y, f } => 0 <= x < w && 0 <= y < h,
    }
}

/// The event's payload is a storable raw value.
pub open spec fn event_payload_ok(e: EventModel) -> bool {
    match e {
        EventModel::Assign { x, y, v } => in_range(v),
        EventModel::Add { x, y, d } => in_range(d),
        EventModel::Mul { x, y, f } => in_range(f),
    }
}

/// The cells of a `w`-by-`h` grid, row-major, after committing one event:
/// `Assign` overwrites, `Add` adds, `Mul` multiplies the target cell in place,
/// each result saturated into the storable range.
pub open spec fn apply_event_spec(g: Seq<int>, w: int, e: EventModel) -> Seq<int> {
    match e {
        EventModel::Assign { x, y, v } => g.update(y * w + x, clamp(v)),
        EventModel::Add { x, y, d } => g.update(y * w + x, clamp(g[y * w + x] + d)),
        EventModel::Mul { x, y, f } => g.update(y * w + x, clamp(mul_fixed(g[y * w + x], f))),
    }
}

/// The cells of a `w`-by-`h` grid after committing a whole sequence of
/// events in order, first element first.
pub open spec fn apply_events_spec(g: Seq<int>, w: int, es: Seq<EventModel>) -> Seq<int>
    decreases es.len(),
{
    if es.len() == 0 {
        g
    } else {
        apply_events_spec(apply_event_spec(g, w, es[0]), w, es.drop_first())
    }
}

/// Committing `es` and then one more event `e` is committing `es.push(e)`:
/// the fold over a queue can be unrolled from its back.
pub proof fn lemma_apply_events_snoc(g: Seq<int>, w: int, es: Seq<EventModel>, e: EventModel)
    ensures
        apply_events_spec(g, w, es.push(e)) == apply_event_spec(apply_events_spec(g, w, es), w, e),
    decreases es.len(),
{
    reveal_with_fuel(apply_events_spec, 2);
    if es.len() == 0 {
        assert(es.push(e).drop_first() =~= Seq::<EventModel>::empty());
        assert(es.push(e)[0] == e);
    } else {
        assert(es.push(e).drop_first() =~= es.drop_first().push(e));
        assert(es.push(e)[0] == es[0]);
        lemma_apply_events_snoc(apply_event_spec(g, w, es[0]), w, es.drop_first(), e);
    }
}

/// An ordered queue of pending mutations for the current tick: appended
/// during the scan phase, drained front to back during the apply phase.
pub struct EventQueue {
    pub items: Vec<Event>,
}

impl View for EventQueue {
    type V = Seq<EventModel>;

    open spec fn view(&self) -> Seq<EventModel> {
        self.items@.map_values(|e: Event| e@)
    }
}

impl EventQueue {
    /// An empty queue.
    pub fn new() -> (q: EventQueue)
        ensures
            q@ =~= Seq::<EventModel>::empty(),
    {
        EventQueue { items: Vec::new() }
    }

    /// Number of pending events.
    pub fn len(&self) -> (n: usize)
        ensures
            n == self@.len(),
    {
        self.items.len()
    }

    /// Append one event at the back of the queue.
    pub fn push(&mut self, e: Event)
        ensures
            final(self)@ =~= old(self)@.push(e@),
    {
        self.items.push(e);
    }
}

} // verus!
