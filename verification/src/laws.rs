//! Engine-wide laws, stated and proved over the same spec functions the
//! executable contracts use.

use vstd::prelude::*;

use vstd::arithmetic::div_mod::{lemma_mod_add_multiples_vanish, lemma_small_mod};

use crate::event::{apply_event_spec, apply_events_spec, EventModel};
use crate::grid::{neighbor_sum_spec, row_sum_spec, window_cell, window_rows_spec, wrap_coord};
use crate::rule::RuleTable;
use crate::scalar::{in_range, SCALE};
use crate::world::tick_spec;

verus! {

/// Determinism: the grid a tick leaves behind is a function of the prior
/// grid and the rule constants alone, so two ticks from equal states end
/// in equal states, no matter how the scan work was interleaved.
pub proof fn lemma_tick_deterministic(
    g1: Seq<int>,
    g2: Seq<int>,
    w: int,
    h: int,
    t1: RuleTable,
    t2: RuleTable,
)
    requires
        g1 == g2,
        t1 == t2,
    ensures
        tick_spec(g1, w, h, t1) == tick_spec(g2, w, h, t2),
{
}

/// Toroidal wraparound: the radius-1 scan window of the corner cell
/// `(0, 0)` wraps in both axes, so it consists of the opposite corner
/// `(w-1, h-1)`, the two cells wrapped in one axis each, and the corner
/// itself.
pub proof fn lemma_neighbor_sum_wraps(g: Seq<int>, w: int, h: int)
    requires
        2 <= w,
        2 <= h,
    ensures
        neighbor_sum_spec(g, w, h, 0, 0, 1) == g[(h - 1) * w + (w - 1)] + g[(h - 1) * w] + g[w - 1]
            + g[0],
{
    lemma_mod_add_multiples_vanish(-1, w);
    lemma_mod_add_multiples_vanish(-1, h);
    lemma_small_mod((w - 1) as nat, w as nat);
    lemma_small_mod((h - 1) as nat, h as nat);
    lemma_small_mod(0nat, w as nat);
    lemma_small_mod(0nat, h as nat);
    assert(wrap_coord(-1, w) == w - 1);
    assert(wrap_coord(-1, h) == h - 1);
    assert(wrap_coord(0, w) == 0);
    assert(wrap_coord(0, h) == 0);
    reveal_with_fuel(window_rows_spec, 3);
    reveal_with_fuel(row_sum_spec, 3);
    assert(window_cell(g, w, h, 0, 0, 1, 0, 0) == g[(h - 1) * w + (w - 1)]);
    assert(window_cell(g, w, h, 0, 0, 1, 0, 1) == g[(h - 1) * w]);
    assert(window_cell(g, w, h, 0, 0, 1, 1, 0) == g[w - 1]);
    assert(window_cell(g, w, h, 0, 0, 1, 1, 1) == g[0]);
}

/// First-in, first-out apply order: an `Assign` of `1.0` followed by an
/// `Add` of `2.0` on the same cell leaves `3.0` there, never `1.0`.
pub proof fn lemma_fifo_assign_then_add(g: Seq<int>, w: int, x: int, y: int)
    requires
        0 <= y * w + x < g.len(),
    ensures
        apply_events_spec(
            g,
            w,
            seq![
                EventModel::Assign { x, y, v: SCALE as int },
                EventModel::Add { x, y, d: 2 * SCALE as int },
            ],
        )[y * w + x] == 3 * SCALE as int,
{
    let es = seq![
        EventModel::Assign { x, y, v: SCALE as int },
        EventModel::Add { x, y, d: 2 * SCALE as int },
    ];
    reveal_with_fuel(apply_events_spec, 4);
    let g1 = apply_event_spec(g, w, es[0]);
    assert(g1[y * w + x] == SCALE as int);
    assert(es.drop_first() =~= seq![EventModel::Add { x, y, d: 2 * SCALE as int }]);
    assert(es.drop_first().drop_first() =~= Seq::<EventModel>::empty());
    let g2 = apply_event_spec(g1, w, es.drop_first()[0]);
    assert(g2[y * w + x] == 3 * SCALE as int);
    assert(apply_events_spec(g, w, es) == g2);
}

/// An event that cannot change anything: an in-bounds `Add` of zero.
pub open spec fn is_null_add(e: EventModel, w: int, n: int) -> bool {
    match e {
        EventModel::Add { x, y, d } => d == 0 && 0 <= y * w + x < n,
        _ => false,
    }
}

/// Idempotent empty tick: a queue that holds only in-bounds `Add`s of
/// zero leaves every storable grid numerically unchanged.
pub proof fn lemma_zero_adds_leave_grid(g: Seq<int>, w: int, es: Seq<EventModel>)
    requires
        forall|i: int| 0 <= i < g.len() ==> in_range(#[trigger] g[i]),
        forall|i: int| 0 <= i < es.len() ==> is_null_add(#[trigger] es[i], w, g.len() as int),
    ensures
        apply_events_spec(g, w, es) == g,
    decreases es.len(),
{
    if es.len() == 0 {
    } else {
        assert(is_null_add(es[0], w, g.len() as int));
        match es[0] {
            EventModel::Add { x, y, d } => {
                let i = y * w + x;
                assert(apply_event_spec(g, w, es[0]) == g.update(i, g[i]));
                assert(g.update(i, g[i]) =~= g);
            },
            _ => {
                assert(false);
            },
        }
        assert(forall|i: int|
            0 <= i < es.drop_first().len() ==> is_null_add(
                #[trigger] es.drop_first()[i],
                w,
                g.len() as int,
            ));
        lemma_zero_adds_leave_grid(g, w, es.drop_first());
    }
}

} // verus!
