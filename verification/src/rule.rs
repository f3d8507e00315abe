//! Per-channel update policies.
//!
//! A [`RuleTable`] is a pure, stateless policy: given the neighbor sum of
//! a cell and the cell's coordinates it deterministically picks one
//! pending mutation from a five-tier threshold ladder. The three color
//! channels share the ladder's shape and differ only in the named
//! constants of their tables.

use vstd::prelude::*;

use crate::event::{event_payload_ok, Event, EventModel};
use crate::scalar::SCALE;

verus! {

/// One independently evolving scalar field of the composited image.
#[derive(Clone, Copy, Debug, PartialEq, Eq, Structural)]
pub enum Color {
    Red,
    Green,
    Blue,
}

/// Above this neighbor sum the cell decays by a fixed delta.
pub const DECAY_THRESHOLD: i64 = 5 * SCALE;

/// Above this sum (up to `DECAY_THRESHOLD`) the cell is scaled by a
/// factor drawn from its row index.
pub const ROW_FADE_THRESHOLD: i64 = 4 * SCALE;

/// Above this sum (up to `ROW_FADE_THRESHOLD`) the cell is scaled by a
/// factor drawn from both its coordinates.
pub const BAND_THRESHOLD: i64 = 3900;

/// Above this sum (up to `BAND_THRESHOLD`) the cell is scaled by a
/// factor drawn from its column index.
pub const COL_FADE_THRESHOLD: i64 = 3 * SCALE;

/// Raw fixed-point factor `0.9`, used by the two fade tiers.
pub const FADE_FACTOR: i64 = 900;

/// Raw fixed-point factor `1.1`, used by the band tier.
pub const BAND_FACTOR: i64 = 1100;

/// The named constants of one channel's threshold ladder.
///
/// Each field bound below keeps every payload the ladder can emit inside
/// the storable range.
#[derive(Clone, Copy, Debug, PartialEq, Eq, Structural)]
pub struct RuleTable {
    /// Raw delta added above `DECAY_THRESHOLD`.
    pub decay_delta: i64,
    /// Modulus of the row index in the row-fade tier.
    pub row_mod: u64,
    /// Modulus of the column index in the band tier.
    pub band_mod_x: u64,
    /// Modulus of the row index in the band tier.
    pub band_mod_y: u64,
    /// Modulus of the column index in the column-fade tier.
    pub col_mod: u64,
    /// Raw base delta added at or below `COL_FADE_THRESHOLD`; the cell
    /// gains `growth_base * (1 + (x % 2))`.
    pub growth_base: i64,
}

/// The event the ladder picks for neighbor sum `sum` at cell `(x, y)`:
/// - `sum > 5.0`: add `decay_delta`;
/// - `4.0 < sum <= 5.0`: multiply by `0.9 * (y % row_mod)`;
/// - `3.9 < sum <= 4.0`: multiply by `1.1 * ((x % band_mod_x) + (y % band_mod_y))`;
/// - `3.0 < sum <= 3.9`: multiply by `0.9 * (x % col_mod)`;
/// - `sum <= 3.0`: add `growth_base * (1 + (x % 2))`.
pub open spec fn rule_spec(t: RuleTable, sum: int, x: int, y: int) -> EventModel {
    if sum > DECAY_THRESHOLD as int {
        EventModel::Add { x, y, d: t.decay_delta as int }
    } else if sum > ROW_FADE_THRESHOLD as int {
        EventModel::Mul { x, y, f: (FADE_FACTOR as int) * (y % (t.row_mod as int)) }
    } else if sum > BAND_THRESHOLD as int {
        EventModel::Mul {
            x,
            y,
            f: (BAND_FACTOR as int) * ((x % (t.band_mod_x as int)) + (y % (t.band_mod_y as int))),
        }
    } else if sum > COL_FADE_THRESHOLD as int {
        EventModel::Mul { x, y, f: (FADE_FACTOR as int) * (x % (t.col_mod as int)) }
    } else {
        EventModel::Add { x, y, d: (t.growth_base as int) * (1 + (x % 2)) }
    }
}

/// The table each channel starts from.
pub open spec fn rule_for(c: Color) -> RuleTable {
    match c {
        Color::Red => RuleTable {
            decay_delta: -10i64,
            row_mod: 8,
            band_mod_x: 4,
            band_mod_y: 4,
            col_mod: 8,
            growth_base: 10i64,
        },
        Color::Green => RuleTable {
            decay_delta: -10i64,
            row_mod: 8,
            band_mod_x: 8,
            band_mod_y: 8,
            col_mod: 8,
            growth_base: 10i64,
        },
        Color::Blue => RuleTable {
            decay_delta: -10i64,
            row_mod: 4,
            band_mod_x: 8,
            band_mod_y: 8,
            col_mod: 4,
            growth_base: 10i64,
        },
    }
}

impl RuleTable {
    /// Moduli are nonzero and every payload the ladder can emit is a
    /// storable raw value.
    pub open spec fn wf(&self) -> bool {
        &&& 1 <= self.row_mod <= 1000
        &&& 1 <= self.band_mod_x <= 400
        &&& 1 <= self.band_mod_y <= 400
        &&& 1 <= self.col_mod <= 1000
        &&& -500_000 <= self.decay_delta <= 500_000
        &&& -500_000 <= self.growth_base <= 500_000
    }

    /// The per-channel starting table.
    pub fn for_color(c: Color) -> (t: RuleTable)
        ensures
            t == rule_for(c),
            t.wf(),
    {
        match c {
            Color::Red => RuleTable {
                decay_delta: -10,
                row_mod: 8,
                band_mod_x: 4,
                band_mod_y: 4,
                col_mod: 8,
                growth_base: 10,
            },
            Color::Green => RuleTable {
                decay_delta: -10,
                row_mod: 8,
                band_mod_x: 8,
                band_mod_y: 8,
                col_mod: 8,
                growth_base: 10,
            },
            Color::Blue => RuleTable {
                decay_delta: -10,
                row_mod: 4,
                band_mod_x: 8,
                band_mod_y: 8,
                col_mod: 4,
                growth_base: 10,
            },
        }
    }

    /// Evaluate the ladder: pure and side-effect free, one event per call,
    /// always targeting the scanned cell itself.
    pub fn eval(&self, sum: i64, x: usize, y: usize) -> (e: Event)
        requires
            self.wf(),
        ensures
            e@ == rule_spec(*self, sum as int, x as int, y as int),
            event_payload_ok(e@),
    {
        if sum > DECAY_THRESHOLD {
            Event::Add(x, y, self.decay_delta)
        } else if sum > ROW_FADE_THRESHOLD {
            let m = (y as u64) % self.row_mod;
            Event::Mul(x, y, (900u64 * m) as i64)
        } else if sum > BAND_THRESHOLD {
            let mx = (x as u64) % self.band_mod_x;
            let my = (y as u64) % self.band_mod_y;
            Event::Mul(x, y, (1100u64 * (mx + my)) as i64)
        } else if sum > COL_FADE_THRESHOLD {
            let m = (x as u64) % self.col_mod;
            Event::Mul(x, y, (900u64 * m) as i64)
        } else {
            let parity = (x as u64) % 2;
            proof {
                assert(-1_000_000 <= self.growth_base * (1 + parity as i64) <= 1_000_000)
                    by (nonlinear_arith)
                    requires
                        -500_000 <= self.growth_base <= 500_000,
                        0 <= parity <= 1,
                ;
            }
            Event::Add(x, y, self.growth_base * (1 + parity as i64))
        }
    }
}

} // verus!
