//! The three-channel simulation and its per-pixel composite.
//!
//! A [`Simulation`] owns exactly one world per color, all of identical
//! dimensions. One external frame request advances every world by one
//! generation; the driver then reads per-channel values cell by cell to
//! build its output image. Worlds share no state, so a sample after a
//! tick always reflects that tick's fully applied events.

use vstd::prelude::*;

use crate::errors::EngineError;
use crate::grid::MAX_DIM;
use crate::rule::{rule_for, Color};
use crate::scalar::{clamp_unit, clamp_unit_raw, SCALE};
use crate::world::{tick_spec, World};

verus! {

/// The byte a renderer shows for raw channel value `v`: the value clamped
/// into the unit interval, rescaled from `[0, SCALE]` onto `[0, 255]`.
pub open spec fn intensity_byte(v: int) -> int {
    clamp_unit(v) * 255 / (SCALE as int)
}

/// Rescale one raw channel value onto a display byte.
pub fn channel_byte(v: i64) -> (b: u8)
    ensures
        b as int == intensity_byte(v as int),
{
    let c = clamp_unit_raw(v);
    ((c as u64) * 255 / (SCALE as u64)) as u8
}

/// Three independently evolving worlds, one per color, composited into
/// one image.
pub struct Simulation {
    /// The red channel's world.
    pub red: World,
    /// The green channel's world.
    pub green: World,
    /// The blue channel's world.
    pub blue: World,
}

impl Simulation {
    /// Exactly one world per color, every world internally consistent
    /// with an empty queue (a tick is never left half done), and all
    /// three grids of identical dimensions.
    pub open spec fn inv(&self) -> bool {
        &&& self.red.inv() && self.green.inv() && self.blue.inv()
        &&& self.red.color == Color::Red
        &&& self.green.color == Color::Green
        &&& self.blue.color == Color::Blue
        &&& self.red.events@.len() == 0
        &&& self.green.events@.len() == 0
        &&& self.blue.events@.len() == 0
        &&& self.green.grid.width == self.red.grid.width
        &&& self.blue.grid.width == self.red.grid.width
        &&& self.green.grid.height == self.red.grid.height
        &&& self.blue.grid.height == self.red.grid.height
    }

    /// Three zero-initialized worlds (red, green, blue) of the given
    /// fixed dimensions.
    pub fn new(width: usize, height: usize) -> (s: Simulation)
        requires
            1 <= width <= MAX_DIM,
            1 <= height <= MAX_DIM,
        ensures
            s.inv(),
            s.red.grid.width == width,
            s.red.grid.height == height,
            s.red.rule == rule_for(Color::Red),
            s.green.rule == rule_for(Color::Green),
            s.blue.rule == rule_for(Color::Blue),
            forall|i: int| 0 <= i < s.red.grid@.len() ==> s.red.grid@[i] == 0,
            forall|i: int| 0 <= i < s.green.grid@.len() ==> s.green.grid@[i] == 0,
            forall|i: int| 0 <= i < s.blue.grid@.len() ==> s.blue.grid@[i] == 0,
            s.red.grid@.len() == width * height,
            s.green.grid@.len() == width * height,
            s.blue.grid@.len() == width * height,
    {
        Simulation {
            red: World::new(Color::Red, width, height),
            green: World::new(Color::Green, width, height),
            blue: World::new(Color::Blue, width, height),
        }
    }

    /// Assemble a simulation from three already built worlds. Rejects
    /// worlds standing in the wrong color's place, then worlds of
    /// mismatched dimensions; both are construction-time faults, never
    /// tick-time ones.
    pub fn from_worlds(red: World, green: World, blue: World) -> (r: Result<
        Simulation,
        EngineError,
    >)
        requires
            red.inv(),
            green.inv(),
            blue.inv(),
            red.events@.len() == 0,
            green.events@.len() == 0,
            blue.events@.len() == 0,
        ensures
            match r {
                Ok(s) => s.red == red && s.green == green && s.blue == blue && s.inv(),
                Err(e) => {
                    ||| (e == EngineError::WrongColor && !(red.color == Color::Red && green.color
                        == Color::Green && blue.color == Color::Blue))
                    ||| (e == EngineError::DimensionMismatch && red.color == Color::Red
                        && green.color == Color::Green && blue.color == Color::Blue && !(
                    green.grid.width == red.grid.width && blue.grid.width == red.grid.width
                        && green.grid.height == red.grid.height && blue.grid.height
                        == red.grid.height))
                },
            },
    {
        let colors_ok = matches!(red.color, Color::Red) && matches!(green.color, Color::Green)
            && matches!(blue.color, Color::Blue);
        if !colors_ok {
            return Err(EngineError::WrongColor);
        }
        if green.grid.width != red.grid.width || blue.grid.width != red.grid.width
            || green.grid.height != red.grid.height || blue.grid.height != red.grid.height {
            return Err(EngineError::DimensionMismatch);
        }
        Ok(Simulation { red, green, blue })
    }

    /// Number of columns shared by all three grids.
    pub fn width(&self) -> (w: usize)
        ensures
            w == self.red.grid.width,
    {
        self.red.grid.width
    }

    /// Number of rows shared by all three grids.
    pub fn height(&self) -> (h: usize)
        ensures
            h == self.red.grid.height,
    {
        self.red.grid.height
    }

    /// Advance every world by one generation. Worlds are independent
    /// (disjoint grids, disjoint queues), so their order does not matter:
    /// each channel's new grid is a pure function of its own prior grid
    /// and its own rule.
    pub fn tick(&mut self)
        requires
            old(self).inv(),
        ensures
            final(self).inv(),
            final(self).red.grid.width == old(self).red.grid.width,
            final(self).red.grid.height == old(self).red.grid.height,
            final(self).red.rule == old(self).red.rule,
            final(self).green.rule == old(self).green.rule,
            final(self).blue.rule == old(self).blue.rule,
            final(self).red.grid@ == tick_spec(
                old(self).red.grid@,
                old(self).red.grid.width as int,
                old(self).red.grid.height as int,
                old(self).red.rule,
            ),
            final(self).green.grid@ == tick_spec(
                old(self).green.grid@,
                old(self).green.grid.width as int,
                old(self).green.grid.height as int,
                old(self).green.rule,
            ),
            final(self).blue.grid@ == tick_spec(
                old(self).blue.grid@,
                old(self).blue.grid.width as int,
                old(self).blue.grid.height as int,
                old(self).blue.rule,
            ),
    {
        self.red.tick();
        self.green.tick();
        self.blue.tick();
    }

    /// Pure read of the three channel values at `(x, y)`, each clamped
    /// into the unit interval; rejects out-of-range coordinates instead
    /// of wrapping them.
    pub fn sample(&self, x: usize, y: usize) -> (r: Result<(i64, i64, i64), EngineError>)
        requires
            self.inv(),
        ensures
            match r {
                Ok(v) => x < self.red.grid.width && y < self.red.grid.height
                    && v.0 as int == clamp_unit(self.red.grid.cell(x as int, y as int))
                    && v.1 as int == clamp_unit(self.green.grid.cell(x as int, y as int))
                    && v.2 as int == clamp_unit(self.blue.grid.cell(x as int, y as int)),
                Err(e) => (x >= self.red.grid.width || y >= self.red.grid.height) && e
                    == EngineError::OutOfRange,
            },
    {
        let rv = self.red.get_data_at(x, y);
        let gv = self.green.get_data_at(x, y);
        let bv = self.blue.get_data_at(x, y);
        match (rv, gv, bv) {
            (Ok(a), Ok(b), Ok(c)) => Ok((a, b, c)),
            _ => Err(EngineError::OutOfRange),
        }
    }

    /// The composited pixel at `(x, y)`: each channel's clamped value
    /// rescaled onto a display byte; rejects out-of-range coordinates.
    pub fn pixel_at(&self, x: usize, y: usize) -> (r: Result<(u8, u8, u8), EngineError>)
        requires
            self.inv(),
        ensures
            match r {
                Ok(p) => x < self.red.grid.width && y < self.red.grid.height
                    && p.0 as int == intensity_byte(self.red.grid.cell(x as int, y as int))
                    && p.1 as int == intensity_byte(self.green.grid.cell(x as int, y as int))
                    && p.2 as int == intensity_byte(self.blue.grid.cell(x as int, y as int)),
                Err(e) => (x >= self.red.grid.width || y >= self.red.grid.height) && e
                    == EngineError::OutOfRange,
            },
    {
        match self.sample(x, y) {
            Ok((a, b, c)) => Ok((channel_byte(a), channel_byte(b), channel_byte(c))),
            Err(e) => Err(e),
        }
    }
}

} // verus!
