use cellsim::errors::EngineError;
use cellsim::event::{Event, EventQueue};
use cellsim::grid::Grid;
use cellsim::rule::{Color, RuleTable};
use cellsim::scalar::{add_raw, clamp_unit_raw, clamp_raw, mul_raw, MAX_RAW, SCALE};
use cellsim::sim::{channel_byte, Simulation};
use cellsim::world::World;

fn raw(units: f64) -> i64 {
    (units * SCALE as f64).round() as i64
}

#[test]
fn new_simulation_is_zero() {
    let sim = Simulation::new(4, 4);
    assert_eq!(sim.width(), 4);
    assert_eq!(sim.height(), 4);
    for y in 0..4 {
        for x in 0..4 {
            assert_eq!(sim.sample(x, y), Ok((0, 0, 0)));
            assert_eq!(sim.pixel_at(x, y), Ok((0, 0, 0)));
        }
    }
}

#[test]
fn sample_rejects_out_of_range() {
    let sim = Simulation::new(4, 3);
    assert_eq!(sim.sample(4, 0), Err(EngineError::OutOfRange));
    assert_eq!(sim.sample(0, 3), Err(EngineError::OutOfRange));
    assert_eq!(sim.pixel_at(9, 9), Err(EngineError::OutOfRange));
}

#[test]
fn read_write_reject_out_of_range() {
    let mut g = Grid::new(3, 2);
    assert_eq!(g.read(3, 0), Err(EngineError::OutOfRange));
    assert_eq!(g.read(0, 2), Err(EngineError::OutOfRange));
    assert_eq!(g.write(3, 0, 5), Err(EngineError::OutOfRange));
    assert_eq!(g.write(0, 0, 5), Ok(()));
    assert_eq!(g.read(0, 0), Ok(5));
}

#[test]
fn neighbor_sum_wraps_both_axes() {
    // Every non-wrapped neighbor of (0, 0) is zero; only the far corner,
    // reached by wrapping both axes, holds a value.
    let mut g = Grid::new(4, 4);
    g.write(3, 3, raw(1.0)).unwrap();
    let sum = g.neighbor_sum(0, 0, 1);
    assert_eq!(sum, raw(1.0));
    assert!(sum != 0);
}

#[test]
fn neighbor_sum_window_is_asymmetric() {
    // The radius-1 window spans offsets [-1, 1) per axis: cells below and
    // left are in, cells above and right are out.
    let mut g = Grid::new(4, 4);
    g.write(2, 2, raw(0.7)).unwrap();
    assert_eq!(g.neighbor_sum(1, 1, 1), 0);
    g.write(0, 0, raw(0.5)).unwrap();
    assert_eq!(g.neighbor_sum(1, 1, 1), raw(0.5));
    // The cell itself is part of its own window.
    assert_eq!(g.neighbor_sum(2, 2, 1), raw(0.7));
}

#[test]
fn single_cell_torus_wraps_onto_itself() {
    // On a 1x1 grid every offset of the radius-1 window wraps back to the
    // one cell, so the sum counts it four times.
    let mut g = Grid::new(1, 1);
    g.write(0, 0, 250).unwrap();
    assert_eq!(g.neighbor_sum(0, 0, 1), 1000);
    // A radius of zero spans an empty window.
    assert_eq!(g.neighbor_sum(0, 0, 0), 0);
}

#[test]
fn fifo_assign_then_add() {
    let mut g = Grid::new(2, 2);
    g.apply_event(&Event::Assign(1, 1, raw(1.0)));
    g.apply_event(&Event::Add(1, 1, raw(2.0)));
    assert_eq!(g.read(1, 1), Ok(raw(3.0)));
}

#[test]
fn fifo_order_through_world_queue() {
    let mut w = World::new(Color::Red, 3, 3);
    w.events.push(Event::Assign(0, 0, raw(1.0)));
    w.events.push(Event::Add(0, 0, raw(2.0)));
    w.apply();
    assert_eq!(w.grid.read(0, 0), Ok(raw(3.0)));
    assert_eq!(w.events.len(), 0);

    // The reversed order ends at 1.0: ties break by enqueue order.
    let mut w2 = World::new(Color::Red, 3, 3);
    w2.events.push(Event::Add(0, 0, raw(2.0)));
    w2.events.push(Event::Assign(0, 0, raw(1.0)));
    w2.apply();
    assert_eq!(w2.grid.read(0, 0), Ok(raw(1.0)));
}

#[test]
fn scan_leaves_grid_untouched() {
    // Phase isolation: no event produced while scanning is visible in the
    // grid before the apply phase begins.
    let mut w = World::new(Color::Green, 3, 3);
    w.write(0, 0, raw(0.4)).unwrap();
    w.scan();
    assert_eq!(w.events.len(), 9);
    assert_eq!(w.grid.read(0, 0), Ok(raw(0.4)));
    for y in 0..3 {
        for x in 0..3 {
            if (x, y) != (0, 0) {
                assert_eq!(w.grid.read(x, y), Ok(0));
            }
        }
    }
    w.apply();
    // Only now do the scanned events land: every sum was at most 0.4, so
    // each cell gained 0.01 * (1 + (x % 2)).
    assert_eq!(w.grid.read(0, 0), Ok(raw(0.4) + 10));
    assert_eq!(w.grid.read(1, 0), Ok(20));
}

#[test]
fn zero_add_rule_leaves_grid_unchanged() {
    // A rule that emits Add(x, y, 0) for every cell: a tick is a no-op.
    let grid = {
        let mut g = Grid::new(3, 3);
        g.write(1, 1, raw(0.2)).unwrap();
        g.write(2, 0, raw(0.3)).unwrap();
        g
    };
    let mut w = World {
        color: Color::Green,
        grid,
        events: EventQueue::new(),
        rule: RuleTable {
            decay_delta: -10,
            row_mod: 8,
            band_mod_x: 8,
            band_mod_y: 8,
            col_mod: 8,
            growth_base: 0,
        },
    };
    w.tick();
    assert_eq!(w.events.len(), 0);
    assert_eq!(w.grid.read(1, 1), Ok(raw(0.2)));
    assert_eq!(w.grid.read(2, 0), Ok(raw(0.3)));
    assert_eq!(w.grid.read(0, 0), Ok(0));
    assert_eq!(w.grid.read(2, 2), Ok(0));
}

#[test]
fn sample_scenario_low_sums_take_growth_tier() {
    // A 4x4 grid with one cell at 0.5: every neighbor sum stays at or
    // below 3.0, so after one tick each cell gains 0.01 * (1 + (x % 2)).
    let mut w = World::new(Color::Green, 4, 4);
    w.write(1, 1, raw(0.5)).unwrap();
    w.tick();
    assert_eq!(w.get_data_at(1, 1), Ok(raw(0.5) + 20));
    for y in 0..4 {
        for x in 0..4 {
            if (x, y) != (1, 1) {
                let expected = 10 * (1 + (x as i64 % 2));
                assert_eq!(w.get_data_at(x, y), Ok(expected));
            }
        }
    }
}

#[test]
fn row_fade_tier_scales_through_a_tick() {
    // One cell at 4.5: the four cells whose windows contain it sum to
    // 4.5, landing in the row-fade tier (Mul by 0.9 * (y % 8)); every
    // other cell sums to 0 and takes the growth tier.
    let mut w = World::new(Color::Green, 4, 4);
    w.write(0, 1, raw(4.5)).unwrap();
    w.tick();
    // (0, 1) is scaled by 0.9 * (1 % 8) = 0.9.
    assert_eq!(w.grid.read(0, 1), Ok(raw(4.5 * 0.9)));
    // (1, 1) is in the same tier but held 0.
    assert_eq!(w.grid.read(1, 1), Ok(0));
    // Cells outside every affected window grow by 0.01 * (1 + (x % 2)).
    assert_eq!(w.grid.read(2, 2), Ok(10));
    assert_eq!(w.grid.read(3, 3), Ok(20));
}

#[test]
fn ticks_are_deterministic() {
    let seed = |sim: &mut Simulation| {
        sim.red.write(2, 1, raw(0.8)).unwrap();
        sim.green.write(0, 3, raw(0.6)).unwrap();
        sim.blue.write(4, 2, raw(0.9)).unwrap();
    };
    let mut a = Simulation::new(5, 4);
    let mut b = Simulation::new(5, 4);
    seed(&mut a);
    seed(&mut b);
    for _ in 0..3 {
        a.tick();
        b.tick();
    }
    for y in 0..4 {
        for x in 0..5 {
            assert_eq!(a.sample(x, y), b.sample(x, y));
        }
    }
}

#[test]
fn rule_ladder_tiers() {
    let green = RuleTable::for_color(Color::Green);
    assert_eq!(green.eval(5001, 3, 5), Event::Add(3, 5, -10));
    assert_eq!(green.eval(5000, 3, 5), Event::Mul(3, 5, 900 * (5 % 8)));
    assert_eq!(green.eval(4500, 2, 9), Event::Mul(2, 9, 900 * (9 % 8)));
    assert_eq!(green.eval(4000, 3, 5), Event::Mul(3, 5, 1100 * ((3 % 8) + (5 % 8))));
    assert_eq!(green.eval(3950, 10, 11), Event::Mul(10, 11, 1100 * ((10 % 8) + (11 % 8))));
    assert_eq!(green.eval(3500, 10, 0), Event::Mul(10, 0, 900 * (10 % 8)));
    assert_eq!(green.eval(3000, 3, 0), Event::Add(3, 0, 20));
    assert_eq!(green.eval(0, 2, 0), Event::Add(2, 0, 10));

    let blue = RuleTable::for_color(Color::Blue);
    assert_eq!(blue.eval(4500, 0, 7), Event::Mul(0, 7, 900 * (7 % 4)));
    assert_eq!(blue.eval(3500, 7, 0), Event::Mul(7, 0, 900 * (7 % 4)));

    let red = RuleTable::for_color(Color::Red);
    assert_eq!(red.eval(3950, 5, 6), Event::Mul(5, 6, 1100 * ((5 % 4) + (6 % 4))));
}

#[test]
fn scalar_fixed_point_ops() {
    // 0.5 * 2.0 == 1.0
    assert_eq!(mul_raw(raw(0.5), raw(2.0)), raw(1.0));
    // Sign handling and truncation toward zero.
    assert_eq!(mul_raw(-raw(0.5), raw(2.0)), -raw(1.0));
    assert_eq!(mul_raw(333, 100), 33);
    assert_eq!(mul_raw(-333, 100), -33);
    // Saturation at the storable bounds.
    assert_eq!(add_raw(MAX_RAW, MAX_RAW), MAX_RAW);
    assert_eq!(add_raw(-MAX_RAW, -5), -MAX_RAW);
    assert_eq!(clamp_raw(MAX_RAW + 7), MAX_RAW);
    assert_eq!(clamp_raw(-MAX_RAW - 7), -MAX_RAW);
    assert_eq!(clamp_raw(42), 42);
    // The unit clamp used by sampling.
    assert_eq!(clamp_unit_raw(-5), 0);
    assert_eq!(clamp_unit_raw(SCALE + 1), SCALE);
    assert_eq!(clamp_unit_raw(500), 500);
}

#[test]
fn channel_bytes_rescale_unit_interval() {
    assert_eq!(channel_byte(raw(1.0)), 255);
    assert_eq!(channel_byte(raw(0.5)), 127);
    assert_eq!(channel_byte(0), 0);
    assert_eq!(channel_byte(-raw(0.2)), 0);
    assert_eq!(channel_byte(raw(2.0)), 255);
}

#[test]
fn from_worlds_checks_colors_and_dimensions() {
    let r = World::new(Color::Red, 4, 4);
    let g = World::new(Color::Green, 4, 4);
    let b = World::new(Color::Blue, 4, 4);
    assert!(Simulation::from_worlds(r, g, b).is_ok());

    let r = World::new(Color::Red, 4, 4);
    let g = World::new(Color::Red, 4, 4);
    let b = World::new(Color::Blue, 4, 4);
    assert_eq!(
        Simulation::from_worlds(r, g, b).err(),
        Some(EngineError::WrongColor)
    );

    let r = World::new(Color::Red, 4, 4);
    let g = World::new(Color::Green, 4, 5);
    let b = World::new(Color::Blue, 4, 4);
    assert_eq!(
        Simulation::from_worlds(r, g, b).err(),
        Some(EngineError::DimensionMismatch)
    );
}

#[test]
fn decay_tier_reduces_dense_cells() {
    // Fill a 2x2 world so every radius-1 window (which covers the whole
    // wrapped torus there, 4 cells) sums above 5.0.
    let mut w = World::new(Color::Blue, 2, 2);
    for y in 0..2 {
        for x in 0..2 {
            w.write(x, y, raw(1.5)).unwrap();
        }
    }
    w.tick();
    for y in 0..2 {
        for x in 0..2 {
            // Each window sums to 6.0 > 5.0: Add(-0.01).
            assert_eq!(w.grid.read(x, y), Ok(raw(1.5) - 10));
        }
    }
}

#[test]
fn get_color_reports_channel() {
    assert_eq!(World::new(Color::Red, 2, 2).get_color(), Color::Red);
    assert_eq!(World::new(Color::Blue, 2, 2).get_color(), Color::Blue);
}
