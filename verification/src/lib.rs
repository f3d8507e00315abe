//! A toroidal cellular-automaton engine with three independent scalar
//! fields (one per color channel), evolving under per-channel threshold
//! rules and composited into per-pixel color intensities.
//!
//! Cell values are fixed-point numbers: `i64` raw units with
//! [`scalar::SCALE`] raw units to one scalar unit, saturating at
//! `±`[`scalar::MAX_RAW`].

pub mod errors;
pub mod event;
pub mod grid;
pub mod laws;
pub mod rule;
pub mod scalar;
pub mod sim;
pub mod world;
