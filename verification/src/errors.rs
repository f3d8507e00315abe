//! Engine fault conditions.

use vstd::prelude::*;

verus! {

/// A rejected call into the engine.
///
/// `OutOfRange` reports coordinates outside the grid handed to a direct
/// cell access (wraparound is internal to neighborhood scanning, never a
/// contract of direct access). The other two report a simulation put
/// together from worlds that do not fit each other; they are detected at
/// construction, never at tick time.
#[derive(Clone, Copy, Debug, PartialEq, Eq, Structural)]
pub enum EngineError {
    /// A cell coordinate lies outside the grid.
    OutOfRange,
    /// Worlds of one simulation differ in grid dimensions.
    DimensionMismatch,
    /// A world stands in the place of another color's world.
    WrongColor,
}

} // verus!
