//! The ways in which a great-circle computation can be refused.
use vstd::prelude::*;

verus! {

/// Why a computation has no result.
#[derive(Clone, Copy, Debug, PartialEq, Eq, Structural)]
pub enum Error {
    /// Two positions are antipodal, so no single great circle passes through both.
    AntipodalPositions,
    /// Two great circles are the same (or opposite), so they have no single intersection.
    CoincidentalPath,
    /// Two positions are the same.
    CoincidentalPositions,
    /// Two minor arcs do not intersect.
    NoIntersection,
    /// A mean was asked of no position at all.
    NotEnoughPositions,
    /// A fraction lies outside `[0, 1]`.
    OutOfRange,
}

} // verus!
