//! The engine-to-device coordinate mapper.
//!
//! Engine coordinates are signed integers with a nominal range of
//! about ±400 per axis; the rendering backend works in device units
//! where engine coordinate ±200 maps to device ±1.0 (so ±400 maps to
//! ±2.0 — intentionally wider than the backend's ±1.0 clip range).
//!
//! Device values are represented exactly as fixed-point numerators
//! over the denominator [`COORD_DEN`]: the device value of a numerator
//! `q` is `q / 400`. An engine coordinate `x` maps to the device value
//! `x / 200`, that is the numerator `2 * x`. The quarter-denominator
//! representation keeps every half extent (`coord(w) / 2`, numerator
//! `w`) exact as well.

use vstd::prelude::*;

verus! {

/// The fixed-point denominator for device coordinates: a numerator of
/// 400 stands for the device value 1.0.
pub const COORD_DEN: i64 = 400;

/// The device-coordinate numerator of an engine coordinate:
/// `coord(x) = x / 200`, that is `2 * x` over [`COORD_DEN`].
pub open spec fn coord_spec(x: i32) -> int {
    2 * x
}

/// Converts an engine coordinate to a device coordinate, returned as
/// a fixed-point numerator over [`COORD_DEN`].
pub fn coord(x: i32) -> (q: i64)
    ensures
        q == coord_spec(x),
{
    2 * (x as i64)
}

/// The coordinate mapping is linear and strictly monotonic: it fixes
/// zero, engine 200 is device one (a numerator of [`COORD_DEN`]),
/// engine -200 is device minus one, and larger engine coordinates map
/// to strictly larger device coordinates.
pub proof fn lemma_coord_linear(x: i32, y: i32)
    ensures
        coord_spec(0) == 0,
        coord_spec(200) == COORD_DEN,
        coord_spec(-200i32) == -(COORD_DEN as int),
        x < y ==> coord_spec(x) < coord_spec(y),
{
}

} // verus!
