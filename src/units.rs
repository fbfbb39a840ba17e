use vstd::prelude::*;

verus! {

/// Zoom scale 1.0, counted in millionths.
pub const SCALE_ONE: u64 = 1_000_000;

/// The smallest zoom scale the camera takes: 0.001.
pub const MIN_SCALE: u64 = 1_000;

/// The largest zoom scale the camera takes: 1.0.
pub const MAX_SCALE: u64 = 1_000_000;

/// The zoom scale a camera starts with: 0.1.
pub const INITIAL_SCALE: u64 = 100_000;

/// One unit of pointer or wheel movement, counted in thousandths.
pub const DELTA_ONE: i64 = 1_000;

/// Wheel movement that would shrink the scale to nothing: five units.
pub const ZOOM_DIVISOR: i64 = 5_000;

/// One world unit of camera position, counted in billionths: a scale unit
/// times a movement unit.
pub const POSITION_ONE: i128 = 1_000_000_000;

} // verus!
