//! Pan and zoom control for an orthographic camera, in fixed-point integers.
//!
//! Scale is counted in millionths, pointer and wheel movement in thousandths
//! of a unit, and camera position in billionths of a world unit, so that a
//! pan (scale times movement) is exact.

pub mod camera;
pub mod pan;
pub mod units;
pub mod zoom;

pub use camera::{CameraState, FrameInput};
pub use pan::{pan_total, PointerDelta, Position};
pub use units::{DELTA_ONE, INITIAL_SCALE, MAX_SCALE, MIN_SCALE, POSITION_ONE, SCALE_ONE, ZOOM_DIVISOR};
pub use zoom::{zoom_all, zoom_step};
