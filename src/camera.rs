use vstd::prelude::*;

use crate::pan::{pan_total, sum_dx, sum_dy, PointerDelta, Position};
use crate::units::{INITIAL_SCALE, POSITION_ONE};
use crate::zoom::{lemma_zoom_fold_in_bounds, scale_in_bounds, zoom_all, zoom_fold};

verus! {

/// What one frame hands the camera rig: the pointer movements and wheel
/// events received since the last frame, in order of arrival, and whether
/// the middle button is held.
#[derive(Debug)]
pub struct FrameInput {
    pub pointer_deltas: Vec<PointerDelta>,
    /// Vertical wheel movement of each event, in thousandths of a unit.
    pub scroll_deltas: Vec<i64>,
    pub middle_button_held: bool,
}

/// The controllable camera: its position and its zoom scale (in millionths).
#[derive(Clone, Copy, Debug, PartialEq, Eq, Structural)]
pub struct CameraState {
    pub position: Position,
    pub zoom_scale: u64,
}

impl CameraState {
    /// The zoom scale lies within `[MIN_SCALE, MAX_SCALE]`.
    pub open spec fn wf(&self) -> bool {
        scale_in_bounds(self.zoom_scale as int)
    }

    /// True when panning by `ds` at the current scale stays within the range
    /// of a position coordinate, the pan offset included.
    pub open spec fn pan_fits(&self, ds: Seq<PointerDelta>) -> bool {
        &&& i128::MIN <= self.zoom_scale * sum_dx(ds) <= i128::MAX
        &&& i128::MIN <= self.zoom_scale * sum_dy(ds) <= i128::MAX
        &&& i128::MIN <= self.position.x + self.zoom_scale * sum_dx(ds) <= i128::MAX
        &&& i128::MIN <= self.position.y + self.zoom_scale * sum_dy(ds) <= i128::MAX
    }

    /// True when the frame `input` can be applied without leaving the range
    /// of a position coordinate.
    pub open spec fn update_fits(&self, input: &FrameInput) -> bool {
        input.middle_button_held ==> self.pan_fits(input.pointer_deltas@)
    }

    /// The camera as it is created: at `(0, 0, -2)` with scale 0.1.
    pub fn new() -> (r: CameraState)
        ensures
            r.wf(),
            r.position.x == 0,
            r.position.y == 0,
            r.position.z == -2 * POSITION_ONE,
            r.zoom_scale == INITIAL_SCALE,
    {
        CameraState { position: Position { x: 0, y: 0, z: -2 * POSITION_ONE }, zoom_scale: INITIAL_SCALE }
    }

    /// Pans the camera by the sum of the movements `ds` times the current
    /// scale, in the view plane; depth and scale are kept.
    pub fn apply_pan(&mut self, ds: &Vec<PointerDelta>)
        requires
            old(self).pan_fits(ds@),
        ensures
            final(self).position.x == old(self).position.x + old(self).zoom_scale * sum_dx(ds@),
            final(self).position.y == old(self).position.y + old(self).zoom_scale * sum_dy(ds@),
            final(self).position.z == old(self).position.z,
            final(self).zoom_scale == old(self).zoom_scale,
    {
        let (sx, sy) = pan_total(ds);
        let s: i128 = self.zoom_scale as i128;
        let ox: i128 = s * sx;
        let oy: i128 = s * sy;
        self.position.x = self.position.x + ox;
        self.position.y = self.position.y + oy;
    }

    /// Applies the wheel events `ds` to the zoom scale one by one, in order;
    /// the position is kept.
    pub fn apply_scroll(&mut self, ds: &Vec<i64>)
        ensures
            final(self).zoom_scale == zoom_fold(old(self).zoom_scale as int, ds@),
            final(self).position == old(self).position,
            old(self).wf() ==> final(self).wf(),
    {
        self.zoom_scale = zoom_all(self.zoom_scale, ds);
        proof {
            if old(self).wf() {
                lemma_zoom_fold_in_bounds(old(self).zoom_scale as int, ds@);
            }
        }
    }

    /// One frame of the camera rig. With the middle button held the camera
    /// pans by the scale times the sum of the pointer movements; without it
    /// the movements are discarded. Then each wheel event scales the zoom in
    /// order of arrival, clamped after each one.
    pub fn update(&mut self, input: &FrameInput)
        requires
            old(self).wf(),
            old(self).update_fits(input),
        ensures
            final(self).wf(),
            final(self).zoom_scale == zoom_fold(old(self).zoom_scale as int, input.scroll_deltas@),
            input.middle_button_held ==> final(self).position.x == old(self).position.x
                + old(self).zoom_scale * sum_dx(input.pointer_deltas@),
            input.middle_button_held ==> final(self).position.y == old(self).position.y
                + old(self).zoom_scale * sum_dy(input.pointer_deltas@),
            !input.middle_button_held ==> final(self).position == old(self).position,
            final(self).position.z == old(self).position.z,
    {
        if input.middle_button_held {
            self.apply_pan(&input.pointer_deltas);
        }
        self.apply_scroll(&input.scroll_deltas);
    }

    /// Whether `update` may be called with `input`: false only where a
    /// position coordinate would leave its range.
    pub fn can_update(&self, input: &FrameInput) -> (r: bool)
        ensures
            r == self.update_fits(input),
    {
        if !input.middle_button_held {
            return true;
        }
        let (sx, sy) = pan_total(&input.pointer_deltas);
        let s: i128 = self.zoom_scale as i128;
        match (s.checked_mul(sx), s.checked_mul(sy)) {
            (Some(ox), Some(oy)) => {
                self.position.x.checked_add(ox).is_some() && self.position.y.checked_add(oy).is_some()
            },
            _ => false,
        }
    }
}

} // verus!
