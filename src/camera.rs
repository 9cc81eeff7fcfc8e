use vstd::prelude::*;
use crate::frac::{Frac, product};
use crate::letterbox::{Letterbox, placed, set_letterboxes_horizontal, set_letterboxes_vertical};
use crate::viewport::{Projection, ScalingMode, ScreenUnits, bar_for, mode_for, scale_for};

verus! {

/// A window was resized to `width` by `height` pixels.
#[derive(Clone, Copy, Debug, PartialEq, Eq, Structural)]
pub struct ResizeEvent {
    pub width: u32,
    pub height: u32,
    /// The event concerns the primary window.
    pub is_primary: bool,
}

/// The camera of a new 2D scene: one unit per pixel, at scale 1.
pub fn setup_camera() -> (r: Projection)
    ensures
        r.scaling_mode == ScalingMode::WindowSize,
        r.scale@ == (1int, 1int),
        r.scale.wf(),
{
    Projection { scaling_mode: ScalingMode::WindowSize, scale: Frac::whole(1) }
}

/// `events[i]` is the first event of the primary window.
pub open spec fn is_first_primary(events: Seq<ResizeEvent>, i: int) -> bool {
    &&& 0 <= i < events.len()
    &&& events[i].is_primary
    &&& forall|j: int| 0 <= j < i ==> !(#[trigger] events[j]).is_primary
}

/// The camera and the bars after the primary window was resized by `e`.
/// The camera takes the mode and scale that fit the window. The bars are
/// placed for a window with area; a window of zero width or height has no
/// size in viewport units to pad, and leaves the bars as they were.
pub open spec fn resized(
    u: ScreenUnits,
    e: ResizeEvent,
    camera_before: Projection,
    camera_after: Projection,
    bars_before: Seq<Letterbox>,
    bars_after: Seq<Letterbox>,
) -> bool {
    let (ww, wh) = (e.width as int, e.height as int);
    &&& camera_after.scaling_mode == mode_for(u, ww, wh)
    &&& camera_after.scale@ == scale_for(u, ww, wh)
    &&& camera_after.scale.wf()
    &&& if e.width == 0 || e.height == 0 {
        bars_after == bars_before
    } else {
        &&& bars_after.len() == bars_before.len()
        &&& forall|k: int|
            0 <= k < bars_before.len() ==> placed(
                #[trigger] bars_before[k],
                bars_after[k],
                bar_for(u, ww, wh, 0),
                bar_for(u, ww, wh, 1),
            )
    }
}

/// Fits the camera and the bars to the first event of the primary window in
/// `resize_events`; the events that follow it, and those of other windows,
/// are ignored.
pub fn change_camera_scaling(
    orthographic_projection: &mut Projection,
    resize_events: &Vec<ResizeEvent>,
    letterboxes: &mut Vec<Letterbox>,
    game_screen_units: &ScreenUnits,
)
    requires
        game_screen_units.wf(),
    ensures
        (forall|j: int| 0 <= j < resize_events@.len() ==> !(#[trigger] resize_events@[j]).is_primary)
            ==> *final(orthographic_projection) == *old(orthographic_projection)
                && final(letterboxes)@ == old(letterboxes)@,
        forall|i: int| #[trigger]
            is_first_primary(resize_events@, i) ==> resized(
                *game_screen_units,
                resize_events@[i],
                *old(orthographic_projection),
                *final(orthographic_projection),
                old(letterboxes)@,
                final(letterboxes)@,
            ),
{
    let n = resize_events.len();
    let mut i: usize = 0;
    while i < n && !resize_events[i].is_primary
        invariant
            0 <= i <= n,
            n == resize_events@.len(),
            forall|j: int| 0 <= j < i ==> !(#[trigger] resize_events@[j]).is_primary,
        decreases n - i,
    {
        i = i + 1;
    }
    if i == n {
        return;
    }
    assert(is_first_primary(resize_events@, i as int));
    let window = resize_events[i];
    let u = *game_screen_units;
    let mut new_scaling_mode = ScalingMode::FixedVertical;
    let mut new_scale = u.height;
    // The window is relatively narrower than the viewport:
    // width / height < u.width / u.height.
    if product(window.width, u.height) < product(u.width, window.height) {
        new_scaling_mode = ScalingMode::FixedHorizontal;
        new_scale = u.width;
    }
    // A window of zero width or height has no size in viewport units to pad.
    let has_area = window.width > 0 && window.height > 0;
    if has_area {
        match new_scaling_mode {
            ScalingMode::FixedVertical => set_letterboxes_vertical(
                game_screen_units,
                letterboxes,
                window.width,
                window.height,
            ),
            ScalingMode::FixedHorizontal => set_letterboxes_horizontal(
                game_screen_units,
                letterboxes,
                window.width,
                window.height,
            ),
            ScalingMode::WindowSize => {},
        }
    }
    orthographic_projection.scaling_mode = new_scaling_mode;
    orthographic_projection.scale = Frac { num: new_scale as i128, den: 2 };
    proof {
        assert forall|k: int| #[trigger] is_first_primary(resize_events@, k) implies k == i by {
            if k < i {
                assert(!resize_events@[k].is_primary);
            } else if k > i {
                assert(!resize_events@[i as int].is_primary);
            }
        }
    }
}

} // verus!
