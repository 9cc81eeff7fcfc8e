use vstd::prelude::*;
use crate::frac::Frac;

verus! {

/// The fixed size of the virtual viewport, in viewport units.
#[derive(Clone, Copy, Debug, PartialEq, Eq, Structural)]
pub struct ScreenUnits {
    pub width: u32,
    pub height: u32,
}

impl ScreenUnits {
    /// Both dimensions are positive.
    pub open spec fn wf(&self) -> bool {
        self.width > 0 && self.height > 0
    }

    pub fn new(width: u32, height: u32) -> (r: ScreenUnits)
        requires
            width > 0,
            height > 0,
        ensures
            r.width == width,
            r.height == height,
            r.wf(),
    {
        ScreenUnits { width, height }
    }
}

/// How the camera maps the viewport onto the window.
#[derive(Clone, Copy, Debug, PartialEq, Eq, Structural)]
pub enum ScalingMode {
    /// One viewport unit per window pixel: the camera's starting mode.
    WindowSize,
    /// The viewport's height fills the window's height.
    FixedVertical,
    /// The viewport's width fills the window's width.
    FixedHorizontal,
}

/// The camera's projection: its scaling mode and the scale of its view.
#[derive(Clone, Copy, Debug, PartialEq, Eq, Structural)]
pub struct Projection {
    pub scaling_mode: ScalingMode,
    pub scale: Frac,
}

/// Size and centre of a letterbox bar, in viewport units.
#[derive(Clone, Copy, Debug, PartialEq, Eq, Structural)]
pub struct LetterboxTransform {
    pub width: Frac,
    pub height: Frac,
    pub x: Frac,
    pub y: Frac,
}

/// A bar's geometry as four (numerator, denominator) pairs.
pub struct BarView {
    pub width: (int, int),
    pub height: (int, int),
    pub x: (int, int),
    pub y: (int, int),
}

impl View for LetterboxTransform {
    type V = BarView;

    open spec fn view(&self) -> BarView {
        BarView { width: self.width@, height: self.height@, x: self.x@, y: self.y@ }
    }
}

impl LetterboxTransform {
    pub open spec fn wf(&self) -> bool {
        self.width.wf() && self.height.wf() && self.x.wf() && self.y.wf()
    }
}

/// A window of `ww` by `wh` pixels is at least as wide, relative to its
/// height, as the viewport: `ww / wh >= width / height`.
pub open spec fn is_fixed_vertical(u: ScreenUnits, ww: int, wh: int) -> bool {
    ww * u.height >= u.width * wh
}

/// The scaling mode for a window of `ww` by `wh` pixels.
pub open spec fn mode_for(u: ScreenUnits, ww: int, wh: int) -> ScalingMode {
    if is_fixed_vertical(u, ww, wh) {
        ScalingMode::FixedVertical
    } else {
        ScalingMode::FixedHorizontal
    }
}

/// The camera scale for a window: half the viewport dimension that fills it.
pub open spec fn scale_for(u: ScreenUnits, ww: int, wh: int) -> (int, int) {
    if is_fixed_vertical(u, ww, wh) {
        (u.height as int, 2)
    } else {
        (u.width as int, 2)
    }
}

/// Which side of the padded axis a bar sits on: `1` for bar 0, `-1` otherwise.
pub open spec fn side(id: u32) -> int {
    if id == 0 { 1 } else { -1 }
}

/// A bar beside the viewport when its height fills the window.
///
/// With `upp = wh / height` pixels per unit, the window is `ww / upp` units
/// wide, each bar is `pad = (ww / upp - width) / 2` wide and as tall as the
/// viewport, and it is centred at `x = ±(pad + width) / 2`, `y = 0`. Over the
/// denominator `wh` these are the fractions below.
pub open spec fn vertical_bar(u: ScreenUnits, ww: int, wh: int, id: u32) -> BarView {
    BarView {
        width: (ww * u.height - u.width * wh, 2 * wh),
        height: (u.height as int, 1),
        x: (side(id) * (ww * u.height + u.width * wh), 4 * wh),
        y: (0, 1),
    }
}

/// A bar above or below the viewport when its width fills the window: the
/// same computation as `vertical_bar` with the roles of the axes swapped.
pub open spec fn horizontal_bar(u: ScreenUnits, ww: int, wh: int, id: u32) -> BarView {
    BarView {
        width: (u.width as int, 1),
        height: (wh * u.width - u.height * ww, 2 * ww),
        x: (0, 1),
        y: (side(id) * (wh * u.width + u.height * ww), 4 * ww),
    }
}

/// The bar with the given id for a window of `ww` by `wh` pixels.
pub open spec fn bar_for(u: ScreenUnits, ww: int, wh: int, id: u32) -> BarView {
    if is_fixed_vertical(u, ww, wh) {
        vertical_bar(u, ww, wh, id)
    } else {
        horizontal_bar(u, ww, wh, id)
    }
}

/// Each bar fills the strip between the viewport's edge and the window's.
///
/// Fitted by height, the window is `ww * height / wh` units wide; bar 0
/// reaches from the viewport's right edge (`width / 2`) to the window's
/// (`ww * height / (2 * wh)`), and bar 1 is its mirror image. Fitted by
/// width, the same holds of the top and bottom edges.
pub proof fn lemma_bars_frame_viewport(u: ScreenUnits, ww: u32, wh: u32)
    requires
        u.wf(),
        ww > 0,
        wh > 0,
    ensures
        ({
            let (w, h, x, y) = (u.width as int, u.height as int, ww as int, wh as int);
            let b0 = vertical_bar(u, x, y, 0);
            let b1 = vertical_bar(u, x, y, 1);
            &&& b0.x.1 == 2 * b0.width.1 && b1.x.1 == 2 * b1.width.1
            &&& 2 * (b0.x.0 - b0.width.0) == w * b0.x.1
            &&& 2 * y * (b0.x.0 + b0.width.0) == x * h * b0.x.1
            &&& b1.x.0 == -b0.x.0 && b1.width == b0.width
        }),
        ({
            let (w, h, x, y) = (u.width as int, u.height as int, ww as int, wh as int);
            let b0 = horizontal_bar(u, x, y, 0);
            let b1 = horizontal_bar(u, x, y, 1);
            &&& b0.y.1 == 2 * b0.height.1 && b1.y.1 == 2 * b1.height.1
            &&& 2 * (b0.y.0 - b0.height.0) == h * b0.y.1
            &&& 2 * x * (b0.y.0 + b0.height.0) == y * w * b0.y.1
            &&& b1.y.0 == -b0.y.0 && b1.height == b0.height
        }),
{
    let (w, h, x, y) = (u.width as int, u.height as int, ww as int, wh as int);
    assert(w * (4 * y) == 4 * (w * y)) by (nonlinear_arith);
    assert(2 * y * (2 * (x * h)) == x * h * (4 * y)) by (nonlinear_arith);
    assert(h * (4 * x) == 4 * (h * x)) by (nonlinear_arith);
    assert(2 * x * (2 * (y * w)) == y * w * (4 * x)) by (nonlinear_arith);
}

/// A window with the viewport's aspect ratio (`ww / wh == width / height`)
/// is fitted by height, and both bars collapse to zero width at the
/// viewport's left and right edges: nothing is padded.
pub proof fn lemma_matching_aspect_hides_bars(u: ScreenUnits, ww: u32, wh: u32)
    requires
        u.wf(),
        ww > 0,
        wh > 0,
        ww as int * u.height as int == u.width as int * wh as int,
    ensures
        mode_for(u, ww as int, wh as int) == ScalingMode::FixedVertical,
        bar_for(u, ww as int, wh as int, 0).width.0 == 0,
        bar_for(u, ww as int, wh as int, 1).width.0 == 0,
        2 * bar_for(u, ww as int, wh as int, 0).x.0 == u.width as int * bar_for(u, ww as int, wh as int, 0).x.1,
        2 * bar_for(u, ww as int, wh as int, 1).x.0 == -(u.width as int) * bar_for(u, ww as int, wh as int, 1).x.1,
{
    let (w, h, y) = (u.width as int, u.height as int, wh as int);
    assert(w * (4 * y) == 4 * (w * y)) by (nonlinear_arith);
    assert(-w * (4 * y) == -4 * (w * y)) by (nonlinear_arith);
}

} // verus!
