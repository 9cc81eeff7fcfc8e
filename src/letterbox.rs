use vstd::prelude::*;
use crate::frac::{Frac, product};
use crate::viewport::{BarView, LetterboxTransform, ScreenUnits, horizontal_bar, vertical_bar};

verus! {

/// A letterbox bar. Bar 0 sits right of or above the viewport, bar 1 left
/// of or below it.
#[derive(Clone, Copy, Debug, PartialEq, Eq, Structural)]
pub struct Letterbox {
    pub id: u32,
    pub transform: LetterboxTransform,
}

/// `after` is `before` with its bar placed by id: bar 0 at `bar0`, bar 1 at
/// `bar1`; a bar with any other id is left as it was.
pub open spec fn placed(before: Letterbox, after: Letterbox, bar0: BarView, bar1: BarView) -> bool {
    &&& after.id == before.id
    &&& if before.id == 0 {
        after.transform@ == bar0 && after.transform.wf()
    } else if before.id == 1 {
        after.transform@ == bar1 && after.transform.wf()
    } else {
        after == before
    }
}

/// A bar of zero size at the origin: invisible.
pub open spec fn invisible_bar(id: u32) -> Letterbox {
    Letterbox {
        id,
        transform: LetterboxTransform {
            width: Frac { num: 0, den: 1 },
            height: Frac { num: 0, den: 1 },
            x: Frac { num: 0, den: 1 },
            y: Frac { num: 0, den: 1 },
        },
    }
}

/// A new, invisible bar.
pub fn spawn_letterbox(id: u32) -> (r: Letterbox)
    ensures
        r == invisible_bar(id),
        r.transform.wf(),
{
    Letterbox {
        id,
        transform: LetterboxTransform {
            width: Frac::zero(),
            height: Frac::zero(),
            x: Frac::zero(),
            y: Frac::zero(),
        },
    }
}

/// The two bars, with ids 0 and 1, both invisible.
pub fn spawn_letterboxes() -> (r: Vec<Letterbox>)
    ensures
        r@.len() == 2,
        r@[0] == invisible_bar(0),
        r@[1] == invisible_bar(1),
{
    let mut r: Vec<Letterbox> = Vec::new();
    r.push(spawn_letterbox(0));
    r.push(spawn_letterbox(1));
    r
}

/// Gives a bar its size and centre.
pub fn set_letterbox(transform: &mut LetterboxTransform, width: Frac, height: Frac, x_pos: Frac, y_pos: Frac)
    ensures
        *final(transform) == (LetterboxTransform { width, height, x: x_pos, y: y_pos }),
{
    transform.width = width;
    transform.height = height;
    transform.x = x_pos;
    transform.y = y_pos;
}

/// Places the bars beside a viewport whose height fills a window of
/// `window_width` by `window_height` pixels: each bar placed by `placed`
/// with the fractions of `vertical_bar`.
pub fn set_letterboxes_vertical(
    game_screen_units: &ScreenUnits,
    letterboxes: &mut Vec<Letterbox>,
    window_width: u32,
    window_height: u32,
)
    requires
        game_screen_units.wf(),
        window_height > 0,
    ensures
        final(letterboxes)@.len() == old(letterboxes)@.len(),
        forall|k: int|
            0 <= k < old(letterboxes)@.len() ==> placed(
                #[trigger] old(letterboxes)@[k],
                final(letterboxes)@[k],
                vertical_bar(*game_screen_units, window_width as int, window_height as int, 0),
                vertical_bar(*game_screen_units, window_width as int, window_height as int, 1),
            ),
{
    let u = *game_screen_units;
    // Over the denominator 2 * window_height: the window's width in units
    // is window_width * height / window_height, and a bar is half of what
    // exceeds the viewport's width.
    let visible = product(window_width, u.height);
    let covered = product(u.width, window_height);
    let letterbox_width = Frac { num: visible - covered, den: 2 * (window_height as u64) };
    // The bar's centre lies half way between the viewport's edge and the window's.
    let letterbox_pos_x = Frac { num: visible + covered, den: 4 * (window_height as u64) };
    let letterbox_neg_x = Frac { num: -(visible + covered), den: 4 * (window_height as u64) };
    let height = Frac::whole(u.height as i64);
    let centre = Frac::zero();
    let bar0 = Ghost(vertical_bar(u, window_width as int, window_height as int, 0));
    let bar1 = Ghost(vertical_bar(u, window_width as int, window_height as int, 1));

    let n = letterboxes.len();
    let mut k: usize = 0;
    while k < n
        invariant
            n == old(letterboxes)@.len(),
            letterboxes@.len() == n,
            0 <= k <= n,
            letterbox_width@ == bar0@.width,
            letterbox_pos_x@ == bar0@.x,
            letterbox_neg_x@ == bar1@.x,
            height@ == bar0@.height,
            centre@ == bar0@.y && centre.wf(),
            bar0@.width == bar1@.width && bar0@.height == bar1@.height && bar0@.y == bar1@.y,
            letterbox_width.wf() && letterbox_pos_x.wf() && letterbox_neg_x.wf() && height.wf(),
            forall|j: int| 0 <= j < k ==> placed(#[trigger] old(letterboxes)@[j], letterboxes@[j], bar0@, bar1@),
            forall|j: int| k <= j < n ==> #[trigger] letterboxes@[j] == old(letterboxes)@[j],
        decreases n - k,
    {
        let mut letterbox = letterboxes[k];
        if letterbox.id == 0 {
            set_letterbox(&mut letterbox.transform, letterbox_width, height, letterbox_pos_x, centre);
        } else if letterbox.id == 1 {
            set_letterbox(&mut letterbox.transform, letterbox_width, height, letterbox_neg_x, centre);
        }
        assert(placed(old(letterboxes)@[k as int], letterbox, bar0@, bar1@));
        letterboxes.set(k, letterbox);
        k = k + 1;
    }
}

/// Places the bars above and below a viewport whose width fills a window of
/// `window_width` by `window_height` pixels: each bar placed by `placed`
/// with the fractions of `horizontal_bar`.
pub fn set_letterboxes_horizontal(
    game_screen_units: &ScreenUnits,
    letterboxes: &mut Vec<Letterbox>,
    window_width: u32,
    window_height: u32,
)
    requires
        game_screen_units.wf(),
        window_width > 0,
    ensures
        final(letterboxes)@.len() == old(letterboxes)@.len(),
        forall|k: int|
            0 <= k < old(letterboxes)@.len() ==> placed(
                #[trigger] old(letterboxes)@[k],
                final(letterboxes)@[k],
                horizontal_bar(*game_screen_units, window_width as int, window_height as int, 0),
                horizontal_bar(*game_screen_units, window_width as int, window_height as int, 1),
            ),
{
    let u = *game_screen_units;
    // Over the denominator 2 * window_width: the window's height in units
    // is window_height * width / window_width, and a bar is half of what
    // exceeds the viewport's height.
    let visible = product(window_height, u.width);
    let covered = product(u.height, window_width);
    let letterbox_height = Frac { num: visible - covered, den: 2 * (window_width as u64) };
    // The bar's centre lies half way between the viewport's edge and the window's.
    let letterbox_pos_y = Frac { num: visible + covered, den: 4 * (window_width as u64) };
    let letterbox_neg_y = Frac { num: -(visible + covered), den: 4 * (window_width as u64) };
    let width = Frac::whole(u.width as i64);
    let centre = Frac::zero();
    let bar0 = Ghost(horizontal_bar(u, window_width as int, window_height as int, 0));
    let bar1 = Ghost(horizontal_bar(u, window_width as int, window_height as int, 1));

    let n = letterboxes.len();
    let mut k: usize = 0;
    while k < n
        invariant
            n == old(letterboxes)@.len(),
            letterboxes@.len() == n,
            0 <= k <= n,
            letterbox_height@ == bar0@.height,
            letterbox_pos_y@ == bar0@.y,
            letterbox_neg_y@ == bar1@.y,
            width@ == bar0@.width,
            centre@ == bar0@.x && centre.wf(),
            bar0@.width == bar1@.width && bar0@.height == bar1@.height && bar0@.x == bar1@.x,
            letterbox_height.wf() && letterbox_pos_y.wf() && letterbox_neg_y.wf() && width.wf(),
            forall|j: int| 0 <= j < k ==> placed(#[trigger] old(letterboxes)@[j], letterboxes@[j], bar0@, bar1@),
            forall|j: int| k <= j < n ==> #[trigger] letterboxes@[j] == old(letterboxes)@[j],
        decreases n - k,
    {
        let mut letterbox = letterboxes[k];
        if letterbox.id == 0 {
            set_letterbox(&mut letterbox.transform, width, letterbox_height, centre, letterbox_pos_y);
        } else if letterbox.id == 1 {
            set_letterbox(&mut letterbox.transform, width, letterbox_height, centre, letterbox_neg_y);
        }
        assert(placed(old(letterboxes)@[k as int], letterbox, bar0@, bar1@));
        letterboxes.set(k, letterbox);
        k = k + 1;
    }
}

} // verus!
