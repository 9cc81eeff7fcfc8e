use vstd::prelude::*;
use crate::viewport::ScreenUnits;

verus! {

/// An object that bounces left and right across the viewport.
#[derive(Clone, Copy, Debug, PartialEq, Eq, Structural)]
pub struct SampleObject {
    /// `1` while moving right, `-1` while moving left.
    pub direction: i32,
    /// Horizontal position, counted in sixths of a viewport unit: an object
    /// moves one sixth of a unit per tick.
    pub position: i64,
}

impl SampleObject {
    /// The direction is `1` or `-1`.
    pub open spec fn wf(&self) -> bool {
        self.direction == 1 || self.direction == -1
    }

    /// The position is not at an end of the `i64` range, so that a tick in
    /// either direction can be taken.
    pub open spec fn can_step(&self) -> bool {
        i64::MIN < self.position < i64::MAX
    }
}

/// A position in sixths lies beyond the turning points, which are two units
/// outside the viewport's left and right edges: `|p / 6| > (width + 4) / 2`.
pub open spec fn beyond_turn(p: int, width: int) -> bool {
    p > 3 * (width + 4) || p < -3 * (width + 4)
}

/// The object is no more than two sixths of a unit beyond a turning point,
/// and when it is exactly two sixths beyond it moves outward. An object that
/// starts at the origin stays in play.
pub open spec fn in_play(o: SampleObject, width: int) -> bool {
    let turn = 3 * (width + 4);
    &&& o.wf()
    &&& -(turn + 2) <= o.position <= turn + 2
    &&& o.position == turn + 2 ==> o.direction == 1
    &&& o.position == -(turn + 2) ==> o.direction == -1
}

/// The object after one tick: beyond a turning point it first reverses,
/// then it moves one sixth of a unit in its direction.
pub open spec fn stepped(o: SampleObject, width: int) -> SampleObject {
    let direction = if beyond_turn(o.position as int, width) { -(o.direction as int) } else { o.direction as int };
    SampleObject { direction: direction as i32, position: (o.position + direction) as i64 }
}

/// A new object at the origin, moving right.
pub fn spawn_sample_object() -> (r: SampleObject)
    ensures
        r.direction == 1,
        r.position == 0,
        r.wf(),
{
    SampleObject { direction: 1, position: 0 }
}

impl SampleObject {
    /// Advances the object by one tick.
    ///
    /// The step is a fixed distance per tick, not a speed over time, so the
    /// object moves faster or slower as the frame rate rises or falls.
    pub fn step(&mut self, screen_units: &ScreenUnits)
        requires
            old(self).wf(),
            old(self).can_step(),
        ensures
            final(self).wf(),
            *final(self) == stepped(*old(self), screen_units.width as int),
            beyond_turn(old(self).position as int, screen_units.width as int)
                ==> final(self).direction == -old(self).direction,
            !beyond_turn(old(self).position as int, screen_units.width as int)
                ==> final(self).direction == old(self).direction,
            final(self).position == old(self).position + final(self).direction,
            !beyond_turn(old(self).position as int, screen_units.width as int)
                ==> final(self).position == old(self).position + old(self).direction,
            in_play(*old(self), screen_units.width as int) ==> in_play(
                *final(self),
                screen_units.width as int,
            ),
    {
        // The turning point, in sixths of a unit: 6 * (width + 4) / 2.
        let turn: i64 = 3 * (screen_units.width as i64 + 4);
        if self.position > turn || self.position < -turn {
            self.direction = -self.direction;
        }
        self.position = self.position + self.direction as i64;
    }
}

/// Advances every object by one tick.
pub fn move_sample_object(objects: &mut Vec<SampleObject>, screen_units: &ScreenUnits)
    requires
        forall|k: int|
            0 <= k < old(objects)@.len() ==> (#[trigger] old(objects)@[k]).wf() && old(
                objects,
            )@[k].can_step(),
    ensures
        final(objects)@.len() == old(objects)@.len(),
        forall|k: int|
            0 <= k < old(objects)@.len() ==> #[trigger] final(objects)@[k] == stepped(
                old(objects)@[k],
                screen_units.width as int,
            ) && final(objects)@[k].wf(),
{
    let n = objects.len();
    let mut k: usize = 0;
    while k < n
        invariant
            n == old(objects)@.len(),
            objects@.len() == n,
            0 <= k <= n,
            forall|j: int|
                0 <= j < k ==> #[trigger] objects@[j] == stepped(
                    old(objects)@[j],
                    screen_units.width as int,
                ) && objects@[j].wf(),
            forall|j: int| k <= j < n ==> #[trigger] objects@[j] == old(objects)@[j],
            forall|j: int|
                0 <= j < n ==> (#[trigger] old(objects)@[j]).wf() && old(objects)@[j].can_step(),
        decreases n - k,
    {
        let mut object = objects[k];
        object.step(screen_units);
        objects.set(k, object);
        k = k + 1;
    }
}

} // verus!
