use vstd::prelude::*;
use crate::camera::{ResizeEvent, change_camera_scaling, is_first_primary, resized, setup_camera};
use crate::letterbox::{Letterbox, invisible_bar, spawn_letterboxes};
use crate::motion::{SampleObject, in_play, move_sample_object, spawn_sample_object, stepped};
use crate::viewport::{Projection, ScalingMode, ScreenUnits};

verus! {

/// Everything the game shows: the camera, the letterbox bars and the
/// bouncing objects, over a viewport of fixed size.
pub struct Scene {
    pub screen_units: ScreenUnits,
    pub camera: Projection,
    pub letterboxes: Vec<Letterbox>,
    pub objects: Vec<SampleObject>,
}

impl Scene {
    /// The viewport has a positive size and every object is in play.
    pub open spec fn wf(&self) -> bool {
        &&& self.screen_units.wf()
        &&& forall|k: int|
            0 <= k < self.objects@.len() ==> in_play(
                #[trigger] self.objects@[k],
                self.screen_units.width as int,
            )
    }

    /// The scene at startup: a new camera, the two invisible bars, and one
    /// object at the origin moving right.
    pub fn new(screen_units: ScreenUnits) -> (r: Scene)
        requires
            screen_units.wf(),
        ensures
            r.wf(),
            r.screen_units == screen_units,
            r.camera.scaling_mode == ScalingMode::WindowSize,
            r.camera.scale@ == (1int, 1int),
            r.letterboxes@ == seq![invisible_bar(0), invisible_bar(1)],
            r.objects@ == seq![SampleObject { direction: 1, position: 0 }],
    {
        let camera = setup_camera();
        let letterboxes = spawn_letterboxes();
        let mut objects: Vec<SampleObject> = Vec::new();
        objects.push(spawn_sample_object());
        let r = Scene { screen_units, camera, letterboxes, objects };
        assert(r.letterboxes@ =~= seq![invisible_bar(0), invisible_bar(1)]);
        assert(r.objects@ =~= seq![SampleObject { direction: 1, position: 0 }]);
        r
    }

    /// One frame: the camera and the bars follow the first resize of the
    /// primary window among `resize_events`, then every object moves.
    pub fn tick(&mut self, resize_events: &Vec<ResizeEvent>)
        requires
            old(self).wf(),
        ensures
            final(self).wf(),
            final(self).screen_units == old(self).screen_units,
            (forall|j: int|
                0 <= j < resize_events@.len() ==> !(#[trigger] resize_events@[j]).is_primary)
                ==> final(self).camera == old(self).camera && final(self).letterboxes@ == old(
                self,
            ).letterboxes@,
            forall|i: int| #[trigger]
                is_first_primary(resize_events@, i) ==> resized(
                    old(self).screen_units,
                    resize_events@[i],
                    old(self).camera,
                    final(self).camera,
                    old(self).letterboxes@,
                    final(self).letterboxes@,
                ),
            final(self).objects@.len() == old(self).objects@.len(),
            forall|k: int|
                0 <= k < old(self).objects@.len() ==> #[trigger] final(self).objects@[k] == stepped(
                    old(self).objects@[k],
                    old(self).screen_units.width as int,
                ),
    {
        let screen_units = self.screen_units;
        change_camera_scaling(&mut self.camera, resize_events, &mut self.letterboxes, &screen_units);
        assert forall|k: int| 0 <= k < self.objects@.len() implies (#[trigger] self.objects@[k]).wf()
            && self.objects@[k].can_step() by {
            assert(in_play(self.objects@[k], screen_units.width as int));
        }
        move_sample_object(&mut self.objects, &screen_units);
    }
}

} // verus!
