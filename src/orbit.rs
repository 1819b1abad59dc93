//! Per-camera orbit state: the pivot and the held-button flags.

use bevy::math::Vec3;
use vstd::prelude::*;

use crate::input::{
    action_for, flags_after_event, flags_after_events, ButtonEvent, OrbitAction, SLOT_COUNT,
};

verus! {

/// bevy's three-component vector. The controller only carries the pivot
/// through; all arithmetic on it happens on the floating-point side.
#[verifier::external_type_specification]
#[verifier::external_body]
pub struct ExVec3(Vec3);

/// Orbit state owned by one camera: the point it orbits, zooms toward and
/// faces, and one held flag per logical button slot.
pub struct OrbitCamera {
    target: Vec3,
    mouse_down: [bool; 3],
}

impl OrbitCamera {
    /// The pivot point.
    pub closed spec fn pivot(&self) -> Vec3 {
        self.target
    }

    /// The held flags, indexed by `OrbitAction::spec_slot`.
    pub closed spec fn held(&self) -> Seq<bool> {
        self.mouse_down@
    }

    pub proof fn lemma_held_len(&self)
        ensures
            self.held().len() == SLOT_COUNT,
    {
    }

    /// A camera orbiting `target`, with no button held.
    pub fn new(target: Vec3) -> (r: OrbitCamera)
        ensures
            r.pivot() == target,
            r.held() == seq![false, false, false],
    {
        let r = OrbitCamera { target, mouse_down: [false, false, false] };
        assert(r.mouse_down@ =~= seq![false, false, false]);
        r
    }

    pub fn target(&self) -> (r: Vec3)
        ensures
            r == self.pivot(),
    {
        self.target
    }

    /// Moves the pivot; the flags stay as they were.
    pub fn set_target(&mut self, target: Vec3)
        ensures
            final(self).pivot() == target,
            final(self).held() == old(self).held(),
    {
        self.target = target;
    }

    /// Whether the button of `action` is held.
    pub fn is_held(&self, action: OrbitAction) -> (r: bool)
        ensures
            r == self.held()[action.spec_slot()],
    {
        self.mouse_down[action.slot()]
    }

    /// Whether a pointer motion orbits the camera around the pivot.
    pub fn rotating(&self) -> (r: bool)
        ensures
            r == self.held()[OrbitAction::Rotate.spec_slot()],
    {
        self.is_held(OrbitAction::Rotate)
    }

    /// Whether a pointer motion pans camera and pivot.
    pub fn panning(&self) -> (r: bool)
        ensures
            r == self.held()[OrbitAction::Pan.spec_slot()],
    {
        self.is_held(OrbitAction::Pan)
    }

    /// Records one press or release. The slot of the event's button takes
    /// the event's state; a button without a slot changes nothing. The pivot
    /// never moves.
    pub fn apply_button_event(&mut self, event: ButtonEvent)
        ensures
            final(self).held() == flags_after_event(old(self).held(), event),
            final(self).pivot() == old(self).pivot(),
    {
        match action_for(event.button) {
            Some(action) => {
                let i = action.slot();
                self.mouse_down[i] = event.pressed;
                assert(self.mouse_down@ =~= old(self).mouse_down@.update(i as int, event.pressed));
            },
            None => {},
        }
    }

    /// Records a batch of button events in arrival order.
    pub fn apply_button_events(&mut self, events: &Vec<ButtonEvent>)
        ensures
            final(self).held() == flags_after_events(old(self).held(), events@),
            final(self).pivot() == old(self).pivot(),
    {
        let n = events.len();
        let mut i: usize = 0;
        while i < n
            invariant
                n == events@.len(),
                i <= n,
                self.held() == flags_after_events(old(self).held(), events@.take(i as int)),
                self.pivot() == old(self).pivot(),
            decreases n - i,
        {
            let event = events[i];
            self.apply_button_event(event);
            assert(events@.take(i as int + 1).drop_last() =~= events@.take(i as int));
            i += 1;
        }
        assert(events@.take(n as int) =~= events@);
    }
}

} // verus!
