//! Pointer buttons and the orbit gestures that they drive.

use vstd::prelude::*;

verus! {

/// A pointer button as reported by the input layer.
#[derive(Clone, Copy, Debug, PartialEq, Eq, Structural)]
pub enum PointerButton {
    Primary,
    Secondary,
    Tertiary,
    Back,
    Forward,
    /// Any further button, by the identifier the input layer gives it.
    Other(u16),
}

/// The gesture that a held button drives.
#[derive(Clone, Copy, Debug, PartialEq, Eq, Structural)]
pub enum OrbitAction {
    /// Orbit around the pivot.
    Rotate,
    /// Move camera and pivot together across the screen plane.
    Pan,
    /// Tracked, but drives nothing.
    Reserved,
}

/// Number of logical button slots that an orbit camera tracks.
pub const SLOT_COUNT: usize = 3;

impl OrbitAction {
    /// Position of this action's flag in the held-button array.
    pub open spec fn spec_slot(self) -> int {
        match self {
            OrbitAction::Rotate => 0,
            OrbitAction::Pan => 1,
            OrbitAction::Reserved => 2,
        }
    }

    pub fn slot(self) -> (r: usize)
        ensures
            r == self.spec_slot(),
            r < SLOT_COUNT,
    {
        match self {
            OrbitAction::Rotate => 0,
            OrbitAction::Pan => 1,
            OrbitAction::Reserved => 2,
        }
    }
}

/// Primary rotates, secondary pans, tertiary is reserved; any other button
/// is not tracked.
pub open spec fn spec_action_for(button: PointerButton) -> Option<OrbitAction> {
    match button {
        PointerButton::Primary => Some(OrbitAction::Rotate),
        PointerButton::Secondary => Some(OrbitAction::Pan),
        PointerButton::Tertiary => Some(OrbitAction::Reserved),
        PointerButton::Back | PointerButton::Forward | PointerButton::Other(_) => None,
    }
}

/// The gesture a button drives, or `None` for a button that is ignored.
pub fn action_for(button: PointerButton) -> (r: Option<OrbitAction>)
    ensures
        r == spec_action_for(button),
{
    match button {
        PointerButton::Primary => Some(OrbitAction::Rotate),
        PointerButton::Secondary => Some(OrbitAction::Pan),
        PointerButton::Tertiary => Some(OrbitAction::Reserved),
        PointerButton::Back | PointerButton::Forward | PointerButton::Other(_) => None,
    }
}

/// One press or release of a pointer button.
#[derive(Clone, Copy, Debug, PartialEq, Eq, Structural)]
pub struct ButtonEvent {
    pub button: PointerButton,
    /// `true` for a press, `false` for a release.
    pub pressed: bool,
}

impl ButtonEvent {
    pub fn press(button: PointerButton) -> (r: ButtonEvent)
        ensures
            r == (ButtonEvent { button, pressed: true }),
    {
        ButtonEvent { button, pressed: true }
    }

    pub fn release(button: PointerButton) -> (r: ButtonEvent)
        ensures
            r == (ButtonEvent { button, pressed: false }),
    {
        ButtonEvent { button, pressed: false }
    }
}

/// The held-button flags after one event: the slot of the event's button,
/// if it has one, takes the event's state; every other slot keeps its own.
pub open spec fn flags_after_event(flags: Seq<bool>, event: ButtonEvent) -> Seq<bool> {
    match spec_action_for(event.button) {
        Some(action) => flags.update(action.spec_slot(), event.pressed),
        None => flags,
    }
}

/// The held-button flags after a sequence of events, applied in order.
pub open spec fn flags_after_events(flags: Seq<bool>, events: Seq<ButtonEvent>) -> Seq<bool>
    decreases events.len(),
{
    if events.len() == 0 {
        flags
    } else {
        flags_after_event(flags_after_events(flags, events.drop_last()), events.last())
    }
}

/// Events never change how many slots there are.
pub proof fn lemma_flags_len(flags: Seq<bool>, events: Seq<ButtonEvent>)
    requires
        flags.len() == SLOT_COUNT,
    ensures
        flags_after_events(flags, events).len() == flags.len(),
    decreases events.len(),
{
    if events.len() > 0 {
        lemma_flags_len(flags, events.drop_last());
    }
}

/// A press of the primary button sets the rotate flag, and a release that
/// follows clears it again; the other slots keep their values throughout.
pub proof fn lemma_primary_press_then_release(flags: Seq<bool>)
    requires
        flags.len() == SLOT_COUNT,
    ensures
        flags_after_event(flags, ButtonEvent { button: PointerButton::Primary, pressed: true })[OrbitAction::Rotate.spec_slot()],
        flags_after_events(
            flags,
            seq![
                ButtonEvent { button: PointerButton::Primary, pressed: true },
                ButtonEvent { button: PointerButton::Primary, pressed: false },
            ],
        ) == flags.update(OrbitAction::Rotate.spec_slot(), false),
{
    let press = ButtonEvent { button: PointerButton::Primary, pressed: true };
    let release = ButtonEvent { button: PointerButton::Primary, pressed: false };
    let events = seq![press, release];
    assert(events.drop_last() =~= seq![press]);
    assert(seq![press].drop_last() =~= Seq::<ButtonEvent>::empty());
    reveal_with_fuel(flags_after_events, 3);
    assert(flags_after_events(flags, seq![press]) == flags_after_event(flags, press));
    assert(flags_after_events(flags, events) =~= flags.update(0, false));
}

/// Events of buttons without a slot leave every flag as it was.
pub proof fn lemma_untracked_buttons_keep_flags(flags: Seq<bool>, events: Seq<ButtonEvent>)
    requires
        forall|j: int| 0 <= j < events.len() ==> spec_action_for(#[trigger] events[j].button) is None,
    ensures
        flags_after_events(flags, events) == flags,
    decreases events.len(),
{
    if events.len() > 0 {
        lemma_untracked_buttons_keep_flags(flags, events.drop_last());
    }
}

/// Each slot holds the state of the latest event among `events` whose
/// button maps to it.
pub proof fn lemma_latest_event_decides(
    flags: Seq<bool>,
    events: Seq<ButtonEvent>,
    k: int,
    action: OrbitAction,
)
    requires
        flags.len() == SLOT_COUNT,
        0 <= k < events.len(),
        spec_action_for(events[k].button) == Some(action),
        forall|j: int| k < j < events.len() ==> spec_action_for(#[trigger] events[j].button) != Some(action),
    ensures
        flags_after_events(flags, events)[action.spec_slot()] == events[k].pressed,
    decreases events.len(),
{
    let prefix = events.drop_last();
    lemma_flags_len(flags, prefix);
    if k < events.len() - 1 {
        assert forall|j: int| k < j < prefix.len() implies spec_action_for(#[trigger] prefix[j].button) != Some(action) by {
            assert(prefix[j] == events[j]);
        }
        lemma_latest_event_decides(flags, prefix, k, action);
        let last = events.last();
        assert(spec_action_for(events[events.len() - 1].button) != Some(action));
        match spec_action_for(last.button) {
            Some(a) => {
                assert(a != action);
                assert(a.spec_slot() != action.spec_slot());
            },
            None => {},
        }
    }
}

} // verus!
