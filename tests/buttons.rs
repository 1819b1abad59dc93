use bevy::math::Vec3;
use orbit_camera::{action_for, ButtonEvent, OrbitAction, OrbitCamera, PointerButton};

fn all_flags(cam: &OrbitCamera) -> [bool; 3] {
    [
        cam.is_held(OrbitAction::Rotate),
        cam.is_held(OrbitAction::Pan),
        cam.is_held(OrbitAction::Reserved),
    ]
}

#[test]
fn buttons_map_to_actions() {
    assert_eq!(action_for(PointerButton::Primary), Some(OrbitAction::Rotate));
    assert_eq!(action_for(PointerButton::Secondary), Some(OrbitAction::Pan));
    assert_eq!(action_for(PointerButton::Tertiary), Some(OrbitAction::Reserved));
    assert_eq!(action_for(PointerButton::Back), None);
    assert_eq!(action_for(PointerButton::Forward), None);
    assert_eq!(action_for(PointerButton::Other(7)), None);
}

#[test]
fn action_slots_are_distinct() {
    assert_eq!(OrbitAction::Rotate.slot(), 0);
    assert_eq!(OrbitAction::Pan.slot(), 1);
    assert_eq!(OrbitAction::Reserved.slot(), 2);
}

#[test]
fn new_camera_holds_nothing() {
    let cam = OrbitCamera::new(Vec3::new(1.0, 2.0, 3.0));
    assert_eq!(all_flags(&cam), [false, false, false]);
    assert!(!cam.rotating());
    assert!(!cam.panning());
    assert_eq!(cam.target(), Vec3::new(1.0, 2.0, 3.0));
}

#[test]
fn primary_press_then_release() {
    let mut cam = OrbitCamera::new(Vec3::ZERO);
    cam.apply_button_event(ButtonEvent::press(PointerButton::Primary));
    assert!(cam.rotating());
    assert_eq!(all_flags(&cam), [true, false, false]);
    cam.apply_button_event(ButtonEvent::release(PointerButton::Primary));
    assert!(!cam.rotating());
    assert_eq!(all_flags(&cam), [false, false, false]);
}

#[test]
fn secondary_press_pans() {
    let mut cam = OrbitCamera::new(Vec3::ZERO);
    cam.apply_button_event(ButtonEvent::press(PointerButton::Secondary));
    assert!(cam.panning());
    assert!(!cam.rotating());
    assert_eq!(all_flags(&cam), [false, true, false]);
}

#[test]
fn tertiary_press_sets_reserved_only() {
    let mut cam = OrbitCamera::new(Vec3::ZERO);
    cam.apply_button_event(ButtonEvent::press(PointerButton::Tertiary));
    assert_eq!(all_flags(&cam), [false, false, true]);
    assert!(!cam.rotating());
    assert!(!cam.panning());
}

#[test]
fn untracked_buttons_change_nothing() {
    let mut cam = OrbitCamera::new(Vec3::ZERO);
    cam.apply_button_event(ButtonEvent::press(PointerButton::Primary));
    let events = vec![
        ButtonEvent::press(PointerButton::Other(9)),
        ButtonEvent::release(PointerButton::Back),
        ButtonEvent::press(PointerButton::Forward),
        ButtonEvent::release(PointerButton::Other(0)),
    ];
    cam.apply_button_events(&events);
    assert_eq!(all_flags(&cam), [true, false, false]);
}

#[test]
fn events_apply_in_arrival_order() {
    let mut cam = OrbitCamera::new(Vec3::ZERO);
    let events = vec![
        ButtonEvent::press(PointerButton::Primary),
        ButtonEvent::press(PointerButton::Secondary),
        ButtonEvent::release(PointerButton::Primary),
        ButtonEvent::press(PointerButton::Primary),
        ButtonEvent::release(PointerButton::Secondary),
    ];
    cam.apply_button_events(&events);
    assert_eq!(all_flags(&cam), [true, false, false]);

    let mut other = OrbitCamera::new(Vec3::ZERO);
    let reversed: Vec<ButtonEvent> = events.iter().rev().copied().collect();
    other.apply_button_events(&reversed);
    assert_eq!(all_flags(&other), [true, true, false]);
}

#[test]
fn empty_batch_changes_nothing() {
    let mut cam = OrbitCamera::new(Vec3::new(0.5, -1.0, 2.0));
    cam.apply_button_event(ButtonEvent::press(PointerButton::Secondary));
    cam.apply_button_events(&Vec::new());
    assert_eq!(all_flags(&cam), [false, true, false]);
    assert_eq!(cam.target(), Vec3::new(0.5, -1.0, 2.0));
}

#[test]
fn button_events_keep_the_pivot() {
    let mut cam = OrbitCamera::new(Vec3::new(4.0, 5.0, 6.0));
    cam.apply_button_events(&vec![
        ButtonEvent::press(PointerButton::Primary),
        ButtonEvent::press(PointerButton::Tertiary),
    ]);
    assert_eq!(cam.target(), Vec3::new(4.0, 5.0, 6.0));
}

#[test]
fn set_target_moves_pivot_and_keeps_flags() {
    let mut cam = OrbitCamera::new(Vec3::ZERO);
    cam.apply_button_event(ButtonEvent::press(PointerButton::Primary));
    cam.set_target(Vec3::new(-1.0, 0.0, 2.5));
    assert_eq!(cam.target(), Vec3::new(-1.0, 0.0, 2.5));
    assert!(cam.rotating());
}

#[test]
fn release_without_press_stays_released() {
    let mut cam = OrbitCamera::new(Vec3::ZERO);
    cam.apply_button_event(ButtonEvent::release(PointerButton::Secondary));
    assert_eq!(all_flags(&cam), [false, false, false]);
}
