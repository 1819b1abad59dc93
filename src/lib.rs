//! Orbit camera controller state: which pointer buttons drive which orbit
//! gesture, and the per-camera state that the pose updates read.

pub mod input;
pub mod orbit;

pub use input::{action_for, ButtonEvent, OrbitAction, PointerButton};
pub use orbit::OrbitCamera;
