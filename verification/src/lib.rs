//! The core of an on-screen joystick.
//!
//! A joystick turns a touch or a mouse that lands in its rectangle into a
//! normalized displacement, moves its base and its knob accordingly, and
//! emits a press, drags and an up. This crate holds what a joystick decides
//! and computes, over integers; a host samples the pointers and the layout,
//! runs the stages of a frame, and draws.
//!
//! A frame runs in stages, in this order:
//!
//! 1. [`input::update_input`] tracks the pointer session.
//! 2. [`behavior::VirtualJoystickBehavior::update_at_delta_stage`] places
//!    the base and derives the raw displacement.
//! 3. [`behavior::VirtualJoystickBehavior::update_at_constraint_stage`]
//!    restricts the displacement.
//! 4. [`events::update_fire_events`] emits the events, and
//!    [`action::update_action`] calls the hooks.
//! 5. [`behavior::VirtualJoystickBehavior::update`] decides on the
//!    visibility, and [`ui::update_ui`] places the base and the knob.
//!
//! [`frame::update_frame`] runs the first four for one joystick, and
//! [`frame`] states what holds of a joystick over a run of frames.

pub mod action;
pub mod behavior;
pub mod events;
pub mod frame;
pub mod geometry;
pub mod input;
pub mod math;
pub mod policy;
pub mod state;
pub mod ui;

pub use action::{update_action, DragAction, NoAction, VirtualJoystickAction};
pub use behavior::{
    JoystickDeadZone, JoystickDynamic, JoystickFixed, JoystickFloating, JoystickHorizontalOnly,
    JoystickInvisible, JoystickVerticalOnly, VirtualJoystickBehavior,
};
pub use events::{
    update_fire_events, VirtualJoystickEvent, VirtualJoystickEventType, VirtualJoystickID,
};
pub use frame::update_frame;
pub use geometry::{Rect, Vec2, Vec3, COORD_MAX, DELTA_ONE, OFFSET_MAX};
pub use input::{update_input, PointerInput, Touch};
pub use policy::{VirtualJoystickAxis, VirtualJoystickType};
pub use state::{JoystickGeometry, TouchState, Visibility, VirtualJoystickState};
pub use ui::{update_ui, JoystickLayout};
