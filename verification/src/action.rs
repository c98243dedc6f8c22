//! The hooks that a host attaches to a joystick to react to the beginning,
//! the course and the end of a drag.

use vstd::prelude::*;
use crate::state::VirtualJoystickState;

verus! {

/// What a frame means for the hooks of a joystick.
#[derive(Clone, Copy, Debug, PartialEq, Eq, Structural, Hash)]
pub enum DragAction {
    /// A session has begun in this frame.
    StartDrag,
    /// A session goes on.
    Drag,
    /// A session has ended in this frame.
    EndDrag,
}

/// The hooks of a joystick with identifiers of type `I` whose visual
/// elements the host hands out as a `V`.
///
/// A hook receives a copy of the joystick's state and can change the
/// visuals only. What it makes of them is a function of what it is given.
pub trait VirtualJoystickAction<I, V> {
    /// The visuals after `on_start_drag`.
    spec fn after_start_drag(&self, id: I, data: VirtualJoystickState, visuals: V) -> V;

    /// The visuals after `on_drag`.
    spec fn after_drag(&self, id: I, data: VirtualJoystickState, visuals: V) -> V;

    /// The visuals after `on_end_drag`.
    spec fn after_end_drag(&self, id: I, data: VirtualJoystickState, visuals: V) -> V;

    /// Called in the frame a session begins.
    fn on_start_drag(&self, id: I, data: VirtualJoystickState, visuals: &mut V)
        ensures
            *final(visuals) == self.after_start_drag(id, data, *old(visuals)),
    ;

    /// Called in every later frame of a session.
    fn on_drag(&self, id: I, data: VirtualJoystickState, visuals: &mut V)
        ensures
            *final(visuals) == self.after_drag(id, data, *old(visuals)),
    ;

    /// Called in the frame a session ends.
    fn on_end_drag(&self, id: I, data: VirtualJoystickState, visuals: &mut V)
        ensures
            *final(visuals) == self.after_end_drag(id, data, *old(visuals)),
    ;
}

/// The hooks that do nothing.
#[derive(Clone, Copy, Debug, Default, PartialEq, Eq, Structural, Hash)]
pub struct NoAction;

impl<I, V> VirtualJoystickAction<I, V> for NoAction {
    open spec fn after_start_drag(&self, id: I, data: VirtualJoystickState, visuals: V) -> V {
        visuals
    }

    open spec fn after_drag(&self, id: I, data: VirtualJoystickState, visuals: V) -> V {
        visuals
    }

    open spec fn after_end_drag(&self, id: I, data: VirtualJoystickState, visuals: V) -> V {
        visuals
    }

    fn on_start_drag(&self, id: I, data: VirtualJoystickState, visuals: &mut V) {
    }

    fn on_drag(&self, id: I, data: VirtualJoystickState, visuals: &mut V) {
    }

    fn on_end_drag(&self, id: I, data: VirtualJoystickState, visuals: &mut V) {
    }
}

/// The hook that a frame calls for: the end of a drag in the frame a
/// session ends, else its start in the frame a session begins, else its
/// course while a session goes on, else none.
pub open spec fn spec_drag_action(state: VirtualJoystickState) -> Option<DragAction> {
    if state.just_released {
        Some(DragAction::EndDrag)
    } else {
        match state.touch_state {
            Some(session) => if session.just_pressed {
                Some(DragAction::StartDrag)
            } else {
                Some(DragAction::Drag)
            },
            None => None,
        }
    }
}

/// The visuals after the hook that the state calls for has run.
pub open spec fn spec_update_action<I, V, A: VirtualJoystickAction<I, V>>(
    action: &A,
    id: I,
    state: VirtualJoystickState,
    visuals: V,
) -> V {
    match spec_drag_action(state) {
        Some(DragAction::StartDrag) => action.after_start_drag(id, state, visuals),
        Some(DragAction::Drag) => action.after_drag(id, state, visuals),
        Some(DragAction::EndDrag) => action.after_end_drag(id, state, visuals),
        None => visuals,
    }
}

/// Tells which hook the frame calls for.
pub fn drag_action(state: &VirtualJoystickState) -> (action: Option<DragAction>)
    ensures
        action == spec_drag_action(*state),
{
    if state.just_released {
        Some(DragAction::EndDrag)
    } else {
        match state.touch_state {
            Some(session) => {
                if session.just_pressed {
                    Some(DragAction::StartDrag)
                } else {
                    Some(DragAction::Drag)
                }
            },
            None => None,
        }
    }
}

/// Calls the hook that the frame calls for, with a copy of the state, and
/// tells which it was.
pub fn update_action<I, V, A: VirtualJoystickAction<I, V>>(
    action: &A,
    id: I,
    state: &VirtualJoystickState,
    visuals: &mut V,
) -> (called: Option<DragAction>)
    ensures
        called == spec_drag_action(*state),
        *final(visuals) == spec_update_action(action, id, *state, *old(visuals)),
{
    let called = drag_action(state);
    match called {
        Some(DragAction::StartDrag) => {
            action.on_start_drag(id, *state, visuals);
        },
        Some(DragAction::Drag) => {
            action.on_drag(id, *state, visuals);
        },
        Some(DragAction::EndDrag) => {
            action.on_end_drag(id, *state, visuals);
        },
        None => {},
    }
    called
}

} // verus!
