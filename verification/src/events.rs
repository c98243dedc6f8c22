//! The events that a joystick emits: a press when a session begins, a drag
//! in every frame of a session, and an up when it ends.

use vstd::prelude::*;
use std::hash::Hash;
use crate::geometry::{Vec2, DELTA_ONE};
use crate::math::abs;
use crate::state::VirtualJoystickState;

verus! {

/// What can identify a joystick: a value that can be copied, compared by
/// its hash and made by default. Every such type is an identifier.
pub trait VirtualJoystickID: Hash + Sync + Send + Clone + Default + 'static {

}

impl<S: Hash + Sync + Send + Clone + Default + 'static> VirtualJoystickID for S {

}

/// The kind of an event.
#[derive(Clone, Copy, Debug, PartialEq, Eq, Structural, Hash)]
pub enum VirtualJoystickEventType {
    Press,
    Drag,
    Up,
}

/// An event of the joystick with the identifier `id`.
#[derive(Clone, Debug, PartialEq, Eq, Hash)]
pub struct VirtualJoystickEvent<S> {
    pub id: S,
    pub event: VirtualJoystickEventType,
    /// Where the pointer is; zero for an up.
    pub value: Vec2,
    /// The normalized displacement when the event was emitted.
    pub delta: Vec2,
}

/// The threshold that `snap_axis` uses where none is given: one half.
pub const DEFAULT_SNAP_DEAD_ZONE: i32 = 500;

/// A coordinate of the displacement snapped to its direction: one with the
/// sign of the coordinate if its magnitude exceeds the threshold, else zero.
pub open spec fn snapped(value: i32, threshold: i32) -> i32 {
    if abs(value as int) <= threshold {
        0
    } else if value < 0 {
        (-DELTA_ONE) as i32
    } else {
        DELTA_ONE
    }
}

/// The displacement snapped to the nearest direction along each axis.
pub open spec fn spec_snap_axis(delta: Vec2, dead_zone: Option<i32>) -> Vec2 {
    let threshold = match dead_zone {
        Some(t) => t,
        None => DEFAULT_SNAP_DEAD_ZONE,
    };
    Vec2 { x: snapped(delta.x, threshold), y: snapped(delta.y, threshold) }
}

fn snap(value: i32, threshold: i32) -> (r: i32)
    ensures
        r == snapped(value, threshold),
{
    let v: i64 = value as i64;
    let t: i64 = threshold as i64;
    if -t <= v && v <= t {
        0
    } else if value < 0 {
        -DELTA_ONE
    } else {
        DELTA_ONE
    }
}

impl<S> VirtualJoystickEvent<S> {
    /// The event without its identifier.
    pub open spec fn anonymous(self) -> VirtualJoystickEvent<()> {
        VirtualJoystickEvent { id: (), event: self.event, value: self.value, delta: self.delta }
    }
}

impl<S: VirtualJoystickID> VirtualJoystickEvent<S> {
    /// The identifier of the joystick that emitted the event.
    pub fn id(&self) -> (id: S)
        ensures
            cloned(self.id, id),
    {
        self.id.clone()
    }

    /// The position of the pointer, mouse or touch.
    pub fn value(&self) -> (value: Vec2)
        ensures
            value == self.value,
    {
        self.value
    }

    /// The displacement, each coordinate between minus one and one.
    pub fn axis(&self) -> (delta: Vec2)
        ensures
            delta == self.delta,
    {
        self.delta
    }

    /// The kind of the event.
    pub fn get_type(&self) -> (event: VirtualJoystickEventType)
        ensures
            event == self.event,
    {
        self.event
    }

    /// The displacement snapped to the nearest direction along each axis:
    /// a coordinate is one with its sign if its magnitude exceeds
    /// `dead_zone`, else zero. The threshold is one half where none is
    /// given.
    pub fn snap_axis(&self, dead_zone: Option<i32>) -> (snapped: Vec2)
        ensures
            snapped == spec_snap_axis(self.delta, dead_zone),
    {
        let threshold = match dead_zone {
            Some(t) => t,
            None => DEFAULT_SNAP_DEAD_ZONE,
        };
        Vec2 { x: snap(self.delta.x, threshold), y: snap(self.delta.y, threshold) }
    }
}

/// The events of one frame, without the identifier. In the frame a session
/// ends: an up, with a zero value. In a frame of a session: a press if the
/// session has just begun, and then a drag, both with the pointer's
/// position. Otherwise none.
pub open spec fn spec_fire_events(state: VirtualJoystickState) -> Seq<VirtualJoystickEvent<()>> {
    if state.just_released {
        seq![
            VirtualJoystickEvent {
                id: (),
                event: VirtualJoystickEventType::Up,
                value: Vec2::spec_zero(),
                delta: state.delta,
            },
        ]
    } else {
        match state.touch_state {
            Some(session) => {
                let drag = VirtualJoystickEvent {
                    id: (),
                    event: VirtualJoystickEventType::Drag,
                    value: session.current,
                    delta: state.delta,
                };
                if session.just_pressed {
                    seq![
                        VirtualJoystickEvent {
                            id: (),
                            event: VirtualJoystickEventType::Press,
                            value: session.current,
                            delta: state.delta,
                        },
                        drag,
                    ]
                } else {
                    seq![drag]
                }
            },
            None => Seq::empty(),
        }
    }
}

/// The events of a sequence without their identifiers.
pub open spec fn anonymous_events<S>(events: Seq<VirtualJoystickEvent<S>>) -> Seq<
    VirtualJoystickEvent<()>,
> {
    Seq::new(events.len(), |i: int| events[i].anonymous())
}

/// Emits the events of one joystick for one frame, after the behaviors have
/// run. Each event carries a clone of `id`.
pub fn update_fire_events<S: VirtualJoystickID>(id: &S, state: &VirtualJoystickState) -> (events: Vec<
    VirtualJoystickEvent<S>,
>)
    ensures
        anonymous_events(events@) == spec_fire_events(*state),
        forall|i: int| 0 <= i < events@.len() ==> cloned(*id, (#[trigger] events@[i]).id),
{
    let mut events: Vec<VirtualJoystickEvent<S>> = Vec::new();
    if state.just_released {
        events.push(
            VirtualJoystickEvent {
                id: id.clone(),
                event: VirtualJoystickEventType::Up,
                value: Vec2::zero(),
                delta: state.delta,
            },
        );
        assert(anonymous_events(events@) =~= spec_fire_events(*state));
        return events;
    }
    if let Some(session) = state.touch_state {
        if session.just_pressed {
            events.push(
                VirtualJoystickEvent {
                    id: id.clone(),
                    event: VirtualJoystickEventType::Press,
                    value: session.current,
                    delta: state.delta,
                },
            );
        }
        events.push(
            VirtualJoystickEvent {
                id: id.clone(),
                event: VirtualJoystickEventType::Drag,
                value: session.current,
                delta: state.delta,
            },
        );
    }
    assert(anonymous_events(events@) =~= spec_fire_events(*state));
    events
}

} // verus!
