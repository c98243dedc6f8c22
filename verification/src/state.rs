//! The state that a joystick carries from frame to frame, and what the host
//! measures of it on screen.

use vstd::prelude::*;
use crate::geometry::{Rect, Vec2, COORD_MAX, DELTA_ONE, OFFSET_MAX};

verus! {

/// One pointer session: the touch or the mouse that drives a joystick from
/// press to release.
#[derive(Clone, Copy, Debug, PartialEq, Eq, Structural, Hash)]
pub struct TouchState {
    /// The identifier of the touch; `MOUSE_POINTER_ID` for the mouse.
    pub id: u64,
    pub is_mouse: bool,
    /// Where the pointer was when the session began.
    pub start: Vec2,
    /// Where the pointer is now.
    pub current: Vec2,
    /// True only during the frame in which the session began.
    pub just_pressed: bool,
}

/// The pointer identifier of a mouse session.
pub const MOUSE_POINTER_ID: u64 = 0;

impl TouchState {
    /// Both positions of the session lie within the coordinate limits.
    pub open spec fn wf(self) -> bool {
        self.start.is_position() && self.current.is_position()
    }
}

impl Default for TouchState {
    fn default() -> (t: TouchState)
        ensures
            t == (TouchState {
                id: 0,
                is_mouse: false,
                start: Vec2::spec_zero(),
                current: Vec2::spec_zero(),
                just_pressed: false,
            }),
    {
        TouchState {
            id: 0,
            is_mouse: false,
            start: Vec2::zero(),
            current: Vec2::zero(),
            just_pressed: false,
        }
    }
}

/// What one joystick remembers between frames.
#[derive(Clone, Copy, Debug, PartialEq, Eq, Structural, Hash)]
pub struct VirtualJoystickState {
    /// The pointer session that owns the joystick, if any.
    pub touch_state: Option<TouchState>,
    /// True for exactly one frame: the one in which the session ended.
    pub just_released: bool,
    /// How far the base has moved from its resting place.
    pub base_offset: Vec2,
    /// The normalized displacement: right and up are positive.
    pub delta: Vec2,
}

impl VirtualJoystickState {
    /// The state of a joystick at rest: no session, nothing moved.
    pub open spec fn spec_resting() -> VirtualJoystickState {
        VirtualJoystickState {
            touch_state: None,
            just_released: false,
            base_offset: Vec2::spec_zero(),
            delta: Vec2::spec_zero(),
        }
    }

    /// Every vector of the state lies within the limits of its kind.
    pub open spec fn wf(self) -> bool {
        &&& (self.touch_state matches Some(t) ==> t.wf())
        &&& self.base_offset.is_offset()
        &&& self.delta.is_delta()
    }

    /// No session is active and none has just ended.
    pub open spec fn is_idle(self) -> bool {
        self.touch_state is None && !self.just_released
    }

    /// The state of a joystick at rest.
    #[verifier::when_used_as_spec(spec_resting)]
    pub fn resting() -> (s: VirtualJoystickState)
        ensures
            s == VirtualJoystickState::spec_resting(),
            s.wf(),
    {
        VirtualJoystickState {
            touch_state: None,
            just_released: false,
            base_offset: Vec2::zero(),
            delta: Vec2::zero(),
        }
    }

    /// Tells whether every vector of the state lies within the limits of
    /// its kind.
    pub fn is_wf(&self) -> (b: bool)
        ensures
            b == self.wf(),
    {
        let pointer_ok = match self.touch_state {
            Some(t) => t.start.fits(COORD_MAX) && t.current.fits(COORD_MAX),
            None => true,
        };
        pointer_ok && self.base_offset.fits(OFFSET_MAX) && self.delta.fits(DELTA_ONE)
    }
}

impl Default for VirtualJoystickState {
    fn default() -> (s: VirtualJoystickState)
        ensures
            s == VirtualJoystickState::spec_resting(),
    {
        VirtualJoystickState::resting()
    }
}

/// Whether the host draws an element.
#[derive(Clone, Copy, Debug, PartialEq, Eq, Structural, Hash)]
pub enum Visibility {
    /// Drawn if the parent is drawn.
    Inherited,
    /// Not drawn.
    Hidden,
    /// Drawn whatever the parent does.
    Visible,
}

impl Default for Visibility {
    fn default() -> (v: Visibility)
        ensures
            v == Visibility::Inherited,
    {
        Visibility::Inherited
    }
}

/// The rectangles that the host has measured on screen for one joystick in
/// one frame. A rectangle is `None` while the host has not laid the element
/// out. The base and the knob are given at their resting places, where they
/// stand while the base offset is zero; the joystick's state says how far
/// they have moved from there.
#[derive(Clone, Copy, Debug, PartialEq, Eq, Structural, Hash)]
pub struct JoystickGeometry {
    /// The joystick as a whole.
    pub joystick_rect: Option<Rect>,
    /// The part of the joystick in which a pointer can claim it, where the
    /// joystick has one marked.
    pub interaction_area: Option<Rect>,
    /// The base at its resting place.
    pub base_rect: Option<Rect>,
    /// The knob at its resting place.
    pub knob_rect: Option<Rect>,
}

impl JoystickGeometry {
    /// Every rectangle that is there is well formed.
    pub open spec fn wf(self) -> bool {
        &&& (self.joystick_rect matches Some(r) ==> r.wf())
        &&& (self.interaction_area matches Some(r) ==> r.wf())
        &&& (self.base_rect matches Some(r) ==> r.wf())
        &&& (self.knob_rect matches Some(r) ==> r.wf())
    }

    /// The rectangle in which a pointer can claim the joystick: the marked
    /// area where there is one, else the joystick itself.
    pub open spec fn spec_interaction_rect(&self) -> Option<Rect> {
        match self.interaction_area {
            Some(r) => Some(r),
            None => self.joystick_rect,
        }
    }

    /// Nothing has been measured.
    pub open spec fn spec_unmeasured() -> JoystickGeometry {
        JoystickGeometry { joystick_rect: None, interaction_area: None, base_rect: None, knob_rect: None }
    }

    /// The geometry of a joystick of which nothing has been measured.
    #[verifier::when_used_as_spec(spec_unmeasured)]
    pub fn unmeasured() -> (g: JoystickGeometry)
        ensures
            g == JoystickGeometry::spec_unmeasured(),
            g.wf(),
    {
        JoystickGeometry { joystick_rect: None, interaction_area: None, base_rect: None, knob_rect: None }
    }

    /// The rectangle in which a pointer can claim the joystick.
    #[verifier::when_used_as_spec(spec_interaction_rect)]
    pub fn interaction_rect(&self) -> (r: Option<Rect>)
        ensures
            r == self.spec_interaction_rect(),
    {
        match self.interaction_area {
            Some(r) => Some(r),
            None => self.joystick_rect,
        }
    }

    /// Tells whether every rectangle that is there is well formed.
    pub fn is_wf(&self) -> (b: bool)
        ensures
            b == self.wf(),
    {
        let a = match self.joystick_rect {
            Some(r) => r.is_wf(),
            None => true,
        };
        let b = match self.interaction_area {
            Some(r) => r.is_wf(),
            None => true,
        };
        let c = match self.base_rect {
            Some(r) => r.is_wf(),
            None => true,
        };
        let d = match self.knob_rect {
            Some(r) => r.is_wf(),
            None => true,
        };
        a && b && c && d
    }
}

} // verus!
