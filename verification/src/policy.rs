//! Placement and axis policies as closed sets: a joystick whose behavior is
//! chosen at run time carries one value of each.

use vstd::prelude::*;
use crate::behavior::{
    JoystickDynamic, JoystickFixed, JoystickFloating, VirtualJoystickBehavior,
};
use crate::geometry::{Vec2, Vec3};
use crate::state::{JoystickGeometry, Visibility, VirtualJoystickState};

verus! {

/// The axes along which a joystick reports a displacement.
#[derive(Clone, Copy, Debug, PartialEq, Eq, Structural, Hash)]
pub enum VirtualJoystickAxis {
    Both,
    Horizontal,
    Vertical,
}

/// How the base of a joystick is placed.
#[derive(Clone, Copy, Debug, PartialEq, Eq, Structural, Hash)]
pub enum VirtualJoystickType {
    /// The base stays where it is laid out.
    Fixed,
    /// The base appears where the pointer lands.
    Floating,
    /// The base follows the pointer during a drag.
    Dynamic,
}

impl Default for VirtualJoystickAxis {
    fn default() -> (axis: VirtualJoystickAxis)
        ensures
            axis == VirtualJoystickAxis::Both,
    {
        VirtualJoystickAxis::Both
    }
}

impl Default for VirtualJoystickType {
    fn default() -> (kind: VirtualJoystickType)
        ensures
            kind == VirtualJoystickType::Floating,
    {
        VirtualJoystickType::Floating
    }
}

impl VirtualJoystickAxis {
    /// The vector with the coordinate of a locked axis set to zero.
    pub open spec fn spec_handle(&self, pos: Vec2) -> Vec2 {
        match self {
            VirtualJoystickAxis::Both => pos,
            VirtualJoystickAxis::Horizontal => Vec2 { x: pos.x, y: 0 },
            VirtualJoystickAxis::Vertical => Vec2 { x: 0, y: pos.y },
        }
    }

    /// Sets the coordinate of a locked axis to zero.
    #[verifier::when_used_as_spec(spec_handle)]
    pub fn handle(&self, pos: Vec2) -> (r: Vec2)
        ensures
            r == self.spec_handle(pos),
    {
        match self {
            VirtualJoystickAxis::Both => pos,
            VirtualJoystickAxis::Horizontal => Vec2 { x: pos.x, y: 0 },
            VirtualJoystickAxis::Vertical => Vec2 { x: 0, y: pos.y },
        }
    }

    /// Sets the coordinate of a locked axis to zero and keeps the depth.
    pub fn handle_vec3(&self, pos: Vec3) -> (r: Vec3)
        ensures
            r.x == self.spec_handle(Vec2 { x: pos.x, y: pos.y }).x,
            r.y == self.spec_handle(Vec2 { x: pos.x, y: pos.y }).y,
            r.z == pos.z,
    {
        let flat = self.handle_xy(pos.x, pos.y);
        Vec3 { x: flat.x, y: flat.y, z: pos.z }
    }

    /// The vector of the two coordinates with that of a locked axis set to
    /// zero.
    pub fn handle_xy(&self, x: i32, y: i32) -> (r: Vec2)
        ensures
            r == self.spec_handle(Vec2 { x, y }),
    {
        self.handle(Vec2 { x, y })
    }
}

impl VirtualJoystickBehavior for VirtualJoystickAxis {
    open spec fn delta_stage(
        &self,
        state: VirtualJoystickState,
        geometry: JoystickGeometry,
    ) -> VirtualJoystickState {
        state
    }

    open spec fn constraint_stage(&self, state: VirtualJoystickState) -> VirtualJoystickState {
        VirtualJoystickState { delta: self.spec_handle(state.delta), ..state }
    }

    open spec fn visibility_stage(&self, state: VirtualJoystickState, visibility: Visibility) -> Visibility {
        visibility
    }

    proof fn lemma_delta_stage(&self, state: VirtualJoystickState, geometry: JoystickGeometry) {
    }

    proof fn lemma_constraint_stage(&self, state: VirtualJoystickState) {
    }

    fn update_at_delta_stage(&self, state: &mut VirtualJoystickState, geometry: &JoystickGeometry) {
    }

    fn update_at_constraint_stage(&self, state: &mut VirtualJoystickState) {
        state.delta = self.handle(state.delta);
    }

    fn update(&self, state: &VirtualJoystickState, visibility: &mut Visibility) {
    }
}

impl VirtualJoystickBehavior for VirtualJoystickType {
    open spec fn delta_stage(
        &self,
        state: VirtualJoystickState,
        geometry: JoystickGeometry,
    ) -> VirtualJoystickState {
        match self {
            VirtualJoystickType::Fixed => JoystickFixed.delta_stage(state, geometry),
            VirtualJoystickType::Floating => JoystickFloating.delta_stage(state, geometry),
            VirtualJoystickType::Dynamic => JoystickDynamic.delta_stage(state, geometry),
        }
    }

    open spec fn constraint_stage(&self, state: VirtualJoystickState) -> VirtualJoystickState {
        state
    }

    open spec fn visibility_stage(&self, state: VirtualJoystickState, visibility: Visibility) -> Visibility {
        visibility
    }

    proof fn lemma_delta_stage(&self, state: VirtualJoystickState, geometry: JoystickGeometry) {
        JoystickFixed.lemma_delta_stage(state, geometry);
        JoystickFloating.lemma_delta_stage(state, geometry);
        JoystickDynamic.lemma_delta_stage(state, geometry);
    }

    proof fn lemma_constraint_stage(&self, state: VirtualJoystickState) {
    }

    fn update_at_delta_stage(&self, state: &mut VirtualJoystickState, geometry: &JoystickGeometry) {
        match self {
            VirtualJoystickType::Fixed => JoystickFixed.update_at_delta_stage(state, geometry),
            VirtualJoystickType::Floating => JoystickFloating.update_at_delta_stage(state, geometry),
            VirtualJoystickType::Dynamic => JoystickDynamic.update_at_delta_stage(state, geometry),
        }
    }

    fn update_at_constraint_stage(&self, state: &mut VirtualJoystickState) {
    }

    fn update(&self, state: &VirtualJoystickState, visibility: &mut Visibility) {
    }
}

} // verus!
