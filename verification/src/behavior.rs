//! The behaviors of a joystick: how the base is placed and the displacement
//! derived (fixed, floating, dynamic), how the displacement is constrained
//! (dead zone, axis locks), and when the joystick is visible.
//!
//! A behavior acts in three stages. The delta stage derives the base offset
//! and the raw displacement from the pointer session and the measured
//! geometry. The constraint stage restricts the displacement. The
//! visibility stage decides whether the joystick is drawn. Behaviors
//! compose as tuples, whose members act in order within each stage.

use vstd::prelude::*;
use std::sync::Arc;
use crate::geometry::{
    circular_delta, clamp_to_circle, lemma_clamp_to_circle_coordinates, spec_circular_delta,
    spec_clamp_to_circle, Rect, Vec2,
};
use crate::math::abs;
use crate::state::{JoystickGeometry, Visibility, VirtualJoystickState};

verus! {

/// What a joystick does in each stage of a frame.
pub trait VirtualJoystickBehavior {
    /// The state after the delta stage.
    spec fn delta_stage(
        &self,
        state: VirtualJoystickState,
        geometry: JoystickGeometry,
    ) -> VirtualJoystickState;

    /// The state after the constraint stage.
    spec fn constraint_stage(&self, state: VirtualJoystickState) -> VirtualJoystickState;

    /// The visibility after the visibility stage.
    spec fn visibility_stage(&self, state: VirtualJoystickState, visibility: Visibility) -> Visibility;

    /// The delta stage leaves the pointer session alone and keeps a
    /// well-formed state well formed.
    proof fn lemma_delta_stage(&self, state: VirtualJoystickState, geometry: JoystickGeometry)
        requires
            state.wf(),
            geometry.wf(),
        ensures
            self.delta_stage(state, geometry).wf(),
            self.delta_stage(state, geometry).touch_state == state.touch_state,
            self.delta_stage(state, geometry).just_released == state.just_released,
    ;

    /// The constraint stage changes nothing but the displacement and keeps
    /// a well-formed state well formed.
    proof fn lemma_constraint_stage(&self, state: VirtualJoystickState)
        requires
            state.wf(),
        ensures
            self.constraint_stage(state).wf(),
            self.constraint_stage(state).touch_state == state.touch_state,
            self.constraint_stage(state).just_released == state.just_released,
            self.constraint_stage(state).base_offset == state.base_offset,
    ;

    /// Derives the base offset and the raw displacement.
    fn update_at_delta_stage(&self, state: &mut VirtualJoystickState, geometry: &JoystickGeometry)
        requires
            old(state).wf(),
            geometry.wf(),
        ensures
            *final(state) == self.delta_stage(*old(state), *geometry),
            final(state).wf(),
    ;

    /// Restricts the displacement.
    fn update_at_constraint_stage(&self, state: &mut VirtualJoystickState)
        requires
            old(state).wf(),
        ensures
            *final(state) == self.constraint_stage(*old(state)),
            final(state).wf(),
    ;

    /// Decides whether the joystick is drawn.
    fn update(&self, state: &VirtualJoystickState, visibility: &mut Visibility)
        ensures
            *final(visibility) == self.visibility_stage(*state, *old(visibility)),
    ;
}

/// Suppresses a displacement below a threshold: a coordinate whose magnitude
/// is less than the threshold, in units of `DELTA_ONE`, becomes zero.
#[derive(Clone, Copy, Debug, Default, PartialEq, Eq, Structural, Hash)]
pub struct JoystickDeadZone(pub i32);

/// Locks the vertical axis: the vertical displacement is always zero.
#[derive(Clone, Copy, Debug, Default, PartialEq, Eq, Structural, Hash)]
pub struct JoystickHorizontalOnly;

/// Locks the horizontal axis: the horizontal displacement is always zero.
#[derive(Clone, Copy, Debug, Default, PartialEq, Eq, Structural, Hash)]
pub struct JoystickVerticalOnly;

/// Hides the joystick until a pointer touches it.
#[derive(Clone, Copy, Debug, Default, PartialEq, Eq, Structural, Hash)]
pub struct JoystickInvisible;

/// The base stays where it is laid out.
#[derive(Clone, Copy, Debug, Default, PartialEq, Eq, Structural, Hash)]
pub struct JoystickFixed;

/// The base moves under the pointer when a session begins and returns when
/// it ends.
#[derive(Clone, Copy, Debug, Default, PartialEq, Eq, Structural, Hash)]
pub struct JoystickFloating;

/// The base moves under the pointer when a session begins and follows a
/// pointer that strays beyond its rim.
#[derive(Clone, Copy, Debug, Default, PartialEq, Eq, Structural, Hash)]
pub struct JoystickDynamic;

/// A coordinate of the displacement after a dead zone of the given
/// threshold: zero if its magnitude is below the threshold, else unchanged.
pub open spec fn dead_zone_filter(value: i32, threshold: i32) -> i32 {
    if abs(value as int) < threshold {
        0
    } else {
        value
    }
}

/// The offset at which a base that moves with the session settles before
/// the pointer is followed: under the pointer's start in the frame the
/// session begins, back in place in the frame it ends, and where it was
/// otherwise. `base_center` is the center of the base at its resting place.
pub open spec fn settled_base_offset(state: VirtualJoystickState, base_center: Vec2) -> Vec2 {
    match state.touch_state {
        Some(session) => if session.just_pressed {
            session.start.spec_offset_from(base_center)
        } else {
            state.base_offset
        },
        None => if state.just_released {
            Vec2::spec_zero()
        } else {
            state.base_offset
        },
    }
}

/// The center of a base that stands at `base_offset` from the corner of the
/// joystick's rectangle.
pub open spec fn dynamic_base_center(joystick_rect: Rect, base_offset: Vec2, base_half_size: Vec2) -> Vec2 {
    Vec2 {
        x: (joystick_rect.left() + base_offset.x + base_half_size.x) as i32,
        y: (joystick_rect.top() + base_offset.y + base_half_size.y) as i32,
    }
}

fn apply_dead_zone(value: i32, threshold: i32) -> (r: i32)
    ensures
        r == dead_zone_filter(value, threshold),
{
    let v: i64 = value as i64;
    let t: i64 = threshold as i64;
    if -t < v && v < t {
        0
    } else {
        value
    }
}

fn settle_base_offset(state: &VirtualJoystickState, base_center: Vec2) -> (r: Vec2)
    requires
        state.wf(),
        base_center.is_position(),
    ensures
        r == settled_base_offset(*state, base_center),
        r.is_offset(),
{
    match state.touch_state {
        Some(session) => {
            if session.just_pressed {
                session.start.offset_from(base_center)
            } else {
                state.base_offset
            }
        },
        None => {
            if state.just_released {
                Vec2::zero()
            } else {
                state.base_offset
            }
        },
    }
}

impl VirtualJoystickBehavior for JoystickDeadZone {
    open spec fn delta_stage(
        &self,
        state: VirtualJoystickState,
        geometry: JoystickGeometry,
    ) -> VirtualJoystickState {
        state
    }

    open spec fn constraint_stage(&self, state: VirtualJoystickState) -> VirtualJoystickState {
        VirtualJoystickState {
            delta: Vec2 {
                x: dead_zone_filter(state.delta.x, self.0),
                y: dead_zone_filter(state.delta.y, self.0),
            },
            ..state
        }
    }

    open spec fn visibility_stage(&self, state: VirtualJoystickState, visibility: Visibility) -> Visibility {
        visibility
    }

    proof fn lemma_delta_stage(&self, state: VirtualJoystickState, geometry: JoystickGeometry) {
    }

    proof fn lemma_constraint_stage(&self, state: VirtualJoystickState) {
    }

    fn update_at_delta_stage(&self, state: &mut VirtualJoystickState, geometry: &JoystickGeometry) {
    }

    fn update_at_constraint_stage(&self, state: &mut VirtualJoystickState) {
        state.delta = Vec2 {
            x: apply_dead_zone(state.delta.x, self.0),
            y: apply_dead_zone(state.delta.y, self.0),
        };
    }

    fn update(&self, state: &VirtualJoystickState, visibility: &mut Visibility) {
    }
}

impl VirtualJoystickBehavior for JoystickHorizontalOnly {
    open spec fn delta_stage(
        &self,
        state: VirtualJoystickState,
        geometry: JoystickGeometry,
    ) -> VirtualJoystickState {
        state
    }

    open spec fn constraint_stage(&self, state: VirtualJoystickState) -> VirtualJoystickState {
        VirtualJoystickState { delta: Vec2 { x: state.delta.x, y: 0 }, ..state }
    }

    open spec fn visibility_stage(&self, state: VirtualJoystickState, visibility: Visibility) -> Visibility {
        visibility
    }

    proof fn lemma_delta_stage(&self, state: VirtualJoystickState, geometry: JoystickGeometry) {
    }

    proof fn lemma_constraint_stage(&self, state: VirtualJoystickState) {
    }

    fn update_at_delta_stage(&self, state: &mut VirtualJoystickState, geometry: &JoystickGeometry) {
    }

    fn update_at_constraint_stage(&self, state: &mut VirtualJoystickState) {
        state.delta.y = 0;
    }

    fn update(&self, state: &VirtualJoystickState, visibility: &mut Visibility) {
    }
}

impl VirtualJoystickBehavior for JoystickVerticalOnly {
    open spec fn delta_stage(
        &self,
        state: VirtualJoystickState,
        geometry: JoystickGeometry,
    ) -> VirtualJoystickState {
        state
    }

    open spec fn constraint_stage(&self, state: VirtualJoystickState) -> VirtualJoystickState {
        VirtualJoystickState { delta: Vec2 { x: 0, y: state.delta.y }, ..state }
    }

    open spec fn visibility_stage(&self, state: VirtualJoystickState, visibility: Visibility) -> Visibility {
        visibility
    }

    proof fn lemma_delta_stage(&self, state: VirtualJoystickState, geometry: JoystickGeometry) {
    }

    proof fn lemma_constraint_stage(&self, state: VirtualJoystickState) {
    }

    fn update_at_delta_stage(&self, state: &mut VirtualJoystickState, geometry: &JoystickGeometry) {
    }

    fn update_at_constraint_stage(&self, state: &mut VirtualJoystickState) {
        state.delta.x = 0;
    }

    fn update(&self, state: &VirtualJoystickState, visibility: &mut Visibility) {
    }
}

impl VirtualJoystickBehavior for JoystickInvisible {
    open spec fn delta_stage(
        &self,
        state: VirtualJoystickState,
        geometry: JoystickGeometry,
    ) -> VirtualJoystickState {
        state
    }

    open spec fn constraint_stage(&self, state: VirtualJoystickState) -> VirtualJoystickState {
        state
    }

    /// Hidden in the frame a session ends and while there is none; shown,
    /// by inheritance, in the frame a session begins; unchanged while a
    /// session goes on.
    open spec fn visibility_stage(&self, state: VirtualJoystickState, visibility: Visibility) -> Visibility {
        match state.touch_state {
            Some(session) => if session.just_pressed {
                Visibility::Inherited
            } else if state.just_released {
                Visibility::Hidden
            } else {
                visibility
            },
            None => Visibility::Hidden,
        }
    }

    proof fn lemma_delta_stage(&self, state: VirtualJoystickState, geometry: JoystickGeometry) {
    }

    proof fn lemma_constraint_stage(&self, state: VirtualJoystickState) {
    }

    fn update_at_delta_stage(&self, state: &mut VirtualJoystickState, geometry: &JoystickGeometry) {
    }

    fn update_at_constraint_stage(&self, state: &mut VirtualJoystickState) {
    }

    fn update(&self, state: &VirtualJoystickState, visibility: &mut Visibility) {
        let hidden = match *visibility {
            Visibility::Hidden => true,
            _ => false,
        };
        if state.just_released || (!hidden && state.touch_state.is_none()) {
            *visibility = Visibility::Hidden;
        }
        if let Some(session) = state.touch_state {
            if session.just_pressed {
                *visibility = Visibility::Inherited;
            }
        }
    }
}

impl VirtualJoystickBehavior for JoystickFixed {
    /// Without a measured base nothing changes. Otherwise the base offset
    /// is zero, and the displacement is zero without a session and else the
    /// circular delta of the pointer's offset from the center of the base,
    /// scaled by axis.
    open spec fn delta_stage(
        &self,
        state: VirtualJoystickState,
        geometry: JoystickGeometry,
    ) -> VirtualJoystickState {
        match geometry.base_rect {
            None => state,
            Some(base) => VirtualJoystickState {
                base_offset: Vec2::spec_zero(),
                delta: match state.touch_state {
                    None => Vec2::spec_zero(),
                    Some(session) => spec_circular_delta(
                        session.current.spec_offset_from(base.center),
                        base.half_size,
                        base.half_size,
                    ),
                },
                ..state
            },
        }
    }

    open spec fn constraint_stage(&self, state: VirtualJoystickState) -> VirtualJoystickState {
        state
    }

    open spec fn visibility_stage(&self, state: VirtualJoystickState, visibility: Visibility) -> Visibility {
        visibility
    }

    proof fn lemma_delta_stage(&self, state: VirtualJoystickState, geometry: JoystickGeometry) {
        lemma_circular_delta_is_delta();
    }

    proof fn lemma_constraint_stage(&self, state: VirtualJoystickState) {
    }

    fn update_at_delta_stage(&self, state: &mut VirtualJoystickState, geometry: &JoystickGeometry) {
        let base = match geometry.base_rect {
            Some(base) => base,
            None => {
                return;
            },
        };
        state.base_offset = Vec2::zero();
        state.delta = match state.touch_state {
            None => Vec2::zero(),
            Some(session) => circular_delta(
                session.current.offset_from(base.center),
                base.half_size,
                base.half_size,
            ),
        };
    }

    fn update_at_constraint_stage(&self, state: &mut VirtualJoystickState) {
    }

    fn update(&self, state: &VirtualJoystickState, visibility: &mut Visibility) {
    }
}

impl VirtualJoystickBehavior for JoystickFloating {
    /// Without a measured base nothing changes. Otherwise the base settles
    /// (see `settled_base_offset`), and the displacement is zero without a
    /// session and in the frame the session begins, and else the circular
    /// delta of the pointer's offset from the center of the base at its
    /// settled place, scaled uniformly by the half width of the base.
    open spec fn delta_stage(
        &self,
        state: VirtualJoystickState,
        geometry: JoystickGeometry,
    ) -> VirtualJoystickState {
        match geometry.base_rect {
            None => state,
            Some(base) => {
                let settled = settled_base_offset(state, base.center);
                VirtualJoystickState {
                    base_offset: settled,
                    delta: match state.touch_state {
                        None => Vec2::spec_zero(),
                        Some(session) => if session.just_pressed {
                            Vec2::spec_zero()
                        } else {
                            spec_circular_delta(
                                session.current.spec_offset_from(base.center.spec_moved_by(settled)),
                                base.half_size,
                                Vec2 { x: base.half_size.x, y: base.half_size.x },
                            )
                        },
                    },
                    ..state
                }
            },
        }
    }

    open spec fn constraint_stage(&self, state: VirtualJoystickState) -> VirtualJoystickState {
        state
    }

    open spec fn visibility_stage(&self, state: VirtualJoystickState, visibility: Visibility) -> Visibility {
        visibility
    }

    proof fn lemma_delta_stage(&self, state: VirtualJoystickState, geometry: JoystickGeometry) {
        lemma_circular_delta_is_delta();
    }

    proof fn lemma_constraint_stage(&self, state: VirtualJoystickState) {
    }

    fn update_at_delta_stage(&self, state: &mut VirtualJoystickState, geometry: &JoystickGeometry) {
        let base = match geometry.base_rect {
            Some(base) => base,
            None => {
                return;
            },
        };
        let settled = settle_base_offset(state, base.center);
        state.base_offset = settled;
        state.delta = match state.touch_state {
            None => Vec2::zero(),
            Some(session) => {
                if session.just_pressed {
                    Vec2::zero()
                } else {
                    circular_delta(
                        session.current.offset_from(base.center.moved_by(settled)),
                        base.half_size,
                        Vec2 { x: base.half_size.x, y: base.half_size.x },
                    )
                }
            },
        };
    }

    fn update_at_constraint_stage(&self, state: &mut VirtualJoystickState) {
    }

    fn update(&self, state: &VirtualJoystickState, visibility: &mut Visibility) {
    }
}

impl VirtualJoystickBehavior for JoystickDynamic {
    /// Without a measured joystick and base nothing changes. Otherwise the
    /// base settles as a floating one does. Without a session the
    /// displacement is zero. With one, the pointer's offset is taken from
    /// the center of the base at its settled place; the base moves by what
    /// of the offset lies beyond its rim, so that the pointer is on the rim
    /// again; and the displacement is the circular delta of the offset,
    /// scaled by axis.
    open spec fn delta_stage(
        &self,
        state: VirtualJoystickState,
        geometry: JoystickGeometry,
    ) -> VirtualJoystickState {
        match (geometry.joystick_rect, geometry.base_rect) {
            (Some(joystick), Some(base)) => {
                let settled = settled_base_offset(state, base.center);
                match state.touch_state {
                    None => VirtualJoystickState {
                        base_offset: settled,
                        delta: Vec2::spec_zero(),
                        ..state
                    },
                    Some(session) => {
                        let center = dynamic_base_center(joystick, settled, base.half_size);
                        let offset = session.current.spec_offset_from(center);
                        let on_rim = spec_clamp_to_circle(offset, base.half_size.x);
                        VirtualJoystickState {
                            base_offset: settled.spec_moved_by(offset.spec_offset_from(on_rim)),
                            delta: spec_circular_delta(offset, base.half_size, base.half_size),
                            ..state
                        }
                    },
                }
            },
            _ => state,
        }
    }

    open spec fn constraint_stage(&self, state: VirtualJoystickState) -> VirtualJoystickState {
        state
    }

    open spec fn visibility_stage(&self, state: VirtualJoystickState, visibility: Visibility) -> Visibility {
        visibility
    }

    proof fn lemma_delta_stage(&self, state: VirtualJoystickState, geometry: JoystickGeometry) {
        lemma_circular_delta_is_delta();
        match (geometry.joystick_rect, geometry.base_rect) {
            (Some(joystick), Some(base)) => {
                let settled = settled_base_offset(state, base.center);
                match state.touch_state {
                    None => {},
                    Some(session) => {
                        let center = dynamic_base_center(joystick, settled, base.half_size);
                        let offset = session.current.spec_offset_from(center);
                        lemma_clamp_to_circle_coordinates(offset, base.half_size.x);
                    },
                }
            },
            _ => {},
        }
    }

    proof fn lemma_constraint_stage(&self, state: VirtualJoystickState) {
    }

    fn update_at_delta_stage(&self, state: &mut VirtualJoystickState, geometry: &JoystickGeometry) {
        let joystick = match geometry.joystick_rect {
            Some(joystick) => joystick,
            None => {
                return;
            },
        };
        let base = match geometry.base_rect {
            Some(base) => base,
            None => {
                return;
            },
        };
        let settled = settle_base_offset(state, base.center);
        match state.touch_state {
            None => {
                state.base_offset = settled;
                state.delta = Vec2::zero();
            },
            Some(session) => {
                let corner = joystick.min();
                let center = corner.moved_by(settled).moved_by(base.half_size);
                let offset = session.current.offset_from(center);
                let on_rim = clamp_to_circle(offset, base.half_size.x);
                proof {
                    lemma_clamp_to_circle_coordinates(offset, base.half_size.x);
                }
                state.base_offset = settled.moved_by(offset.offset_from(on_rim));
                state.delta = circular_delta(offset, base.half_size, base.half_size);
            },
        }
    }

    fn update_at_constraint_stage(&self, state: &mut VirtualJoystickState) {
    }

    fn update(&self, state: &VirtualJoystickState, visibility: &mut Visibility) {
    }
}

impl<A: VirtualJoystickBehavior, B: VirtualJoystickBehavior> VirtualJoystickBehavior for (A, B) {
    open spec fn delta_stage(
        &self,
        state: VirtualJoystickState,
        geometry: JoystickGeometry,
    ) -> VirtualJoystickState {
        self.1.delta_stage(self.0.delta_stage(state, geometry), geometry)
    }

    open spec fn constraint_stage(&self, state: VirtualJoystickState) -> VirtualJoystickState {
        self.1.constraint_stage(self.0.constraint_stage(state))
    }

    open spec fn visibility_stage(&self, state: VirtualJoystickState, visibility: Visibility) -> Visibility {
        self.1.visibility_stage(state, self.0.visibility_stage(state, visibility))
    }

    proof fn lemma_delta_stage(&self, state: VirtualJoystickState, geometry: JoystickGeometry) {
        self.0.lemma_delta_stage(state, geometry);
        self.1.lemma_delta_stage(self.0.delta_stage(state, geometry), geometry);
    }

    proof fn lemma_constraint_stage(&self, state: VirtualJoystickState) {
        self.0.lemma_constraint_stage(state);
        self.1.lemma_constraint_stage(self.0.constraint_stage(state));
    }

    fn update_at_delta_stage(&self, state: &mut VirtualJoystickState, geometry: &JoystickGeometry) {
        self.0.update_at_delta_stage(state, geometry);
        self.1.update_at_delta_stage(state, geometry);
    }

    fn update_at_constraint_stage(&self, state: &mut VirtualJoystickState) {
        self.0.update_at_constraint_stage(state);
        self.1.update_at_constraint_stage(state);
    }

    fn update(&self, state: &VirtualJoystickState, visibility: &mut Visibility) {
        self.0.update(state, visibility);
        self.1.update(state, visibility);
    }
}

impl<A: VirtualJoystickBehavior, B: VirtualJoystickBehavior, C: VirtualJoystickBehavior> VirtualJoystickBehavior for (
    A,
    B,
    C,
) {
    open spec fn delta_stage(
        &self,
        state: VirtualJoystickState,
        geometry: JoystickGeometry,
    ) -> VirtualJoystickState {
        self.2.delta_stage(self.1.delta_stage(self.0.delta_stage(state, geometry), geometry), geometry)
    }

    open spec fn constraint_stage(&self, state: VirtualJoystickState) -> VirtualJoystickState {
        self.2.constraint_stage(self.1.constraint_stage(self.0.constraint_stage(state)))
    }

    open spec fn visibility_stage(&self, state: VirtualJoystickState, visibility: Visibility) -> Visibility {
        self.2.visibility_stage(
            state,
            self.1.visibility_stage(state, self.0.visibility_stage(state, visibility)),
        )
    }

    proof fn lemma_delta_stage(&self, state: VirtualJoystickState, geometry: JoystickGeometry) {
        self.0.lemma_delta_stage(state, geometry);
        let first = self.0.delta_stage(state, geometry);
        self.1.lemma_delta_stage(first, geometry);
        self.2.lemma_delta_stage(self.1.delta_stage(first, geometry), geometry);
    }

    proof fn lemma_constraint_stage(&self, state: VirtualJoystickState) {
        self.0.lemma_constraint_stage(state);
        let first = self.0.constraint_stage(state);
        self.1.lemma_constraint_stage(first);
        self.2.lemma_constraint_stage(self.1.constraint_stage(first));
    }

    fn update_at_delta_stage(&self, state: &mut VirtualJoystickState, geometry: &JoystickGeometry) {
        self.0.update_at_delta_stage(state, geometry);
        self.1.update_at_delta_stage(state, geometry);
        self.2.update_at_delta_stage(state, geometry);
    }

    fn update_at_constraint_stage(&self, state: &mut VirtualJoystickState) {
        self.0.update_at_constraint_stage(state);
        self.1.update_at_constraint_stage(state);
        self.2.update_at_constraint_stage(state);
    }

    fn update(&self, state: &VirtualJoystickState, visibility: &mut Visibility) {
        self.0.update(state, visibility);
        self.1.update(state, visibility);
        self.2.update(state, visibility);
    }
}

impl<
    A: VirtualJoystickBehavior,
    B: VirtualJoystickBehavior,
    C: VirtualJoystickBehavior,
    D: VirtualJoystickBehavior,
> VirtualJoystickBehavior for (A, B, C, D) {
    open spec fn delta_stage(
        &self,
        state: VirtualJoystickState,
        geometry: JoystickGeometry,
    ) -> VirtualJoystickState {
        self.3.delta_stage(
            self.2.delta_stage(
                self.1.delta_stage(self.0.delta_stage(state, geometry), geometry),
                geometry,
            ),
            geometry,
        )
    }

    open spec fn constraint_stage(&self, state: VirtualJoystickState) -> VirtualJoystickState {
        self.3.constraint_stage(
            self.2.constraint_stage(self.1.constraint_stage(self.0.constraint_stage(state))),
        )
    }

    open spec fn visibility_stage(&self, state: VirtualJoystickState, visibility: Visibility) -> Visibility {
        self.3.visibility_stage(
            state,
            self.2.visibility_stage(
                state,
                self.1.visibility_stage(state, self.0.visibility_stage(state, visibility)),
            ),
        )
    }

    proof fn lemma_delta_stage(&self, state: VirtualJoystickState, geometry: JoystickGeometry) {
        self.0.lemma_delta_stage(state, geometry);
        let first = self.0.delta_stage(state, geometry);
        self.1.lemma_delta_stage(first, geometry);
        let second = self.1.delta_stage(first, geometry);
        self.2.lemma_delta_stage(second, geometry);
        self.3.lemma_delta_stage(self.2.delta_stage(second, geometry), geometry);
    }

    proof fn lemma_constraint_stage(&self, state: VirtualJoystickState) {
        self.0.lemma_constraint_stage(state);
        let first = self.0.constraint_stage(state);
        self.1.lemma_constraint_stage(first);
        let second = self.1.constraint_stage(first);
        self.2.lemma_constraint_stage(second);
        self.3.lemma_constraint_stage(self.2.constraint_stage(second));
    }

    fn update_at_delta_stage(&self, state: &mut VirtualJoystickState, geometry: &JoystickGeometry) {
        self.0.update_at_delta_stage(state, geometry);
        self.1.update_at_delta_stage(state, geometry);
        self.2.update_at_delta_stage(state, geometry);
        self.3.update_at_delta_stage(state, geometry);
    }

    fn update_at_constraint_stage(&self, state: &mut VirtualJoystickState) {
        self.0.update_at_constraint_stage(state);
        self.1.update_at_constraint_stage(state);
        self.2.update_at_constraint_stage(state);
        self.3.update_at_constraint_stage(state);
    }

    fn update(&self, state: &VirtualJoystickState, visibility: &mut Visibility) {
        self.0.update(state, visibility);
        self.1.update(state, visibility);
        self.2.update(state, visibility);
        self.3.update(state, visibility);
    }
}

impl<A: VirtualJoystickBehavior> VirtualJoystickBehavior for Arc<A> {
    open spec fn delta_stage(
        &self,
        state: VirtualJoystickState,
        geometry: JoystickGeometry,
    ) -> VirtualJoystickState {
        (**self).delta_stage(state, geometry)
    }

    open spec fn constraint_stage(&self, state: VirtualJoystickState) -> VirtualJoystickState {
        (**self).constraint_stage(state)
    }

    open spec fn visibility_stage(&self, state: VirtualJoystickState, visibility: Visibility) -> Visibility {
        (**self).visibility_stage(state, visibility)
    }

    proof fn lemma_delta_stage(&self, state: VirtualJoystickState, geometry: JoystickGeometry) {
        (**self).lemma_delta_stage(state, geometry);
    }

    proof fn lemma_constraint_stage(&self, state: VirtualJoystickState) {
        (**self).lemma_constraint_stage(state);
    }

    fn update_at_delta_stage(&self, state: &mut VirtualJoystickState, geometry: &JoystickGeometry) {
        (**self).update_at_delta_stage(state, geometry);
    }

    fn update_at_constraint_stage(&self, state: &mut VirtualJoystickState) {
        (**self).update_at_constraint_stage(state);
    }

    fn update(&self, state: &VirtualJoystickState, visibility: &mut Visibility) {
        (**self).update(state, visibility);
    }
}

/// A circular delta is a normalized displacement, whatever it is taken of.
pub proof fn lemma_circular_delta_is_delta()
    ensures
        forall|offset: Vec2, base_half_extent: Vec2, normalizer: Vec2|
            (#[trigger] spec_circular_delta(offset, base_half_extent, normalizer)).is_delta(),
{
}

} // verus!
