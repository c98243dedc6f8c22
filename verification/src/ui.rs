//! The projection of a joystick's state onto the screen: where the host has
//! to put the base and the knob.

use vstd::prelude::*;
use crate::geometry::{Vec2, DELTA_ONE};
use crate::math::{abs, div_toward_zero, divide_toward_zero};
use crate::state::{JoystickGeometry, VirtualJoystickState};

verus! {

/// The offsets, from the corner of the joystick, at which the host has to
/// put the base and the knob. An offset is `None` where the element cannot
/// be placed in this frame.
#[derive(Clone, Copy, Debug, PartialEq, Eq, Structural, Hash)]
pub struct JoystickLayout {
    pub base: Option<Vec2>,
    pub knob: Option<Vec2>,
}

/// A length multiplied by a fixed-point factor, rounded toward zero.
pub open spec fn scaled(length: int, factor: int) -> int {
    div_toward_zero(length * factor, DELTA_ONE as int)
}

/// The offset of the knob: `base_offset + base_half + knob_half + base_half
/// * (d - 1)`, coordinate by coordinate, where `d` is the displacement with
/// its vertical coordinate negated, back in the screen's sense.
pub open spec fn spec_knob_offset(state: VirtualJoystickState, base_half: Vec2, knob_half: Vec2) -> Vec2 {
    Vec2 {
        x: (state.base_offset.x + base_half.x + knob_half.x + scaled(
            base_half.x as int,
            state.delta.x - DELTA_ONE,
        )) as i32,
        y: (state.base_offset.y + base_half.y + knob_half.y + scaled(
            base_half.y as int,
            -state.delta.y - DELTA_ONE,
        )) as i32,
    }
}

/// The layout of a joystick. The base, where it has been measured, goes to
/// the base offset. The knob, where both it and the base have been
/// measured, goes to `spec_knob_offset`.
pub open spec fn spec_update_ui(state: VirtualJoystickState, geometry: JoystickGeometry) -> JoystickLayout {
    match geometry.base_rect {
        None => JoystickLayout { base: None, knob: None },
        Some(base) => JoystickLayout {
            base: Some(state.base_offset),
            knob: match geometry.knob_rect {
                None => None,
                Some(knob) => Some(spec_knob_offset(state, base.half_size, knob.half_size)),
            },
        },
    }
}

/// A length scaled by a factor between minus two and zero is between minus
/// twice the length and zero.
proof fn lemma_scaled_range(length: int, factor: int)
    requires
        length >= 0,
        -2 * DELTA_ONE <= factor <= 0,
    ensures
        -2 * length <= scaled(length, factor) <= 0,
{
    let p = length * factor;
    assert(-2000 * length <= p <= 0) by (nonlinear_arith)
        requires
            p == length * factor,
            length >= 0,
            -2000 <= factor <= 0,
    ;
    let a = abs(p);
    assert(a / 1000 <= 2 * length);
}

fn scale(length: i32, factor: i32) -> (r: i64)
    requires
        0 <= length,
        -2 * DELTA_ONE <= factor <= 0,
    ensures
        r == scaled(length as int, factor as int),
        -2 * length <= r <= 0,
{
    let one: i64 = DELTA_ONE as i64;
    assert(one == 1000);
    assert(-2000 * length <= length * factor <= 0) by (nonlinear_arith)
        requires
            length >= 0,
            -2000 <= factor <= 0,
    ;
    proof {
        lemma_scaled_range(length as int, factor as int);
    }
    divide_toward_zero((length as i64) * (factor as i64), one)
}

/// Computes where the host has to put the base and the knob.
pub fn update_ui(state: &VirtualJoystickState, geometry: &JoystickGeometry) -> (layout: JoystickLayout)
    requires
        state.wf(),
        geometry.wf(),
    ensures
        layout == spec_update_ui(*state, *geometry),
{
    let base = match geometry.base_rect {
        Some(base) => base,
        None => {
            return JoystickLayout { base: None, knob: None };
        },
    };
    let knob = match geometry.knob_rect {
        Some(knob) => knob,
        None => {
            return JoystickLayout { base: Some(state.base_offset), knob: None };
        },
    };
    let x: i64 = state.base_offset.x as i64 + base.half_size.x as i64 + knob.half_size.x as i64
        + scale(base.half_size.x, state.delta.x - DELTA_ONE);
    let y: i64 = state.base_offset.y as i64 + base.half_size.y as i64 + knob.half_size.y as i64
        + scale(base.half_size.y, -state.delta.y - DELTA_ONE);
    JoystickLayout {
        base: Some(state.base_offset),
        knob: Some(Vec2 { x: x as i32, y: y as i32 }),
    }
}

/// With no displacement the knob sits at the base offset plus its own half
/// size: the lengths by which the base enters the offset cancel.
pub proof fn lemma_knob_at_rest(state: VirtualJoystickState, base_half: Vec2, knob_half: Vec2)
    requires
        state.delta == Vec2::spec_zero(),
        base_half.x >= 0,
        base_half.y >= 0,
    ensures
        spec_knob_offset(state, base_half, knob_half) == (Vec2 {
            x: (state.base_offset.x + knob_half.x) as i32,
            y: (state.base_offset.y + knob_half.y) as i32,
        }),
{
    let hx = base_half.x as int;
    let hy = base_half.y as int;
    assert(abs(hx * (-1000)) / 1000 == hx);
    assert(abs(hy * (-1000)) / 1000 == hy);
    assert(scaled(hx, -1000) == -hx);
    assert(scaled(hy, -1000) == -hy);
}

} // verus!
