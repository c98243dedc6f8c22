//! One frame of a joystick, stage by stage, and what holds of a joystick
//! over a run of frames.
//!
//! The stages of a frame run in a fixed order: the pointer tracker, the
//! delta stage, the constraint stage, and then the events.

use vstd::prelude::*;
use crate::behavior::{
    dead_zone_filter, settled_base_offset, JoystickDeadZone, JoystickDynamic, JoystickFixed,
    JoystickFloating, JoystickHorizontalOnly, JoystickInvisible, JoystickVerticalOnly,
    VirtualJoystickBehavior,
};
use crate::events::{
    anonymous_events, spec_fire_events, update_fire_events, VirtualJoystickEvent,
    VirtualJoystickEventType, VirtualJoystickID,
};
use crate::geometry::{
    lemma_circular_delta_full_deflection, lemma_circular_delta_in_unit_circle,
    spec_circular_delta, Vec2, DELTA_ONE,
};
use crate::input::{
    lemma_first_touch_inside, lemma_touch_with_id, spec_update_input, update_input, PointerInput,
};
use crate::math::abs;
use crate::policy::{VirtualJoystickAxis, VirtualJoystickType};
use crate::state::{JoystickGeometry, VirtualJoystickState};

verus! {

/// The state of a joystick after one frame: after the pointer tracker, the
/// delta stage and the constraint stage, in this order.
pub open spec fn spec_frame<B: VirtualJoystickBehavior>(
    behavior: B,
    state: VirtualJoystickState,
    geometry: JoystickGeometry,
    input: PointerInput,
) -> VirtualJoystickState {
    behavior.constraint_stage(
        behavior.delta_stage(spec_update_input(state, geometry, input), geometry),
    )
}

/// The state of a joystick after a run of frames, each given by what the
/// host has measured and sampled for it.
pub open spec fn run_frames<B: VirtualJoystickBehavior>(
    behavior: B,
    state: VirtualJoystickState,
    frames: Seq<(JoystickGeometry, PointerInput)>,
) -> VirtualJoystickState
    decreases frames.len(),
{
    if frames.len() == 0 {
        state
    } else {
        run_frames(
            behavior,
            spec_frame(behavior, state, frames[0].0, frames[0].1),
            frames.drop_first(),
        )
    }
}

/// The kinds of the events of one frame, in the order they are emitted.
pub open spec fn event_kinds(state: VirtualJoystickState) -> Seq<VirtualJoystickEventType> {
    let events = spec_fire_events(state);
    Seq::new(events.len(), |i: int| events[i].event)
}

/// The kinds of the events that a joystick emits over a run of frames, in
/// the order they are emitted.
pub open spec fn kinds_of_run<B: VirtualJoystickBehavior>(
    behavior: B,
    state: VirtualJoystickState,
    frames: Seq<(JoystickGeometry, PointerInput)>,
) -> Seq<VirtualJoystickEventType>
    decreases frames.len(),
{
    if frames.len() == 0 {
        Seq::empty()
    } else {
        let next = spec_frame(behavior, state, frames[0].0, frames[0].1);
        event_kinds(next) + kinds_of_run(behavior, next, frames.drop_first())
    }
}

/// Every measurement and every input of the run is well formed.
pub open spec fn frames_wf(frames: Seq<(JoystickGeometry, PointerInput)>) -> bool {
    forall|i: int| 0 <= i < frames.len() ==> (#[trigger] frames[i]).0.wf() && frames[i].1.wf()
}

/// Runs one frame of a joystick: the pointer tracker, the delta stage and
/// the constraint stage of its behavior, and then the events.
pub fn update_frame<S: VirtualJoystickID, B: VirtualJoystickBehavior>(
    id: &S,
    behavior: &B,
    state: &mut VirtualJoystickState,
    geometry: &JoystickGeometry,
    input: &PointerInput,
) -> (events: Vec<VirtualJoystickEvent<S>>)
    requires
        old(state).wf(),
        geometry.wf(),
        input.wf(),
    ensures
        *final(state) == spec_frame(*behavior, *old(state), *geometry, *input),
        final(state).wf(),
        anonymous_events(events@) == spec_fire_events(*final(state)),
        forall|i: int| 0 <= i < events@.len() ==> cloned(*id, (#[trigger] events@[i]).id),
{
    update_input(state, geometry, input);
    behavior.update_at_delta_stage(state, geometry);
    behavior.update_at_constraint_stage(state);
    update_fire_events(id, state)
}

/// The pointer tracker keeps a well-formed state well formed.
pub proof fn lemma_update_input_wf(
    state: VirtualJoystickState,
    geometry: JoystickGeometry,
    input: PointerInput,
)
    requires
        state.wf(),
        input.wf(),
    ensures
        spec_update_input(state, geometry, input).wf(),
{
    match state.touch_state {
        None => {
            match geometry.spec_interaction_rect() {
                Some(r) => {
                    lemma_first_touch_inside(input.touches@, r);
                },
                None => {},
            }
        },
        Some(session) => {
            lemma_touch_with_id(input.touches@, session.id);
        },
    }
}

/// Within a frame only the pointer tracker decides on the session: the
/// behavior leaves the session and the release flag as the tracker has set
/// them, and the state stays well formed.
pub proof fn lemma_frame_session<B: VirtualJoystickBehavior>(
    behavior: B,
    state: VirtualJoystickState,
    geometry: JoystickGeometry,
    input: PointerInput,
)
    requires
        state.wf(),
        geometry.wf(),
        input.wf(),
    ensures
        spec_frame(behavior, state, geometry, input).wf(),
        spec_frame(behavior, state, geometry, input).touch_state == spec_update_input(
            state,
            geometry,
            input,
        ).touch_state,
        spec_frame(behavior, state, geometry, input).just_released == spec_update_input(
            state,
            geometry,
            input,
        ).just_released,
{
    let after_input = spec_update_input(state, geometry, input);
    lemma_update_input_wf(state, geometry, input);
    behavior.lemma_delta_stage(after_input, geometry);
    behavior.lemma_constraint_stage(behavior.delta_stage(after_input, geometry));
}

/// The behavior keeps a joystick at rest at rest: neither stage changes the
/// resting state, whatever has been measured.
pub open spec fn keeps_rest<B: VirtualJoystickBehavior>(behavior: B) -> bool {
    &&& forall|geometry: JoystickGeometry| #[trigger]
        behavior.delta_stage(VirtualJoystickState::spec_resting(), geometry)
            == VirtualJoystickState::spec_resting()
    &&& behavior.constraint_stage(VirtualJoystickState::spec_resting())
        == VirtualJoystickState::spec_resting()
}

/// No input of the run begins a session: no touch lies in the interaction
/// rectangle, and the mouse button does not go down in it.
pub open spec fn nothing_claimed(frames: Seq<(JoystickGeometry, PointerInput)>) -> bool {
    forall|i: int|
        0 <= i < frames.len() ==> (#[trigger] frames[i]).1.claimed(
            frames[i].0.spec_interaction_rect(),
        ) is None
}

/// Each placement, each constraint and the visibility behavior keeps a
/// joystick at rest at rest.
pub proof fn lemma_behaviors_keep_rest(threshold: i32, axis: VirtualJoystickAxis, kind: VirtualJoystickType)
    ensures
        keeps_rest(JoystickFixed),
        keeps_rest(JoystickFloating),
        keeps_rest(JoystickDynamic),
        keeps_rest(JoystickDeadZone(threshold)),
        keeps_rest(JoystickHorizontalOnly),
        keeps_rest(JoystickVerticalOnly),
        keeps_rest(JoystickInvisible),
        keeps_rest(axis),
        keeps_rest(kind),
{
}

/// Two behaviors that keep a joystick at rest do so together.
pub proof fn lemma_pair_keeps_rest<A: VirtualJoystickBehavior, B: VirtualJoystickBehavior>(a: A, b: B)
    requires
        keeps_rest(a),
        keeps_rest(b),
    ensures
        keeps_rest((a, b)),
{
    assert forall|geometry: JoystickGeometry| #[trigger]
        (a, b).delta_stage(VirtualJoystickState::spec_resting(), geometry)
            == VirtualJoystickState::spec_resting() by {
        assert(a.delta_stage(VirtualJoystickState::spec_resting(), geometry)
            == VirtualJoystickState::spec_resting());
        assert(b.delta_stage(VirtualJoystickState::spec_resting(), geometry)
            == VirtualJoystickState::spec_resting());
    }
}

/// Three behaviors that keep a joystick at rest do so together.
pub proof fn lemma_triple_keeps_rest<
    A: VirtualJoystickBehavior,
    B: VirtualJoystickBehavior,
    C: VirtualJoystickBehavior,
>(a: A, b: B, c: C)
    requires
        keeps_rest(a),
        keeps_rest(b),
        keeps_rest(c),
    ensures
        keeps_rest((a, b, c)),
{
    let rest = VirtualJoystickState::spec_resting();
    assert forall|geometry: JoystickGeometry| #[trigger]
        (a, b, c).delta_stage(rest, geometry) == rest by {
        assert(a.delta_stage(rest, geometry) == rest);
        assert(b.delta_stage(rest, geometry) == rest);
        assert(c.delta_stage(rest, geometry) == rest);
    }
}

/// Four behaviors that keep a joystick at rest do so together.
pub proof fn lemma_quadruple_keeps_rest<
    A: VirtualJoystickBehavior,
    B: VirtualJoystickBehavior,
    C: VirtualJoystickBehavior,
    D: VirtualJoystickBehavior,
>(a: A, b: B, c: C, d: D)
    requires
        keeps_rest(a),
        keeps_rest(b),
        keeps_rest(c),
        keeps_rest(d),
    ensures
        keeps_rest((a, b, c, d)),
{
    let rest = VirtualJoystickState::spec_resting();
    assert forall|geometry: JoystickGeometry| #[trigger]
        (a, b, c, d).delta_stage(rest, geometry) == rest by {
        assert(a.delta_stage(rest, geometry) == rest);
        assert(b.delta_stage(rest, geometry) == rest);
        assert(c.delta_stage(rest, geometry) == rest);
        assert(d.delta_stage(rest, geometry) == rest);
    }
}

/// A joystick at rest that no pointer claims stays at rest, frame after
/// frame, for as long as the run goes on: no session, no displacement, no
/// base offset, and no event.
pub proof fn lemma_rest_is_kept<B: VirtualJoystickBehavior>(
    behavior: B,
    frames: Seq<(JoystickGeometry, PointerInput)>,
)
    requires
        keeps_rest(behavior),
        nothing_claimed(frames),
    ensures
        run_frames(behavior, VirtualJoystickState::spec_resting(), frames)
            == VirtualJoystickState::spec_resting(),
        kinds_of_run(behavior, VirtualJoystickState::spec_resting(), frames) == Seq::<
            VirtualJoystickEventType,
        >::empty(),
    decreases frames.len(),
{
    let rest = VirtualJoystickState::spec_resting();
    if frames.len() > 0 {
        let geometry = frames[0].0;
        let input = frames[0].1;
        assert(input.claimed(geometry.spec_interaction_rect()) is None);
        assert(spec_update_input(rest, geometry, input) == rest);
        assert(behavior.delta_stage(rest, geometry) == rest);
        assert(spec_frame(behavior, rest, geometry, input) == rest);
        let tail = frames.drop_first();
        assert forall|i: int| 0 <= i < tail.len() implies (#[trigger] tail[i]).1.claimed(
            tail[i].0.spec_interaction_rect(),
        ) is None by {
            assert(tail[i] == frames[i + 1]);
        }
        lemma_rest_is_kept(behavior, tail);
        assert(event_kinds(rest) =~= Seq::<VirtualJoystickEventType>::empty());
        assert(kinds_of_run(behavior, rest, frames) =~= Seq::<VirtualJoystickEventType>::empty());
    }
}

/// A horizontal lock that acts last forces the vertical displacement to
/// zero in every frame, whatever the behavior before it computes and
/// whatever the input is.
pub proof fn lemma_horizontal_only_locks<B: VirtualJoystickBehavior>(
    behavior: B,
    state: VirtualJoystickState,
    geometry: JoystickGeometry,
    input: PointerInput,
)
    ensures
        spec_frame((behavior, JoystickHorizontalOnly), state, geometry, input).delta.y == 0,
        spec_frame((behavior, JoystickHorizontalOnly), state, geometry, input).delta.x
            == spec_frame(behavior, state, geometry, input).delta.x,
{
}

/// A vertical lock that acts last forces the horizontal displacement to
/// zero in every frame, whatever the behavior before it computes and
/// whatever the input is.
pub proof fn lemma_vertical_only_locks<B: VirtualJoystickBehavior>(
    behavior: B,
    state: VirtualJoystickState,
    geometry: JoystickGeometry,
    input: PointerInput,
)
    ensures
        spec_frame((behavior, JoystickVerticalOnly), state, geometry, input).delta.x == 0,
        spec_frame((behavior, JoystickVerticalOnly), state, geometry, input).delta.y
            == spec_frame(behavior, state, geometry, input).delta.y,
{
}

/// A dead zone that acts last zeroes each coordinate of the displacement
/// whose magnitude the behavior before it leaves below the threshold, and
/// passes every other coordinate through unchanged.
pub proof fn lemma_dead_zone_filters<B: VirtualJoystickBehavior>(
    behavior: B,
    threshold: i32,
    state: VirtualJoystickState,
    geometry: JoystickGeometry,
    input: PointerInput,
)
    ensures
        ({
            let raw = spec_frame(behavior, state, geometry, input).delta;
            let filtered = spec_frame((behavior, JoystickDeadZone(threshold)), state, geometry, input).delta;
            &&& filtered.x == dead_zone_filter(raw.x, threshold)
            &&& filtered.y == dead_zone_filter(raw.y, threshold)
            &&& (-threshold < raw.x < threshold ==> filtered.x == 0)
            &&& (!(-threshold < raw.x < threshold) ==> filtered.x == raw.x)
            &&& (-threshold < raw.y < threshold ==> filtered.y == 0)
            &&& (!(-threshold < raw.y < threshold) ==> filtered.y == raw.y)
        }),
{
}

/// The displacement of a floating joystick whose base has been measured
/// never leaves the unit circle, however far the pointer travels; nor does
/// that of a fixed joystick whose base is at least as high as it is wide.
pub proof fn lemma_delta_in_unit_circle(state: VirtualJoystickState, geometry: JoystickGeometry)
    requires
        geometry.wf(),
        geometry.base_rect is Some,
    ensures
        JoystickFloating.delta_stage(state, geometry).delta.length_squared() <= DELTA_ONE
            * DELTA_ONE,
        geometry.base_rect->0.half_size.x <= geometry.base_rect->0.half_size.y
            ==> JoystickFixed.delta_stage(state, geometry).delta.length_squared() <= DELTA_ONE
            * DELTA_ONE,
{
    let base = geometry.base_rect->0;
    assert(DELTA_ONE * DELTA_ONE == 1_000_000);
    assert(Vec2::spec_zero().length_squared() == 0);
    match state.touch_state {
        None => {},
        Some(session) => {
            let settled = settled_base_offset(state, base.center);
            let fixed_offset = session.current.spec_offset_from(base.center);
            let floating_offset = session.current.spec_offset_from(
                base.center.spec_moved_by(settled),
            );
            if base.half_size.x > 0 {
                lemma_circular_delta_in_unit_circle(
                    floating_offset,
                    base.half_size,
                    Vec2 { x: base.half_size.x, y: base.half_size.x },
                );
                if base.half_size.x <= base.half_size.y {
                    lemma_circular_delta_in_unit_circle(fixed_offset, base.half_size, base.half_size);
                }
            }
        },
    }
}

/// A pointer held straight to the right or left of the center of the base
/// of a fixed joystick, farther away than the half width of the base,
/// deflects the joystick fully: the displacement is exactly one along the
/// horizontal axis, with the sign of the side, and zero along the vertical.
pub proof fn lemma_full_deflection(state: VirtualJoystickState, geometry: JoystickGeometry)
    requires
        state.wf(),
        geometry.wf(),
        geometry.base_rect is Some,
        state.touch_state is Some,
        state.touch_state->0.current.y == geometry.base_rect->0.center.y,
        0 < geometry.base_rect->0.half_size.x < abs(
            state.touch_state->0.current.x - geometry.base_rect->0.center.x,
        ),
    ensures
        JoystickFixed.delta_stage(state, geometry).delta == (Vec2 {
            x: if state.touch_state->0.current.x < geometry.base_rect->0.center.x {
                (-DELTA_ONE) as i32
            } else {
                DELTA_ONE
            },
            y: 0,
        }),
{
    let base = geometry.base_rect->0;
    let session = state.touch_state->0;
    let offset = session.current.spec_offset_from(base.center);
    lemma_circular_delta_full_deflection(offset, base.half_size, base.half_size);
}

/// A floating joystick measures the displacement from where the pointer
/// landed: once the base has settled under the start of the session, the
/// displacement is the circular delta of the way from the start to the
/// pointer, whatever the resting place of the base is.
pub proof fn lemma_floating_measures_from_start(state: VirtualJoystickState, geometry: JoystickGeometry)
    requires
        state.wf(),
        geometry.wf(),
        geometry.base_rect is Some,
        state.touch_state is Some,
        !state.touch_state->0.just_pressed,
        state.base_offset == state.touch_state->0.start.spec_offset_from(
            geometry.base_rect->0.center,
        ),
    ensures
        JoystickFloating.delta_stage(state, geometry).delta == spec_circular_delta(
            state.touch_state->0.current.spec_offset_from(state.touch_state->0.start),
            geometry.base_rect->0.half_size,
            Vec2 { x: geometry.base_rect->0.half_size.x, y: geometry.base_rect->0.half_size.x },
        ),
        JoystickFloating.delta_stage(state, geometry).base_offset == state.base_offset,
{
    let base = geometry.base_rect->0;
    let session = state.touch_state->0;
    assert(base.center.spec_moved_by(state.base_offset) == session.start);
}

/// While its pointer stays down a session goes on, with one drag in each
/// frame; in the frame the pointer is lifted it ends, with one up and
/// nothing else.
pub proof fn lemma_drag_until_release<B: VirtualJoystickBehavior>(
    behavior: B,
    state: VirtualJoystickState,
    frames: Seq<(JoystickGeometry, PointerInput)>,
)
    requires
        state.wf(),
        frames_wf(frames),
        frames.len() >= 1,
        state.touch_state is Some,
        forall|i: int|
            0 <= i < frames.len() - 1 ==> !(#[trigger] frames[i]).1.has_released(
                state.touch_state->0,
            ),
        frames[frames.len() - 1].1.has_released(state.touch_state->0),
    ensures
        kinds_of_run(behavior, state, frames) == Seq::new(
            (frames.len() - 1) as nat,
            |i: int| VirtualJoystickEventType::Drag,
        ).push(VirtualJoystickEventType::Up),
        run_frames(behavior, state, frames).touch_state is None,
        run_frames(behavior, state, frames).just_released,
    decreases frames.len(),
{
    let session = state.touch_state->0;
    let geometry = frames[0].0;
    let input = frames[0].1;
    let next = spec_frame(behavior, state, geometry, input);
    let tail = frames.drop_first();
    lemma_frame_session(behavior, state, geometry, input);
    let drags = Seq::new((frames.len() - 1) as nat, |i: int| VirtualJoystickEventType::Drag);
    if frames.len() == 1 {
        assert(input.has_released(session));
        assert(next.just_released && next.touch_state is None);
        assert(event_kinds(next) =~= seq![VirtualJoystickEventType::Up]);
        assert(kinds_of_run(behavior, next, tail) =~= Seq::<VirtualJoystickEventType>::empty());
        assert(kinds_of_run(behavior, state, frames) =~= drags.push(VirtualJoystickEventType::Up));
    } else {
        assert(!frames[0].1.has_released(session));
        let followed = next.touch_state->0;
        assert(followed.id == session.id && followed.is_mouse == session.is_mouse);
        assert(!followed.just_pressed && !next.just_released);
        assert(event_kinds(next) =~= seq![VirtualJoystickEventType::Drag]);
        assert forall|i: int| 0 <= i < tail.len() implies (#[trigger] tail[i]).0.wf()
            && tail[i].1.wf() by {
            assert(tail[i] == frames[i + 1]);
        }
        assert forall|i: int| 0 <= i < tail.len() - 1 implies !(#[trigger] tail[i]).1.has_released(
            followed,
        ) by {
            assert(tail[i] == frames[i + 1]);
            assert(!frames[i + 1].1.has_released(session));
        }
        assert(tail[tail.len() - 1] == frames[frames.len() - 1]);
        assert(tail[tail.len() - 1].1.has_released(followed));
        lemma_drag_until_release(behavior, next, tail);
        let tail_drags = Seq::new((tail.len() - 1) as nat, |i: int| VirtualJoystickEventType::Drag);
        assert(kinds_of_run(behavior, state, frames) =~= drags.push(VirtualJoystickEventType::Up));
    }
}

/// A press, a drag and a release: a joystick without a session that a
/// pointer claims in the first frame of a run, holds through the frames
/// between and lets go in the last, emits exactly one press, then one drag
/// for each frame the pointer is down, the first frame included, then
/// exactly one up; and it ends the run without a session.
pub proof fn lemma_press_drag_release<B: VirtualJoystickBehavior>(
    behavior: B,
    state: VirtualJoystickState,
    frames: Seq<(JoystickGeometry, PointerInput)>,
)
    requires
        state.wf(),
        state.touch_state is None,
        frames_wf(frames),
        frames.len() >= 2,
        frames[0].1.claimed(frames[0].0.spec_interaction_rect()) is Some,
        forall|i: int|
            0 < i < frames.len() - 1 ==> !(#[trigger] frames[i]).1.has_released(
                frames[0].1.claimed(frames[0].0.spec_interaction_rect())->0,
            ),
        frames[frames.len() - 1].1.has_released(
            frames[0].1.claimed(frames[0].0.spec_interaction_rect())->0,
        ),
    ensures
        kinds_of_run(behavior, state, frames) == seq![VirtualJoystickEventType::Press].add(
            Seq::new((frames.len() - 1) as nat, |i: int| VirtualJoystickEventType::Drag),
        ).push(VirtualJoystickEventType::Up),
        run_frames(behavior, state, frames).touch_state is None,
        run_frames(behavior, state, frames).just_released,
{
    let geometry = frames[0].0;
    let input = frames[0].1;
    let session = input.claimed(geometry.spec_interaction_rect())->0;
    let next = spec_frame(behavior, state, geometry, input);
    let tail = frames.drop_first();
    lemma_frame_session(behavior, state, geometry, input);
    assert(next.touch_state == Some(session));
    assert(session.just_pressed && !next.just_released);
    assert(event_kinds(next) =~= seq![
        VirtualJoystickEventType::Press,
        VirtualJoystickEventType::Drag,
    ]);
    assert forall|i: int| 0 <= i < tail.len() implies (#[trigger] tail[i]).0.wf()
        && tail[i].1.wf() by {
        assert(tail[i] == frames[i + 1]);
    }
    assert forall|i: int| 0 <= i < tail.len() - 1 implies !(#[trigger] tail[i]).1.has_released(
        session,
    ) by {
        assert(tail[i] == frames[i + 1]);
        assert(!frames[i + 1].1.has_released(session));
    }
    assert(tail[tail.len() - 1] == frames[frames.len() - 1]);
    lemma_drag_until_release(behavior, next, tail);
    let expected = seq![VirtualJoystickEventType::Press].add(
        Seq::new((frames.len() - 1) as nat, |i: int| VirtualJoystickEventType::Drag),
    ).push(VirtualJoystickEventType::Up);
    assert(kinds_of_run(behavior, state, frames) =~= expected);
}

/// In the frame a session ends, each placement whose rectangles have been
/// measured returns the base to its resting place and resets the
/// displacement, so that the up of that frame carries a zero displacement.
pub proof fn lemma_release_resets(
    kind: VirtualJoystickType,
    state: VirtualJoystickState,
    geometry: JoystickGeometry,
    input: PointerInput,
)
    requires
        state.touch_state is Some,
        input.has_released(state.touch_state->0),
        geometry.base_rect is Some,
        geometry.joystick_rect is Some,
    ensures
        ({
            let next = spec_frame(kind, state, geometry, input);
            &&& next.touch_state is None
            &&& next.just_released
            &&& next.delta == Vec2::spec_zero()
            &&& next.base_offset == Vec2::spec_zero()
            &&& spec_fire_events(next) == seq![
                VirtualJoystickEvent {
                    id: (),
                    event: VirtualJoystickEventType::Up,
                    value: Vec2::spec_zero(),
                    delta: Vec2::spec_zero(),
                },
            ]
        }),
{
}

/// After the frame in which a session has ended, a joystick that no pointer
/// claims emits nothing more.
pub proof fn lemma_silence_after_release<B: VirtualJoystickBehavior>(
    behavior: B,
    state: VirtualJoystickState,
    frames: Seq<(JoystickGeometry, PointerInput)>,
)
    requires
        state.wf(),
        state.touch_state is None,
        frames_wf(frames),
        nothing_claimed(frames),
    ensures
        kinds_of_run(behavior, state, frames) == Seq::<VirtualJoystickEventType>::empty(),
        run_frames(behavior, state, frames).touch_state is None,
        frames.len() > 0 ==> !run_frames(behavior, state, frames).just_released,
    decreases frames.len(),
{
    if frames.len() > 0 {
        let geometry = frames[0].0;
        let input = frames[0].1;
        let next = spec_frame(behavior, state, geometry, input);
        let tail = frames.drop_first();
        lemma_frame_session(behavior, state, geometry, input);
        assert(input.claimed(geometry.spec_interaction_rect()) is None);
        assert(next.touch_state is None && !next.just_released);
        assert(event_kinds(next) =~= Seq::<VirtualJoystickEventType>::empty());
        assert forall|i: int| 0 <= i < tail.len() implies (#[trigger] tail[i]).0.wf()
            && tail[i].1.wf() by {
            assert(tail[i] == frames[i + 1]);
        }
        assert forall|i: int| 0 <= i < tail.len() implies (#[trigger] tail[i]).1.claimed(
            tail[i].0.spec_interaction_rect(),
        ) is None by {
            assert(tail[i] == frames[i + 1]);
        }
        lemma_silence_after_release(behavior, next, tail);
        assert(kinds_of_run(behavior, state, frames) =~= Seq::<VirtualJoystickEventType>::empty());
    }
}

} // verus!
