use virtual_joystick::action::{drag_action, update_action, DragAction, NoAction, VirtualJoystickAction};
use virtual_joystick::behavior::{
    JoystickDeadZone, JoystickDynamic, JoystickFixed, JoystickFloating, JoystickHorizontalOnly,
};
use virtual_joystick::events::{
    update_fire_events, VirtualJoystickEvent, VirtualJoystickEventType, DEFAULT_SNAP_DEAD_ZONE,
};
use virtual_joystick::frame::update_frame;
use virtual_joystick::geometry::{Rect, Vec2, DELTA_ONE};
use virtual_joystick::input::{PointerInput, Touch};
use virtual_joystick::state::{JoystickGeometry, TouchState, VirtualJoystickState};
use virtual_joystick::ui::{update_ui, JoystickLayout};

fn geometry() -> JoystickGeometry {
    let rect = Rect::from_center_half_size(Vec2::new(100, 100), Vec2::new(50, 50));
    JoystickGeometry {
        joystick_rect: Some(rect),
        interaction_area: None,
        base_rect: Some(rect),
        knob_rect: Some(Rect::from_center_half_size(Vec2::new(100, 100), Vec2::new(25, 25))),
    }
}

fn touch(id: u64, x: i32, y: i32) -> PointerInput {
    PointerInput {
        touches: vec![Touch { id, position: Vec2::new(x, y) }],
        mouse_pressed: false,
        mouse_just_pressed: false,
        cursor_position: None,
    }
}

fn session(just_pressed: bool, current: (i32, i32), delta: (i32, i32)) -> VirtualJoystickState {
    VirtualJoystickState {
        touch_state: Some(TouchState {
            id: 1,
            is_mouse: false,
            start: Vec2::new(0, 0),
            current: Vec2::new(current.0, current.1),
            just_pressed,
        }),
        just_released: false,
        base_offset: Vec2::zero(),
        delta: Vec2::new(delta.0, delta.1),
    }
}

fn event(kind: VirtualJoystickEventType, value: (i32, i32), delta: (i32, i32)) -> VirtualJoystickEvent<String> {
    VirtualJoystickEvent {
        id: "stick".to_string(),
        event: kind,
        value: Vec2::new(value.0, value.1),
        delta: Vec2::new(delta.0, delta.1),
    }
}

fn kinds<S>(events: &[VirtualJoystickEvent<S>]) -> Vec<VirtualJoystickEventType> {
    events.iter().map(|e| e.event).collect()
}

#[test]
fn resting_joystick_emits_nothing() {
    let events = update_fire_events(&"stick".to_string(), &VirtualJoystickState::resting());
    assert!(events.is_empty());
}

#[test]
fn first_frame_of_a_session_emits_a_press_and_a_drag() {
    let events = update_fire_events(&"stick".to_string(), &session(true, (120, 90), (400, 200)));
    assert_eq!(
        events,
        vec![
            event(VirtualJoystickEventType::Press, (120, 90), (400, 200)),
            event(VirtualJoystickEventType::Drag, (120, 90), (400, 200)),
        ]
    );
}

#[test]
fn later_frames_of_a_session_emit_a_drag() {
    let events = update_fire_events(&"stick".to_string(), &session(false, (120, 90), (400, 200)));
    assert_eq!(events, vec![event(VirtualJoystickEventType::Drag, (120, 90), (400, 200))]);
}

#[test]
fn frame_of_the_release_emits_an_up_with_a_zero_value() {
    let state = VirtualJoystickState {
        touch_state: None,
        just_released: true,
        base_offset: Vec2::new(3, 3),
        delta: Vec2::new(10, -20),
    };
    let events = update_fire_events(&"stick".to_string(), &state);
    assert_eq!(events, vec![event(VirtualJoystickEventType::Up, (0, 0), (10, -20))]);
}

#[test]
fn release_flag_silences_the_events_of_a_session() {
    let state = VirtualJoystickState { just_released: true, ..session(true, (120, 90), (400, 200)) };
    let events = update_fire_events(&7u32, &state);
    assert_eq!(kinds(&events), vec![VirtualJoystickEventType::Up]);
    assert_eq!(events[0].value, Vec2::zero());
    assert_eq!(events[0].delta, Vec2::new(400, 200));
    assert_eq!(events[0].id, 7);
}

#[test]
fn event_accessors_return_the_fields() {
    let e = event(VirtualJoystickEventType::Drag, (120, 90), (400, -200));
    assert_eq!(e.id(), "stick".to_string());
    assert_eq!(e.value(), Vec2::new(120, 90));
    assert_eq!(e.axis(), Vec2::new(400, -200));
    assert_eq!(e.get_type(), VirtualJoystickEventType::Drag);
}

#[test]
fn snap_axis_uses_one_half_by_default() {
    assert_eq!(DEFAULT_SNAP_DEAD_ZONE, DELTA_ONE / 2);
    let snap = |x: i32, y: i32| event(VirtualJoystickEventType::Drag, (0, 0), (x, y)).snap_axis(None);
    assert_eq!(snap(700, -200), Vec2::new(DELTA_ONE, 0));
    assert_eq!(snap(500, -500), Vec2::new(0, 0));
    assert_eq!(snap(501, -501), Vec2::new(DELTA_ONE, -DELTA_ONE));
    assert_eq!(snap(0, 0), Vec2::new(0, 0));
    assert_eq!(snap(-1000, 1000), Vec2::new(-DELTA_ONE, DELTA_ONE));
}

#[test]
fn snap_axis_uses_the_threshold_it_is_given() {
    let snap = |x: i32, y: i32, t: i32| {
        event(VirtualJoystickEventType::Drag, (0, 0), (x, y)).snap_axis(Some(t))
    };
    assert_eq!(snap(1, -1, 0), Vec2::new(DELTA_ONE, -DELTA_ONE));
    assert_eq!(snap(0, 0, 0), Vec2::new(0, 0));
    assert_eq!(snap(1000, -1000, 1000), Vec2::new(0, 0));
    assert_eq!(snap(300, 299, 299), Vec2::new(DELTA_ONE, 0));
    assert_eq!(snap(200, -200, -500), Vec2::new(DELTA_ONE, -DELTA_ONE));
    assert_eq!(snap(0, 0, -500), Vec2::new(DELTA_ONE, DELTA_ONE));
}

#[test]
fn press_drag_release_emits_its_events_in_order() {
    let geometry = geometry();
    let id = "stick".to_string();
    let mut state = VirtualJoystickState::resting();
    let mut all = Vec::new();
    all.extend(update_frame(&id, &JoystickFixed, &mut state, &geometry, &PointerInput::quiet()));
    assert!(all.is_empty());
    all.extend(update_frame(&id, &JoystickFixed, &mut state, &geometry, &touch(1, 100, 100)));
    all.extend(update_frame(&id, &JoystickFixed, &mut state, &geometry, &touch(1, 125, 100)));
    all.extend(update_frame(&id, &JoystickFixed, &mut state, &geometry, &touch(1, 175, 100)));
    all.extend(update_frame(&id, &JoystickFixed, &mut state, &geometry, &PointerInput::quiet()));
    all.extend(update_frame(&id, &JoystickFixed, &mut state, &geometry, &PointerInput::quiet()));
    all.extend(update_frame(&id, &JoystickFixed, &mut state, &geometry, &PointerInput::quiet()));
    assert_eq!(
        all,
        vec![
            event(VirtualJoystickEventType::Press, (100, 100), (0, 0)),
            event(VirtualJoystickEventType::Drag, (100, 100), (0, 0)),
            event(VirtualJoystickEventType::Drag, (125, 100), (500, 0)),
            event(VirtualJoystickEventType::Drag, (175, 100), (1000, 0)),
            event(VirtualJoystickEventType::Up, (0, 0), (0, 0)),
        ]
    );
    assert_eq!(state, VirtualJoystickState::resting());
}

#[test]
fn press_and_release_without_a_drag_between() {
    let geometry = geometry();
    let mut state = VirtualJoystickState::resting();
    let mut all = Vec::new();
    all.extend(update_frame(&1u8, &JoystickDynamic, &mut state, &geometry, &touch(1, 100, 100)));
    all.extend(update_frame(&1u8, &JoystickDynamic, &mut state, &geometry, &PointerInput::quiet()));
    all.extend(update_frame(&1u8, &JoystickDynamic, &mut state, &geometry, &PointerInput::quiet()));
    assert_eq!(
        kinds(&all),
        vec![
            VirtualJoystickEventType::Press,
            VirtualJoystickEventType::Drag,
            VirtualJoystickEventType::Up,
        ]
    );
}

#[test]
fn second_touch_adds_no_events_to_a_session() {
    let geometry = geometry();
    let mut state = VirtualJoystickState::resting();
    let both = PointerInput {
        touches: vec![
            Touch { id: 1, position: Vec2::new(100, 100) },
            Touch { id: 2, position: Vec2::new(110, 110) },
        ],
        mouse_pressed: false,
        mouse_just_pressed: false,
        cursor_position: None,
    };
    let first = update_frame(&0u8, &JoystickFixed, &mut state, &geometry, &both);
    assert_eq!(kinds(&first), vec![VirtualJoystickEventType::Press, VirtualJoystickEventType::Drag]);
    assert_eq!(first[0].value, Vec2::new(100, 100));
    let second = update_frame(&0u8, &JoystickFixed, &mut state, &geometry, &both);
    assert_eq!(kinds(&second), vec![VirtualJoystickEventType::Drag]);
    assert_eq!(second[0].value, Vec2::new(100, 100));
    assert_eq!(state.touch_state.unwrap().id, 1);
}

#[test]
fn frame_runs_the_stages_in_order() {
    let geometry = geometry();
    let behavior = (JoystickFixed, JoystickDeadZone(500), JoystickHorizontalOnly);
    let mut state = VirtualJoystickState::resting();
    update_frame(&0u8, &behavior, &mut state, &geometry, &touch(1, 100, 100));
    let events = update_frame(&0u8, &behavior, &mut state, &geometry, &touch(1, 130, 60));
    assert_eq!(state.delta, Vec2::new(600, 0));
    assert_eq!(events.len(), 1);
    assert_eq!(events[0].delta, Vec2::new(600, 0));
    assert_eq!(events[0].value, Vec2::new(130, 60));
    let events = update_frame(&0u8, &behavior, &mut state, &geometry, &touch(1, 120, 55));
    assert_eq!(events[0].delta, Vec2::new(0, 0));
}

#[test]
fn resting_joystick_stays_at_rest_frame_after_frame() {
    let geometry = geometry();
    let outside = touch(4, 500, 500);
    let mut fixed = VirtualJoystickState::resting();
    let mut floating = VirtualJoystickState::resting();
    let mut dynamic = VirtualJoystickState::resting();
    for frame in 0..50 {
        let input = if frame % 2 == 0 { PointerInput::quiet() } else { outside.clone() };
        assert!(update_frame(&0u8, &JoystickFixed, &mut fixed, &geometry, &input).is_empty());
        assert!(update_frame(&0u8, &JoystickFloating, &mut floating, &geometry, &input).is_empty());
        assert!(update_frame(&0u8, &JoystickDynamic, &mut dynamic, &geometry, &input).is_empty());
        assert_eq!(fixed, VirtualJoystickState::resting());
        assert_eq!(floating, VirtualJoystickState::resting());
        assert_eq!(dynamic, VirtualJoystickState::resting());
    }
}

#[test]
fn up_carries_the_displacement_after_the_release() {
    let geometry = geometry();
    let mut state = VirtualJoystickState::resting();
    update_frame(&0u8, &JoystickFloating, &mut state, &geometry, &touch(1, 100, 100));
    update_frame(&0u8, &JoystickFloating, &mut state, &geometry, &touch(1, 140, 100));
    assert_eq!(state.delta, Vec2::new(800, 0));
    let events = update_frame(&0u8, &JoystickFloating, &mut state, &geometry, &PointerInput::quiet());
    assert_eq!(events.len(), 1);
    assert_eq!(events[0].event, VirtualJoystickEventType::Up);
    assert_eq!(events[0].value, Vec2::zero());
    assert_eq!(events[0].delta, Vec2::zero());
}

struct Tint {
    down: u32,
    up: u32,
}

impl VirtualJoystickAction<u8, u32> for Tint {
    fn after_start_drag(&self, _id: u8, _data: VirtualJoystickState, _visuals: u32) -> u32 {
        self.down
    }

    fn after_drag(&self, _id: u8, data: VirtualJoystickState, visuals: u32) -> u32 {
        visuals + data.delta.x as u32
    }

    fn after_end_drag(&self, _id: u8, _data: VirtualJoystickState, _visuals: u32) -> u32 {
        self.up
    }

    fn on_start_drag(&self, _id: u8, _data: VirtualJoystickState, visuals: &mut u32) {
        *visuals = self.down;
    }

    fn on_drag(&self, _id: u8, data: VirtualJoystickState, visuals: &mut u32) {
        *visuals += data.delta.x as u32;
    }

    fn on_end_drag(&self, _id: u8, _data: VirtualJoystickState, visuals: &mut u32) {
        *visuals = self.up;
    }
}

#[test]
fn frames_are_classified_for_the_hooks() {
    assert_eq!(drag_action(&VirtualJoystickState::resting()), None);
    assert_eq!(drag_action(&session(true, (0, 0), (0, 0))), Some(DragAction::StartDrag));
    assert_eq!(drag_action(&session(false, (0, 0), (0, 0))), Some(DragAction::Drag));
    let released = VirtualJoystickState { just_released: true, ..VirtualJoystickState::resting() };
    assert_eq!(drag_action(&released), Some(DragAction::EndDrag));
    let both = VirtualJoystickState { just_released: true, ..session(true, (0, 0), (0, 0)) };
    assert_eq!(drag_action(&both), Some(DragAction::EndDrag));
}

#[test]
fn hooks_follow_the_session() {
    let geometry = geometry();
    let tint = Tint { down: 7, up: 3 };
    let mut color: u32 = 0;
    let mut state = VirtualJoystickState::resting();
    assert_eq!(update_action(&tint, 1u8, &state, &mut color), None);
    assert_eq!(color, 0);

    update_frame(&1u8, &JoystickFixed, &mut state, &geometry, &touch(1, 100, 100));
    assert_eq!(update_action(&tint, 1u8, &state, &mut color), Some(DragAction::StartDrag));
    assert_eq!(color, 7);

    update_frame(&1u8, &JoystickFixed, &mut state, &geometry, &touch(1, 125, 100));
    assert_eq!(update_action(&tint, 1u8, &state, &mut color), Some(DragAction::Drag));
    assert_eq!(color, 507);

    update_frame(&1u8, &JoystickFixed, &mut state, &geometry, &PointerInput::quiet());
    assert_eq!(update_action(&tint, 1u8, &state, &mut color), Some(DragAction::EndDrag));
    assert_eq!(color, 3);

    update_frame(&1u8, &JoystickFixed, &mut state, &geometry, &PointerInput::quiet());
    assert_eq!(update_action(&tint, 1u8, &state, &mut color), None);
    assert_eq!(color, 3);
}

#[test]
fn hooks_that_do_nothing_change_nothing() {
    let mut color: u32 = 11;
    let start = session(true, (0, 0), (0, 0));
    assert_eq!(update_action(&NoAction, "a", &start, &mut color), Some(DragAction::StartDrag));
    let drag = session(false, (0, 0), (0, 0));
    assert_eq!(update_action(&NoAction, "a", &drag, &mut color), Some(DragAction::Drag));
    let released = VirtualJoystickState { just_released: true, ..VirtualJoystickState::resting() };
    assert_eq!(update_action(&NoAction, "a", &released, &mut color), Some(DragAction::EndDrag));
    assert_eq!(color, 11);
}

#[test]
fn layout_places_base_and_knob() {
    let geometry = JoystickGeometry {
        joystick_rect: None,
        interaction_area: None,
        base_rect: Some(Rect::from_center_half_size(Vec2::new(0, 0), Vec2::new(50, 40))),
        knob_rect: Some(Rect::from_center_half_size(Vec2::new(0, 0), Vec2::new(25, 20))),
    };
    let state = VirtualJoystickState {
        touch_state: None,
        just_released: false,
        base_offset: Vec2::new(10, 20),
        delta: Vec2::new(500, 250),
    };
    assert_eq!(
        update_ui(&state, &geometry),
        JoystickLayout { base: Some(Vec2::new(10, 20)), knob: Some(Vec2::new(60, 30)) }
    );
}

#[test]
fn layout_of_a_joystick_at_rest_centers_the_knob() {
    let geometry = geometry();
    let layout = update_ui(&VirtualJoystickState::resting(), &geometry);
    assert_eq!(layout, JoystickLayout { base: Some(Vec2::zero()), knob: Some(Vec2::new(25, 25)) });
}

#[test]
fn layout_at_full_deflection() {
    let geometry = geometry();
    let at = |x: i32, y: i32| {
        let state = VirtualJoystickState { delta: Vec2::new(x, y), ..VirtualJoystickState::resting() };
        update_ui(&state, &geometry).knob.unwrap()
    };
    assert_eq!(at(DELTA_ONE, 0), Vec2::new(75, 25));
    assert_eq!(at(-DELTA_ONE, 0), Vec2::new(-25, 25));
    assert_eq!(at(0, DELTA_ONE), Vec2::new(25, -25));
    assert_eq!(at(0, -DELTA_ONE), Vec2::new(25, 75));
    assert_eq!(at(DELTA_ONE, DELTA_ONE), Vec2::new(75, -25));
}

#[test]
fn layout_rounds_the_travel_of_the_knob_toward_zero() {
    let geometry = JoystickGeometry {
        joystick_rect: None,
        interaction_area: None,
        base_rect: Some(Rect::from_center_half_size(Vec2::new(0, 0), Vec2::new(3, 3))),
        knob_rect: Some(Rect::from_center_half_size(Vec2::new(0, 0), Vec2::new(1, 1))),
    };
    let state = VirtualJoystickState { delta: Vec2::new(500, 500), ..VirtualJoystickState::resting() };
    // 3 * (0.5 - 1) is -1.5, and 3 * (-0.5 - 1) is -4.5
    assert_eq!(update_ui(&state, &geometry).knob, Some(Vec2::new(3, 0)));
}

#[test]
fn layout_needs_the_base() {
    let mut geometry = geometry();
    geometry.knob_rect = None;
    let state = VirtualJoystickState { base_offset: Vec2::new(5, 6), ..VirtualJoystickState::resting() };
    assert_eq!(update_ui(&state, &geometry), JoystickLayout { base: Some(Vec2::new(5, 6)), knob: None });
    geometry.base_rect = None;
    geometry.knob_rect = Some(Rect::from_center_half_size(Vec2::zero(), Vec2::new(1, 1)));
    assert_eq!(update_ui(&state, &geometry), JoystickLayout { base: None, knob: None });
}

#[test]
fn layout_follows_a_floating_base() {
    let geometry = geometry();
    let mut state = VirtualJoystickState::resting();
    update_frame(&0u8, &JoystickFloating, &mut state, &geometry, &touch(1, 130, 90));
    let layout = update_ui(&state, &geometry);
    assert_eq!(layout.base, Some(Vec2::new(30, -10)));
    assert_eq!(layout.knob, Some(Vec2::new(55, 15)));
    update_frame(&0u8, &JoystickFloating, &mut state, &geometry, &touch(1, 155, 90));
    let layout = update_ui(&state, &geometry);
    assert_eq!(state.delta, Vec2::new(500, 0));
    assert_eq!(layout.base, Some(Vec2::new(30, -10)));
    assert_eq!(layout.knob, Some(Vec2::new(80, 15)));
}
