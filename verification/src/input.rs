//! The pointer tracker: which touch or mouse owns a joystick, from the frame
//! it lands in the joystick's rectangle to the frame it is lifted.

use vstd::prelude::*;
use crate::geometry::{Rect, Vec2, COORD_MAX};
use crate::state::{JoystickGeometry, TouchState, VirtualJoystickState, MOUSE_POINTER_ID};

verus! {

/// A touch point that is down in this frame.
#[derive(Clone, Copy, Debug, PartialEq, Eq, Structural, Hash)]
pub struct Touch {
    pub id: u64,
    pub position: Vec2,
}

/// What the host has sampled of the pointers for one frame.
#[derive(Clone, Debug, PartialEq, Eq, Hash)]
pub struct PointerInput {
    /// The touch points that are down, in the order the host reports them.
    pub touches: Vec<Touch>,
    /// The primary mouse button is held down.
    pub mouse_pressed: bool,
    /// The primary mouse button went down in this frame.
    pub mouse_just_pressed: bool,
    /// Where the cursor is, if it is over the window.
    pub cursor_position: Option<Vec2>,
}

/// The first touch of the sequence that lies in the rectangle.
pub open spec fn first_touch_inside(touches: Seq<Touch>, rect: Rect) -> Option<Touch>
    decreases touches.len(),
{
    if touches.len() == 0 {
        None
    } else if rect.spec_contains(touches[0].position) {
        Some(touches[0])
    } else {
        first_touch_inside(touches.drop_first(), rect)
    }
}

/// The first touch of the sequence with the given identifier.
pub open spec fn touch_with_id(touches: Seq<Touch>, id: u64) -> Option<Touch>
    decreases touches.len(),
{
    if touches.len() == 0 {
        None
    } else if touches[0].id == id {
        Some(touches[0])
    } else {
        touch_with_id(touches.drop_first(), id)
    }
}

impl PointerInput {
    /// Every position of the input lies within the coordinate limits.
    pub open spec fn wf(&self) -> bool {
        &&& forall|i: int| 0 <= i < self.touches@.len() ==> (#[trigger] self.touches@[i]).position.is_position()
        &&& (self.cursor_position matches Some(p) ==> p.is_position())
    }

    /// No touch is down, the mouse button is up and the cursor is away.
    pub open spec fn is_quiet(&self) -> bool {
        &&& self.touches@.len() == 0
        &&& !self.mouse_pressed
        &&& !self.mouse_just_pressed
        &&& self.cursor_position is None
    }

    /// The session that a joystick without one begins in this frame: the
    /// first touch in the rectangle, else the mouse if its button has just
    /// gone down with the cursor in the rectangle, else none.
    pub open spec fn claimed(&self, rect: Option<Rect>) -> Option<TouchState> {
        match rect {
            None => None,
            Some(r) => match first_touch_inside(self.touches@, r) {
                Some(touch) => Some(
                    TouchState {
                        id: touch.id,
                        is_mouse: false,
                        start: touch.position,
                        current: touch.position,
                        just_pressed: true,
                    },
                ),
                None => match self.cursor_position {
                    Some(p) if self.mouse_just_pressed && r.spec_contains(p) => Some(
                        TouchState {
                            id: MOUSE_POINTER_ID,
                            is_mouse: true,
                            start: p,
                            current: p,
                            just_pressed: true,
                        },
                    ),
                    _ => None,
                },
            },
        }
    }

    /// The pointer of the session is no longer down: the mouse button for
    /// a mouse session, the touch of the session's identifier for a touch
    /// session.
    pub open spec fn has_released(&self, session: TouchState) -> bool {
        if session.is_mouse {
            !self.mouse_pressed
        } else {
            touch_with_id(self.touches@, session.id) is None
        }
    }

    /// Where the pointer of a session that goes on is now. A mouse whose
    /// cursor has left the window stays where it was.
    pub open spec fn latest_position(&self, session: TouchState) -> Vec2 {
        if session.is_mouse {
            match self.cursor_position {
                Some(p) => p,
                None => session.current,
            }
        } else {
            match touch_with_id(self.touches@, session.id) {
                Some(touch) => touch.position,
                None => session.current,
            }
        }
    }

    /// An input in which no pointer is down.
    pub fn quiet() -> (input: PointerInput)
        ensures
            input.is_quiet(),
            input.wf(),
    {
        PointerInput {
            touches: Vec::new(),
            mouse_pressed: false,
            mouse_just_pressed: false,
            cursor_position: None,
        }
    }

    /// Tells whether every position of the input lies within the coordinate
    /// limits.
    pub fn is_wf(&self) -> (b: bool)
        ensures
            b == self.wf(),
    {
        let mut i: usize = 0;
        while i < self.touches.len()
            invariant
                i <= self.touches@.len(),
                forall|j: int| 0 <= j < i ==> (#[trigger] self.touches@[j]).position.is_position(),
            decreases self.touches@.len() - i,
        {
            if !self.touches[i].position.fits(COORD_MAX) {
                return false;
            }
            i += 1;
        }
        match self.cursor_position {
            Some(p) => p.fits(COORD_MAX),
            None => true,
        }
    }
}

/// The state of a joystick after the pointer tracker has seen the input of
/// a frame.
///
/// Both edge flags are cleared first. A joystick without a session begins
/// the one that the input claims in the interaction rectangle. A joystick
/// with a session ends it, and raises `just_released`, when its pointer is
/// no longer down; otherwise it follows the pointer. No other pointer can
/// take a session over.
pub open spec fn spec_update_input(
    state: VirtualJoystickState,
    geometry: JoystickGeometry,
    input: PointerInput,
) -> VirtualJoystickState {
    match state.touch_state {
        None => VirtualJoystickState {
            touch_state: input.claimed(geometry.spec_interaction_rect()),
            just_released: false,
            ..state
        },
        Some(session) => if input.has_released(session) {
            VirtualJoystickState { touch_state: None, just_released: true, ..state }
        } else {
            VirtualJoystickState {
                touch_state: Some(
                    TouchState {
                        current: input.latest_position(session),
                        just_pressed: false,
                        ..session
                    },
                ),
                just_released: false,
                ..state
            }
        },
    }
}

/// What `first_touch_inside` finds: a touch of the sequence that lies in the
/// rectangle and has none before it that does; and nothing only where no
/// touch of the sequence lies in the rectangle.
pub proof fn lemma_first_touch_inside(touches: Seq<Touch>, rect: Rect)
    ensures
        match first_touch_inside(touches, rect) {
            Some(touch) => exists|i: int|
                {
                    &&& 0 <= i < touches.len()
                    &&& #[trigger] touches[i] == touch
                    &&& rect.spec_contains(touch.position)
                    &&& forall|j: int| 0 <= j < i ==> !rect.spec_contains((#[trigger] touches[j]).position)
                },
            None => forall|j: int|
                0 <= j < touches.len() ==> !rect.spec_contains((#[trigger] touches[j]).position),
        },
    decreases touches.len(),
{
    if touches.len() == 0 {
    } else if rect.spec_contains(touches[0].position) {
        assert(touches[0] == touches[0]);
    } else {
        let rest = touches.drop_first();
        lemma_first_touch_inside(rest, rect);
        assert(forall|j: int| 0 <= j < rest.len() ==> rest[j] == touches[j + 1]);
        match first_touch_inside(rest, rect) {
            Some(touch) => {
                let i = choose|i: int|
                    {
                        &&& 0 <= i < rest.len()
                        &&& #[trigger] rest[i] == touch
                        &&& rect.spec_contains(touch.position)
                        &&& forall|j: int| 0 <= j < i ==> !rect.spec_contains((#[trigger] rest[j]).position)
                    };
                assert(touches[i + 1] == touch);
                assert forall|j: int| 0 <= j < i + 1 implies !rect.spec_contains(
                    (#[trigger] touches[j]).position,
                ) by {
                    if j > 0 {
                        assert(rest[j - 1] == touches[j]);
                    }
                }
            },
            None => {
                assert forall|j: int| 0 <= j < touches.len() implies !rect.spec_contains(
                    (#[trigger] touches[j]).position,
                ) by {
                    if j > 0 {
                        assert(rest[j - 1] == touches[j]);
                    }
                }
            },
        }
    }
}

/// What `touch_with_id` finds: a touch of the sequence with the identifier,
/// the first of them; and nothing only where no touch of the sequence has
/// the identifier.
pub proof fn lemma_touch_with_id(touches: Seq<Touch>, id: u64)
    ensures
        match touch_with_id(touches, id) {
            Some(touch) => exists|i: int|
                {
                    &&& 0 <= i < touches.len()
                    &&& #[trigger] touches[i] == touch
                    &&& touch.id == id
                    &&& forall|j: int| 0 <= j < i ==> (#[trigger] touches[j]).id != id
                },
            None => forall|j: int| 0 <= j < touches.len() ==> (#[trigger] touches[j]).id != id,
        },
    decreases touches.len(),
{
    if touches.len() == 0 {
    } else if touches[0].id == id {
        assert(touches[0] == touches[0]);
    } else {
        let rest = touches.drop_first();
        lemma_touch_with_id(rest, id);
        assert(forall|j: int| 0 <= j < rest.len() ==> rest[j] == touches[j + 1]);
        match touch_with_id(rest, id) {
            Some(touch) => {
                let i = choose|i: int|
                    {
                        &&& 0 <= i < rest.len()
                        &&& #[trigger] rest[i] == touch
                        &&& touch.id == id
                        &&& forall|j: int| 0 <= j < i ==> (#[trigger] rest[j]).id != id
                    };
                assert(touches[i + 1] == touch);
                assert forall|j: int| 0 <= j < i + 1 implies (#[trigger] touches[j]).id != id by {
                    if j > 0 {
                        assert(rest[j - 1] == touches[j]);
                    }
                }
            },
            None => {
                assert forall|j: int| 0 <= j < touches.len() implies (#[trigger] touches[j]).id
                    != id by {
                    if j > 0 {
                        assert(rest[j - 1] == touches[j]);
                    }
                }
            },
        }
    }
}

fn find_touch_inside(touches: &Vec<Touch>, rect: &Rect) -> (found: Option<Touch>)
    ensures
        found == first_touch_inside(touches@, *rect),
{
    let mut i: usize = 0;
    assert(touches@.subrange(0, touches@.len() as int) =~= touches@);
    while i < touches.len()
        invariant
            i <= touches@.len(),
            first_touch_inside(touches@, *rect) == first_touch_inside(
                touches@.subrange(i as int, touches@.len() as int),
                *rect,
            ),
        decreases touches@.len() - i,
    {
        let touch = touches[i];
        let ghost tail = touches@.subrange(i as int, touches@.len() as int);
        assert(tail[0] == touch);
        if rect.contains(touch.position) {
            return Some(touch);
        }
        assert(tail.drop_first() =~= touches@.subrange(i + 1, touches@.len() as int));
        i += 1;
    }
    None
}

fn find_touch_with_id(touches: &Vec<Touch>, id: u64) -> (found: Option<Touch>)
    ensures
        found == touch_with_id(touches@, id),
{
    let mut i: usize = 0;
    assert(touches@.subrange(0, touches@.len() as int) =~= touches@);
    while i < touches.len()
        invariant
            i <= touches@.len(),
            touch_with_id(touches@, id) == touch_with_id(
                touches@.subrange(i as int, touches@.len() as int),
                id,
            ),
        decreases touches@.len() - i,
    {
        let touch = touches[i];
        let ghost tail = touches@.subrange(i as int, touches@.len() as int);
        assert(tail[0] == touch);
        if touch.id == id {
            return Some(touch);
        }
        assert(tail.drop_first() =~= touches@.subrange(i + 1, touches@.len() as int));
        i += 1;
    }
    None
}

fn claim(input: &PointerInput, rect: Option<Rect>) -> (session: Option<TouchState>)
    ensures
        session == input.claimed(rect),
{
    let r = match rect {
        Some(r) => r,
        None => {
            return None;
        },
    };
    match find_touch_inside(&input.touches, &r) {
        Some(touch) => Some(
            TouchState {
                id: touch.id,
                is_mouse: false,
                start: touch.position,
                current: touch.position,
                just_pressed: true,
            },
        ),
        None => match input.cursor_position {
            Some(p) => {
                if input.mouse_just_pressed && r.contains(p) {
                    Some(
                        TouchState {
                            id: MOUSE_POINTER_ID,
                            is_mouse: true,
                            start: p,
                            current: p,
                            just_pressed: true,
                        },
                    )
                } else {
                    None
                }
            },
            None => None,
        },
    }
}

/// Runs the pointer tracker of one joystick for one frame.
pub fn update_input(
    state: &mut VirtualJoystickState,
    geometry: &JoystickGeometry,
    input: &PointerInput,
)
    ensures
        *final(state) == spec_update_input(*old(state), *geometry, *input),
        old(state).wf() && input.wf() ==> final(state).wf(),
{
    state.just_released = false;
    match state.touch_state {
        None => {
            state.touch_state = claim(input, geometry.interaction_rect());
            proof {
                if input.wf() {
                    match geometry.spec_interaction_rect() {
                        Some(r) => {
                            lemma_first_touch_inside(input.touches@, r);
                        },
                        None => {},
                    }
                }
            }
        },
        Some(session) => {
            if session.is_mouse {
                if !input.mouse_pressed {
                    state.touch_state = None;
                    state.just_released = true;
                } else {
                    let current = match input.cursor_position {
                        Some(p) => p,
                        None => session.current,
                    };
                    state.touch_state = Some(
                        TouchState {
                            id: session.id,
                            is_mouse: session.is_mouse,
                            start: session.start,
                            current,
                            just_pressed: false,
                        },
                    );
                }
            } else {
                match find_touch_with_id(&input.touches, session.id) {
                    None => {
                        state.touch_state = None;
                        state.just_released = true;
                    },
                    Some(touch) => {
                        proof {
                            lemma_touch_with_id(input.touches@, session.id);
                        }
                        state.touch_state = Some(
                            TouchState {
                                id: session.id,
                                is_mouse: session.is_mouse,
                                start: session.start,
                                current: touch.position,
                                just_pressed: false,
                            },
                        );
                    },
                }
            }
        },
    }
}

/// A quiet input begins no session, whatever the rectangle is.
pub proof fn lemma_quiet_claims_nothing(input: PointerInput, rect: Option<Rect>)
    requires
        input.is_quiet(),
    ensures
        input.claimed(rect) is None,
{
}

/// A session is exclusive: while a joystick has a session, no input makes
/// another pointer its owner. After the tracker has run, the joystick has
/// either no session, and then `just_released` is raised, or the session of
/// the same pointer with the same start.
pub proof fn lemma_session_is_exclusive(
    state: VirtualJoystickState,
    geometry: JoystickGeometry,
    input: PointerInput,
)
    requires
        state.touch_state is Some,
    ensures
        ({
            let before = state.touch_state->0;
            let next = spec_update_input(state, geometry, input);
            match next.touch_state {
                None => next.just_released,
                Some(after) => {
                    &&& after.id == before.id
                    &&& after.is_mouse == before.is_mouse
                    &&& after.start == before.start
                    &&& !after.just_pressed
                    &&& !next.just_released
                },
            }
        }),
{
}

/// Of several touches that are in the interaction rectangle at once, the
/// first that the host reports begins the session, and the others have no
/// part in the state.
pub proof fn lemma_first_touch_wins(
    state: VirtualJoystickState,
    geometry: JoystickGeometry,
    input: PointerInput,
    i: int,
)
    requires
        state.touch_state is None,
        geometry.spec_interaction_rect() is Some,
        0 <= i < input.touches@.len(),
        geometry.spec_interaction_rect()->0.spec_contains(input.touches@[i].position),
        forall|j: int|
            0 <= j < i ==> !geometry.spec_interaction_rect()->0.spec_contains(
                (#[trigger] input.touches@[j]).position,
            ),
    ensures
        spec_update_input(state, geometry, input).touch_state == Some(
            TouchState {
                id: input.touches@[i].id,
                is_mouse: false,
                start: input.touches@[i].position,
                current: input.touches@[i].position,
                just_pressed: true,
            },
        ),
{
    let rect = geometry.spec_interaction_rect()->0;
    lemma_first_touch_inside(input.touches@, rect);
    match first_touch_inside(input.touches@, rect) {
        Some(touch) => {
            let k = choose|k: int|
                {
                    &&& 0 <= k < input.touches@.len()
                    &&& #[trigger] input.touches@[k] == touch
                    &&& rect.spec_contains(touch.position)
                    &&& forall|j: int|
                        0 <= j < k ==> !rect.spec_contains((#[trigger] input.touches@[j]).position)
                };
            if k < i {
                assert(!rect.spec_contains(input.touches@[k].position));
            } else if i < k {
                assert(!rect.spec_contains(input.touches@[i].position));
            }
        },
        None => {
            assert(!rect.spec_contains(input.touches@[i].position));
        },
    }
}

} // verus!
