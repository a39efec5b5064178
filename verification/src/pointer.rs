//! Routing of pointer input between the fidget world and the marble world,
//! with the press-and-hold modes of the right button.

use vstd::prelude::*;
use crate::input::{PlayMode, mode_toggled};

verus! {

/// Which play mode is active and which right-button gesture is held.
#[derive(Debug, Clone, Copy, PartialEq, Eq, Structural)]
pub struct PointerModes {
    pub mode: PlayMode,
    /// Right button held in fidget mode: the cursor bends the spring.
    pub spring_interaction_active: bool,
    /// Right button held in marble mode: the cursor kicks marbles.
    pub marble_kick_active: bool,
}

/// A pointer event delivered by a shell.
#[derive(Debug, Clone, Copy, PartialEq, Eq, Structural)]
pub enum PointerEvent {
    Moved,
    LeftPressed,
    LeftReleased,
    RightPressed,
    RightReleased,
}

/// The simulation call a pointer event turns into.
#[derive(Debug, Clone, Copy, PartialEq, Eq, Structural)]
pub enum PointerRoute {
    /// Nothing to do.
    Ignore,
    /// Marble world: sweep the cursor through the marbles.
    MarbleKickCursor,
    /// Marble world: track the cursor (and drag a grabbed marble).
    MarbleMoveCursor,
    /// Marble world: try to grab the marble under the cursor.
    MarbleGrab,
    /// Marble world: throw the grabbed marble.
    MarbleRelease,
    /// Marble world: start a kick gesture at the cursor.
    MarbleBeginKick,
    /// Fidget world: bend or snag the spring with the cursor, then let the
    /// active monitor follow a cursor-dragged spring.
    WorldInteractSpring,
    /// Fidget world: track the cursor (drag, or cut the spring on a fast sweep).
    WorldMoveCursor,
    /// Fidget world: try to grab the ball under the cursor.
    WorldGrab,
    /// Fidget world: throw the held ball.
    WorldRelease,
    /// Fidget world: start bending the spring at the cursor.
    WorldStartSpringInteraction,
    /// Fidget world: let go of the spring.
    WorldStopSpringInteraction,
}

/// Route of a pointer event and the gesture state after it. While a marble
/// is grabbed, cursor motion drags it rather than kicking.
pub open spec fn pointer_step_spec(st: PointerModes, ev: PointerEvent, marble_grabbed: bool) -> (
    PointerModes,
    PointerRoute,
) {
    match st.mode {
        PlayMode::Marbles => match ev {
            PointerEvent::Moved => (
                st,
                if st.marble_kick_active && !marble_grabbed {
                    PointerRoute::MarbleKickCursor
                } else {
                    PointerRoute::MarbleMoveCursor
                },
            ),
            PointerEvent::LeftPressed => (st, PointerRoute::MarbleGrab),
            PointerEvent::LeftReleased => (st, PointerRoute::MarbleRelease),
            PointerEvent::RightPressed => (
                PointerModes { marble_kick_active: true, ..st },
                PointerRoute::MarbleBeginKick,
            ),
            PointerEvent::RightReleased => (
                PointerModes { marble_kick_active: false, ..st },
                PointerRoute::Ignore,
            ),
        },
        PlayMode::Fidget => match ev {
            PointerEvent::Moved => (
                st,
                if st.spring_interaction_active {
                    PointerRoute::WorldInteractSpring
                } else {
                    PointerRoute::WorldMoveCursor
                },
            ),
            PointerEvent::LeftPressed => (st, PointerRoute::WorldGrab),
            PointerEvent::LeftReleased => (st, PointerRoute::WorldRelease),
            PointerEvent::RightPressed => (
                PointerModes { spring_interaction_active: true, ..st },
                PointerRoute::WorldStartSpringInteraction,
            ),
            PointerEvent::RightReleased => if st.spring_interaction_active {
                (
                    PointerModes { spring_interaction_active: false, ..st },
                    PointerRoute::WorldStopSpringInteraction,
                )
            } else {
                (st, PointerRoute::Ignore)
            },
        },
    }
}

/// Decide what a pointer event does and update the held gestures.
pub fn pointer_step(st: PointerModes, ev: PointerEvent, marble_grabbed: bool) -> (r: (
    PointerModes,
    PointerRoute,
))
    ensures
        r == pointer_step_spec(st, ev, marble_grabbed),
{
    match st.mode {
        PlayMode::Marbles => match ev {
            PointerEvent::Moved => (
                st,
                if st.marble_kick_active && !marble_grabbed {
                    PointerRoute::MarbleKickCursor
                } else {
                    PointerRoute::MarbleMoveCursor
                },
            ),
            PointerEvent::LeftPressed => (st, PointerRoute::MarbleGrab),
            PointerEvent::LeftReleased => (st, PointerRoute::MarbleRelease),
            PointerEvent::RightPressed => (
                PointerModes { marble_kick_active: true, ..st },
                PointerRoute::MarbleBeginKick,
            ),
            PointerEvent::RightReleased => (
                PointerModes { marble_kick_active: false, ..st },
                PointerRoute::Ignore,
            ),
        },
        PlayMode::Fidget => match ev {
            PointerEvent::Moved => (
                st,
                if st.spring_interaction_active {
                    PointerRoute::WorldInteractSpring
                } else {
                    PointerRoute::WorldMoveCursor
                },
            ),
            PointerEvent::LeftPressed => (st, PointerRoute::WorldGrab),
            PointerEvent::LeftReleased => (st, PointerRoute::WorldRelease),
            PointerEvent::RightPressed => (
                PointerModes { spring_interaction_active: true, ..st },
                PointerRoute::WorldStartSpringInteraction,
            ),
            PointerEvent::RightReleased => if st.spring_interaction_active {
                (
                    PointerModes { spring_interaction_active: false, ..st },
                    PointerRoute::WorldStopSpringInteraction,
                )
            } else {
                (st, PointerRoute::Ignore)
            },
        },
    }
}

/// Switch between fidget and marble mode: held gestures are dropped (the
/// caller also lets go of the spring).
pub fn toggle_mode(st: PointerModes) -> (next: PointerModes)
    ensures
        next == (PointerModes {
            mode: mode_toggled(st.mode),
            spring_interaction_active: false,
            marble_kick_active: false,
        }),
{
    PointerModes { mode: st.mode.toggled(), spring_interaction_active: false, marble_kick_active: false }
}

/// A route that drives the marble world.
pub open spec fn is_marble_route(r: PointerRoute) -> bool {
    match r {
        PointerRoute::MarbleKickCursor | PointerRoute::MarbleMoveCursor | PointerRoute::MarbleGrab
        | PointerRoute::MarbleRelease | PointerRoute::MarbleBeginKick => true,
        _ => false,
    }
}

/// A route that drives the fidget world.
pub open spec fn is_world_route(r: PointerRoute) -> bool {
    r != PointerRoute::Ignore && !is_marble_route(r)
}

/// Pointer input only ever reaches the world of the active mode, never
/// changes the mode, never sets the gesture flag of the other mode, and
/// cursor motion leaves the held gestures as they are.
pub proof fn lemma_pointer_input_stays_in_mode(
    st: PointerModes,
    ev: PointerEvent,
    marble_grabbed: bool,
)
    ensures
        ({
            let (next, route) = pointer_step_spec(st, ev, marble_grabbed);
            &&& next.mode == st.mode
            &&& ev == PointerEvent::Moved ==> next == st
            &&& st.mode == PlayMode::Marbles ==> !is_world_route(route)
                && next.spring_interaction_active == st.spring_interaction_active
            &&& st.mode == PlayMode::Fidget ==> !is_marble_route(route)
                && next.marble_kick_active == st.marble_kick_active
        }),
{
}

/// In fidget mode a right press followed by cursor motion and a right
/// release always ends the spring interaction it started.
pub proof fn lemma_right_press_release_roundtrip(st: PointerModes)
    requires
        st.mode == PlayMode::Fidget,
    ensures
        ({
            let (pressed, r1) = pointer_step_spec(st, PointerEvent::RightPressed, false);
            let (moved, r2) = pointer_step_spec(pressed, PointerEvent::Moved, false);
            let (released, r3) = pointer_step_spec(moved, PointerEvent::RightReleased, false);
            &&& r1 == PointerRoute::WorldStartSpringInteraction
            &&& r2 == PointerRoute::WorldInteractSpring
            &&& r3 == PointerRoute::WorldStopSpringInteraction
            &&& released == PointerModes { spring_interaction_active: false, ..st }
        }),
{
}

/// Cursor motion only tracks the cursor unless a right-button gesture is
/// held: in marble mode it kicks marbles exactly while the right button is
/// held and no marble is grabbed, and in fidget mode it bends the spring
/// exactly while a spring interaction is held.
pub proof fn lemma_motion_acts_only_while_right_held(st: PointerModes, marble_grabbed: bool)
    ensures
        ({
            let (_, route) = pointer_step_spec(st, PointerEvent::Moved, marble_grabbed);
            &&& st.mode == PlayMode::Marbles ==> (route == PointerRoute::MarbleKickCursor
                <==> st.marble_kick_active && !marble_grabbed)
            &&& st.mode == PlayMode::Marbles ==> (route == PointerRoute::MarbleMoveCursor
                <==> !(st.marble_kick_active && !marble_grabbed))
            &&& st.mode == PlayMode::Fidget ==> (route == PointerRoute::WorldInteractSpring
                <==> st.spring_interaction_active)
            &&& st.mode == PlayMode::Fidget ==> (route == PointerRoute::WorldMoveCursor
                <==> !st.spring_interaction_active)
        }),
{
}

/// In marble mode a kick lasts from a right press to the right release:
/// motion before the press only tracks the cursor, motion after it kicks
/// the (ungrabbed) marbles, and motion after the release tracks again.
pub proof fn lemma_kick_lasts_while_right_held(st: PointerModes)
    requires
        st.mode == PlayMode::Marbles,
        !st.marble_kick_active,
    ensures
        ({
            let (_, before) = pointer_step_spec(st, PointerEvent::Moved, false);
            let (pressed, r1) = pointer_step_spec(st, PointerEvent::RightPressed, false);
            let (_, during) = pointer_step_spec(pressed, PointerEvent::Moved, false);
            let (_, held_grabbed) = pointer_step_spec(pressed, PointerEvent::Moved, true);
            let (released, _) = pointer_step_spec(pressed, PointerEvent::RightReleased, false);
            let (_, after) = pointer_step_spec(released, PointerEvent::Moved, false);
            &&& before == PointerRoute::MarbleMoveCursor
            &&& r1 == PointerRoute::MarbleBeginKick
            &&& during == PointerRoute::MarbleKickCursor
            &&& held_grabbed == PointerRoute::MarbleMoveCursor
            &&& after == PointerRoute::MarbleMoveCursor
            &&& released == st
        }),
{
}

} // verus!
