use fidget_vk::input::PlayMode;
use fidget_vk::pointer::{pointer_step, toggle_mode, PointerEvent, PointerModes, PointerRoute};

fn fidget() -> PointerModes {
    PointerModes {
        mode: PlayMode::Fidget,
        spring_interaction_active: false,
        marble_kick_active: false,
    }
}

fn marbles() -> PointerModes {
    PointerModes {
        mode: PlayMode::Marbles,
        spring_interaction_active: false,
        marble_kick_active: false,
    }
}

#[test]
fn fidget_right_drag_bends_the_spring() {
    let (st, r) = pointer_step(fidget(), PointerEvent::Moved, false);
    assert_eq!(r, PointerRoute::WorldMoveCursor);
    let (st, r) = pointer_step(st, PointerEvent::RightPressed, false);
    assert_eq!(r, PointerRoute::WorldStartSpringInteraction);
    assert!(st.spring_interaction_active);
    let (st, r) = pointer_step(st, PointerEvent::Moved, false);
    assert_eq!(r, PointerRoute::WorldInteractSpring);
    let (st, r) = pointer_step(st, PointerEvent::RightReleased, false);
    assert_eq!(r, PointerRoute::WorldStopSpringInteraction);
    assert_eq!(st, fidget());
    let (st, r) = pointer_step(st, PointerEvent::RightReleased, false);
    assert_eq!(r, PointerRoute::Ignore);
    assert_eq!(st, fidget());
}

#[test]
fn fidget_left_button_grabs_and_throws() {
    assert_eq!(pointer_step(fidget(), PointerEvent::LeftPressed, false).1, PointerRoute::WorldGrab);
    assert_eq!(
        pointer_step(fidget(), PointerEvent::LeftReleased, true).1,
        PointerRoute::WorldRelease
    );
}

#[test]
fn marble_kick_gesture() {
    let (st, r) = pointer_step(marbles(), PointerEvent::RightPressed, false);
    assert_eq!(r, PointerRoute::MarbleBeginKick);
    assert!(st.marble_kick_active);
    assert_eq!(pointer_step(st, PointerEvent::Moved, false).1, PointerRoute::MarbleKickCursor);
    // A grabbed marble is dragged, not kicked.
    assert_eq!(pointer_step(st, PointerEvent::Moved, true).1, PointerRoute::MarbleMoveCursor);
    let (st, r) = pointer_step(st, PointerEvent::RightReleased, false);
    assert_eq!(r, PointerRoute::Ignore);
    assert_eq!(st, marbles());
    assert_eq!(pointer_step(st, PointerEvent::LeftPressed, false).1, PointerRoute::MarbleGrab);
    assert_eq!(pointer_step(st, PointerEvent::LeftReleased, false).1, PointerRoute::MarbleRelease);
}

#[test]
fn toggling_mode_drops_gestures() {
    let held = PointerModes {
        mode: PlayMode::Fidget,
        spring_interaction_active: true,
        marble_kick_active: false,
    };
    assert_eq!(toggle_mode(held), marbles());
    assert_eq!(toggle_mode(marbles()), fidget());
}
