use fidget_vk::actions::{plan, CoreStep};
use fidget_vk::input::{AppAction, PlayMode, ToySize};

#[test]
fn reset_respawns_the_toy_of_the_current_mode() {
    assert_eq!(
        plan(AppAction::Reset, PlayMode::Fidget, true),
        vec![CoreStep::FadeIntroHint, CoreStep::SpawnBallRandom]
    );
    assert_eq!(
        plan(AppAction::Reset, PlayMode::Marbles, true),
        vec![CoreStep::FadeIntroHint, CoreStep::SpawnMarbleRandom]
    );
}

#[test]
fn toggle_spring_cuts_a_visible_ball_and_respawns_a_lost_one() {
    assert_eq!(
        plan(AppAction::ToggleSpring, PlayMode::Fidget, true),
        vec![CoreStep::FadeIntroHint, CoreStep::ToggleSpring]
    );
    assert_eq!(
        plan(AppAction::ToggleSpring, PlayMode::Fidget, false),
        vec![CoreStep::FadeIntroHint, CoreStep::SpawnBallRandom]
    );
    assert!(plan(AppAction::ToggleSpring, PlayMode::Marbles, true).is_empty());
}

#[test]
fn gravity_only_toggles_in_fidget_mode() {
    assert_eq!(
        plan(AppAction::ToggleGravity, PlayMode::Fidget, false),
        vec![CoreStep::ToggleGravity]
    );
    assert!(plan(AppAction::ToggleGravity, PlayMode::Marbles, false).is_empty());
}

#[test]
fn nudge_flings_the_ball_or_scatters_marbles() {
    assert_eq!(
        plan(AppAction::Nudge, PlayMode::Fidget, true),
        vec![CoreStep::FadeIntroHint, CoreStep::NudgeBall]
    );
    assert_eq!(
        plan(AppAction::Nudge, PlayMode::Marbles, true),
        vec![CoreStep::FadeIntroHint, CoreStep::ScatterMarbles]
    );
}

#[test]
fn spawn_marble_enters_marble_mode_first() {
    assert_eq!(
        plan(AppAction::SpawnMarble, PlayMode::Fidget, true),
        vec![CoreStep::EnterMarbleMode, CoreStep::SpawnMarbleRandom]
    );
}

#[test]
fn mode_independent_actions_take_one_step() {
    for mode in [PlayMode::Fidget, PlayMode::Marbles] {
        assert_eq!(plan(AppAction::ToggleHud, mode, true), vec![CoreStep::ToggleHud]);
        assert_eq!(plan(AppAction::ToggleMode, mode, true), vec![CoreStep::ToggleMode]);
        assert_eq!(
            plan(AppAction::ToggleSpringVisual, mode, true),
            vec![CoreStep::ToggleSpringVisual]
        );
        assert_eq!(
            plan(AppAction::ToggleBottomBounce, mode, true),
            vec![CoreStep::ToggleBottomBounce]
        );
        assert_eq!(
            plan(AppAction::ToggleSingleMonitorBounds, mode, true),
            vec![CoreStep::ToggleSingleMonitorBounds]
        );
        assert_eq!(plan(AppAction::ClearMarbles, mode, true), vec![CoreStep::ClearMarbles]);
        assert_eq!(plan(AppAction::ScatterMarbles, mode, true), vec![CoreStep::ScatterMarbles]);
        assert_eq!(
            plan(AppAction::SetToySize(ToySize::Large), mode, true),
            vec![CoreStep::SetToySize(ToySize::Large)]
        );
    }
}

#[test]
fn marble_mode_never_touches_the_ball() {
    let actions = [
        AppAction::Reset,
        AppAction::ToggleSpring,
        AppAction::ToggleGravity,
        AppAction::Nudge,
        AppAction::ToggleHud,
    ];
    for action in actions {
        for visible in [false, true] {
            for step in plan(action, PlayMode::Marbles, visible) {
                assert!(!matches!(
                    step,
                    CoreStep::SpawnBallRandom
                        | CoreStep::ToggleSpring
                        | CoreStep::ToggleGravity
                        | CoreStep::NudgeBall
                ));
            }
        }
    }
}
