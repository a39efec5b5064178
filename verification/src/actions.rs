//! What each application action does, as a sequence of steps on the
//! application state, depending on the play mode.

use vstd::prelude::*;
use crate::input::{AppAction, PlayMode, ToySize};

verus! {

/// One step of carrying out an action.
#[derive(Debug, Clone, Copy, PartialEq, Eq, Structural)]
pub enum CoreStep {
    /// Start fading out the introductory hints (fidget mode only).
    FadeIntroHint,
    /// Put a fresh ball on its spring somewhere on a monitor.
    SpawnBallRandom,
    /// Add a marble somewhere on a monitor.
    SpawnMarbleRandom,
    /// Cut the spring, or recall the ball onto it.
    ToggleSpring,
    /// Switch between the coil and rubber-band look of the spring.
    ToggleSpringVisual,
    /// Switch gravity on or off.
    ToggleGravity,
    /// Switch bouncing off the bottom edges of the monitors on or off.
    ToggleBottomBounce,
    /// Switch between one monitor and the whole desktop as play area.
    ToggleSingleMonitorBounds,
    /// Show or hide the HUD.
    ToggleHud,
    /// Fling the ball in a pseudo-random direction.
    NudgeBall,
    /// Scatter every marble.
    ScatterMarbles,
    /// Switch play mode, dropping held gestures.
    ToggleMode,
    /// Switch to marble mode.
    EnterMarbleMode,
    /// Remove every marble.
    ClearMarbles,
    /// Resize the ball and its string.
    SetToySize(ToySize),
}

/// The steps an action takes in play mode `mode`, given whether the ball is
/// on screen.
pub open spec fn plan_spec(action: AppAction, mode: PlayMode, ball_visible: bool) -> Seq<CoreStep> {
    match action {
        AppAction::Reset => match mode {
            PlayMode::Fidget => seq![CoreStep::FadeIntroHint, CoreStep::SpawnBallRandom],
            PlayMode::Marbles => seq![CoreStep::FadeIntroHint, CoreStep::SpawnMarbleRandom],
        },
        AppAction::ToggleSpring => match mode {
            PlayMode::Marbles => seq![],
            PlayMode::Fidget => if ball_visible {
                seq![CoreStep::FadeIntroHint, CoreStep::ToggleSpring]
            } else {
                seq![CoreStep::FadeIntroHint, CoreStep::SpawnBallRandom]
            },
        },
        AppAction::ToggleSpringVisual => seq![CoreStep::ToggleSpringVisual],
        AppAction::ToggleGravity => match mode {
            PlayMode::Fidget => seq![CoreStep::ToggleGravity],
            PlayMode::Marbles => seq![],
        },
        AppAction::ToggleBottomBounce => seq![CoreStep::ToggleBottomBounce],
        AppAction::ToggleSingleMonitorBounds => seq![CoreStep::ToggleSingleMonitorBounds],
        AppAction::ToggleHud => seq![CoreStep::ToggleHud],
        AppAction::Nudge => match mode {
            PlayMode::Fidget => seq![CoreStep::FadeIntroHint, CoreStep::NudgeBall],
            PlayMode::Marbles => seq![CoreStep::FadeIntroHint, CoreStep::ScatterMarbles],
        },
        AppAction::ToggleMode => seq![CoreStep::ToggleMode],
        AppAction::SpawnMarble => seq![CoreStep::EnterMarbleMode, CoreStep::SpawnMarbleRandom],
        AppAction::ClearMarbles => seq![CoreStep::ClearMarbles],
        AppAction::ScatterMarbles => seq![CoreStep::ScatterMarbles],
        AppAction::SetToySize(size) => seq![CoreStep::SetToySize(size)],
    }
}

/// The steps that carry out `action`.
pub fn plan(action: AppAction, mode: PlayMode, ball_visible: bool) -> (steps: Vec<CoreStep>)
    ensures
        steps@ == plan_spec(action, mode, ball_visible),
{
    match action {
        AppAction::Reset => match mode {
            PlayMode::Fidget => vec![CoreStep::FadeIntroHint, CoreStep::SpawnBallRandom],
            PlayMode::Marbles => vec![CoreStep::FadeIntroHint, CoreStep::SpawnMarbleRandom],
        },
        AppAction::ToggleSpring => match mode {
            PlayMode::Marbles => Vec::new(),
            PlayMode::Fidget => if ball_visible {
                vec![CoreStep::FadeIntroHint, CoreStep::ToggleSpring]
            } else {
                vec![CoreStep::FadeIntroHint, CoreStep::SpawnBallRandom]
            },
        },
        AppAction::ToggleSpringVisual => vec![CoreStep::ToggleSpringVisual],
        AppAction::ToggleGravity => match mode {
            PlayMode::Fidget => vec![CoreStep::ToggleGravity],
            PlayMode::Marbles => Vec::new(),
        },
        AppAction::ToggleBottomBounce => vec![CoreStep::ToggleBottomBounce],
        AppAction::ToggleSingleMonitorBounds => vec![CoreStep::ToggleSingleMonitorBounds],
        AppAction::ToggleHud => vec![CoreStep::ToggleHud],
        AppAction::Nudge => match mode {
            PlayMode::Fidget => vec![CoreStep::FadeIntroHint, CoreStep::NudgeBall],
            PlayMode::Marbles => vec![CoreStep::FadeIntroHint, CoreStep::ScatterMarbles],
        },
        AppAction::ToggleMode => vec![CoreStep::ToggleMode],
        AppAction::SpawnMarble => vec![CoreStep::EnterMarbleMode, CoreStep::SpawnMarbleRandom],
        AppAction::ClearMarbles => vec![CoreStep::ClearMarbles],
        AppAction::ScatterMarbles => vec![CoreStep::ScatterMarbles],
        AppAction::SetToySize(size) => vec![CoreStep::SetToySize(size)],
    }
}

/// A step that acts on the ball, its spring or gravity.
pub open spec fn is_ball_step(step: CoreStep) -> bool {
    match step {
        CoreStep::SpawnBallRandom | CoreStep::ToggleSpring | CoreStep::ToggleGravity
        | CoreStep::NudgeBall => true,
        _ => false,
    }
}

/// A step that acts on the marbles.
pub open spec fn is_marble_step(step: CoreStep) -> bool {
    match step {
        CoreStep::SpawnMarbleRandom | CoreStep::ScatterMarbles | CoreStep::ClearMarbles => true,
        _ => false,
    }
}

/// In marble mode no action touches the ball, and in fidget mode only the
/// explicit marble actions (spawn, clear, scatter) touch the marbles.
pub proof fn lemma_actions_respect_mode(action: AppAction, mode: PlayMode, ball_visible: bool)
    ensures
        mode == PlayMode::Marbles ==> forall|i: int|
            0 <= i < plan_spec(action, mode, ball_visible).len() ==> !is_ball_step(
                #[trigger] plan_spec(action, mode, ball_visible)[i],
            ),
        mode == PlayMode::Fidget && action != AppAction::SpawnMarble && action
            != AppAction::ClearMarbles && action != AppAction::ScatterMarbles ==> forall|i: int|
            0 <= i < plan_spec(action, mode, ball_visible).len() ==> !is_marble_step(
                #[trigger] plan_spec(action, mode, ball_visible)[i],
            ),
{
}

/// Choosing a toy size takes exactly one step, and that step carries the
/// size that was chosen, whatever the mode and the ball; and no other
/// action resizes the toy.
pub proof fn lemma_size_step_carries_requested_size(
    action: AppAction,
    size: ToySize,
    mode: PlayMode,
    ball_visible: bool,
)
    ensures
        plan_spec(AppAction::SetToySize(size), mode, ball_visible).len() == 1,
        plan_spec(AppAction::SetToySize(size), mode, ball_visible)[0] == CoreStep::SetToySize(size),
        forall|i: int|
            0 <= i < plan_spec(action, mode, ball_visible).len() ==> (#[trigger] plan_spec(
                action,
                mode,
                ball_visible,
            )[i] matches CoreStep::SetToySize(t) ==> action == AppAction::SetToySize(t)),
{
}

/// Resetting brings back the toy of the current mode: a ball in fidget mode
/// and a marble in marble mode, whether or not the ball is on screen.
pub proof fn lemma_reset_spawns_the_toy_of_the_mode(ball_visible: bool)
    ensures
        plan_spec(AppAction::Reset, PlayMode::Fidget, ball_visible).contains(
            CoreStep::SpawnBallRandom,
        ),
        !plan_spec(AppAction::Reset, PlayMode::Fidget, ball_visible).contains(
            CoreStep::SpawnMarbleRandom,
        ),
        plan_spec(AppAction::Reset, PlayMode::Marbles, ball_visible).contains(
            CoreStep::SpawnMarbleRandom,
        ),
        !plan_spec(AppAction::Reset, PlayMode::Marbles, ball_visible).contains(
            CoreStep::SpawnBallRandom,
        ),
{
    assert(plan_spec(AppAction::Reset, PlayMode::Fidget, ball_visible)[1]
        == CoreStep::SpawnBallRandom);
    assert(plan_spec(AppAction::Reset, PlayMode::Marbles, ball_visible)[1]
        == CoreStep::SpawnMarbleRandom);
}

/// Only cutting or recalling the spring looks at whether the ball is on
/// screen: every other action plans the same steps either way.
pub proof fn lemma_only_the_spring_toggle_depends_on_the_ball(action: AppAction, mode: PlayMode)
    requires
        action != AppAction::ToggleSpring,
    ensures
        plan_spec(action, mode, true) == plan_spec(action, mode, false),
{
}

} // verus!
