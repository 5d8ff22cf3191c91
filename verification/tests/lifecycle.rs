use laios::error::FailedStep;
use laios::lifecycle::{Action, Outcome, Stage};

fn run(outcomes: &[Outcome]) -> (Stage, Vec<Action>) {
    let mut stage = Stage::SurfacePending;
    let mut actions = Vec::new();
    for outcome in outcomes {
        actions.push(stage.pending_action());
        stage = stage.advance(*outcome);
    }
    (stage, actions)
}

#[test]
fn a_successful_run_creates_then_tears_down_in_reverse() {
    let (stage, actions) = run(&[Outcome::Succeeded; 5]);
    assert_eq!(stage, Stage::Closed);
    assert_eq!(
        actions,
        vec![
            Action::CreateSurface,
            Action::CreateInstance,
            Action::RunLoop,
            Action::DestroyInstance,
            Action::ReleaseSurface,
        ]
    );
    assert_eq!(stage.pending_action(), Action::Exit);
}

#[test]
fn window_failure_aborts_with_nothing_held() {
    let (stage, actions) = run(&[Outcome::Failed]);
    assert_eq!(stage, Stage::Failed(FailedStep::WindowCreation));
    assert_eq!(actions, vec![Action::CreateSurface]);
    assert_eq!(stage.pending_action(), Action::Abort(FailedStep::WindowCreation));
    assert!(!stage.is_holding_surface());
    assert!(!stage.is_holding_context());
}

#[test]
fn instance_failure_releases_the_window_before_it_aborts() {
    let (stage, actions) = run(&[Outcome::Succeeded, Outcome::Failed]);
    assert_eq!(stage, Stage::Unwinding);
    assert!(stage.is_holding_surface());
    assert_eq!(stage.pending_action(), Action::ReleaseSurface);
    let (stage, actions_after) = run(&[Outcome::Succeeded, Outcome::Failed, Outcome::Succeeded]);
    assert_eq!(stage, Stage::Failed(FailedStep::InstanceCreation));
    assert_eq!(stage.pending_action(), Action::Abort(FailedStep::InstanceCreation));
    assert!(!stage.is_holding_surface());
    assert!(!stage.is_holding_context());
    assert_eq!(actions, vec![Action::CreateSurface, Action::CreateInstance]);
    assert_eq!(
        actions_after,
        vec![Action::CreateSurface, Action::CreateInstance, Action::ReleaseSurface]
    );
}

#[test]
fn the_instance_is_destroyed_once_and_after_the_loop() {
    for last in [Outcome::Succeeded, Outcome::Failed] {
        let outcomes = [Outcome::Succeeded, Outcome::Succeeded, last, last, last, last, last];
        let (stage, actions) = run(&outcomes);
        assert_eq!(stage, Stage::Closed);
        let destroys: Vec<usize> = actions
            .iter()
            .enumerate()
            .filter(|(_, action)| **action == Action::DestroyInstance)
            .map(|(index, _)| index)
            .collect();
        assert_eq!(destroys, vec![3]);
        assert_eq!(actions[2], Action::RunLoop);
    }
}

#[test]
fn held_resources_by_stage() {
    let held = |stage: Stage| (stage.is_holding_surface(), stage.is_holding_context());
    assert_eq!(held(Stage::SurfacePending), (false, false));
    assert_eq!(held(Stage::ContextPending), (true, false));
    assert_eq!(held(Stage::Running), (true, true));
    assert_eq!(held(Stage::DestroyingContext), (true, true));
    assert_eq!(held(Stage::ReleasingSurface), (true, false));
    assert_eq!(held(Stage::Closed), (false, false));
    assert_eq!(held(Stage::Unwinding), (true, false));
    assert_eq!(held(Stage::Failed(FailedStep::InstanceCreation)), (false, false));
}

#[test]
fn terminal_stages_stay() {
    for stage in [
        Stage::Closed,
        Stage::Failed(FailedStep::WindowCreation),
        Stage::Failed(FailedStep::InstanceCreation),
    ] {
        assert!(stage.is_terminal());
        assert_eq!(stage.advance(Outcome::Succeeded), stage);
        assert_eq!(stage.advance(Outcome::Failed), stage);
    }
    for stage in [
        Stage::SurfacePending,
        Stage::ContextPending,
        Stage::Running,
        Stage::DestroyingContext,
        Stage::ReleasingSurface,
        Stage::Unwinding,
    ] {
        assert!(!stage.is_terminal());
    }
}

#[test]
fn every_trace_of_five_outcomes_ends_with_nothing_held() {
    for bits in 0..32u32 {
        let outcomes: Vec<Outcome> = (0..5)
            .map(|i| if bits & (1 << i) != 0 { Outcome::Succeeded } else { Outcome::Failed })
            .collect();
        let (stage, actions) = run(&outcomes);
        assert!(stage.is_terminal());
        assert!(!stage.is_holding_surface());
        assert!(!stage.is_holding_context());
        let created = actions
            .iter()
            .zip(outcomes.iter())
            .filter(|(a, o)| **a == Action::CreateSurface && **o == Outcome::Succeeded)
            .count();
        let released = actions.iter().filter(|a| **a == Action::ReleaseSurface).count();
        assert_eq!(created, released);
    }
}
