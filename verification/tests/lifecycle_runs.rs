use igloo_kit::lifecycle::{
    current_action, failure_message, initial_state, is_done, lifecycle_step, pending_action,
    run_lifecycle, stop_message, success_message, teardown_actions, LifecycleAction,
    LifecycleError, LifecycleState, TeardownAction,
};
use igloo_kit::display::MessageType;
use igloo_kit::project::{Project, SupportedLanguages};
use igloo_kit::routines::{
    DebugStatus, RunClickhouseContainer, RunLocalInfratructure, RunRedPandaContainer,
};

fn project() -> Project {
    Project::new(
        "demo".to_string(),
        SupportedLanguages::Typescript,
        "demo-app".to_string(),
        "/work",
    )
}

#[test]
fn happy_path_runs_every_stage_once() {
    let events = vec![true, true, true, true, true, true];
    let (actions, end) = run_lifecycle(&events);
    assert_eq!(
        actions,
        vec![
            LifecycleAction::ValidateMounts,
            LifecycleAction::ValidateNetwork,
            LifecycleAction::StartBroker,
            LifecycleAction::ValidateBroker,
            LifecycleAction::StartStore,
            LifecycleAction::ValidateStore,
        ]
    );
    assert_eq!(end, LifecycleState::Ready);
}

#[test]
fn network_present_is_never_created() {
    let events = vec![true, true, true, true, true, true];
    let (actions, _) = run_lifecycle(&events);
    assert!(!actions.contains(&LifecycleAction::CreateNetwork));
}

#[test]
fn absent_network_is_created_once_and_revalidated_once() {
    let events = vec![true, false, true, true, true, true, true, true];
    let (actions, end) = run_lifecycle(&events);
    assert_eq!(end, LifecycleState::Ready);
    let creates = actions
        .iter()
        .filter(|a| **a == LifecycleAction::CreateNetwork)
        .count();
    let validates = actions
        .iter()
        .filter(|a| **a == LifecycleAction::ValidateNetwork)
        .count();
    assert_eq!(creates, 1);
    assert_eq!(validates, 2);
}

#[test]
fn missing_mounts_fail_before_anything_else() {
    let events = vec![false, true, true];
    let (actions, end) = run_lifecycle(&events);
    assert_eq!(actions, vec![LifecycleAction::ValidateMounts]);
    assert_eq!(end, LifecycleState::Failed(LifecycleError::MountsMissing));
    let m = failure_message(&LifecycleError::MountsMissing);
    assert_eq!(m.action, "Failed");
    assert_eq!(m.details, "to validate mount volumes, run init first");
}

#[test]
fn broker_start_failure_names_the_broker_and_skips_the_store() {
    // network absent, created and revalidated, then the broker start fails:
    // a dependency error on the broker step, and the store is never started
    let events = vec![true, false, true, true, false, true, true];
    let (actions, end) = run_lifecycle(&events);
    assert_eq!(
        actions,
        vec![
            LifecycleAction::ValidateMounts,
            LifecycleAction::ValidateNetwork,
            LifecycleAction::CreateNetwork,
            LifecycleAction::ValidateNetwork,
            LifecycleAction::StartBroker,
        ]
    );
    assert_eq!(end, LifecycleState::Failed(LifecycleError::BrokerStartFailed));
    assert!(!actions.contains(&LifecycleAction::StartStore));
    let m = failure_message(&LifecycleError::BrokerStartFailed);
    assert_eq!(m.action, "Failed");
    assert_eq!(m.details, "to run redpanda container");
}

#[test]
fn broker_not_running_stops_before_the_store() {
    let events = vec![true, true, true, false, true, true];
    let (actions, end) = run_lifecycle(&events);
    assert_eq!(end, LifecycleState::Failed(LifecycleError::BrokerNotRunning));
    assert!(!actions.contains(&LifecycleAction::StartStore));
    assert!(!actions.contains(&LifecycleAction::ValidateStore));
}

#[test]
fn failed_network_retry_is_fatal() {
    let events = vec![true, false, true, false, true];
    let (actions, end) = run_lifecycle(&events);
    assert_eq!(end, LifecycleState::Failed(LifecycleError::NetworkStillAbsent));
    assert_eq!(
        actions
            .iter()
            .filter(|a| **a == LifecycleAction::CreateNetwork)
            .count(),
        1
    );
}

#[test]
fn create_failure_is_fatal() {
    let events = vec![true, false, false];
    let (_, end) = run_lifecycle(&events);
    assert_eq!(end, LifecycleState::Failed(LifecycleError::NetworkCreateFailed));
    let m = failure_message(&LifecycleError::NetworkCreateFailed);
    assert_eq!(m.details, "to create panda_house docker network");
}

#[test]
fn store_failures_are_reported_by_step() {
    let events = vec![true, true, true, true, false];
    let (_, end) = run_lifecycle(&events);
    assert_eq!(end, LifecycleState::Failed(LifecycleError::StoreStartFailed));
    assert_eq!(
        failure_message(&LifecycleError::StoreStartFailed).details,
        "to run clickhouse container"
    );
    let events = vec![true, true, true, true, true, false];
    let (_, end) = run_lifecycle(&events);
    assert_eq!(end, LifecycleState::Failed(LifecycleError::StoreNotRunning));
    assert_eq!(
        failure_message(&LifecycleError::StoreNotRunning).details,
        "to validate clickhouse docker container"
    );
    assert_eq!(
        failure_message(&LifecycleError::NetworkStillAbsent).details,
        "to validate panda_house docker network"
    );
    assert_eq!(
        failure_message(&LifecycleError::BrokerNotRunning).details,
        "to validate red panda docker container"
    );
}

#[test]
fn stepping_by_hand_matches_the_replay() {
    let mut state = initial_state();
    assert!(!is_done(&state));
    assert_eq!(current_action(&state), LifecycleAction::ValidateMounts);
    state = lifecycle_step(state, true);
    assert_eq!(pending_action(&state), Some(LifecycleAction::ValidateNetwork));
    state = lifecycle_step(state, true);
    state = lifecycle_step(state, false);
    assert_eq!(state, LifecycleState::Failed(LifecycleError::BrokerStartFailed));
    assert!(is_done(&state));
    assert_eq!(pending_action(&state), None);
}

#[test]
fn teardown_stops_broker_then_store() {
    let order = teardown_actions();
    assert_eq!(
        order,
        vec![TeardownAction::StopBroker, TeardownAction::StopStore]
    );
    assert_eq!(stop_message(true), "Stopped docker container");
    assert_eq!(stop_message(false), "Failed to stop docker container");
}

#[test]
fn run_local_infrastructure_judges_terminal_states() {
    let routine = RunLocalInfratructure::new(DebugStatus::Silent, project());
    let ok = routine
        .evaluate(&LifecycleState::Ready, String::new())
        .expect("a ready bring-up is a success");
    assert_eq!(ok.message.action, "Successfully");
    assert_eq!(ok.message.details, "ran local infrastructure");
    assert_eq!(ok.message_type, MessageType::Success);
    assert_eq!(success_message().details, "ran local infrastructure");

    let err = routine
        .evaluate(
            &LifecycleState::Failed(LifecycleError::BrokerStartFailed),
            "exit status 1".to_string(),
        )
        .expect_err("a failed bring-up is a failure");
    assert_eq!(err.message.action, "Failed");
    assert_eq!(err.message.details, "to run redpanda container");
    assert_eq!(err.error, "exit status 1");
}

#[test]
fn container_routines_judge_their_starts() {
    let red_panda = RunRedPandaContainer::new(DebugStatus::Debug, project());
    let ok = red_panda.evaluate(true, String::new()).unwrap();
    assert_eq!(ok.message.details, "ran redpanda container");
    let err = red_panda
        .evaluate(false, "no such network".to_string())
        .unwrap_err();
    assert_eq!(err.message.details, "to run redpanda container");
    assert_eq!(err.error, "no such network");

    let clickhouse = RunClickhouseContainer::new(DebugStatus::Silent, project());
    let ok = clickhouse.evaluate(true, String::new()).unwrap();
    assert_eq!(ok.message.details, "ran clickhouse container");
    let err = clickhouse
        .evaluate(false, "pull failed".to_string())
        .unwrap_err();
    assert_eq!(err.message.details, "to run clickhouse container");
}
