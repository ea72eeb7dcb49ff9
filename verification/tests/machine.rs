//! Scenario tests for the provisioning state machine: progress ordering,
//! idempotent short-circuit, and cleanup on every failure path.

use ffmpeg_provision::errors::ProvisionError;
use ffmpeg_provision::provision::{
    provision_step, ExtractSignal, FinalOutcome, ProvisionAction, ProvisionEvent, ProvisionState,
    Stage,
};

/// Drive the machine from idle through the given events, collecting every
/// requested action and every emitted stage.
fn drive(events: &[ProvisionEvent]) -> (ProvisionState, Vec<ProvisionAction>, Vec<Stage>) {
    let mut state = ProvisionState::Idle;
    let mut actions = Vec::new();
    let mut stages = Vec::new();
    for e in events {
        let (next, action) = provision_step(state, *e);
        if let ProvisionAction::Emit(stage) = action {
            stages.push(stage);
        }
        actions.push(action);
        state = next;
    }
    (state, actions, stages)
}

#[test]
fn successful_run_emits_stages_in_order() {
    let (state, actions, stages) = drive(&[
        ProvisionEvent::Begin,
        ProvisionEvent::Presence(false),
        ProvisionEvent::EmitResult(true),
        ProvisionEvent::FetchResult(true),
        ProvisionEvent::StoreResult(true),
        ProvisionEvent::EmitResult(true),
        ProvisionEvent::ExtractResult(ExtractSignal::Found),
        ProvisionEvent::CommitResult(true),
        ProvisionEvent::RemoveResult(true),
        ProvisionEvent::EmitResult(true),
    ]);
    assert_eq!(state, ProvisionState::Finished(FinalOutcome::Provisioned));
    assert_eq!(stages, vec![Stage::Downloading, Stage::Extracting, Stage::Complete]);
    assert_eq!(
        actions,
        vec![
            ProvisionAction::CheckPresence,
            ProvisionAction::Emit(Stage::Downloading),
            ProvisionAction::Fetch,
            ProvisionAction::StoreArchive,
            ProvisionAction::Emit(Stage::Extracting),
            ProvisionAction::Extract,
            ProvisionAction::CommitDestination,
            ProvisionAction::RemoveArchive,
            ProvisionAction::Emit(Stage::Complete),
            ProvisionAction::Finish(FinalOutcome::Provisioned),
        ]
    );
}

#[test]
fn already_present_short_circuits_without_fetch() {
    let (state, actions, stages) = drive(&[ProvisionEvent::Begin, ProvisionEvent::Presence(true)]);
    assert_eq!(state, ProvisionState::Finished(FinalOutcome::AlreadyPresent));
    assert!(stages.is_empty());
    assert_eq!(
        actions,
        vec![
            ProvisionAction::CheckPresence,
            ProvisionAction::Finish(FinalOutcome::AlreadyPresent),
        ]
    );
    assert!(!actions.contains(&ProvisionAction::Fetch));
}

#[test]
fn extraction_failure_emits_two_stages_and_cleans_up() {
    let (state, actions, stages) = drive(&[
        ProvisionEvent::Begin,
        ProvisionEvent::Presence(false),
        ProvisionEvent::EmitResult(true),
        ProvisionEvent::FetchResult(true),
        ProvisionEvent::StoreResult(true),
        ProvisionEvent::EmitResult(true),
        ProvisionEvent::ExtractResult(ExtractSignal::NotFound),
        ProvisionEvent::RemoveResult(true),
    ]);
    assert_eq!(
        state,
        ProvisionState::Finished(FinalOutcome::Failed(ProvisionError::TargetNotFoundInArchive))
    );
    assert_eq!(stages, vec![Stage::Downloading, Stage::Extracting]);
    assert!(actions.contains(&ProvisionAction::RemoveArchive));
    assert!(!actions.contains(&ProvisionAction::CommitDestination));
    assert!(!actions.contains(&ProvisionAction::Emit(Stage::Complete)));
}

#[test]
fn corrupt_archive_failure_keeps_error_through_cleanup() {
    let (state, _actions, stages) = drive(&[
        ProvisionEvent::Begin,
        ProvisionEvent::Presence(false),
        ProvisionEvent::EmitResult(true),
        ProvisionEvent::FetchResult(true),
        ProvisionEvent::StoreResult(true),
        ProvisionEvent::EmitResult(true),
        ProvisionEvent::ExtractResult(ExtractSignal::Failed(ProvisionError::CorruptArchive)),
        ProvisionEvent::RemoveResult(false),
    ]);
    assert_eq!(
        state,
        ProvisionState::Finished(FinalOutcome::Failed(ProvisionError::CorruptArchive))
    );
    assert_eq!(stages, vec![Stage::Downloading, Stage::Extracting]);
}

#[test]
fn commit_failure_cleans_up_and_never_completes() {
    let (state, actions, stages) = drive(&[
        ProvisionEvent::Begin,
        ProvisionEvent::Presence(false),
        ProvisionEvent::EmitResult(true),
        ProvisionEvent::FetchResult(true),
        ProvisionEvent::StoreResult(true),
        ProvisionEvent::EmitResult(true),
        ProvisionEvent::ExtractResult(ExtractSignal::Found),
        ProvisionEvent::CommitResult(false),
        ProvisionEvent::RemoveResult(true),
    ]);
    assert_eq!(state, ProvisionState::Finished(FinalOutcome::Failed(ProvisionError::IoError)));
    assert_eq!(stages, vec![Stage::Downloading, Stage::Extracting]);
    assert!(actions.contains(&ProvisionAction::RemoveArchive));
    assert!(!actions.contains(&ProvisionAction::Emit(Stage::Complete)));
}

#[test]
fn fetch_failure_stops_after_downloading_stage() {
    let (state, _actions, stages) = drive(&[
        ProvisionEvent::Begin,
        ProvisionEvent::Presence(false),
        ProvisionEvent::EmitResult(true),
        ProvisionEvent::FetchResult(false),
    ]);
    assert_eq!(state, ProvisionState::Finished(FinalOutcome::Failed(ProvisionError::IoError)));
    assert_eq!(stages, vec![Stage::Downloading]);
}

#[test]
fn observer_failure_aborts_run() {
    let (state, _actions, stages) = drive(&[
        ProvisionEvent::Begin,
        ProvisionEvent::Presence(false),
        ProvisionEvent::EmitResult(false),
    ]);
    assert_eq!(
        state,
        ProvisionState::Finished(FinalOutcome::Failed(ProvisionError::ObserverDeliveryFailed))
    );
    assert_eq!(stages, vec![Stage::Downloading]);
}
