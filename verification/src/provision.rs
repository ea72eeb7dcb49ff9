//! The provisioner: a state machine that orders one provisioning run —
//! presence check, progress notification, download, archive write,
//! extraction, destination commit, unconditional cleanup, completion.
//! The host performs each requested action (the outside work: filesystem,
//! network, observer delivery, and a call to the extractor) and feeds the
//! result back as the next event; every decision is taken here.

use vstd::prelude::*;
use crate::errors::ProvisionError;

verus! {

broadcast use vstd::string::to_string_from_display_ensures_for_str;

/// The host platform, as identified by the surrounding environment.
#[derive(Clone, Copy, Debug, PartialEq, Eq, Structural)]
pub enum Platform {
    Windows,
    MacOs,
    Linux,
}

/// The stages of progress that one run reports, in their canonical order.
#[derive(Clone, Copy, Debug, PartialEq, Eq, Structural)]
pub enum Stage {
    Downloading,
    Extracting,
    Complete,
}

/// The terminal outcome of one provisioning run.
#[derive(Clone, Copy, Debug, PartialEq, Eq, Structural)]
pub enum FinalOutcome {
    /// The destination executable already existed; nothing was fetched.
    AlreadyPresent,
    /// The target was extracted and committed to the destination.
    Provisioned,
    /// The run failed with the given error; `Complete` was never reported.
    Failed(ProvisionError),
}

/// What the extractor reported, as the host hands it back to the machine.
#[derive(Clone, Copy, Debug, PartialEq, Eq, Structural)]
pub enum ExtractSignal {
    Found,
    NotFound,
    Failed(ProvisionError),
}

/// The states of one provisioning run. Each non-terminal state waits for
/// the result of exactly one requested action.
#[derive(Clone, Copy, Debug, PartialEq, Eq)]
pub enum ProvisionState {
    Idle,
    AwaitPresence,
    AwaitDownloadEmit,
    AwaitFetch,
    AwaitStore,
    AwaitExtractEmit,
    AwaitExtract,
    AwaitCommit,
    /// Deleting the temporary archive; holds the error to surface afterwards
    /// (cleanup must not mask it), or nothing on the success path.
    AwaitCleanup(Option<ProvisionError>),
    AwaitCompleteEmit,
    Finished(FinalOutcome),
}

/// The result of the action a state was waiting for.
#[derive(Clone, Copy, Debug, PartialEq, Eq)]
pub enum ProvisionEvent {
    Begin,
    /// Whether the destination executable already exists.
    Presence(bool),
    /// Whether the progress notification was delivered.
    EmitResult(bool),
    /// Whether the archive bytes were fetched.
    FetchResult(bool),
    /// Whether the temporary archive file was written.
    StoreResult(bool),
    /// What the extractor reported.
    ExtractResult(ExtractSignal),
    /// Whether the destination was committed (written and made executable).
    CommitResult(bool),
    /// Whether the temporary archive file was removed.
    RemoveResult(bool),
}

/// The next piece of outside work the host is asked to perform.
#[derive(Clone, Copy, Debug, PartialEq, Eq)]
pub enum ProvisionAction {
    CheckPresence,
    Emit(Stage),
    Fetch,
    StoreArchive,
    Extract,
    CommitDestination,
    RemoveArchive,
    Finish(FinalOutcome),
}

/// Whether an event is the answer that a state is waiting for.
pub open spec fn event_fits(s: ProvisionState, e: ProvisionEvent) -> bool {
    match s {
        ProvisionState::Idle => e is Begin,
        ProvisionState::AwaitPresence => e is Presence,
        ProvisionState::AwaitDownloadEmit => e is EmitResult,
        ProvisionState::AwaitFetch => e is FetchResult,
        ProvisionState::AwaitStore => e is StoreResult,
        ProvisionState::AwaitExtractEmit => e is EmitResult,
        ProvisionState::AwaitExtract => e is ExtractResult,
        ProvisionState::AwaitCommit => e is CommitResult,
        ProvisionState::AwaitCleanup(_) => e is RemoveResult,
        ProvisionState::AwaitCompleteEmit => e is EmitResult,
        ProvisionState::Finished(_) => false,
    }
}

/// The transition table of one provisioning run: from a state and the event
/// it was waiting for, the next state and the next requested action.
pub open spec fn spec_step(s: ProvisionState, e: ProvisionEvent) -> (ProvisionState, ProvisionAction)
    recommends
        event_fits(s, e),
{
    match (s, e) {
        (ProvisionState::Idle, ProvisionEvent::Begin) => (
            ProvisionState::AwaitPresence,
            ProvisionAction::CheckPresence,
        ),
        (ProvisionState::AwaitPresence, ProvisionEvent::Presence(true)) => (
            ProvisionState::Finished(FinalOutcome::AlreadyPresent),
            ProvisionAction::Finish(FinalOutcome::AlreadyPresent),
        ),
        (ProvisionState::AwaitPresence, ProvisionEvent::Presence(false)) => (
            ProvisionState::AwaitDownloadEmit,
            ProvisionAction::Emit(Stage::Downloading),
        ),
        (ProvisionState::AwaitDownloadEmit, ProvisionEvent::EmitResult(true)) => (
            ProvisionState::AwaitFetch,
            ProvisionAction::Fetch,
        ),
        (ProvisionState::AwaitDownloadEmit, ProvisionEvent::EmitResult(false)) => (
            ProvisionState::Finished(FinalOutcome::Failed(ProvisionError::ObserverDeliveryFailed)),
            ProvisionAction::Finish(FinalOutcome::Failed(ProvisionError::ObserverDeliveryFailed)),
        ),
        (ProvisionState::AwaitFetch, ProvisionEvent::FetchResult(true)) => (
            ProvisionState::AwaitStore,
            ProvisionAction::StoreArchive,
        ),
        (ProvisionState::AwaitFetch, ProvisionEvent::FetchResult(false)) => (
            ProvisionState::Finished(FinalOutcome::Failed(ProvisionError::IoError)),
            ProvisionAction::Finish(FinalOutcome::Failed(ProvisionError::IoError)),
        ),
        (ProvisionState::AwaitStore, ProvisionEvent::StoreResult(true)) => (
            ProvisionState::AwaitExtractEmit,
            ProvisionAction::Emit(Stage::Extracting),
        ),
        (ProvisionState::AwaitStore, ProvisionEvent::StoreResult(false)) => (
            ProvisionState::AwaitCleanup(Some(ProvisionError::IoError)),
            ProvisionAction::RemoveArchive,
        ),
        (ProvisionState::AwaitExtractEmit, ProvisionEvent::EmitResult(true)) => (
            ProvisionState::AwaitExtract,
            ProvisionAction::Extract,
        ),
        (ProvisionState::AwaitExtractEmit, ProvisionEvent::EmitResult(false)) => (
            ProvisionState::AwaitCleanup(Some(ProvisionError::ObserverDeliveryFailed)),
            ProvisionAction::RemoveArchive,
        ),
        (ProvisionState::AwaitExtract, ProvisionEvent::ExtractResult(ExtractSignal::Found)) => (
            ProvisionState::AwaitCommit,
            ProvisionAction::CommitDestination,
        ),
        (ProvisionState::AwaitExtract, ProvisionEvent::ExtractResult(ExtractSignal::NotFound)) => (
            ProvisionState::AwaitCleanup(Some(ProvisionError::TargetNotFoundInArchive)),
            ProvisionAction::RemoveArchive,
        ),
        (ProvisionState::AwaitExtract, ProvisionEvent::ExtractResult(ExtractSignal::Failed(err))) => (
            ProvisionState::AwaitCleanup(Some(err)),
            ProvisionAction::RemoveArchive,
        ),
        (ProvisionState::AwaitCommit, ProvisionEvent::CommitResult(true)) => (
            ProvisionState::AwaitCleanup(None),
            ProvisionAction::RemoveArchive,
        ),
        (ProvisionState::AwaitCommit, ProvisionEvent::CommitResult(false)) => (
            ProvisionState::AwaitCleanup(Some(ProvisionError::IoError)),
            ProvisionAction::RemoveArchive,
        ),
        (ProvisionState::AwaitCleanup(Some(err)), ProvisionEvent::RemoveResult(_)) => (
            ProvisionState::Finished(FinalOutcome::Failed(err)),
            ProvisionAction::Finish(FinalOutcome::Failed(err)),
        ),
        (ProvisionState::AwaitCleanup(None), ProvisionEvent::RemoveResult(true)) => (
            ProvisionState::AwaitCompleteEmit,
            ProvisionAction::Emit(Stage::Complete),
        ),
        (ProvisionState::AwaitCleanup(None), ProvisionEvent::RemoveResult(false)) => (
            ProvisionState::Finished(FinalOutcome::Failed(ProvisionError::IoError)),
            ProvisionAction::Finish(FinalOutcome::Failed(ProvisionError::IoError)),
        ),
        (ProvisionState::AwaitCompleteEmit, ProvisionEvent::EmitResult(true)) => (
            ProvisionState::Finished(FinalOutcome::Provisioned),
            ProvisionAction::Finish(FinalOutcome::Provisioned),
        ),
        (ProvisionState::AwaitCompleteEmit, ProvisionEvent::EmitResult(false)) => (
            ProvisionState::Finished(FinalOutcome::Failed(ProvisionError::ObserverDeliveryFailed)),
            ProvisionAction::Finish(FinalOutcome::Failed(ProvisionError::ObserverDeliveryFailed)),
        ),
        _ => (
            ProvisionState::Finished(FinalOutcome::Failed(ProvisionError::IoError)),
            ProvisionAction::Finish(FinalOutcome::Failed(ProvisionError::IoError)),
        ),
    }
}

/// Take one transition of the provisioning machine.
pub fn provision_step(s: ProvisionState, e: ProvisionEvent) -> (r: (ProvisionState, ProvisionAction))
    requires
        event_fits(s, e),
    ensures
        r == spec_step(s, e),
{
    match (s, e) {
        (ProvisionState::Idle, ProvisionEvent::Begin) => (
            ProvisionState::AwaitPresence,
            ProvisionAction::CheckPresence,
        ),
        (ProvisionState::AwaitPresence, ProvisionEvent::Presence(true)) => (
            ProvisionState::Finished(FinalOutcome::AlreadyPresent),
            ProvisionAction::Finish(FinalOutcome::AlreadyPresent),
        ),
        (ProvisionState::AwaitPresence, ProvisionEvent::Presence(false)) => (
            ProvisionState::AwaitDownloadEmit,
            ProvisionAction::Emit(Stage::Downloading),
        ),
        (ProvisionState::AwaitDownloadEmit, ProvisionEvent::EmitResult(true)) => (
            ProvisionState::AwaitFetch,
            ProvisionAction::Fetch,
        ),
        (ProvisionState::AwaitDownloadEmit, ProvisionEvent::EmitResult(false)) => (
            ProvisionState::Finished(FinalOutcome::Failed(ProvisionError::ObserverDeliveryFailed)),
            ProvisionAction::Finish(FinalOutcome::Failed(ProvisionError::ObserverDeliveryFailed)),
        ),
        (ProvisionState::AwaitFetch, ProvisionEvent::FetchResult(true)) => (
            ProvisionState::AwaitStore,
            ProvisionAction::StoreArchive,
        ),
        (ProvisionState::AwaitFetch, ProvisionEvent::FetchResult(false)) => (
            ProvisionState::Finished(FinalOutcome::Failed(ProvisionError::IoError)),
            ProvisionAction::Finish(FinalOutcome::Failed(ProvisionError::IoError)),
        ),
        (ProvisionState::AwaitStore, ProvisionEvent::StoreResult(true)) => (
            ProvisionState::AwaitExtractEmit,
            ProvisionAction::Emit(Stage::Extracting),
        ),
        (ProvisionState::AwaitStore, ProvisionEvent::StoreResult(false)) => (
            ProvisionState::AwaitCleanup(Some(ProvisionError::IoError)),
            ProvisionAction::RemoveArchive,
        ),
        (ProvisionState::AwaitExtractEmit, ProvisionEvent::EmitResult(true)) => (
            ProvisionState::AwaitExtract,
            ProvisionAction::Extract,
        ),
        (ProvisionState::AwaitExtractEmit, ProvisionEvent::EmitResult(false)) => (
            ProvisionState::AwaitCleanup(Some(ProvisionError::ObserverDeliveryFailed)),
            ProvisionAction::RemoveArchive,
        ),
        (ProvisionState::AwaitExtract, ProvisionEvent::ExtractResult(ExtractSignal::Found)) => (
            ProvisionState::AwaitCommit,
            ProvisionAction::CommitDestination,
        ),
        (ProvisionState::AwaitExtract, ProvisionEvent::ExtractResult(ExtractSignal::NotFound)) => (
            ProvisionState::AwaitCleanup(Some(ProvisionError::TargetNotFoundInArchive)),
            ProvisionAction::RemoveArchive,
        ),
        (ProvisionState::AwaitExtract, ProvisionEvent::ExtractResult(ExtractSignal::Failed(err))) => (
            ProvisionState::AwaitCleanup(Some(err)),
            ProvisionAction::RemoveArchive,
        ),
        (ProvisionState::AwaitCommit, ProvisionEvent::CommitResult(true)) => (
            ProvisionState::AwaitCleanup(None),
            ProvisionAction::RemoveArchive,
        ),
        (ProvisionState::AwaitCommit, ProvisionEvent::CommitResult(false)) => (
            ProvisionState::AwaitCleanup(Some(ProvisionError::IoError)),
            ProvisionAction::RemoveArchive,
        ),
        (ProvisionState::AwaitCleanup(Some(err)), ProvisionEvent::RemoveResult(_)) => (
            ProvisionState::Finished(FinalOutcome::Failed(err)),
            ProvisionAction::Finish(FinalOutcome::Failed(err)),
        ),
        (ProvisionState::AwaitCleanup(None), ProvisionEvent::RemoveResult(true)) => (
            ProvisionState::AwaitCompleteEmit,
            ProvisionAction::Emit(Stage::Complete),
        ),
        (ProvisionState::AwaitCleanup(None), ProvisionEvent::RemoveResult(false)) => (
            ProvisionState::Finished(FinalOutcome::Failed(ProvisionError::IoError)),
            ProvisionAction::Finish(FinalOutcome::Failed(ProvisionError::IoError)),
        ),
        (ProvisionState::AwaitCompleteEmit, ProvisionEvent::EmitResult(true)) => (
            ProvisionState::Finished(FinalOutcome::Provisioned),
            ProvisionAction::Finish(FinalOutcome::Provisioned),
        ),
        (ProvisionState::AwaitCompleteEmit, ProvisionEvent::EmitResult(false)) => (
            ProvisionState::Finished(FinalOutcome::Failed(ProvisionError::ObserverDeliveryFailed)),
            ProvisionAction::Finish(FinalOutcome::Failed(ProvisionError::ObserverDeliveryFailed)),
        ),
        _ => (
            ProvisionState::Finished(FinalOutcome::Failed(ProvisionError::IoError)),
            ProvisionAction::Finish(FinalOutcome::Failed(ProvisionError::IoError)),
        ),
    }
}

/// The progress stages that one action reports: one for an emission, none
/// for anything else.
pub open spec fn emits_of(a: ProvisionAction) -> Seq<Stage> {
    match a {
        ProvisionAction::Emit(st) => seq![st],
        _ => Seq::<Stage>::empty(),
    }
}

/// The state after feeding a sequence of events, one transition each,
/// stopping early at an event the current state is not waiting for.
pub open spec fn run_state(s: ProvisionState, evs: Seq<ProvisionEvent>) -> ProvisionState
    decreases evs.len(),
{
    if evs.len() == 0 || !event_fits(s, evs[0]) {
        s
    } else {
        run_state(spec_step(s, evs[0]).0, evs.drop_first())
    }
}

/// All progress stages reported along such a run, in order.
pub open spec fn run_emits(s: ProvisionState, evs: Seq<ProvisionEvent>) -> Seq<Stage>
    decreases evs.len(),
{
    if evs.len() == 0 || !event_fits(s, evs[0]) {
        Seq::<Stage>::empty()
    } else {
        emits_of(spec_step(s, evs[0]).1) + run_emits(spec_step(s, evs[0]).0, evs.drop_first())
    }
}

/// All actions requested along such a run, in order.
pub open spec fn run_actions(s: ProvisionState, evs: Seq<ProvisionEvent>) -> Seq<ProvisionAction>
    decreases evs.len(),
{
    if evs.len() == 0 || !event_fits(s, evs[0]) {
        Seq::<ProvisionAction>::empty()
    } else {
        seq![spec_step(s, evs[0]).1] + run_actions(spec_step(s, evs[0]).0, evs.drop_first())
    }
}

/// Whether a stage sequence is a prefix of the canonical order
/// downloading, extracting, complete.
pub open spec fn stage_prefix(emits: Seq<Stage>) -> bool {
    ||| emits == Seq::<Stage>::empty()
    ||| emits == seq![Stage::Downloading]
    ||| emits == seq![Stage::Downloading, Stage::Extracting]
    ||| emits == seq![Stage::Downloading, Stage::Extracting, Stage::Complete]
}

/// The failure kinds that can only arise from the extraction step itself.
pub open spec fn is_extraction_failure(e: ProvisionError) -> bool {
    ||| e is UnsupportedFormat
    ||| e is CorruptArchive
    ||| e is DecompressionFailed
    ||| e is TargetNotFoundInArchive
}

/// What each reachable state says about the stages reported so far.
pub open spec fn emitted_so_far(s: ProvisionState, emits: Seq<Stage>) -> bool {
    match s {
        ProvisionState::Idle => emits == Seq::<Stage>::empty(),
        ProvisionState::AwaitPresence => emits == Seq::<Stage>::empty(),
        ProvisionState::AwaitDownloadEmit => emits == seq![Stage::Downloading],
        ProvisionState::AwaitFetch => emits == seq![Stage::Downloading],
        ProvisionState::AwaitStore => emits == seq![Stage::Downloading],
        ProvisionState::AwaitExtractEmit => emits == seq![Stage::Downloading, Stage::Extracting],
        ProvisionState::AwaitExtract => emits == seq![Stage::Downloading, Stage::Extracting],
        ProvisionState::AwaitCommit => emits == seq![Stage::Downloading, Stage::Extracting],
        ProvisionState::AwaitCleanup(None) => emits == seq![Stage::Downloading, Stage::Extracting],
        ProvisionState::AwaitCleanup(Some(err)) => {
            &&& (emits == seq![Stage::Downloading] || emits == seq![
                Stage::Downloading,
                Stage::Extracting,
            ])
            &&& (is_extraction_failure(err) ==> emits == seq![Stage::Downloading, Stage::Extracting])
        },
        ProvisionState::AwaitCompleteEmit => emits == seq![
            Stage::Downloading,
            Stage::Extracting,
            Stage::Complete,
        ],
        ProvisionState::Finished(FinalOutcome::AlreadyPresent) => emits == Seq::<Stage>::empty(),
        ProvisionState::Finished(FinalOutcome::Provisioned) => emits == seq![
            Stage::Downloading,
            Stage::Extracting,
            Stage::Complete,
        ],
        ProvisionState::Finished(FinalOutcome::Failed(err)) => {
            &&& stage_prefix(emits)
            &&& (is_extraction_failure(err) ==> emits == seq![Stage::Downloading, Stage::Extracting])
        },
    }
}

/// One transition preserves the account of reported stages.
proof fn lemma_step_preserves(s: ProvisionState, e: ProvisionEvent, emits: Seq<Stage>)
    requires
        event_fits(s, e),
        emitted_so_far(s, emits),
    ensures
        emitted_so_far(spec_step(s, e).0, emits + emits_of(spec_step(s, e).1)),
{
    assert(emits + Seq::<Stage>::empty() =~= emits);
    assert(Seq::<Stage>::empty() + seq![Stage::Downloading] =~= seq![Stage::Downloading]);
    assert(seq![Stage::Downloading] + seq![Stage::Extracting] =~= seq![
        Stage::Downloading,
        Stage::Extracting,
    ]);
    assert(seq![Stage::Downloading, Stage::Extracting] + seq![Stage::Complete] =~= seq![
        Stage::Downloading,
        Stage::Extracting,
        Stage::Complete,
    ]);
}

/// The account of reported stages holds along every run.
proof fn lemma_run_invariant(s: ProvisionState, emits: Seq<Stage>, evs: Seq<ProvisionEvent>)
    requires
        emitted_so_far(s, emits),
    ensures
        emitted_so_far(run_state(s, evs), emits + run_emits(s, evs)),
    decreases evs.len(),
{
    if evs.len() == 0 || !event_fits(s, evs[0]) {
        assert(emits + run_emits(s, evs) =~= emits);
    } else {
        let s2 = spec_step(s, evs[0]).0;
        let a = spec_step(s, evs[0]).1;
        lemma_step_preserves(s, evs[0], emits);
        lemma_run_invariant(s2, emits + emits_of(a), evs.drop_first());
        assert(emits + run_emits(s, evs) =~= (emits + emits_of(a)) + run_emits(
            s2,
            evs.drop_first(),
        ));
    }
}

/// Progress ordering law. Along any run of the machine from idle, the
/// reported stages form a prefix of the canonical order downloading,
/// extracting, complete; a run finished as provisioned reported all three
/// in that order; a run that failed in extraction itself (unsupported
/// format, corrupt archive, failed decompression, or target not found)
/// reported exactly downloading then extracting and nothing further; and a
/// run that found the destination already present reported nothing.
pub proof fn lemma_progress_order(evs: Seq<ProvisionEvent>)
    ensures
        stage_prefix(run_emits(ProvisionState::Idle, evs)),
        run_state(ProvisionState::Idle, evs) == ProvisionState::Finished(FinalOutcome::Provisioned)
            ==> run_emits(ProvisionState::Idle, evs) == seq![
            Stage::Downloading,
            Stage::Extracting,
            Stage::Complete,
        ],
        forall|err: ProvisionError|
            run_state(ProvisionState::Idle, evs) == ProvisionState::Finished(
                FinalOutcome::Failed(err),
            ) && is_extraction_failure(err) ==> run_emits(ProvisionState::Idle, evs) == seq![
                Stage::Downloading,
                Stage::Extracting,
            ],
        run_state(ProvisionState::Idle, evs) == ProvisionState::Finished(
            FinalOutcome::AlreadyPresent,
        ) ==> run_emits(ProvisionState::Idle, evs) == Seq::<Stage>::empty(),
{
    let emits = run_emits(ProvisionState::Idle, evs);
    lemma_run_invariant(ProvisionState::Idle, Seq::<Stage>::empty(), evs);
    assert(Seq::<Stage>::empty() + emits =~= emits);
}

/// Idempotence law. When the presence check reports that the destination
/// already exists, the run finishes at once as already present: the only
/// actions ever requested are the presence check and the final report — in
/// particular no fetch, no extraction and no write — and no progress stage
/// is reported.
pub proof fn lemma_already_present_short_circuit(evs: Seq<ProvisionEvent>)
    requires
        evs.len() >= 2,
        evs[0] == ProvisionEvent::Begin,
        evs[1] == ProvisionEvent::Presence(true),
    ensures
        run_state(ProvisionState::Idle, evs) == ProvisionState::Finished(
            FinalOutcome::AlreadyPresent,
        ),
        run_emits(ProvisionState::Idle, evs) == Seq::<Stage>::empty(),
        run_actions(ProvisionState::Idle, evs) == seq![
            ProvisionAction::CheckPresence,
            ProvisionAction::Finish(FinalOutcome::AlreadyPresent),
        ],
{
    reveal_with_fuel(run_state, 4);
    reveal_with_fuel(run_emits, 4);
    reveal_with_fuel(run_actions, 4);
    let d1 = evs.drop_first();
    let d2 = d1.drop_first();
    assert(d1[0] == evs[1]);
    assert(run_state(ProvisionState::Idle, evs) == run_state(ProvisionState::AwaitPresence, d1));
    assert(run_state(ProvisionState::AwaitPresence, d1) == run_state(
        ProvisionState::Finished(FinalOutcome::AlreadyPresent),
        d2,
    ));
    assert(run_emits(ProvisionState::Idle, evs) =~= Seq::<Stage>::empty());
    assert(run_actions(ProvisionState::Idle, evs) =~= seq![
        ProvisionAction::CheckPresence,
        ProvisionAction::Finish(FinalOutcome::AlreadyPresent),
    ]);
}

/// Atomicity law, machine part. The destination is committed only after the
/// extractor has reported the target found: no other state and event ever
/// request the commit action. (The commit itself is performed by the host
/// through a temporary file and rename, so a failure part-way leaves no
/// destination file observable.)
pub proof fn lemma_commit_only_after_found(s: ProvisionState, e: ProvisionEvent)
    requires
        event_fits(s, e),
    ensures
        spec_step(s, e).1 == ProvisionAction::CommitDestination ==> s
            == ProvisionState::AwaitExtract && e == ProvisionEvent::ExtractResult(
            ExtractSignal::Found,
        ),
{
}

/// The status message reported for a finished run: a fixed wording for the
/// two successful outcomes, the error's own rendering otherwise.
pub open spec fn spec_status_message(o: FinalOutcome) -> Seq<char> {
    match o {
        FinalOutcome::AlreadyPresent => "FFmpeg already downloaded"@,
        FinalOutcome::Provisioned => "FFmpeg downloaded successfully"@,
        FinalOutcome::Failed(e) => crate::errors::spec_provision_error_message(e),
    }
}

impl FinalOutcome {
    /// The status message of this outcome.
    pub fn status_message(&self) -> (r: &'static str)
        ensures
            r@ == spec_status_message(*self),
    {
        match self {
            FinalOutcome::AlreadyPresent => "FFmpeg already downloaded",
            FinalOutcome::Provisioned => "FFmpeg downloaded successfully",
            FinalOutcome::Failed(e) => e.message(),
        }
    }
}

/// The status label reported with each stage.
pub open spec fn spec_stage_label(s: Stage) -> Seq<char> {
    match s {
        Stage::Downloading => "downloading"@,
        Stage::Extracting => "extracting"@,
        Stage::Complete => "complete"@,
    }
}

/// The human-readable message reported with each stage.
pub open spec fn spec_stage_message(s: Stage) -> Seq<char> {
    match s {
        Stage::Downloading => "Downloading FFmpeg..."@,
        Stage::Extracting => "Extracting FFmpeg..."@,
        Stage::Complete => "FFmpeg downloaded successfully!"@,
    }
}

impl Stage {
    /// The machine-readable status label of this stage.
    pub fn label(&self) -> (r: &'static str)
        ensures
            r@ == spec_stage_label(*self),
    {
        match self {
            Stage::Downloading => "downloading",
            Stage::Extracting => "extracting",
            Stage::Complete => "complete",
        }
    }

    /// The human-readable message of this stage.
    pub fn message(&self) -> (r: &'static str)
        ensures
            r@ == spec_stage_message(*self),
    {
        match self {
            Stage::Downloading => "Downloading FFmpeg...",
            Stage::Extracting => "Extracting FFmpeg...",
            Stage::Complete => "FFmpeg downloaded successfully!",
        }
    }
}

/// An immutable progress record: a stage and its human-readable message.
/// Emitted to the observer, never stored.
#[derive(Debug)]
pub struct ProgressEvent {
    pub stage: Stage,
    pub message: String,
}

/// Build the progress record that one emission action reports.
pub fn progress_event(stage: Stage) -> (r: ProgressEvent)
    ensures
        r.stage == stage,
        r.message@ == spec_stage_message(stage),
{
    ProgressEvent { stage, message: stage.message().to_string() }
}

/// The platform-qualified filename of the target executable: the bytes of
/// "ffmpeg", with ".exe" appended on Windows.
pub open spec fn spec_target_name(p: Platform) -> Seq<u8> {
    if p is Windows {
        seq![102u8, 102u8, 109u8, 112u8, 101u8, 103u8, 46u8, 101u8, 120u8, 101u8]
    } else {
        seq![102u8, 102u8, 109u8, 112u8, 101u8, 103u8]
    }
}

/// The target filename to search for and to write, for the given platform.
pub fn target_name(platform: Platform) -> (r: Vec<u8>)
    ensures
        r@ == spec_target_name(platform),
{
    let r: Vec<u8> = match platform {
        Platform::Windows => vec![
            102u8,
            102u8,
            109u8,
            112u8,
            101u8,
            103u8,
            46u8,
            101u8,
            120u8,
            101u8,
        ],
        _ => vec![102u8, 102u8, 109u8, 112u8, 101u8, 103u8],
    };
    proof {
        assert(r@ =~= spec_target_name(platform));
    }
    r
}

/// The download source table: for each host platform, the archive URL, the
/// local filename the archive is saved under, and whether that archive is a
/// zip container (otherwise it is an xz-compressed tar). A configuration
/// table, not an algorithm; it never fails.
pub fn get_ffmpeg_download_info(platform: Platform) -> (r: Result<
    (String, String, bool),
    ProvisionError,
>)
    ensures
        r is Ok,
        platform is Windows ==> (r matches Ok(info)
            && info.0@ == "https://github.com/BtbN/FFmpeg-Builds/releases/latest/download/ffmpeg-master-latest-win64-gpl.zip"@
            && info.1@ == "ffmpeg-windows.zip"@ && info.2 == true),
        platform is MacOs ==> (r matches Ok(info) && info.0@
            == "https://evermeet.cx/ffmpeg/getrelease/zip"@ && info.1@ == "ffmpeg-macos.zip"@
            && info.2 == true),
        platform is Linux ==> (r matches Ok(info)
            && info.0@ == "https://github.com/BtbN/FFmpeg-Builds/releases/latest/download/ffmpeg-master-latest-linux64-gpl.tar.xz"@
            && info.1@ == "ffmpeg-linux.tar.xz"@ && info.2 == false),
{
    match platform {
        Platform::Windows => Ok(
            (
                "https://github.com/BtbN/FFmpeg-Builds/releases/latest/download/ffmpeg-master-latest-win64-gpl.zip".to_string(),
                "ffmpeg-windows.zip".to_string(),
                true,
            ),
        ),
        Platform::MacOs => Ok(
            (
                "https://evermeet.cx/ffmpeg/getrelease/zip".to_string(),
                "ffmpeg-macos.zip".to_string(),
                true,
            ),
        ),
        Platform::Linux => Ok(
            (
                "https://github.com/BtbN/FFmpeg-Builds/releases/latest/download/ffmpeg-master-latest-linux64-gpl.tar.xz".to_string(),
                "ffmpeg-linux.tar.xz".to_string(),
                false,
            ),
        ),
    }
}

} // verus!
