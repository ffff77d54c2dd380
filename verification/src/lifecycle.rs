//! The effect-free decisions of the lifecycle actions: which checks refuse
//! a request, and which durable or process effect comes next.

use vstd::prelude::*;

use crate::actions::{ActionError, RuntimeProbe, RuntimeRecord, runtime_matches_record, matches_recorded_runtime};
use crate::cutover::{paths_same, same_path};
use crate::domain::{ProviderKind, Revision, RuntimeStatus, WorkstreamLifecycle};
use crate::ids::WorkstreamId;

verus! {

/// The short label a Runtime status is shown with: an attention Runtime is
/// idle and a stopped one is parked.
pub open spec fn runtime_status_text(status: RuntimeStatus) -> Seq<char> {
    match status {
        RuntimeStatus::Starting => "starting"@,
        RuntimeStatus::Idle | RuntimeStatus::Attention => "idle"@,
        RuntimeStatus::Working => "working"@,
        RuntimeStatus::Stopped => "parked"@,
        RuntimeStatus::Unknown => "unknown"@,
        RuntimeStatus::Unreachable => "unreachable"@,
    }
}

/// The label a Runtime status is shown with.
pub fn runtime_status_label(status: RuntimeStatus) -> (r: &'static str)
    ensures
        r@ == runtime_status_text(status),
{
    proof {
        reveal_strlit("starting");
        reveal_strlit("idle");
        reveal_strlit("working");
        reveal_strlit("parked");
        reveal_strlit("unknown");
        reveal_strlit("unreachable");
    }
    match status {
        RuntimeStatus::Starting => "starting",
        RuntimeStatus::Idle | RuntimeStatus::Attention => "idle",
        RuntimeStatus::Working => "working",
        RuntimeStatus::Stopped => "parked",
        RuntimeStatus::Unknown => "unknown",
        RuntimeStatus::Unreachable => "unreachable",
    }
}

/// The catalog row of one Workstream as the lifecycle actions read it.
#[derive(Clone, Debug, PartialEq, Eq)]
pub struct WorkstreamOverview {
    pub workstream_id: WorkstreamId,
    pub provider: ProviderKind,
    pub lifecycle: WorkstreamLifecycle,
    pub archived_at_millis: Option<i64>,
    pub revision: Revision,
    pub runtime: Option<RuntimeRecord>,
}

/// An expected revision, when one is supplied, must be the current one.
pub fn ensure_revision(current: Revision, expected: Option<Revision>) -> (r: Result<(), ActionError>)
    ensures
        r == (match expected {
            Some(e) => if e == current {
                Ok::<(), ActionError>(())
            } else {
                Err(ActionError::WorkstreamRevisionConflict)
            },
            None => Ok(()),
        }),
{
    match expected {
        Some(e) => if e == current {
            Ok(())
        } else {
            Err(ActionError::WorkstreamRevisionConflict)
        },
        None => Ok(()),
    }
}

/// Whether an action reads the catalog for active Workstreams only, or
/// also for archived ones (the cleanup paths of archive and recovery).
#[derive(Clone, Copy, Debug, PartialEq, Eq, Structural)]
pub enum CatalogAuthorization {
    ActiveOnly,
    ArchivedAllowed,
}

/// The refusal of a park before its probe: an archived Workstream when only
/// active ones are authorized, or another revision than the expected one.
pub open spec fn park_refusal(
    overview: WorkstreamOverview,
    expected: Option<Revision>,
    authorization: CatalogAuthorization,
) -> Option<ActionError> {
    if authorization == CatalogAuthorization::ActiveOnly && overview.archived_at_millis is Some {
        Some(ActionError::WorkstreamArchived)
    } else if expected matches Some(e) && e != overview.revision {
        Some(ActionError::WorkstreamRevisionConflict)
    } else {
        None
    }
}

/// Refuses a park of an archived Workstream under active-only authority, or
/// of a stale revision.
pub fn park_gate(
    overview: &WorkstreamOverview,
    expected: Option<Revision>,
    authorization: CatalogAuthorization,
) -> (r: Result<(), ActionError>)
    ensures
        r == (match park_refusal(*overview, expected, authorization) {
            Some(e) => Err(e),
            None => Ok::<(), ActionError>(()),
        }),
{
    if authorization == CatalogAuthorization::ActiveOnly && overview.archived_at_millis.is_some() {
        return Err(ActionError::WorkstreamArchived);
    }
    ensure_revision(overview.revision, expected)
}

/// A restore applies only to the expected revision of the Workstream.
pub fn restore_gate(overview: &WorkstreamOverview, expected: Revision) -> (r: Result<(), ActionError>)
    ensures
        r == (if expected == overview.revision {
            Ok::<(), ActionError>(())
        } else {
            Err(ActionError::WorkstreamRevisionConflict)
        }),
{
    ensure_revision(overview.revision, Some(expected))
}

/// Only Codex supports the Codex-only actions.
pub fn require_codex_provider(provider: ProviderKind) -> (r: Result<(), ActionError>)
    ensures
        r == (if provider == ProviderKind::Codex {
            Ok::<(), ActionError>(())
        } else {
            Err(ActionError::UnsupportedProvider(provider))
        }),
{
    if provider == ProviderKind::Codex {
        Ok(())
    } else {
        Err(ActionError::UnsupportedProvider(provider))
    }
}

/// Why a start is refused before any provider or observer effect.
pub open spec fn start_refusal(overview: WorkstreamOverview, expected: Option<Revision>) -> Option<ActionError> {
    if overview.archived_at_millis is Some {
        Some(ActionError::WorkstreamArchived)
    } else if expected matches Some(e) && e != overview.revision {
        Some(ActionError::WorkstreamRevisionConflict)
    } else if overview.lifecycle == WorkstreamLifecycle::RecoveryRequired {
        Some(
            match overview.provider {
                ProviderKind::Codex => ActionError::NativeRecoveryRequired,
                ProviderKind::OpenCode => ActionError::ProviderRecoveryUnavailable(
                    ProviderKind::OpenCode,
                ),
            },
        )
    } else {
        None
    }
}

/// Refuses a start of an archived, stale or recovery-required Workstream.
pub fn start_gate(overview: &WorkstreamOverview, expected: Option<Revision>) -> (r: Result<(), ActionError>)
    ensures
        start_refusal(*overview, expected) matches Some(e) ==> r == Err::<(), ActionError>(e),
        start_refusal(*overview, expected) is None ==> r is Ok,
{
    if overview.archived_at_millis.is_some() {
        return Err(ActionError::WorkstreamArchived);
    }
    if ensure_revision(overview.revision, expected).is_err() {
        return Err(ActionError::WorkstreamRevisionConflict);
    }
    if overview.lifecycle == WorkstreamLifecycle::RecoveryRequired {
        return Err(
            match overview.provider {
                ProviderKind::Codex => ActionError::NativeRecoveryRequired,
                ProviderKind::OpenCode => ActionError::ProviderRecoveryUnavailable(
                    ProviderKind::OpenCode,
                ),
            },
        );
    }
    Ok(())
}

/// What a start does with the Workstream's previous Runtime.
#[derive(Clone, Copy, Debug, PartialEq, Eq, Structural)]
pub enum PriorRuntimeStep {
    /// The recorded provider is exactly live; nothing is started.
    AlreadyLive,
    /// The private Runtime is gone after a launch; it must be recovered.
    MarkRecoveryRequired,
    /// The private Runtime is gone before a launch; record it stopped, then start.
    MarkStoppedThenStart,
    /// The private Runtime is gone and already stopped; start.
    Start,
}

/// How a probe of the previous Runtime decides a start: exact live means
/// already live; a missing pane after a recorded launch needs recovery; a
/// missing pane otherwise is stopped; any other observation is ambiguous.
pub open spec fn prior_runtime_step_of(record: RuntimeRecord, probe: RuntimeProbe) -> Result<
    PriorRuntimeStep,
    ActionError,
> {
    if runtime_matches_record(record, probe, false) {
        Ok(PriorRuntimeStep::AlreadyLive)
    } else if probe is Missing {
        if record.process_birth is Some && record.status != RuntimeStatus::Stopped {
            Ok(PriorRuntimeStep::MarkRecoveryRequired)
        } else if record.status != RuntimeStatus::Stopped {
            Ok(PriorRuntimeStep::MarkStoppedThenStart)
        } else {
            Ok(PriorRuntimeStep::Start)
        }
    } else {
        Err(ActionError::RuntimeProbeAmbiguous)
    }
}

/// Decides what a start does with the previous Runtime.
pub fn prior_runtime_step(record: &RuntimeRecord, probe: &RuntimeProbe) -> (r: Result<
    PriorRuntimeStep,
    ActionError,
>)
    ensures
        r == prior_runtime_step_of(*record, *probe),
{
    if matches_recorded_runtime(record, probe, false) {
        return Ok(PriorRuntimeStep::AlreadyLive);
    }
    match probe {
        RuntimeProbe::Missing => {
            if record.process_birth.is_some() && record.status != RuntimeStatus::Stopped {
                Ok(PriorRuntimeStep::MarkRecoveryRequired)
            } else if record.status != RuntimeStatus::Stopped {
                Ok(PriorRuntimeStep::MarkStoppedThenStart)
            } else {
                Ok(PriorRuntimeStep::Start)
            }
        },
        _ => Err(ActionError::RuntimeProbeAmbiguous),
    }
}

/// An archived Workstream is never started; a start goes on only for the
/// expected revision of an active Workstream that needs no recovery.
pub proof fn lemma_start_only_active_current_unrecovered(overview: WorkstreamOverview, expected: Option<Revision>)
    ensures
        overview.archived_at_millis is Some ==> start_refusal(overview, expected) == Some(
            ActionError::WorkstreamArchived,
        ),
        start_refusal(overview, expected) is None ==> overview.archived_at_millis is None
            && overview.lifecycle != WorkstreamLifecycle::RecoveryRequired && (expected matches Some(e)
            ==> e == overview.revision),
{
}

/// Archive and forget act only on the expected revision; archive refuses an
/// archived Workstream and forget an active one; either parks a Runtime
/// first, and records itself at the expected revision only when none is
/// left to park.
pub proof fn lemma_archive_and_forget_steps(overview: WorkstreamOverview, expected: Revision)
    ensures
        archive_step_of(overview, expected) is Ok ==> overview.revision == expected
            && overview.archived_at_millis is None,
        archive_step_of(overview, expected) == Ok::<ArchiveStep, ActionError>(ArchiveStep::ParkFirst)
            ==> overview.runtime is Some && overview.lifecycle != WorkstreamLifecycle::Parked,
        archive_step_of(overview, expected) matches Ok(ArchiveStep::ArchiveAt(at)) ==> at == expected,
        overview.archived_at_millis is Some && overview.revision == expected ==> archive_step_of(
            overview,
            expected,
        ) == Err::<ArchiveStep, ActionError>(ActionError::WorkstreamAlreadyArchived),
        forget_step_of(overview, expected) is Ok ==> overview.revision == expected
            && overview.archived_at_millis is Some,
        overview.archived_at_millis is None ==> forget_step_of(overview, expected) == Err::<
            ForgetStep,
            ActionError,
        >(ActionError::WorkstreamNotArchived),
        forget_step_of(overview, expected) matches Ok(ForgetStep::ForgetAt(at)) ==> at == expected
            && overview.runtime is None,
{
}

/// A start treats the previous Runtime as already live only when its pane
/// matches the record; a pane that is neither that nor missing is ambiguous;
/// every other decision is made on a missing pane, and a pane gone after a
/// recorded launch of an unstopped Runtime needs recovery.
pub proof fn lemma_prior_runtime_step_reads_the_probe(record: RuntimeRecord, probe: RuntimeProbe)
    ensures
        prior_runtime_step_of(record, probe) == Ok::<PriorRuntimeStep, ActionError>(
            PriorRuntimeStep::AlreadyLive,
        ) <==> runtime_matches_record(record, probe, false),
        !runtime_matches_record(record, probe, false) && !(probe is Missing) ==> prior_runtime_step_of(
            record,
            probe,
        ) == Err::<PriorRuntimeStep, ActionError>(ActionError::RuntimeProbeAmbiguous),
        !runtime_matches_record(record, probe, false) && probe is Missing && record.process_birth is Some
            && record.status != RuntimeStatus::Stopped ==> prior_runtime_step_of(record, probe) == Ok::<
            PriorRuntimeStep,
            ActionError,
        >(PriorRuntimeStep::MarkRecoveryRequired),
        prior_runtime_step_of(record, probe) == Ok::<PriorRuntimeStep, ActionError>(
            PriorRuntimeStep::Start,
        ) ==> probe is Missing && record.status == RuntimeStatus::Stopped,
{
}

/// What a new OpenCode start or creation does with the Workstream's previous
/// Runtime.
#[derive(Clone, Copy, Debug, PartialEq, Eq, Structural)]
pub enum PriorOpenCodeStep {
    /// The pane matches the record; the live OpenCode ownership must be
    /// corroborated again before it counts as already live.
    ValidateLive,
    /// Mark the Runtime recovery-required, then refuse: OpenCode recovery is
    /// unavailable here.
    MarkRecoveryRequiredThenRefuse,
    /// The private Runtime is gone before a launch; record it stopped, then
    /// go on with its binding.
    MarkStoppedThenReady,
    /// The private Runtime is gone and already stopped; go on with its binding.
    Ready,
}

/// How a probe of the previous OpenCode Runtime decides: a matching pane is
/// validated as live; a missing pane whose OpenCode session creation is
/// still unresolved refuses recovery (marking the Runtime recovery-required
/// unless it is already `Unknown`); a missing pane after a recorded launch
/// is marked recovery-required and refused; a missing pane otherwise is
/// stopped; any other observation is ambiguous.
pub open spec fn prior_opencode_step_of(
    record: RuntimeRecord,
    probe: RuntimeProbe,
    unresolved_session_creation: bool,
) -> Result<PriorOpenCodeStep, ActionError> {
    if runtime_matches_record(record, probe, false) {
        Ok(PriorOpenCodeStep::ValidateLive)
    } else if probe is Missing {
        if unresolved_session_creation {
            if record.status != RuntimeStatus::Unknown {
                Ok(PriorOpenCodeStep::MarkRecoveryRequiredThenRefuse)
            } else {
                Err(ActionError::ProviderRecoveryUnavailable(ProviderKind::OpenCode))
            }
        } else if record.process_birth is Some && record.status != RuntimeStatus::Stopped {
            Ok(PriorOpenCodeStep::MarkRecoveryRequiredThenRefuse)
        } else if record.status != RuntimeStatus::Stopped {
            Ok(PriorOpenCodeStep::MarkStoppedThenReady)
        } else {
            Ok(PriorOpenCodeStep::Ready)
        }
    } else {
        Err(ActionError::RuntimeProbeAmbiguous)
    }
}

/// Decides what an OpenCode start does with the previous Runtime, given
/// whether the registry still holds an unresolved OpenCode session creation
/// for its generation.
pub fn prior_opencode_step(
    record: &RuntimeRecord,
    probe: &RuntimeProbe,
    unresolved_session_creation: bool,
) -> (r: Result<PriorOpenCodeStep, ActionError>)
    ensures
        r == prior_opencode_step_of(*record, *probe, unresolved_session_creation),
{
    if matches_recorded_runtime(record, probe, false) {
        return Ok(PriorOpenCodeStep::ValidateLive);
    }
    match probe {
        RuntimeProbe::Missing => {
            if unresolved_session_creation {
                if record.status != RuntimeStatus::Unknown {
                    Ok(PriorOpenCodeStep::MarkRecoveryRequiredThenRefuse)
                } else {
                    Err(ActionError::ProviderRecoveryUnavailable(ProviderKind::OpenCode))
                }
            } else if record.process_birth.is_some() && record.status != RuntimeStatus::Stopped {
                Ok(PriorOpenCodeStep::MarkRecoveryRequiredThenRefuse)
            } else if record.status != RuntimeStatus::Stopped {
                Ok(PriorOpenCodeStep::MarkStoppedThenReady)
            } else {
                Ok(PriorOpenCodeStep::Ready)
            }
        },
        _ => Err(ActionError::RuntimeProbeAmbiguous),
    }
}

/// Whether a previous OpenCode Runtime's observer handle is marked `Unknown`
/// before the probe is decided: its pane did not match the record but is
/// still live or unknown.
pub open spec fn prior_opencode_marks_handle_unknown(record: RuntimeRecord, probe: RuntimeProbe) -> bool {
    record.provider == ProviderKind::OpenCode && !runtime_matches_record(record, probe, false)
        && !(probe is Missing)
}

/// Decides whether the previous OpenCode Runtime's handle is marked `Unknown`.
pub fn prior_opencode_handle_unknown(record: &RuntimeRecord, probe: &RuntimeProbe) -> (r: bool)
    ensures
        r == prior_opencode_marks_handle_unknown(*record, *probe),
{
    record.provider == ProviderKind::OpenCode && !matches_recorded_runtime(record, probe, false)
        && !matches!(probe, RuntimeProbe::Missing)
}

/// An unresolved OpenCode session creation never lets a start go on past a
/// missing pane: the start is refused, with or without marking the Runtime.
pub proof fn lemma_unresolved_creation_blocks_start(record: RuntimeRecord, probe: RuntimeProbe)
    requires
        !runtime_matches_record(record, probe, false),
    ensures
        !(prior_opencode_step_of(record, probe, true) matches Ok(step) && (step
            == PriorOpenCodeStep::Ready || step == PriorOpenCodeStep::MarkStoppedThenReady)),
{
}

/// The Runtime a lifecycle action acts on: a Workstream without one has no
/// Runtime to park, recover or attach.
pub fn require_runtime(workstream_id: WorkstreamId, runtime: Option<RuntimeRecord>) -> (r: Result<
    RuntimeRecord,
    ActionError,
>)
    ensures
        r == (match runtime {
            Some(record) => Ok::<RuntimeRecord, ActionError>(record),
            None => Err(ActionError::NoRuntime(workstream_id)),
        }),
{
    match runtime {
        Some(record) => Ok(record),
        None => Err(ActionError::NoRuntime(workstream_id)),
    }
}

/// Why a recovery is refused before its observer and Runtime checks: a
/// stale revision, or a Workstream that is not recovery-required (Codex
/// answers that native recovery is unavailable, OpenCode that provider
/// recovery is).
pub open spec fn recovery_refusal(overview: WorkstreamOverview, expected: Option<Revision>) -> Option<
    ActionError,
> {
    if expected matches Some(e) && e != overview.revision {
        Some(ActionError::WorkstreamRevisionConflict)
    } else if overview.lifecycle != WorkstreamLifecycle::RecoveryRequired {
        Some(
            match overview.provider {
                ProviderKind::Codex => ActionError::NativeRecoveryUnavailable,
                ProviderKind::OpenCode => ActionError::ProviderRecoveryUnavailable(
                    ProviderKind::OpenCode,
                ),
            },
        )
    } else {
        None
    }
}

/// Refuses a recovery of a stale revision or of a Workstream that does not
/// need one.
pub fn recovery_gate(overview: &WorkstreamOverview, expected: Option<Revision>) -> (r: Result<
    (),
    ActionError,
>)
    ensures
        r == (match recovery_refusal(*overview, expected) {
            Some(e) => Err(e),
            None => Ok::<(), ActionError>(()),
        }),
{
    ensure_revision(overview.revision, expected)?;
    if overview.lifecycle != WorkstreamLifecycle::RecoveryRequired {
        return Err(
            match overview.provider {
                ProviderKind::Codex => ActionError::NativeRecoveryUnavailable,
                ProviderKind::OpenCode => ActionError::ProviderRecoveryUnavailable(
                    ProviderKind::OpenCode,
                ),
            },
        );
    }
    Ok(())
}

/// Start and recovery split the lifecycle between them: a Workstream that a
/// start refuses as recovery-required is one that a recovery accepts, and a
/// Workstream that a recovery refuses as not needing one is not refused by
/// a start for that reason.
pub proof fn lemma_start_and_recovery_partition(overview: WorkstreamOverview, expected: Option<Revision>)
    requires
        overview.archived_at_millis is None,
    ensures
        start_refusal(overview, expected) == Some(ActionError::NativeRecoveryRequired) ==> recovery_refusal(
            overview,
            expected,
        ) is None,
        recovery_refusal(overview, expected) == Some(ActionError::NativeRecoveryUnavailable)
            ==> start_refusal(overview, expected) is None,
{
}

/// What an archive does next.
#[derive(Clone, Copy, Debug, PartialEq, Eq, Structural)]
pub enum ArchiveStep {
    /// A live Runtime is stopped first, so no provider runs behind a hidden row.
    ParkFirst,
    /// Record the archive at this revision.
    ArchiveAt(Revision),
}

/// How an archive request is decided: a stale revision or an already
/// archived Workstream is refused; an unparked Runtime is parked first.
pub open spec fn archive_step_of(overview: WorkstreamOverview, expected: Revision) -> Result<
    ArchiveStep,
    ActionError,
> {
    if overview.revision != expected {
        Err(ActionError::WorkstreamRevisionConflict)
    } else if overview.archived_at_millis is Some {
        Err(ActionError::WorkstreamAlreadyArchived)
    } else if overview.lifecycle != WorkstreamLifecycle::Parked && overview.runtime is Some {
        Ok(ArchiveStep::ParkFirst)
    } else {
        Ok(ArchiveStep::ArchiveAt(expected))
    }
}

/// Decides the next step of an archive request.
pub fn archive_step(overview: &WorkstreamOverview, expected: Revision) -> (r: Result<ArchiveStep, ActionError>)
    ensures
        r == archive_step_of(*overview, expected),
{
    if overview.revision != expected {
        return Err(ActionError::WorkstreamRevisionConflict);
    }
    if overview.archived_at_millis.is_some() {
        return Err(ActionError::WorkstreamAlreadyArchived);
    }
    if overview.lifecycle != WorkstreamLifecycle::Parked && overview.runtime.is_some() {
        Ok(ArchiveStep::ParkFirst)
    } else {
        Ok(ArchiveStep::ArchiveAt(expected))
    }
}

/// What a forget does next.
#[derive(Clone, Copy, Debug, PartialEq, Eq, Structural)]
pub enum ForgetStep {
    /// The retained Runtime is stopped first.
    ParkFirst,
    /// Remove the owned graph at this revision.
    ForgetAt(Revision),
}

/// How a forget request is decided: only an archived Workstream at the
/// expected revision is forgotten, after its Runtime is stopped.
pub open spec fn forget_step_of(overview: WorkstreamOverview, expected: Revision) -> Result<
    ForgetStep,
    ActionError,
> {
    if overview.archived_at_millis is None {
        Err(ActionError::WorkstreamNotArchived)
    } else if overview.revision != expected {
        Err(ActionError::WorkstreamRevisionConflict)
    } else if overview.runtime is Some {
        Ok(ForgetStep::ParkFirst)
    } else {
        Ok(ForgetStep::ForgetAt(expected))
    }
}

/// Decides the next step of a forget request.
pub fn forget_step(overview: &WorkstreamOverview, expected: Revision) -> (r: Result<ForgetStep, ActionError>)
    ensures
        r == forget_step_of(*overview, expected),
{
    if overview.archived_at_millis.is_none() {
        return Err(ActionError::WorkstreamNotArchived);
    }
    if overview.revision != expected {
        return Err(ActionError::WorkstreamRevisionConflict);
    }
    if overview.runtime.is_some() {
        Ok(ForgetStep::ParkFirst)
    } else {
        Ok(ForgetStep::ForgetAt(expected))
    }
}

/// An archived Workstream is never started, and a Workstream is archived at
/// most once: archive and start refuse each other's precondition.
pub proof fn lemma_archived_never_starts(overview: WorkstreamOverview, expected: Option<Revision>)
    requires
        overview.archived_at_millis is Some,
    ensures
        start_refusal(overview, expected) == Some(ActionError::WorkstreamArchived),
        archive_step_of(overview, overview.revision) == Err::<ArchiveStep, ActionError>(
            ActionError::WorkstreamAlreadyArchived,
        ),
{
}

/// What a park does after probing the recorded Runtime.
#[derive(Clone, Copy, Debug, PartialEq, Eq, Structural)]
pub enum ParkProbeStep {
    /// Stop the exact recorded provider and the private Runtime.
    Stop,
    /// Record the live provider's pid first, then stop it.
    BackfillThenStop { pane_pid: u32 },
}

/// How a park reads its probe: the exact recorded provider, or a clean
/// provider exit, is stopped; a live pane with the recorded directory and
/// birth but no recorded pid is backfilled first; a missing pane is stopped
/// when the recorded identity is complete or was never recorded; anything
/// else is ambiguous.
pub open spec fn park_probe_step_of(record: RuntimeRecord, probe: RuntimeProbe, clean_exit: bool) -> Result<
    ParkProbeStep,
    ActionError,
> {
    if runtime_matches_record(record, probe, false) {
        Ok(ParkProbeStep::Stop)
    } else if (probe is Live || probe is Unknown) && clean_exit {
        Ok(ParkProbeStep::Stop)
    } else {
        match crate::actions::backfill_pid_of(record, probe) {
            Some(pane_pid) => Ok(ParkProbeStep::BackfillThenStop { pane_pid }),
            None => if probe is Missing && (crate::actions::recorded_identity_of(record) is Some || (
            record.provider_pid is None && record.process_birth is None)) {
                Ok(ParkProbeStep::Stop)
            } else {
                Err(ActionError::RuntimeProbeAmbiguous)
            },
        }
    }
}

/// Decides what a park does after its probe.
pub fn park_probe_step(record: &RuntimeRecord, probe: &RuntimeProbe, clean_exit: bool) -> (r: Result<
    ParkProbeStep,
    ActionError,
>)
    ensures
        r == park_probe_step_of(*record, *probe, clean_exit),
{
    if matches_recorded_runtime(record, probe, false) {
        return Ok(ParkProbeStep::Stop);
    }
    let live_or_unknown = match probe {
        RuntimeProbe::Live { .. } | RuntimeProbe::Unknown { .. } => true,
        RuntimeProbe::Missing => false,
    };
    if live_or_unknown && clean_exit {
        return Ok(ParkProbeStep::Stop);
    }
    if let Some(pane_pid) = crate::actions::backfill_candidate(record, probe) {
        return Ok(ParkProbeStep::BackfillThenStop { pane_pid });
    }
    match probe {
        RuntimeProbe::Missing => {
            let complete = crate::actions::recorded_provider_identity(record).is_ok();
            if complete || (record.provider_pid.is_none() && record.process_birth.is_none()) {
                Ok(ParkProbeStep::Stop)
            } else {
                Err(ActionError::RuntimeProbeAmbiguous)
            }
        },
        _ => Err(ActionError::RuntimeProbeAmbiguous),
    }
}

/// Whether a refused attachment must mark its Runtime recovery-required: the
/// pane is gone after a recorded launch of a Runtime that was not stopped.
pub open spec fn refusal_marks_recovery(record: RuntimeRecord, probe: RuntimeProbe) -> bool {
    probe is Missing && record.status != RuntimeStatus::Stopped && record.process_birth is Some
}

/// What a native attachment preflight decides from its probe.
#[derive(Clone, Copy, Debug, PartialEq, Eq, Structural)]
pub enum AttachmentStep {
    /// The recorded provider is exactly live; attach.
    Attach,
    /// Refuse as ambiguous, first recording what the refusal proves.
    Refuse { mark_recovery_required: bool, mark_opencode_handle_unknown: bool },
}

/// Decides a native attachment preflight.
pub fn attachment_step(record: &RuntimeRecord, probe: &RuntimeProbe) -> (r: AttachmentStep)
    ensures
        runtime_matches_record(*record, *probe, false) ==> r == AttachmentStep::Attach,
        !runtime_matches_record(*record, *probe, false) ==> r == (AttachmentStep::Refuse {
            mark_recovery_required: refusal_marks_recovery(*record, *probe),
            mark_opencode_handle_unknown: record.provider == ProviderKind::OpenCode,
        }),
{
    if matches_recorded_runtime(record, probe, false) {
        return AttachmentStep::Attach;
    }
    let missing = match probe {
        RuntimeProbe::Missing => true,
        _ => false,
    };
    AttachmentStep::Refuse {
        mark_recovery_required: missing && record.status != RuntimeStatus::Stopped
            && record.process_birth.is_some(),
        mark_opencode_handle_unknown: record.provider == ProviderKind::OpenCode,
    }
}

/// What a freshly launched Runtime pane proves: the live provider's pid and
/// birth, when the pane runs in the record's working directory and its
/// birth is known; any other observation is ambiguous.
pub open spec fn launched_identity_of(record: RuntimeRecord, probe: RuntimeProbe) -> Result<
    (u32, Seq<char>),
    ActionError,
> {
    match probe {
        RuntimeProbe::Live { pane_pid, cwd, process_birth: Some(birth), .. } => if paths_same(
            cwd@,
            record.cwd@,
        ) {
            Ok((pane_pid, birth@))
        } else {
            Err(ActionError::RuntimeProbeAmbiguous)
        },
        _ => Err(ActionError::RuntimeProbeAmbiguous),
    }
}

/// Reads the launched provider's identity from the first probe of its pane,
/// as `launched_identity_of` states.
pub fn launched_provider_identity(record: &RuntimeRecord, probe: &RuntimeProbe) -> (r: Result<
    (u32, String),
    ActionError,
>)
    ensures
        match r {
            Ok((pid, birth)) => launched_identity_of(*record, *probe) == Ok::<
                (u32, Seq<char>),
                ActionError,
            >((pid, birth@)),
            Err(e) => launched_identity_of(*record, *probe) == Err::<(u32, Seq<char>), ActionError>(
                e,
            ),
        },
{
    match probe {
        RuntimeProbe::Live { pane_pid, cwd, process_birth: Some(birth), .. } => {
            if same_path(cwd.as_str(), record.cwd.as_str()) {
                Ok((*pane_pid, birth.clone()))
            } else {
                Err(ActionError::RuntimeProbeAmbiguous)
            }
        },
        _ => Err(ActionError::RuntimeProbeAmbiguous),
    }
}

/// A provider hook is attributed to a Runtime only when the hook reports the
/// Runtime's working directory and the Runtime's pane shows exactly its
/// recorded provider process.
pub open spec fn hook_attributable(
    record: RuntimeRecord,
    observation_cwd: Seq<char>,
    probe: RuntimeProbe,
) -> bool {
    paths_same(record.cwd@, observation_cwd) && runtime_matches_record(record, probe, false)
}

/// Whether a hook observation may be attributed to this Runtime, as
/// `hook_attributable` states.
pub fn hook_observation_matches(record: &RuntimeRecord, observation_cwd: &str, probe: &RuntimeProbe) -> (r:
    bool)
    ensures
        r == hook_attributable(*record, observation_cwd@, *probe),
{
    same_path(record.cwd.as_str(), observation_cwd) && matches_recorded_runtime(record, probe, false)
}

/// What was found for one candidate Runtime of a provider hook: the probe of
/// its pane, and whether the pane's process is a direct provider hook.
#[derive(Debug, PartialEq, Eq)]
pub struct HookEvidence {
    pub probe: Result<RuntimeProbe, ()>,
    pub direct_hook: bool,
}

/// A hook candidate matches: its pane shows exactly its recorded provider in
/// the hook's working directory, and that process is a direct provider hook.
pub open spec fn hook_candidate_matches(
    record: RuntimeRecord,
    observation_cwd: Seq<char>,
    evidence: HookEvidence,
) -> bool {
    &&& evidence.probe matches Ok(probe) && hook_attributable(record, observation_cwd, probe)
    &&& evidence.direct_hook
}

/// A candidate is probed only when it records the hook's working directory.
pub fn hook_candidate_needs_probe(record: &RuntimeRecord, observation_cwd: &str) -> (r: bool)
    ensures
        r == paths_same(record.cwd@, observation_cwd@),
{
    same_path(record.cwd.as_str(), observation_cwd)
}

/// The direct-hook check is made only when the probe already shows the
/// recorded provider in the hook's working directory.
pub fn hook_candidate_needs_direct_check(
    record: &RuntimeRecord,
    observation_cwd: &str,
    probe: &Result<RuntimeProbe, ()>,
) -> (r: bool)
    ensures
        r == (*probe matches Ok(p) && hook_attributable(*record, observation_cwd@, p)),
{
    match probe {
        Ok(p) => hook_observation_matches(record, observation_cwd, p),
        Err(()) => false,
    }
}

/// Selects the one candidate a hook belongs to: the hook is attributed only
/// when exactly one candidate matches, and to nothing when none or several
/// do.
pub fn select_hook_runtime(
    records: &Vec<RuntimeRecord>,
    observation_cwd: &str,
    evidence: &Vec<HookEvidence>,
) -> (r: Option<usize>)
    requires
        records@.len() == evidence@.len(),
    ensures
        r matches Some(i) ==> i < records@.len() && hook_candidate_matches(
            records@[i as int],
            observation_cwd@,
            evidence@[i as int],
        ) && forall|j: int|
            0 <= j < records@.len() && j != i ==> !hook_candidate_matches(
                #[trigger] records@[j],
                observation_cwd@,
                evidence@[j],
            ),
        r is None ==> !exists|i: int|
            0 <= i < records@.len() && hook_candidate_matches(
                #[trigger] records@[i],
                observation_cwd@,
                evidence@[i],
            ) && forall|j: int|
                0 <= j < records@.len() && j != i ==> !hook_candidate_matches(
                    #[trigger] records@[j],
                    observation_cwd@,
                    evidence@[j],
                ),
{
    let mut found: Option<usize> = None;
    let mut k: usize = 0;
    while k < records.len()
        invariant
            records@.len() == evidence@.len(),
            k <= records@.len(),
            found matches Some(i) ==> i < k && hook_candidate_matches(
                records@[i as int],
                observation_cwd@,
                evidence@[i as int],
            ) && forall|j: int|
                0 <= j < k && j != i ==> !hook_candidate_matches(
                    #[trigger] records@[j],
                    observation_cwd@,
                    evidence@[j],
                ),
            found is None ==> forall|j: int|
                0 <= j < k ==> !hook_candidate_matches(
                    #[trigger] records@[j],
                    observation_cwd@,
                    evidence@[j],
                ),
        decreases records@.len() - k,
    {
        let record = &records[k];
        let seen = &evidence[k];
        let matched = match &seen.probe {
            Ok(p) => hook_observation_matches(record, observation_cwd, p) && seen.direct_hook,
            Err(()) => false,
        };
        if matched {
            if let Some(first) = found {
                proof {
                    assert(hook_candidate_matches(
                        records@[first as int],
                        observation_cwd@,
                        evidence@[first as int],
                    ));
                    assert(hook_candidate_matches(records@[k as int], observation_cwd@, evidence@[k as int]));
                }
                return None;
            }
            found = Some(k);
        }
        k = k + 1;
    }
    found
}

/// The effects of launching a reserved OpenCode Runtime, in order.
#[derive(Clone, Copy, Debug, PartialEq, Eq, Structural)]
pub enum OpenCodeLaunchEffect {
    /// The endpoint port check, the Runtime paths and the launch program.
    Prepare,
    StartRuntime,
    ProbeRuntime,
    ProveProcessGroup,
    RecordProcessIdentity,
    ReleaseLaunch,
    WaitForProvider,
    RecordHandle,
    SpawnObserver,
}

/// The cleanup that follows a failed launch effect.
#[derive(Clone, Copy, Debug, PartialEq, Eq, Structural)]
pub enum LaunchFailureCleanup {
    /// Nothing was started, or the failed effect cleans up after itself.
    Nothing,
    /// The Runtime was started but its provider is not identified.
    UnidentifiedLaunch,
    /// The identified process is stopped exactly and the Runtime is marked
    /// as needing recovery.
    StopProcessInstanceAndRequireRecovery,
    /// The identified provider is parked and stopped exactly.
    ParkAndStopProvider,
}

/// Which cleanup follows each failed launch effect: nothing before the
/// Runtime starts; an unidentified-launch cleanup until the probe has
/// identified the provider; once it is identified, the exact process is
/// stopped, with recovery required when its process group is not proved,
/// and the provider is parked and stopped after any later failure; a failed
/// observer spawn cleans up after itself.
pub open spec fn launch_failure_cleanup_of(failed: OpenCodeLaunchEffect) -> LaunchFailureCleanup {
    match failed {
        OpenCodeLaunchEffect::Prepare => LaunchFailureCleanup::Nothing,
        OpenCodeLaunchEffect::StartRuntime | OpenCodeLaunchEffect::ProbeRuntime =>
            LaunchFailureCleanup::UnidentifiedLaunch,
        OpenCodeLaunchEffect::ProveProcessGroup =>
            LaunchFailureCleanup::StopProcessInstanceAndRequireRecovery,
        OpenCodeLaunchEffect::RecordProcessIdentity | OpenCodeLaunchEffect::ReleaseLaunch
        | OpenCodeLaunchEffect::WaitForProvider | OpenCodeLaunchEffect::RecordHandle =>
            LaunchFailureCleanup::ParkAndStopProvider,
        OpenCodeLaunchEffect::SpawnObserver => LaunchFailureCleanup::Nothing,
    }
}

/// The cleanup after a failed launch effect.
pub fn launch_failure_cleanup(failed: OpenCodeLaunchEffect) -> (r: LaunchFailureCleanup)
    ensures
        r == launch_failure_cleanup_of(failed),
{
    match failed {
        OpenCodeLaunchEffect::Prepare => LaunchFailureCleanup::Nothing,
        OpenCodeLaunchEffect::StartRuntime | OpenCodeLaunchEffect::ProbeRuntime =>
            LaunchFailureCleanup::UnidentifiedLaunch,
        OpenCodeLaunchEffect::ProveProcessGroup =>
            LaunchFailureCleanup::StopProcessInstanceAndRequireRecovery,
        OpenCodeLaunchEffect::RecordProcessIdentity | OpenCodeLaunchEffect::ReleaseLaunch
        | OpenCodeLaunchEffect::WaitForProvider | OpenCodeLaunchEffect::RecordHandle =>
            LaunchFailureCleanup::ParkAndStopProvider,
        OpenCodeLaunchEffect::SpawnObserver => LaunchFailureCleanup::Nothing,
    }
}

/// The effect that follows a successful one; `None` after the observer is
/// spawned, when the launch is complete.
pub open spec fn next_launch_effect_of(done: OpenCodeLaunchEffect) -> Option<OpenCodeLaunchEffect> {
    match done {
        OpenCodeLaunchEffect::Prepare => Some(OpenCodeLaunchEffect::StartRuntime),
        OpenCodeLaunchEffect::StartRuntime => Some(OpenCodeLaunchEffect::ProbeRuntime),
        OpenCodeLaunchEffect::ProbeRuntime => Some(OpenCodeLaunchEffect::ProveProcessGroup),
        OpenCodeLaunchEffect::ProveProcessGroup => Some(OpenCodeLaunchEffect::RecordProcessIdentity),
        OpenCodeLaunchEffect::RecordProcessIdentity => Some(OpenCodeLaunchEffect::ReleaseLaunch),
        OpenCodeLaunchEffect::ReleaseLaunch => Some(OpenCodeLaunchEffect::WaitForProvider),
        OpenCodeLaunchEffect::WaitForProvider => Some(OpenCodeLaunchEffect::RecordHandle),
        OpenCodeLaunchEffect::RecordHandle => Some(OpenCodeLaunchEffect::SpawnObserver),
        OpenCodeLaunchEffect::SpawnObserver => None,
    }
}

/// The effect after a successful one.
pub fn next_launch_effect(done: OpenCodeLaunchEffect) -> (r: Option<OpenCodeLaunchEffect>)
    ensures
        r == next_launch_effect_of(done),
{
    match done {
        OpenCodeLaunchEffect::Prepare => Some(OpenCodeLaunchEffect::StartRuntime),
        OpenCodeLaunchEffect::StartRuntime => Some(OpenCodeLaunchEffect::ProbeRuntime),
        OpenCodeLaunchEffect::ProbeRuntime => Some(OpenCodeLaunchEffect::ProveProcessGroup),
        OpenCodeLaunchEffect::ProveProcessGroup => Some(OpenCodeLaunchEffect::RecordProcessIdentity),
        OpenCodeLaunchEffect::RecordProcessIdentity => Some(OpenCodeLaunchEffect::ReleaseLaunch),
        OpenCodeLaunchEffect::ReleaseLaunch => Some(OpenCodeLaunchEffect::WaitForProvider),
        OpenCodeLaunchEffect::WaitForProvider => Some(OpenCodeLaunchEffect::RecordHandle),
        OpenCodeLaunchEffect::RecordHandle => Some(OpenCodeLaunchEffect::SpawnObserver),
        OpenCodeLaunchEffect::SpawnObserver => None,
    }
}

/// Once a launched provider has been identified, no failure leaves it
/// running unless the failed effect cleans up after itself: every failure
/// from the process-group proof to the handle record stops the exact
/// process.
pub proof fn lemma_identified_provider_is_stopped_on_failure(failed: OpenCodeLaunchEffect)
    ensures
        failed != OpenCodeLaunchEffect::Prepare && failed != OpenCodeLaunchEffect::StartRuntime
            && failed != OpenCodeLaunchEffect::ProbeRuntime && failed
            != OpenCodeLaunchEffect::SpawnObserver ==> (launch_failure_cleanup_of(failed)
            == LaunchFailureCleanup::ParkAndStopProvider || launch_failure_cleanup_of(failed)
            == LaunchFailureCleanup::StopProcessInstanceAndRequireRecovery),
        launch_failure_cleanup_of(failed) == LaunchFailureCleanup::UnidentifiedLaunch ==> (failed
            == OpenCodeLaunchEffect::StartRuntime || failed == OpenCodeLaunchEffect::ProbeRuntime),
{
}

} // verus!
