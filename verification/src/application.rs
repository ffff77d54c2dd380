//! The host-local application boundary: bounded projection types, typed
//! actions and outcomes, and the content-free error classification.

use vstd::prelude::*;

use crate::actions::ActionError;
use crate::domain::{
    OperationKind, OperationPhase, ProviderKind, Revision, RuntimeStatus, WorkstreamLifecycle,
};
use crate::ids::{HostId, LocationId, OperationId, ProjectId, RuntimeId, WorkstreamId};
use crate::state::{AttentionState, FreshRootRejection, StateError, StateRecoveryReason};

verus! {

/// Hard bound on Projects in one projection.
pub const MAX_SNAPSHOT_PROJECTS: usize = 128;

/// Hard bound on Project locations in one projection.
pub const MAX_SNAPSHOT_LOCATIONS: usize = 512;

/// Hard bound on Workstreams in one projection.
pub const MAX_SNAPSHOT_WORKSTREAMS: usize = 128;

/// Hard bound on unresolved operations in one projection.
pub const MAX_SNAPSHOT_OPERATIONS: usize = 128;

/// Hard bound on provider capability rows in one projection.
pub const MAX_SNAPSHOT_CAPABILITIES: usize = 8;

/// Bound on the Unicode scalar values of one display text.
pub const MAX_TEXT_SCALARS: usize = 256;

/// Bound on the bytes of a browser-relative path or entry name.
pub const MAX_BROWSER_RELATIVE_BYTES: usize = 1024;

/// Bound on the bytes of a browser root or opaque metadata value.
pub const MAX_BROWSER_ROOT_BYTES: usize = 4096;

/// Bound on the entries of one browser listing.
pub const MAX_BROWSER_ENTRIES: usize = 128;

/// Explicit bounds used by a production facade or a focused test.
#[derive(Clone, Copy, Debug, PartialEq, Eq, Structural)]
pub struct SnapshotLimits {
    pub projects: usize,
    pub locations: usize,
    pub workstreams: usize,
    pub operations: usize,
    pub capabilities: usize,
}

impl SnapshotLimits {
    /// Creates explicit bounds.
    pub fn new(
        projects: usize,
        locations: usize,
        workstreams: usize,
        operations: usize,
        capabilities: usize,
    ) -> (r: SnapshotLimits)
        ensures
            r == (SnapshotLimits { projects, locations, workstreams, operations, capabilities }),
    {
        SnapshotLimits { projects, locations, workstreams, operations, capabilities }
    }

    /// The production hard bounds.
    pub fn production() -> (r: SnapshotLimits)
        ensures
            r == (SnapshotLimits {
                projects: MAX_SNAPSHOT_PROJECTS,
                locations: MAX_SNAPSHOT_LOCATIONS,
                workstreams: MAX_SNAPSHOT_WORKSTREAMS,
                operations: MAX_SNAPSHOT_OPERATIONS,
                capabilities: MAX_SNAPSHOT_CAPABILITIES,
            }),
    {
        SnapshotLimits {
            projects: MAX_SNAPSHOT_PROJECTS,
            locations: MAX_SNAPSHOT_LOCATIONS,
            workstreams: MAX_SNAPSHOT_WORKSTREAMS,
            operations: MAX_SNAPSHOT_OPERATIONS,
            capabilities: MAX_SNAPSHOT_CAPABILITIES,
        }
    }
}

impl Default for SnapshotLimits {
    fn default() -> (r: SnapshotLimits)
        ensures
            r == SnapshotLimits::spec_production(),
    {
        SnapshotLimits::production()
    }
}

impl SnapshotLimits {
    pub open spec fn spec_production() -> SnapshotLimits {
        SnapshotLimits {
            projects: MAX_SNAPSHOT_PROJECTS,
            locations: MAX_SNAPSHOT_LOCATIONS,
            workstreams: MAX_SNAPSHOT_WORKSTREAMS,
            operations: MAX_SNAPSHOT_OPERATIONS,
            capabilities: MAX_SNAPSHOT_CAPABILITIES,
        }
    }
}

/// The projection collection that exceeded its bound.
#[derive(Clone, Copy, Debug, PartialEq, Eq, Structural)]
pub enum SnapshotLimitKind {
    Projects,
    Locations,
    Workstreams,
    Operations,
    Capabilities,
}

/// Opaque local entity whose revision was supplied to an action authority.
#[derive(Clone, Copy, Debug, PartialEq, Eq, Structural)]
pub enum RevisionSubject {
    Project(ProjectId),
    Location(LocationId),
    Workstream(WorkstreamId),
    Runtime(RuntimeId),
    Attention(WorkstreamId),
    Operation(OperationId),
    ProjectBrowserRoot,
}

/// Bounded, content-free classifications for a failed local action.
#[derive(Clone, Copy, Debug, PartialEq, Eq, Structural)]
pub enum ActionFailureReason {
    ProviderReadinessTimeout,
    OpenCodeObserverStartupFailed,
    OpenCodeObserverReadinessTimeout,
    OpenCodeObserverIdentityChanged,
    OpenCodeObserverExitedBeforeReady,
    RuntimeEvidenceAmbiguous,
}

/// Identity categories used in typed projection validation errors.
#[derive(Clone, Copy, Debug, PartialEq, Eq, Structural)]
pub enum SnapshotEntity {
    Project,
    Location,
    Workstream,
    Runtime,
    Operation,
    ProviderCapability,
    ObserverReadiness,
    ProjectBrowser,
    DisplayText,
    NativeName,
}

/// Read-only status of the Codex observer integration on this host.
#[derive(Clone, Copy, Debug, PartialEq, Eq, Structural)]
pub enum ObserverReadiness {
    Ready,
    SetupRequired,
    TrustReviewRequired,
    UpdateRequired,
    Modified,
    Disabled,
    Foreign,
    Ambiguous,
    Unknown,
}

/// Typed errors for the local application boundary. No variant carries a
/// raw path, provider payload, or free-form diagnostic.
#[allow(inconsistent_fields)]
#[derive(Clone, Copy, Debug, PartialEq, Eq, Structural)]
pub enum ApplicationError {
    SnapshotOverLimit { kind: SnapshotLimitKind, limit: usize },
    DuplicateSnapshotIdentity { entity: SnapshotEntity },
    InvalidSnapshotEntity { entity: SnapshotEntity },
    UnknownSnapshotProject(ProjectId),
    UnknownSnapshotLocation(LocationId),
    LocationProjectMismatch(LocationId),
    WorkstreamProjectMismatch(WorkstreamId),
    TerminalOperation(OperationId),
    DuplicateProviderCapability(ProviderKind),
    MissingProviderCapability(ProviderKind),
    InvalidProviderCapability(ProviderKind),
    InvalidBrowserPath,
    InvalidBrowserListing,
    InvalidProjectRefresh,
    StaleRevision { subject: RevisionSubject, expected: Revision, current: Revision },
    UnknownLocalIdentity,
    ProviderIdentityMismatch,
    UnsupportedAction,
    CutoverRequired,
    FreshStateRequired,
    HostStateResetRequired { schema_version: i64 },
    MalformedHostSchema,
    UnsupportedFutureHostSchema { schema_version: i64 },
    StateRecoveryRequired { reason: StateRecoveryReason },
    FreshRootRejected { reason: FreshRootRejection },
    AttachmentEvidenceMismatch,
    SnapshotAuthorityFailed,
    ActionAuthorityFailed,
    AttachmentAuthorityFailed,
    ActionFailed { reason: ActionFailureReason },
    ObserverUnavailable { readiness: ObserverReadiness },
}

/// Exact read-only observer evidence captured with a pending action. `None`
/// proves that no owned integration row existed at capture time.
#[derive(Clone, Copy, Debug, PartialEq, Eq, Structural)]
pub struct ObserverReadinessEvidence {
    pub readiness: ObserverReadiness,
    pub integration_revision: Option<Revision>,
}

pub open spec fn readiness_needs_guide(readiness: ObserverReadiness) -> bool {
    readiness == ObserverReadiness::SetupRequired || readiness
        == ObserverReadiness::TrustReviewRequired || readiness == ObserverReadiness::UpdateRequired
}

impl ObserverReadinessEvidence {
    /// Whether an interactive setup or native review guide must be shown.
    pub fn needs_guide(self) -> (r: bool)
        ensures
            r == readiness_needs_guide(self.readiness),
    {
        match self.readiness {
            ObserverReadiness::SetupRequired
            | ObserverReadiness::TrustReviewRequired
            | ObserverReadiness::UpdateRequired => true,
            _ => false,
        }
    }
}

/// Availability status of one local provider's capability evidence.
#[derive(Clone, Copy, Debug, PartialEq, Eq, Structural)]
pub enum ProviderCapabilityStatus {
    Available,
    Unavailable,
    Unknown,
}

/// Bounded reason accompanying unavailable or unknown provider evidence.
#[derive(Clone, Copy, Debug, PartialEq, Eq, Structural)]
pub enum ProviderCapabilityReason {
    AdapterUnavailable,
    NotInstalled,
    UnsupportedVersion,
    ObserverNotReady,
    RuntimePrerequisiteMissing,
    ProbeFailed,
}

/// Dynamic capability evidence for one local provider.
#[derive(Clone, Copy, Debug, PartialEq, Eq, Structural)]
pub struct ProviderCapability {
    pub provider: ProviderKind,
    pub status: ProviderCapabilityStatus,
    pub reason: Option<ProviderCapabilityReason>,
    pub fresh_launch: bool,
    pub exact_resume: bool,
    pub observe: bool,
    pub metadata_read: bool,
    pub navigator_rename: bool,
    pub fork: bool,
}

impl ProviderCapability {
    /// Whether the provider can launch a fresh local Workstream.
    pub fn eligible_for_new(self) -> (r: bool)
        ensures
            r == (self.status == ProviderCapabilityStatus::Available && self.fresh_launch
                && self.exact_resume && self.observe),
    {
        self.status == ProviderCapabilityStatus::Available && self.fresh_launch
            && self.exact_resume && self.observe
    }

    /// Whether the provider can exact-resume a local Workstream.
    pub fn eligible_for_resume(self) -> (r: bool)
        ensures
            r == (self.status == ProviderCapabilityStatus::Available && self.exact_resume
                && self.observe),
    {
        self.status == ProviderCapabilityStatus::Available && self.exact_resume && self.observe
    }

    /// Whether the provider can fork a local Workstream.
    pub fn eligible_for_fork(self) -> (r: bool)
        ensures
            r == (self.status == ProviderCapabilityStatus::Available && self.fork && self.observe),
    {
        self.status == ProviderCapabilityStatus::Available && self.fork && self.observe
    }
}

/// Bounded attention state shown by the navigator.
#[derive(Clone, Copy, Debug, PartialEq, Eq, Structural)]
pub struct AttentionSnapshot {
    pub result_unseen: bool,
    pub recovery_unseen: bool,
    pub revision: Revision,
}

impl AttentionSnapshot {
    /// Projects durable attention without exposing provider turn contents.
    pub fn from_state(state: &AttentionState) -> (r: AttentionSnapshot)
        ensures
            r.result_unseen == state.result_unseen_since_revision is Some,
            r.recovery_unseen == state.recovery_unseen_since_revision is Some,
            r.revision == state.revision,
    {
        AttentionSnapshot {
            result_unseen: state.result_unseen_since_revision.is_some(),
            recovery_unseen: state.recovery_unseen_since_revision.is_some(),
            revision: state.revision,
        }
    }
}

/// Opaque local Runtime evidence needed by an attachment row.
#[derive(Clone, Copy, Debug, PartialEq, Eq, Structural)]
pub struct RuntimeSnapshot {
    pub runtime_id: RuntimeId,
    pub status: RuntimeStatus,
    pub revision: Revision,
    /// True only when the exact current Runtime generation has a private
    /// observer-degraded marker.
    pub observer_degraded: bool,
}

/// One host-local Project location.
#[derive(Clone, Debug, PartialEq, Eq)]
pub struct LocationSnapshot {
    pub project_id: ProjectId,
    pub location_id: LocationId,
    pub display_name: String,
    pub revision: Revision,
    pub repository_fingerprint: Option<String>,
    pub origin_display: Option<String>,
    pub is_label_source: bool,
}

/// One active or archived Workstream in a Project group.
#[derive(Clone, Debug, PartialEq, Eq)]
pub struct WorkstreamSnapshot {
    pub project_id: ProjectId,
    pub location_id: LocationId,
    pub workstream_id: WorkstreamId,
    pub provider: ProviderKind,
    pub lifecycle: WorkstreamLifecycle,
    pub archived: bool,
    pub last_activity_sequence: i64,
    pub last_activity_at_millis: Option<i64>,
    pub revision: Revision,
    pub runtime: Option<RuntimeSnapshot>,
    pub attention: AttentionSnapshot,
    pub native_name: Option<String>,
}

/// One unresolved local operation.
#[derive(Clone, Copy, Debug, PartialEq, Eq, Structural)]
pub struct OperationSnapshot {
    pub operation_id: OperationId,
    pub kind: OperationKind,
    pub provider: ProviderKind,
    pub source_workstream_id: Option<WorkstreamId>,
    pub phase: OperationPhase,
    pub revision: Revision,
}

/// Safe display and revision evidence for the host-private browser root.
#[derive(Clone, Debug, PartialEq, Eq)]
pub struct ProjectBrowserSnapshot {
    pub root_label: String,
    pub revision: Revision,
}

/// One Project input to the passive backend seam.
#[derive(Clone, Debug, PartialEq, Eq)]
pub struct ProjectSnapshotInput {
    pub project_id: ProjectId,
    pub display_name: String,
    pub revision: Revision,
    pub label_location_id: LocationId,
    pub repository_fingerprint: Option<String>,
    pub origin_display: Option<String>,
    pub locations: Vec<LocationSnapshot>,
}

/// One Workstream input to the passive backend seam.
#[derive(Clone, Debug, PartialEq, Eq)]
pub struct WorkstreamSnapshotInput {
    pub project_id: ProjectId,
    pub location_id: LocationId,
    pub workstream_id: WorkstreamId,
    pub provider: ProviderKind,
    pub lifecycle: WorkstreamLifecycle,
    pub archived: bool,
    pub last_activity_sequence: i64,
    pub last_activity_at_millis: Option<i64>,
    pub revision: Revision,
    pub runtime: Option<RuntimeSnapshot>,
    pub attention: AttentionSnapshot,
    pub native_name: Option<String>,
}

/// One complete passive input to the snapshot projection.
#[derive(Clone, Debug, PartialEq, Eq)]
pub struct SnapshotInput {
    pub projects: Vec<ProjectSnapshotInput>,
    pub workstreams: Vec<WorkstreamSnapshotInput>,
    pub unresolved_operations: Vec<OperationSnapshot>,
    pub observer_readiness: ObserverReadinessEvidence,
    pub project_browser: ProjectBrowserSnapshot,
    pub provider_capabilities: Vec<ProviderCapability>,
}

/// One canonical host-local Project inventory row.
#[derive(Clone, Debug, PartialEq, Eq)]
pub struct ProjectSnapshot {
    pub project_id: ProjectId,
    pub display_name: String,
    pub revision: Revision,
    pub label_location_id: LocationId,
    pub repository_fingerprint: Option<String>,
    pub origin_display: Option<String>,
    pub locations: Vec<LocationSnapshot>,
}

/// One Project group of the active or archived scope.
#[derive(Clone, Debug, PartialEq, Eq)]
pub struct ProjectWorkstreamGroup {
    pub project_id: ProjectId,
    pub max_activity_sequence: i64,
    pub workstreams: Vec<WorkstreamSnapshot>,
}

/// One deterministic hard-bounded current-host projection.
#[derive(Clone, Debug, PartialEq, Eq)]
pub struct ApplicationSnapshot {
    pub host_id: HostId,
    pub host_display: String,
    pub projects: Vec<ProjectSnapshot>,
    pub active_project_groups: Vec<ProjectWorkstreamGroup>,
    pub archived_project_groups: Vec<ProjectWorkstreamGroup>,
    pub unresolved_operations: Vec<OperationSnapshot>,
    pub observer_readiness: ObserverReadinessEvidence,
    pub project_browser: ProjectBrowserSnapshot,
    pub provider_capabilities: Vec<ProviderCapability>,
}

/// The Workstreams of the groups, in group order and child order.
pub open spec fn group_members(groups: Seq<ProjectWorkstreamGroup>) -> Seq<WorkstreamSnapshot>
    decreases groups.len(),
{
    if groups.len() == 0 {
        Seq::empty()
    } else {
        group_members(groups.drop_last()) + groups.last().workstreams@
    }
}

/// The Workstreams of the groups, in group order and child order.
pub fn group_member_refs(groups: &Vec<ProjectWorkstreamGroup>) -> (r: Vec<&WorkstreamSnapshot>)
    ensures
        r@.map_values(|w: &WorkstreamSnapshot| *w) == group_members(groups@),
{
    let mut r: Vec<&WorkstreamSnapshot> = Vec::new();
    let mut g: usize = 0;
    while g < groups.len()
        invariant
            g <= groups.len(),
            r@.map_values(|w: &WorkstreamSnapshot| *w) == group_members(groups@.subrange(0, g as int)),
        decreases groups.len() - g,
    {
        let members = &groups[g].workstreams;
        let ghost start = r@.map_values(|w: &WorkstreamSnapshot| *w);
        let mut i: usize = 0;
        while i < members.len()
            invariant
                i <= members.len(),
                r@.map_values(|w: &WorkstreamSnapshot| *w) == start + members@.subrange(0, i as int),
            decreases members.len() - i,
        {
            let ghost before = r@;
            r.push(&members[i]);
            proof {
                assert(r@ == before.push(&members[i as int]));
                assert(r@.map_values(|w: &WorkstreamSnapshot| *w) =~= before.map_values(
                    |w: &WorkstreamSnapshot| *w,
                ).push(members@[i as int]));
                assert(members@.subrange(0, i + 1) =~= members@.subrange(0, i as int).push(
                    members@[i as int],
                ));
                assert(r@.map_values(|w: &WorkstreamSnapshot| *w) =~= start + members@.subrange(
                    0,
                    i + 1,
                ));
            }
            i = i + 1;
        }
        proof {
            let prefix = groups@.subrange(0, g + 1);
            assert(prefix.drop_last() =~= groups@.subrange(0, g as int));
            assert(members@.subrange(0, i as int) =~= members@);
        }
        g = g + 1;
    }
    proof {
        assert(groups@.subrange(0, g as int) =~= groups@);
    }
    r
}

impl ApplicationSnapshot {
    /// Active Workstreams in Project-group and child order.
    pub fn active_workstreams(&self) -> (r: Vec<&WorkstreamSnapshot>)
        ensures
            r@.map_values(|w: &WorkstreamSnapshot| *w) == group_members(
                self.active_project_groups@,
            ),
    {
        group_member_refs(&self.active_project_groups)
    }

    /// Archived Workstreams in Project-group and child order.
    pub fn archived_workstreams(&self) -> (r: Vec<&WorkstreamSnapshot>)
        ensures
            r@.map_values(|w: &WorkstreamSnapshot| *w) == group_members(
                self.archived_project_groups@,
            ),
    {
        group_member_refs(&self.archived_project_groups)
    }
}

/// One safe direct-child browser entry.
#[derive(Clone, Debug, PartialEq, Eq)]
pub struct BrowserEntry {
    pub name: String,
    pub is_git_repository: bool,
}

/// Complete revision-checked Project metadata refresh.
#[derive(Clone, Copy, Debug, PartialEq, Eq, Structural)]
pub struct ProjectRefreshRequest {
    pub project_id: ProjectId,
    pub expected_project_revision: Revision,
}

/// Which sticky attention bit to acknowledge.
#[derive(Clone, Copy, Debug, PartialEq, Eq, Structural)]
pub enum AttentionKind {
    Result,
}

/// Exact observer-dependent request captured in a readiness guide.
#[derive(Clone, Copy, Debug, PartialEq, Eq, Structural)]
pub enum ObserverIntent {
    Start { workstream_id: WorkstreamId, expected_revision: Revision, provider: ProviderKind },
    Recover { workstream_id: WorkstreamId, expected_revision: Revision, provider: ProviderKind },
    RecoverOperation {
        operation_id: OperationId,
        expected_revision: Revision,
        provider: ProviderKind,
    },
    RegisterLocation { expected_browser_revision: Revision, provider: ProviderKind },
    NewAtLocation {
        project_id: ProjectId,
        location_id: LocationId,
        expected_project_revision: Revision,
        expected_location_revision: Revision,
        provider: ProviderKind,
    },
    NewAtSameLocation {
        source_workstream_id: WorkstreamId,
        expected_workstream_revision: Revision,
        provider: ProviderKind,
    },
    Fork {
        source_workstream_id: WorkstreamId,
        expected_workstream_revision: Revision,
        provider: ProviderKind,
    },
}

/// Typed contextual guidance; the facade never prepares the observer itself.
#[derive(Clone, Copy, Debug, PartialEq, Eq, Structural)]
pub struct ObserverReadinessGuide {
    pub evidence: ObserverReadinessEvidence,
    pub intent: ObserverIntent,
    pub explicit_interactive_consent_required: bool,
    pub native_trust_review_required: bool,
}

/// Identity and revision returned after a successful local mutation.
#[derive(Clone, Copy, Debug, PartialEq, Eq, Structural)]
pub enum RevisedIdentity {
    Project(ProjectId, Revision),
    Location(LocationId, Revision),
    Workstream(WorkstreamId, Revision),
    Runtime(RuntimeId, Revision),
    Attention(WorkstreamId, Revision),
    Operation(OperationId, Revision),
    ProjectBrowserRoot(Revision),
}

/// Exact opaque Workstream/Runtime evidence accepted for native attachment.
#[derive(Clone, Copy, Debug, PartialEq, Eq, Structural)]
pub struct AttachEvidence {
    pub workstream_id: WorkstreamId,
    pub runtime_id: RuntimeId,
    pub expected_workstream_revision: Revision,
    pub expected_runtime_revision: Revision,
}

/// Exact native-attachment result.
#[derive(Clone, Copy, Debug, PartialEq, Eq, Structural)]
pub struct AttachOutcome {
    pub workstream_id: WorkstreamId,
    pub runtime_id: RuntimeId,
}

/// Which authority an internal failure is reported against.
#[derive(Clone, Copy, Debug, PartialEq, Eq, Structural)]
pub enum Authority {
    Snapshot,
    Action,
    Attachment,
}

pub open spec fn authority_failure(authority: Authority) -> ApplicationError {
    match authority {
        Authority::Snapshot => ApplicationError::SnapshotAuthorityFailed,
        Authority::Action => ApplicationError::ActionAuthorityFailed,
        Authority::Attachment => ApplicationError::AttachmentAuthorityFailed,
    }
}

impl Authority {
    /// The bounded failure reported by this authority.
    pub fn failure(self) -> (r: ApplicationError)
        ensures
            r == authority_failure(self),
    {
        match self {
            Authority::Snapshot => ApplicationError::SnapshotAuthorityFailed,
            Authority::Action => ApplicationError::ActionAuthorityFailed,
            Authority::Attachment => ApplicationError::AttachmentAuthorityFailed,
        }
    }
}

/// How a durable-state failure is reported at the application boundary:
/// readiness failures keep their type, everything else becomes the bounded
/// failure of the requesting authority.
pub open spec fn spec_map_state_error(error: StateError, authority: Authority) -> ApplicationError {
    match error {
        StateError::ProviderIdentityMismatch => ApplicationError::ProviderIdentityMismatch,
        StateError::CutoverRequired => ApplicationError::CutoverRequired,
        StateError::FreshStateRequired => ApplicationError::FreshStateRequired,
        StateError::HostStateResetRequired(v) => ApplicationError::HostStateResetRequired {
            schema_version: v,
        },
        StateError::MalformedHostSchema => ApplicationError::MalformedHostSchema,
        StateError::UnsupportedFutureHostSchema(v) => ApplicationError::UnsupportedFutureHostSchema {
            schema_version: v,
        },
        StateError::StateRecoveryRequired(reason) => ApplicationError::StateRecoveryRequired {
            reason,
        },
        StateError::FreshRootRejected(reason) => ApplicationError::FreshRootRejected { reason },
        _ => authority_failure(authority),
    }
}

/// Reports a durable-state failure at the application boundary.
pub fn map_state_error(error: StateError, authority: Authority) -> (r: ApplicationError)
    ensures
        r == spec_map_state_error(error, authority),
{
    match error {
        StateError::ProviderIdentityMismatch => ApplicationError::ProviderIdentityMismatch,
        StateError::CutoverRequired => ApplicationError::CutoverRequired,
        StateError::FreshStateRequired => ApplicationError::FreshStateRequired,
        StateError::HostStateResetRequired(v) => ApplicationError::HostStateResetRequired {
            schema_version: v,
        },
        StateError::MalformedHostSchema => ApplicationError::MalformedHostSchema,
        StateError::UnsupportedFutureHostSchema(v) => ApplicationError::UnsupportedFutureHostSchema {
            schema_version: v,
        },
        StateError::StateRecoveryRequired(reason) => ApplicationError::StateRecoveryRequired {
            reason,
        },
        StateError::FreshRootRejected(reason) => ApplicationError::FreshRootRejected { reason },
        _ => authority.failure(),
    }
}

/// How a lifecycle-action failure is reported: bounded provider, runtime and
/// observer reasons are preserved; state failures map as state errors; every
/// other failure becomes the action authority failure.
pub open spec fn spec_map_action_error(error: ActionError) -> ApplicationError {
    match error {
        ActionError::OpenCodeProviderReadinessTimeout => ApplicationError::ActionFailed {
            reason: ActionFailureReason::ProviderReadinessTimeout,
        },
        ActionError::OpenCodeObserverReadinessTimeout => ApplicationError::ActionFailed {
            reason: ActionFailureReason::OpenCodeObserverReadinessTimeout,
        },
        ActionError::OpenCodeObserverStartupFailed => ApplicationError::ActionFailed {
            reason: ActionFailureReason::OpenCodeObserverStartupFailed,
        },
        ActionError::OpenCodeObserverIdentityChanged => ApplicationError::ActionFailed {
            reason: ActionFailureReason::OpenCodeObserverIdentityChanged,
        },
        ActionError::OpenCodeObserverExitedBeforeReady => ApplicationError::ActionFailed {
            reason: ActionFailureReason::OpenCodeObserverExitedBeforeReady,
        },
        ActionError::RuntimeProbeAmbiguous => ApplicationError::ActionFailed {
            reason: ActionFailureReason::RuntimeEvidenceAmbiguous,
        },
        ActionError::State(state) => spec_map_state_error(state, Authority::Action),
        _ => ApplicationError::ActionAuthorityFailed,
    }
}

/// Reports a lifecycle-action failure at the application boundary.
pub fn map_action_error(error: ActionError) -> (r: ApplicationError)
    ensures
        r == spec_map_action_error(error),
{
    match error {
        ActionError::OpenCodeProviderReadinessTimeout => ApplicationError::ActionFailed {
            reason: ActionFailureReason::ProviderReadinessTimeout,
        },
        ActionError::OpenCodeObserverReadinessTimeout => ApplicationError::ActionFailed {
            reason: ActionFailureReason::OpenCodeObserverReadinessTimeout,
        },
        ActionError::OpenCodeObserverStartupFailed => ApplicationError::ActionFailed {
            reason: ActionFailureReason::OpenCodeObserverStartupFailed,
        },
        ActionError::OpenCodeObserverIdentityChanged => ApplicationError::ActionFailed {
            reason: ActionFailureReason::OpenCodeObserverIdentityChanged,
        },
        ActionError::OpenCodeObserverExitedBeforeReady => ApplicationError::ActionFailed {
            reason: ActionFailureReason::OpenCodeObserverExitedBeforeReady,
        },
        ActionError::RuntimeProbeAmbiguous => ApplicationError::ActionFailed {
            reason: ActionFailureReason::RuntimeEvidenceAmbiguous,
        },
        ActionError::State(state) => map_state_error(state, Authority::Action),
        _ => ApplicationError::ActionAuthorityFailed,
    }
}


/// How a bounded catalog read failure is reported: a catalog too large for
/// the projection is the bound it exceeds; any other failure maps as a state
/// failure of the requesting authority.
pub open spec fn spec_map_bounded_read_error(
    error: StateError,
    kind: SnapshotLimitKind,
    limit: usize,
    authority: Authority,
) -> ApplicationError {
    match error {
        StateError::NavigatorSnapshotTooLarge => ApplicationError::SnapshotOverLimit { kind, limit },
        _ => spec_map_state_error(error, authority),
    }
}

/// Reports a bounded catalog read failure at the application boundary.
pub fn map_bounded_read_error(
    error: StateError,
    kind: SnapshotLimitKind,
    limit: usize,
    authority: Authority,
) -> (r: ApplicationError)
    ensures
        r == spec_map_bounded_read_error(error, kind, limit, authority),
{
    match error {
        StateError::NavigatorSnapshotTooLarge => ApplicationError::SnapshotOverLimit { kind, limit },
        _ => map_state_error(error, authority),
    }
}

} // verus!
