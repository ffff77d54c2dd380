//! The checks the local action authority makes against what it read before
//! it performs an action: the named Workstream or operation exists, carries
//! the expected revision and provider, the browser root did not move under a
//! listing, and a registered location lies strictly inside the browser root.

use vstd::prelude::*;

use crate::application::{
    ApplicationError, ObserverReadiness, OperationSnapshot, RevisionSubject,
};
use crate::browser::BrowserPath;
use crate::cutover::{paths_equal, paths_same};
use crate::domain::{OperationKind, ProviderKind, Revision};
use crate::facade::ApplicationAction;
use crate::ids::{OperationId, WorkstreamId};
use crate::lifecycle::WorkstreamOverview;
use crate::text::text_eq;

verus! {

/// The refusal of an action whose expected revision is not the current one.
pub open spec fn stale_revision(
    subject: RevisionSubject,
    expected: Revision,
    current: Revision,
) -> Option<ApplicationError> {
    if current.spec_value() != expected.spec_value() {
        Some(ApplicationError::StaleRevision { subject, expected, current })
    } else {
        None
    }
}

/// Refuses an action whose expected revision is not the current one.
pub fn require_revision(subject: RevisionSubject, expected: Revision, current: Revision) -> (r: Result<
    (),
    ApplicationError,
>)
    ensures
        r == (match stale_revision(subject, expected, current) {
            Some(e) => Err(e),
            None => Ok::<(), ApplicationError>(()),
        }),
{
    if current.value() != expected.value() {
        Err(ApplicationError::StaleRevision { subject, expected, current })
    } else {
        Ok(())
    }
}

/// Position `i` holds the first Workstream with the identity.
pub open spec fn first_workstream_at(ws: Seq<WorkstreamOverview>, id: WorkstreamId, i: int) -> bool {
    &&& 0 <= i < ws.len()
    &&& ws[i].workstream_id == id
    &&& forall|j: int| 0 <= j < i ==> (#[trigger] ws[j]).workstream_id != id
}

/// Why an action may not use a found Workstream: a stale expected revision,
/// then another provider than the expected one.
pub open spec fn workstream_refusal(
    w: WorkstreamOverview,
    expected: Option<Revision>,
    provider: Option<ProviderKind>,
) -> Option<ApplicationError> {
    let stale = match expected {
        Some(e) => stale_revision(RevisionSubject::Workstream(w.workstream_id), e, w.revision),
        None => None,
    };
    if stale is Some {
        stale
    } else {
        match provider {
            Some(p) => if w.provider != p {
                Some(ApplicationError::ProviderIdentityMismatch)
            } else {
                None
            },
            None => None,
        }
    }
}

/// Finds the Workstream an action names in the bounded catalog and returns
/// its position: unknown when absent, else refused as `workstream_refusal`
/// states.
pub fn select_workstream(
    workstreams: &[WorkstreamOverview],
    workstream_id: WorkstreamId,
    expected_revision: Option<Revision>,
    provider: Option<ProviderKind>,
) -> (r: Result<usize, ApplicationError>)
    ensures
        match r {
            Ok(i) => first_workstream_at(workstreams@, workstream_id, i as int) && workstream_refusal(
                workstreams@[i as int],
                expected_revision,
                provider,
            ) is None,
            Err(e) => {
                ||| (e == ApplicationError::UnknownLocalIdentity && forall|j: int|
                    0 <= j < workstreams@.len() ==> (#[trigger] workstreams@[j]).workstream_id
                        != workstream_id)
                ||| exists|i: int|
                    first_workstream_at(workstreams@, workstream_id, i) && #[trigger] workstream_refusal(
                        workstreams@[i],
                        expected_revision,
                        provider,
                    ) == Some(e)
            },
        },
{
    let mut i: usize = 0;
    while i < workstreams.len()
        invariant
            i <= workstreams@.len(),
            forall|j: int| 0 <= j < i ==> (#[trigger] workstreams@[j]).workstream_id != workstream_id,
        decreases workstreams@.len() - i,
    {
        let w = &workstreams[i];
        if w.workstream_id == workstream_id {
            proof {
                assert(first_workstream_at(workstreams@, workstream_id, i as int));
            }
            if let Some(expected) = expected_revision {
                if let Err(e) = require_revision(
                    RevisionSubject::Workstream(workstream_id),
                    expected,
                    w.revision,
                ) {
                    proof {
                        assert(workstream_refusal(workstreams@[i as int], expected_revision, provider)
                            == Some(e));
                    }
                    return Err(e);
                }
            }
            if let Some(p) = provider {
                if w.provider != p {
                    proof {
                        assert(workstream_refusal(workstreams@[i as int], expected_revision, provider)
                            == Some(ApplicationError::ProviderIdentityMismatch));
                    }
                    return Err(ApplicationError::ProviderIdentityMismatch);
                }
            }
            return Ok(i);
        }
        i = i + 1;
    }
    Err(ApplicationError::UnknownLocalIdentity)
}

/// An observer-dependent action needs the Workstream's current Runtime
/// generation free of degraded-observer evidence; a Workstream without a
/// Runtime needs nothing.
pub open spec fn observer_available(w: WorkstreamOverview, degraded_marker: bool) -> bool {
    w.runtime is None || !degraded_marker
}

/// Refuses an observer-dependent action on a Runtime generation whose
/// degraded marker exists (`degraded_marker`).
pub fn require_observer_available(workstream: &WorkstreamOverview, degraded_marker: bool) -> (r: Result<
    (),
    ApplicationError,
>)
    ensures
        r is Ok <==> observer_available(*workstream, degraded_marker),
        r matches Err(e) ==> e == (ApplicationError::ObserverUnavailable {
            readiness: ObserverReadiness::Unknown,
        }),
{
    if workstream.runtime.is_some() && degraded_marker {
        Err(ApplicationError::ObserverUnavailable { readiness: ObserverReadiness::Unknown })
    } else {
        Ok(())
    }
}

/// Position `i` holds the first operation with the identity.
pub open spec fn first_operation_at(ops: Seq<OperationSnapshot>, id: OperationId, i: int) -> bool {
    &&& 0 <= i < ops.len()
    &&& ops[i].operation_id == id
    &&& forall|j: int| 0 <= j < i ==> (#[trigger] ops[j]).operation_id != id
}

/// What recovering a found operation yields: the fork's source Workstream,
/// or the refusal of a stale revision, another provider, an operation that
/// is not a fork, or a fork without a source.
pub open spec fn operation_recovery(
    op: OperationSnapshot,
    expected: Revision,
    provider: ProviderKind,
) -> Result<WorkstreamId, ApplicationError> {
    match stale_revision(RevisionSubject::Operation(op.operation_id), expected, op.revision) {
        Some(e) => Err(e),
        None => if op.provider != provider {
            Err(ApplicationError::ProviderIdentityMismatch)
        } else if op.kind != OperationKind::Fork {
            Err(ApplicationError::UnsupportedAction)
        } else {
            match op.source_workstream_id {
                Some(source) => Ok(source),
                None => Err(ApplicationError::UnknownLocalIdentity),
            }
        },
    }
}

/// Finds the unresolved operation to recover and returns its fork source, as
/// `operation_recovery` states; an absent operation is unknown.
pub fn operation_recovery_source(
    operations: &[OperationSnapshot],
    operation_id: OperationId,
    expected_revision: Revision,
    provider: ProviderKind,
) -> (r: Result<WorkstreamId, ApplicationError>)
    ensures
        (forall|j: int|
            0 <= j < operations@.len() ==> (#[trigger] operations@[j]).operation_id != operation_id)
            ==> r == Err::<WorkstreamId, ApplicationError>(ApplicationError::UnknownLocalIdentity),
        forall|i: int|
            #[trigger] first_operation_at(operations@, operation_id, i) ==> r == operation_recovery(
                operations@[i],
                expected_revision,
                provider,
            ),
{
    let mut i: usize = 0;
    while i < operations.len()
        invariant
            i <= operations@.len(),
            forall|j: int| 0 <= j < i ==> (#[trigger] operations@[j]).operation_id != operation_id,
        decreases operations@.len() - i,
    {
        let op = operations[i];
        if op.operation_id == operation_id {
            proof {
                assert(first_operation_at(operations@, operation_id, i as int));
                assert forall|k: int| #[trigger]
                    first_operation_at(operations@, operation_id, k) implies k == i by {
                    if k < i {
                        assert(operations@[k].operation_id != operation_id);
                    } else if k > i {
                        assert(operations@[i as int].operation_id != operation_id);
                    }
                }
            }
            if let Err(e) = require_revision(
                RevisionSubject::Operation(operation_id),
                expected_revision,
                op.revision,
            ) {
                return Err(e);
            }
            if op.provider != provider {
                return Err(ApplicationError::ProviderIdentityMismatch);
            }
            if op.kind != OperationKind::Fork {
                return Err(ApplicationError::UnsupportedAction);
            }
            return match op.source_workstream_id {
                Some(source) => Ok(source),
                None => Err(ApplicationError::UnknownLocalIdentity),
            };
        }
        i = i + 1;
    }
    proof {
        assert forall|k: int| #[trigger] first_operation_at(operations@, operation_id, k) implies false by {
            assert(operations@[k].operation_id != operation_id);
        }
    }
    Err(ApplicationError::UnknownLocalIdentity)
}

/// The browser root the authority read: its path, its display label and its
/// revision.
#[derive(Clone, Debug, PartialEq, Eq)]
pub struct BrowserMetadata {
    pub root: String,
    pub label: String,
    pub revision: Revision,
}

/// Why a directory listing read between two reads of the browser root is
/// refused: the root's revision moved, the root itself moved, or the listing
/// answers another label, path or visibility than the request.
pub open spec fn listing_refusal(
    before: BrowserMetadata,
    after: BrowserMetadata,
    listed_label: Seq<char>,
    listed_path: Seq<char>,
    listed_hidden: bool,
    requested: Seq<char>,
    include_hidden: bool,
) -> Option<ApplicationError> {
    if after.revision.spec_value() != before.revision.spec_value() {
        Some(
            ApplicationError::StaleRevision {
                subject: RevisionSubject::ProjectBrowserRoot,
                expected: before.revision,
                current: after.revision,
            },
        )
    } else if !paths_same(after.root@, before.root@) {
        Some(ApplicationError::ActionAuthorityFailed)
    } else if listed_label != before.label@ || listed_path != requested || listed_hidden
        != include_hidden {
        Some(ApplicationError::InvalidBrowserListing)
    } else {
        None
    }
}

/// Refuses a listing as `listing_refusal` states.
pub fn check_listing_authority(
    before: &BrowserMetadata,
    after: &BrowserMetadata,
    listed_label: &str,
    listed_path: &str,
    listed_hidden: bool,
    requested: &BrowserPath,
    include_hidden: bool,
) -> (r: Result<(), ApplicationError>)
    ensures
        r == (match listing_refusal(
            *before,
            *after,
            listed_label@,
            listed_path@,
            listed_hidden,
            requested@,
            include_hidden,
        ) {
            Some(e) => Err(e),
            None => Ok::<(), ApplicationError>(()),
        }),
{
    if after.revision.value() != before.revision.value() {
        return Err(
            ApplicationError::StaleRevision {
                subject: RevisionSubject::ProjectBrowserRoot,
                expected: before.revision,
                current: after.revision,
            },
        );
    }
    if !(text_eq(after.root.as_str(), before.root.as_str()) || paths_equal(
        after.root.as_str(),
        before.root.as_str(),
    )) {
        return Err(ApplicationError::ActionAuthorityFailed);
    }
    if !text_eq(listed_label, before.label.as_str()) || !text_eq(listed_path, requested.as_str())
        || listed_hidden != include_hidden {
        return Err(ApplicationError::InvalidBrowserListing);
    }
    Ok(())
}

/// What `Path::starts_with` returns: whether the first path's leading
/// components are exactly those of the second.
pub uninterp spec fn path_component_prefix(path: Seq<char>, base: Seq<char>) -> bool;

/// `std::path::Path::starts_with`: component-wise prefix, as the standard
/// library defines it.
#[verifier::external_body]
fn path_starts_with(path: &str, base: &str) -> (r: bool)
    ensures
        r == path_component_prefix(path@, base@),
{
    std::path::Path::new(path).starts_with(std::path::Path::new(base))
}

/// A registered location must resolve strictly inside the browser root:
/// under it, and not the root itself.
pub open spec fn strictly_inside_root(candidate: Seq<char>, root: Seq<char>) -> bool {
    !paths_same(candidate, root) && path_component_prefix(candidate, root)
}

/// Refuses a registration request before anything is resolved: a stale
/// browser revision, then an empty relative path.
pub fn check_registration_request(
    expected_revision: Revision,
    current: &BrowserMetadata,
    relative_path: &BrowserPath,
) -> (r: Result<(), ApplicationError>)
    ensures
        r == (match stale_revision(
            RevisionSubject::ProjectBrowserRoot,
            expected_revision,
            current.revision,
        ) {
            Some(e) => Err(e),
            None => if relative_path@.len() == 0 {
                Err(ApplicationError::InvalidBrowserPath)
            } else {
                Ok::<(), ApplicationError>(())
            },
        }),
{
    if let Err(e) = require_revision(
        RevisionSubject::ProjectBrowserRoot,
        expected_revision,
        current.revision,
    ) {
        return Err(e);
    }
    if relative_path.as_str().is_empty() {
        return Err(ApplicationError::InvalidBrowserPath);
    }
    Ok(())
}

/// Refuses a resolved location that is not strictly inside the resolved
/// browser root.
pub fn check_registration_candidate(canonical_candidate: &str, canonical_root: &str) -> (r: Result<
    (),
    ApplicationError,
>)
    ensures
        r is Ok <==> strictly_inside_root(canonical_candidate@, canonical_root@),
        r matches Err(e) ==> e == ApplicationError::InvalidBrowserPath,
{
    let same = text_eq(canonical_candidate, canonical_root) || paths_equal(
        canonical_candidate,
        canonical_root,
    );
    if same || !path_starts_with(canonical_candidate, canonical_root) {
        return Err(ApplicationError::InvalidBrowserPath);
    }
    Ok(())
}

/// What the local action authority reads and checks first for an action,
/// before any effect: a project refresh goes its own way; an attention
/// acknowledgement checks the attention row's revision; the Workstream
/// actions select the Workstream with an expected revision and provider and,
/// for launching actions, require its observer; an operation recovery
/// checks the operation row; a new Workstream at a location checks that the
/// provider may start new Workstreams; the browser actions check the browser
/// root's revision or the listing authority.
#[derive(Clone, Copy, Debug, PartialEq, Eq, Structural)]
pub enum ActionCheck {
    RefreshProject,
    AttentionRevision { workstream_id: WorkstreamId, expected: Revision },
    Workstream {
        workstream_id: WorkstreamId,
        expected: Revision,
        provider: Option<ProviderKind>,
        observer_required: bool,
    },
    Operation { operation_id: OperationId, expected: Revision, provider: ProviderKind },
    NewEligible { provider: ProviderKind },
    BrowserRootRevision { expected: Revision },
    BrowserListing,
    BrowserRegistration { expected: Revision },
}

/// The first check of each action.
pub open spec fn action_check_of(action: ApplicationAction) -> ActionCheck {
    match action {
        ApplicationAction::RefreshProject(_) => ActionCheck::RefreshProject,
        ApplicationAction::AcknowledgeAttention { workstream_id, expected_revision, .. } =>
            ActionCheck::AttentionRevision { workstream_id, expected: expected_revision },
        ApplicationAction::Park { workstream_id, expected_revision }
        | ApplicationAction::Archive { workstream_id, expected_revision }
        | ApplicationAction::Restore { workstream_id, expected_revision } => ActionCheck::Workstream {
            workstream_id,
            expected: expected_revision,
            provider: None,
            observer_required: false,
        },
        ApplicationAction::Rename { workstream_id, expected_revision, .. } => ActionCheck::Workstream {
            workstream_id,
            expected: expected_revision,
            provider: Some(ProviderKind::Codex),
            observer_required: false,
        },
        ApplicationAction::Start { workstream_id, expected_revision, provider }
        | ApplicationAction::Recover { workstream_id, expected_revision, provider } =>
            ActionCheck::Workstream {
                workstream_id,
                expected: expected_revision,
                provider: Some(provider),
                observer_required: true,
            },
        ApplicationAction::RecoverOperation { operation_id, expected_revision, provider } =>
            ActionCheck::Operation { operation_id, expected: expected_revision, provider },
        ApplicationAction::NewAtLocation { provider, .. } => ActionCheck::NewEligible { provider },
        ApplicationAction::NewAtSameLocation { source_workstream_id, expected_workstream_revision, .. } =>
            ActionCheck::Workstream {
                workstream_id: source_workstream_id,
                expected: expected_workstream_revision,
                provider: None,
                observer_required: false,
            },
        ApplicationAction::Fork { source_workstream_id, expected_workstream_revision, provider } =>
            ActionCheck::Workstream {
                workstream_id: source_workstream_id,
                expected: expected_workstream_revision,
                provider: Some(provider),
                observer_required: true,
            },
        ApplicationAction::SetProjectBrowserRoot { expected_revision, .. } =>
            ActionCheck::BrowserRootRevision { expected: expected_revision },
        ApplicationAction::ListProjectBrowser { .. } => ActionCheck::BrowserListing,
        ApplicationAction::RegisterLocation { expected_browser_revision, .. } =>
            ActionCheck::BrowserRegistration { expected: expected_browser_revision },
    }
}

/// Dispatches an action to the check the action authority makes first.
pub fn action_check(action: &ApplicationAction) -> (r: ActionCheck)
    ensures
        r == action_check_of(*action),
{
    match action {
        ApplicationAction::RefreshProject(_) => ActionCheck::RefreshProject,
        ApplicationAction::AcknowledgeAttention { workstream_id, expected_revision, .. } =>
            ActionCheck::AttentionRevision { workstream_id: *workstream_id, expected: *expected_revision },
        ApplicationAction::Park { workstream_id, expected_revision }
        | ApplicationAction::Archive { workstream_id, expected_revision }
        | ApplicationAction::Restore { workstream_id, expected_revision } => ActionCheck::Workstream {
            workstream_id: *workstream_id,
            expected: *expected_revision,
            provider: None,
            observer_required: false,
        },
        ApplicationAction::Rename { workstream_id, expected_revision, .. } => ActionCheck::Workstream {
            workstream_id: *workstream_id,
            expected: *expected_revision,
            provider: Some(ProviderKind::Codex),
            observer_required: false,
        },
        ApplicationAction::Start { workstream_id, expected_revision, provider }
        | ApplicationAction::Recover { workstream_id, expected_revision, provider } =>
            ActionCheck::Workstream {
                workstream_id: *workstream_id,
                expected: *expected_revision,
                provider: Some(*provider),
                observer_required: true,
            },
        ApplicationAction::RecoverOperation { operation_id, expected_revision, provider } =>
            ActionCheck::Operation {
                operation_id: *operation_id,
                expected: *expected_revision,
                provider: *provider,
            },
        ApplicationAction::NewAtLocation { provider, .. } => ActionCheck::NewEligible {
            provider: *provider,
        },
        ApplicationAction::NewAtSameLocation { source_workstream_id, expected_workstream_revision, .. } =>
            ActionCheck::Workstream {
                workstream_id: *source_workstream_id,
                expected: *expected_workstream_revision,
                provider: None,
                observer_required: false,
            },
        ApplicationAction::Fork { source_workstream_id, expected_workstream_revision, provider } =>
            ActionCheck::Workstream {
                workstream_id: *source_workstream_id,
                expected: *expected_workstream_revision,
                provider: Some(*provider),
                observer_required: true,
            },
        ApplicationAction::SetProjectBrowserRoot { expected_revision, .. } =>
            ActionCheck::BrowserRootRevision { expected: *expected_revision },
        ApplicationAction::ListProjectBrowser { .. } => ActionCheck::BrowserListing,
        ApplicationAction::RegisterLocation { expected_browser_revision, .. } =>
            ActionCheck::BrowserRegistration { expected: *expected_browser_revision },
    }
}

/// The refusal of an attention acknowledgement given the attention row read:
/// no row is an unknown identity, another revision is stale.
pub open spec fn attention_refusal(
    workstream_id: WorkstreamId,
    expected: Revision,
    current: Option<Revision>,
) -> Option<ApplicationError> {
    match current {
        None => Some(ApplicationError::UnknownLocalIdentity),
        Some(revision) => stale_revision(RevisionSubject::Attention(workstream_id), expected, revision),
    }
}

/// Checks the attention row read for an acknowledgement.
pub fn check_attention_revision(
    workstream_id: WorkstreamId,
    expected: Revision,
    current: Option<Revision>,
) -> (r: Result<(), ApplicationError>)
    ensures
        r == (match attention_refusal(workstream_id, expected, current) {
            Some(e) => Err(e),
            None => Ok::<(), ApplicationError>(()),
        }),
{
    match current {
        None => Err(ApplicationError::UnknownLocalIdentity),
        Some(revision) => require_revision(RevisionSubject::Attention(workstream_id), expected, revision),
    }
}

} // verus!
