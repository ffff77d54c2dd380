//! The typed host-local application facade over a passive backend seam.

use vstd::prelude::*;

use crate::application::{
    ApplicationError, ApplicationSnapshot, AttachEvidence, AttachOutcome, AttentionKind,
    ObserverIntent, ObserverReadiness, ObserverReadinessEvidence, ObserverReadinessGuide,
    ProjectRefreshRequest, ProviderCapability, ProviderCapabilityReason, ProviderCapabilityStatus,
    RevisedIdentity, SnapshotEntity, SnapshotInput, SnapshotLimits, readiness_needs_guide,
};
use crate::browser::{
    BrowserListing, BrowserPath, BrowserRootPath, entries_sorted, entry_name_ok, listing_error,
    validate_and_sort_browser_listing,
};
use crate::domain::{IntegrationLifecycle, ProviderKind, Revision};
use crate::ids::{
    HostId, LocationId, OperationId, ProjectId, WorkstreamId, is_hex_char, lemma_hex_of_shape,
    uuid_simple, uuid_simple_text,
};
use crate::snapshot::{
    build_snapshot, snapshot_assembled, snapshot_built, snapshot_input_ok, text_ok, validate_text,
};
use crate::sort::{is_permutation, lemma_permutation_elements};
use crate::text::{is_control, is_control_char, is_format_char, is_unicode_format, push_str, trim, trimmed};

verus! {

/// Bound on the Unicode scalar values of a host label.
pub const MAX_HOST_LABEL_SCALARS: usize = 64;

/// A character a host label may hold: no control, refused format, or line
/// separator character.
pub open spec fn host_label_char_ok(c: char) -> bool {
    !is_control_char(c) && !is_format_char(c) && c != '\u{2028}' && c != '\u{2029}'
}

/// A non-empty single-line label of at most 64 scalar values.
pub open spec fn host_label_ok(s: Seq<char>) -> bool {
    &&& 0 < s.len() <= MAX_HOST_LABEL_SCALARS
    &&& forall|i: int| 0 <= i < s.len() ==> host_label_char_ok(#[trigger] s[i])
}

/// The text of an optional borrowed string.
pub open spec fn optional_text_view(o: Option<&str>) -> Option<Seq<char>> {
    match o {
        Some(s) => Some(s@),
        None => None,
    }
}

/// The fallback label `host-` followed by the first eight simple UUID digits.
pub open spec fn fallback_host_label(host_id: HostId) -> Seq<char> {
    seq!['h', 'o', 's', 't', '-'] + uuid_simple_text(host_id.value).subrange(0, 8)
}

/// The display-only current-host label: the trimmed hostname when it is a
/// valid label, else the fallback derived from the host identity.
pub open spec fn host_label(host_id: HostId, hostname: Option<Seq<char>>) -> Seq<char> {
    let candidate = match hostname {
        Some(h) => trimmed(h),
        None => Seq::empty(),
    };
    if host_label_ok(candidate) {
        candidate
    } else {
        fallback_host_label(host_id)
    }
}

/// Every derived host label is a valid label.
pub proof fn lemma_host_label_is_valid(host_id: HostId, hostname: Option<Seq<char>>)
    ensures
        host_label_ok(host_label(host_id, hostname)),
{
    let candidate = match hostname {
        Some(h) => trimmed(h),
        None => Seq::empty(),
    };
    if !host_label_ok(candidate) {
        lemma_hex_of_shape(host_id.value as nat, 32);
        let f = fallback_host_label(host_id);
        let digits = uuid_simple_text(host_id.value);
        assert forall|i: int| 0 <= i < f.len() implies host_label_char_ok(#[trigger] f[i]) by {
            if i >= 5 {
                assert(f[i] == digits[i - 5]);
                assert(is_hex_char(digits[i - 5]));
            }
        }
    }
}

fn host_label_text_ok(candidate: &str) -> (r: bool)
    ensures
        r == host_label_ok(candidate@),
{
    let n = candidate.unicode_len();
    if n == 0 || n > MAX_HOST_LABEL_SCALARS {
        return false;
    }
    let mut i: usize = 0;
    while i < n
        invariant
            n == candidate@.len(),
            i <= n,
            forall|k: int| 0 <= k < i ==> host_label_char_ok(#[trigger] candidate@[k]),
        decreases n - i,
    {
        let c = candidate.get_char(i);
        if is_control(c) || is_unicode_format(c) || c == '\u{2028}' || c == '\u{2029}' {
            return false;
        }
        i = i + 1;
    }
    true
}

/// Derives the display-only current-host label.
pub fn derived_host_label(host_id: HostId, os_hostname: Option<&str>) -> (r: String)
    ensures
        r@ == host_label(host_id, optional_text_view(os_hostname)),
        host_label_ok(r@),
{
    proof {
        lemma_host_label_is_valid(host_id, optional_text_view(os_hostname));
    }
    let candidate: &str = match os_hostname {
        Some(h) => trim(h),
        None => "",
    };
    proof {
        reveal_strlit("");
        if os_hostname is None {
            assert(candidate@ =~= Seq::<char>::empty());
        }
    }
    if host_label_text_ok(candidate) {
        return String::from_str(candidate);
    }
    let hex = uuid_simple(host_id.value);
    proof {
        lemma_hex_of_shape(host_id.value as nat, 32);
    }
    let digits = hex.as_str().substring_char(0, 8);
    let mut label = String::from_str("host-");
    proof {
        reveal_strlit("host-");
    }
    push_str(&mut label, digits);
    proof {
        assert(label@ =~= fallback_host_label(host_id));
    }
    label
}


/// Typed local actions. Targets are only opaque current-host identities.
#[derive(Clone, Debug, PartialEq, Eq)]
pub enum ApplicationAction {
    AcknowledgeAttention { workstream_id: WorkstreamId, expected_revision: Revision, kind: AttentionKind },
    Park { workstream_id: WorkstreamId, expected_revision: Revision },
    Archive { workstream_id: WorkstreamId, expected_revision: Revision },
    Restore { workstream_id: WorkstreamId, expected_revision: Revision },
    Rename { workstream_id: WorkstreamId, expected_revision: Revision, name: String },
    Start { workstream_id: WorkstreamId, expected_revision: Revision, provider: ProviderKind },
    Recover { workstream_id: WorkstreamId, expected_revision: Revision, provider: ProviderKind },
    RecoverOperation { operation_id: OperationId, expected_revision: Revision, provider: ProviderKind },
    NewAtLocation {
        project_id: ProjectId,
        location_id: LocationId,
        expected_project_revision: Revision,
        expected_location_revision: Revision,
        provider: ProviderKind,
    },
    NewAtSameLocation {
        source_workstream_id: WorkstreamId,
        expected_workstream_revision: Revision,
        provider: ProviderKind,
    },
    Fork {
        source_workstream_id: WorkstreamId,
        expected_workstream_revision: Revision,
        provider: ProviderKind,
    },
    SetProjectBrowserRoot { root_path: BrowserRootPath, expected_revision: Revision },
    ListProjectBrowser { relative_path: BrowserPath, include_hidden: bool },
    RegisterLocation { relative_path: BrowserPath, expected_browser_revision: Revision, provider: ProviderKind },
    RefreshProject(ProjectRefreshRequest),
}

/// Result of an explicit application action.
#[derive(Clone, Debug, PartialEq, Eq)]
pub enum ApplicationOutcome {
    Applied { identity: RevisedIdentity },
    Created { workstream_id: WorkstreamId, location_id: LocationId, revision: Revision },
    BrowserListed(BrowserListing),
    ProjectRefreshed { project_id: ProjectId, revision: Revision },
    ObserverReadinessRequired(ObserverReadinessGuide),
}

impl ProjectRefreshRequest {
    /// A refresh request carries only opaque identities; it is always well formed.
    pub fn validate(&self) -> (r: Result<(), ApplicationError>)
        ensures
            r is Ok,
    {
        Ok(())
    }
}

/// Why an action is refused before any backend authority sees it.
pub open spec fn action_error(action: ApplicationAction) -> Option<ApplicationError> {
    match action {
        ApplicationAction::Rename { name, .. } => if text_ok(name@) {
            None
        } else {
            Some(ApplicationError::InvalidSnapshotEntity { entity: SnapshotEntity::NativeName })
        },
        _ => None,
    }
}

/// The observer-dependent request an action makes: the Codex forms of the
/// actions that start, recover or create a provider Runtime.
pub open spec fn observer_intent_of(action: ApplicationAction) -> Option<ObserverIntent> {
    match action {
        ApplicationAction::Start { workstream_id, expected_revision, provider: ProviderKind::Codex } =>
            Some(ObserverIntent::Start { workstream_id, expected_revision, provider: ProviderKind::Codex }),
        ApplicationAction::Recover { workstream_id, expected_revision, provider: ProviderKind::Codex } =>
            Some(ObserverIntent::Recover { workstream_id, expected_revision, provider: ProviderKind::Codex }),
        ApplicationAction::RecoverOperation {
            operation_id,
            expected_revision,
            provider: ProviderKind::Codex,
        } => Some(
            ObserverIntent::RecoverOperation { operation_id, expected_revision, provider: ProviderKind::Codex },
        ),
        ApplicationAction::RegisterLocation {
            expected_browser_revision,
            provider: ProviderKind::Codex,
            ..
        } => Some(
            ObserverIntent::RegisterLocation { expected_browser_revision, provider: ProviderKind::Codex },
        ),
        ApplicationAction::NewAtLocation {
            project_id,
            location_id,
            expected_project_revision,
            expected_location_revision,
            provider: ProviderKind::Codex,
        } => Some(
            ObserverIntent::NewAtLocation {
                project_id,
                location_id,
                expected_project_revision,
                expected_location_revision,
                provider: ProviderKind::Codex,
            },
        ),
        ApplicationAction::NewAtSameLocation {
            source_workstream_id,
            expected_workstream_revision,
            provider: ProviderKind::Codex,
        } => Some(
            ObserverIntent::NewAtSameLocation {
                source_workstream_id,
                expected_workstream_revision,
                provider: ProviderKind::Codex,
            },
        ),
        ApplicationAction::Fork {
            source_workstream_id,
            expected_workstream_revision,
            provider: ProviderKind::Codex,
        } => Some(
            ObserverIntent::Fork {
                source_workstream_id,
                expected_workstream_revision,
                provider: ProviderKind::Codex,
            },
        ),
        _ => None,
    }
}

impl ApplicationAction {
    /// Refuses an action whose own bounded fields are invalid.
    pub fn validate(&self) -> (r: Result<(), ApplicationError>)
        ensures
            action_error(*self) matches Some(e) ==> r == Err::<(), ApplicationError>(e),
            action_error(*self) is None ==> r is Ok,
    {
        match self {
            ApplicationAction::Rename { name, .. } => {
                if validate_text(name.as_str(), SnapshotEntity::NativeName).is_ok() {
                    Ok(())
                } else {
                    Err(ApplicationError::InvalidSnapshotEntity { entity: SnapshotEntity::NativeName })
                }
            },
            ApplicationAction::RefreshProject(request) => request.validate(),
            _ => Ok(()),
        }
    }

    /// The observer-dependent request this action makes, if any.
    pub fn observer_intent(&self) -> (r: Option<ObserverIntent>)
        ensures
            r == observer_intent_of(*self),
    {
        match self {
            ApplicationAction::Start { workstream_id, expected_revision, provider: ProviderKind::Codex } =>
                Some(
                ObserverIntent::Start {
                    workstream_id: *workstream_id,
                    expected_revision: *expected_revision,
                    provider: ProviderKind::Codex,
                },
            ),
            ApplicationAction::Recover { workstream_id, expected_revision, provider: ProviderKind::Codex } =>
                Some(
                ObserverIntent::Recover {
                    workstream_id: *workstream_id,
                    expected_revision: *expected_revision,
                    provider: ProviderKind::Codex,
                },
            ),
            ApplicationAction::RecoverOperation {
                operation_id,
                expected_revision,
                provider: ProviderKind::Codex,
            } => Some(
                ObserverIntent::RecoverOperation {
                    operation_id: *operation_id,
                    expected_revision: *expected_revision,
                    provider: ProviderKind::Codex,
                },
            ),
            ApplicationAction::RegisterLocation {
                expected_browser_revision,
                provider: ProviderKind::Codex,
                ..
            } => Some(
                ObserverIntent::RegisterLocation {
                    expected_browser_revision: *expected_browser_revision,
                    provider: ProviderKind::Codex,
                },
            ),
            ApplicationAction::NewAtLocation {
                project_id,
                location_id,
                expected_project_revision,
                expected_location_revision,
                provider: ProviderKind::Codex,
            } => Some(
                ObserverIntent::NewAtLocation {
                    project_id: *project_id,
                    location_id: *location_id,
                    expected_project_revision: *expected_project_revision,
                    expected_location_revision: *expected_location_revision,
                    provider: ProviderKind::Codex,
                },
            ),
            ApplicationAction::NewAtSameLocation {
                source_workstream_id,
                expected_workstream_revision,
                provider: ProviderKind::Codex,
            } => Some(
                ObserverIntent::NewAtSameLocation {
                    source_workstream_id: *source_workstream_id,
                    expected_workstream_revision: *expected_workstream_revision,
                    provider: ProviderKind::Codex,
                },
            ),
            ApplicationAction::Fork {
                source_workstream_id,
                expected_workstream_revision,
                provider: ProviderKind::Codex,
            } => Some(
                ObserverIntent::Fork {
                    source_workstream_id: *source_workstream_id,
                    expected_workstream_revision: *expected_workstream_revision,
                    provider: ProviderKind::Codex,
                },
            ),
            _ => None,
        }
    }
}

/// How read-only observer evidence gates an observer-dependent request:
/// setup, trust review or update yields the interactive guide; any other
/// readiness but `Ready` refuses; `Ready` lets the request through.
pub open spec fn readiness_gate_result(
    evidence: ObserverReadinessEvidence,
    intent: ObserverIntent,
) -> Result<Option<ObserverReadinessGuide>, ApplicationError> {
    if readiness_needs_guide(evidence.readiness) {
        Ok(
            Some(
                ObserverReadinessGuide {
                    evidence,
                    intent,
                    explicit_interactive_consent_required: true,
                    native_trust_review_required: true,
                },
            ),
        )
    } else if evidence.readiness != ObserverReadiness::Ready {
        Err(ApplicationError::ObserverUnavailable { readiness: evidence.readiness })
    } else {
        Ok(None)
    }
}

/// Gates an observer-dependent request on read-only readiness evidence.
pub fn readiness_gate(evidence: ObserverReadinessEvidence, intent: ObserverIntent) -> (r: Result<
    Option<ObserverReadinessGuide>,
    ApplicationError,
>)
    ensures
        r == readiness_gate_result(evidence, intent),
{
    if evidence.needs_guide() {
        return Ok(
            Some(
                ObserverReadinessGuide {
                    evidence,
                    intent,
                    explicit_interactive_consent_required: true,
                    native_trust_review_required: true,
                },
            ),
        );
    }
    match evidence.readiness {
        ObserverReadiness::Ready => Ok(None),
        _ => Err(ApplicationError::ObserverUnavailable { readiness: evidence.readiness }),
    }
}

/// The observer gate of an action with `intent`, given the readiness the
/// backend read: a failed read fails; a readiness that needs interactive
/// setup answers with the guide before any effect; any other readiness but
/// `Ready` refuses; `Ready` (`None`) lets the action through.
pub open spec fn observer_gate_of(
    readiness: Result<ObserverReadinessEvidence, ApplicationError>,
    intent: ObserverIntent,
) -> Result<Option<ApplicationOutcome>, ApplicationError> {
    match readiness {
        Err(e) => Err(e),
        Ok(evidence) => match readiness_gate_result(evidence, intent) {
            Ok(Some(guide)) => Ok(Some(ApplicationOutcome::ObserverReadinessRequired(guide))),
            Ok(None) => Ok(None),
            Err(e) => Err(e),
        },
    }
}

/// The observer gate lets an action through exactly when the observer is
/// `Ready`; setup, trust review or an update answers with the interactive
/// guide for this evidence and intent, asking for consent and native trust
/// review; any other readiness refuses with that readiness; a failed read
/// fails unchanged.
pub proof fn lemma_observer_gate_passes_only_ready(
    readiness: Result<ObserverReadinessEvidence, ApplicationError>,
    intent: ObserverIntent,
)
    ensures
        observer_gate_of(readiness, intent) == Ok::<Option<ApplicationOutcome>, ApplicationError>(None)
            <==> (readiness matches Ok(evidence) && evidence.readiness == ObserverReadiness::Ready),
        readiness matches Err(e) ==> observer_gate_of(readiness, intent) == Err::<
            Option<ApplicationOutcome>,
            ApplicationError,
        >(e),
        readiness matches Ok(evidence) ==> ((evidence.readiness == ObserverReadiness::SetupRequired
            || evidence.readiness == ObserverReadiness::TrustReviewRequired || evidence.readiness
            == ObserverReadiness::UpdateRequired) ==> observer_gate_of(readiness, intent) == Ok::<
            Option<ApplicationOutcome>,
            ApplicationError,
        >(
            Some(
                ApplicationOutcome::ObserverReadinessRequired(
                    ObserverReadinessGuide {
                        evidence,
                        intent,
                        explicit_interactive_consent_required: true,
                        native_trust_review_required: true,
                    },
                ),
            ),
        )),
        readiness matches Ok(evidence) ==> ((evidence.readiness == ObserverReadiness::Modified
            || evidence.readiness == ObserverReadiness::Disabled || evidence.readiness
            == ObserverReadiness::Foreign || evidence.readiness == ObserverReadiness::Ambiguous
            || evidence.readiness == ObserverReadiness::Unknown) ==> observer_gate_of(readiness, intent)
            == Err::<Option<ApplicationOutcome>, ApplicationError>(
            ApplicationError::ObserverUnavailable { readiness: evidence.readiness },
        )),
{
}

/// Decides the observer gate of an action from the readiness read for it.
pub fn observer_gate_outcome(
    readiness: Result<ObserverReadinessEvidence, ApplicationError>,
    intent: ObserverIntent,
) -> (r: Result<Option<ApplicationOutcome>, ApplicationError>)
    ensures
        r == observer_gate_of(readiness, intent),
{
    match readiness {
        Err(e) => Err(e),
        Ok(evidence) => match readiness_gate(evidence, intent) {
            Ok(Some(guide)) => Ok(Some(ApplicationOutcome::ObserverReadinessRequired(guide))),
            Ok(None) => Ok(None),
            Err(e) => Err(e),
        },
    }
}

/// An outcome the facade hands back: a browser listing only once it is
/// validated and in listing order.
pub open spec fn outcome_checked(outcome: ApplicationOutcome) -> bool {
    outcome matches ApplicationOutcome::BrowserListed(listing) ==> listing_error(listing) is None
        && entries_sorted(listing.include_hidden, listing.entries@)
}

/// What checking a backend outcome gives: an invalid listing is refused
/// with its error; a valid one comes back as a listing-ordered permutation
/// of its entries with the same root, path, hidden flag and revision; any
/// other outcome comes back unchanged.
pub open spec fn outcome_check(
    outcome: ApplicationOutcome,
    r: Result<ApplicationOutcome, ApplicationError>,
) -> bool {
    &&& outcome matches ApplicationOutcome::BrowserListed(listing) ==> (match listing_error(listing) {
        Some(e) => r == Err::<ApplicationOutcome, ApplicationError>(e),
        None => r matches Ok(ApplicationOutcome::BrowserListed(sorted)) && sorted.root_label
            == listing.root_label && sorted.relative_path == listing.relative_path
            && sorted.include_hidden == listing.include_hidden && sorted.revision
            == listing.revision && is_permutation(sorted.entries@, listing.entries@),
    })
    &&& !(outcome is BrowserListed) ==> r == Ok::<ApplicationOutcome, ApplicationError>(outcome)
    &&& r matches Ok(o) ==> outcome_checked(o)
}

/// Validates and orders a browser listing in a backend outcome; other
/// outcomes pass through unchanged.
pub fn check_outcome(outcome: ApplicationOutcome) -> (r: Result<ApplicationOutcome, ApplicationError>)
    ensures
        outcome_check(outcome, r),
{
    match outcome {
        ApplicationOutcome::BrowserListed(listing) => {
            let ghost given = listing;
            let mut listing = listing;
            validate_and_sort_browser_listing(&mut listing)?;
            proof {
                lemma_permutation_elements(listing.entries@, given.entries@);
                assert forall|i: int| 0 <= i < listing.entries@.len() implies entry_name_ok(
                    (#[trigger] listing.entries@[i]).name@,
                ) by {
                    assert(given.entries@.contains(listing.entries@[i]));
                }
            }
            Ok(ApplicationOutcome::BrowserListed(listing))
        },
        other => Ok(other),
    }
}

/// What the facade answers to the backend's answer of an attachment: a
/// backend error unchanged; an attachment of exactly the requested Workstream
/// and Runtime; any other attachment refused as mismatched evidence.
pub open spec fn attach_answer(
    evidence: AttachEvidence,
    answer: Result<AttachOutcome, ApplicationError>,
) -> Result<AttachOutcome, ApplicationError> {
    match answer {
        Err(e) => Err(e),
        Ok(outcome) => if outcome.workstream_id == evidence.workstream_id && outcome.runtime_id
            == evidence.runtime_id {
            Ok(outcome)
        } else {
            Err(ApplicationError::AttachmentEvidenceMismatch)
        },
    }
}

/// Accepts a native attachment only for the exact requested Workstream and
/// Runtime, and passes a backend error through.
pub fn check_attach_outcome(
    evidence: AttachEvidence,
    answer: Result<AttachOutcome, ApplicationError>,
) -> (r: Result<AttachOutcome, ApplicationError>)
    ensures
        r == attach_answer(evidence, answer),
{
    let outcome = match answer {
        Err(e) => {
            return Err(e);
        },
        Ok(outcome) => outcome,
    };
    if outcome.workstream_id != evidence.workstream_id || outcome.runtime_id != evidence.runtime_id {
        return Err(ApplicationError::AttachmentEvidenceMismatch);
    }
    Ok(outcome)
}

/// What the facade answers to the backend's snapshot read: a failed read
/// unchanged; otherwise what building the snapshot of the read input gives.
pub open spec fn snapshot_answer(
    host_id: HostId,
    hostname: Option<Seq<char>>,
    read: Result<SnapshotInput, ApplicationError>,
    limits: SnapshotLimits,
    r: Result<ApplicationSnapshot, ApplicationError>,
) -> bool {
    match read {
        Err(e) => r == Err::<ApplicationSnapshot, ApplicationError>(e),
        Ok(input) => snapshot_built(host_id, hostname, input, limits, r),
    }
}

/// Builds the snapshot of what the backend read, passing a failed read through.
pub fn snapshot_from_read(
    host_id: HostId,
    hostname: Option<&str>,
    read: Result<SnapshotInput, ApplicationError>,
    limits: SnapshotLimits,
) -> (r: Result<ApplicationSnapshot, ApplicationError>)
    ensures
        snapshot_answer(host_id, optional_text_view(hostname), read, limits, r),
{
    match read {
        Err(e) => Err(e),
        Ok(input) => build_snapshot(host_id, hostname, input, limits),
    }
}

/// Where one application of an action stands.
#[derive(Debug, PartialEq, Eq)]
pub enum ApplyStage {
    /// The action has an observer intent: the readiness the backend reads
    /// for it decides whether the action may go on.
    AwaitReadiness(ObserverIntent),
    /// The action may reach the backend; its outcome is awaited.
    AwaitOutcome,
    /// The application is decided.
    Finished(Result<ApplicationOutcome, ApplicationError>),
}

/// What the backend answered to the request of a stage.
#[derive(Debug, PartialEq, Eq)]
pub enum ApplyEvent {
    /// The read-only observer readiness.
    Readiness(Result<ObserverReadinessEvidence, ApplicationError>),
    /// The backend's own outcome of the action.
    Outcome(Result<ApplicationOutcome, ApplicationError>),
}

/// Where applying `action` starts: an action with invalid fields is refused
/// at once; one with an observer intent first awaits readiness; any other
/// goes to the backend.
pub open spec fn apply_start_of(action: ApplicationAction) -> ApplyStage {
    match action_error(action) {
        Some(e) => ApplyStage::Finished(Err(e)),
        None => match observer_intent_of(action) {
            Some(intent) => ApplyStage::AwaitReadiness(intent),
            None => ApplyStage::AwaitOutcome,
        },
    }
}

/// One step of an application: readiness passes through the observer gate,
/// which either finishes with its guide or refusal or lets the action reach
/// the backend; the backend's outcome finishes with the checked outcome.
/// An answer that does not belong to the stage leaves it as it is.
pub open spec fn apply_next(stage: ApplyStage, event: ApplyEvent, next: ApplyStage) -> bool {
    match stage {
        ApplyStage::AwaitReadiness(intent) => match event {
            ApplyEvent::Readiness(readiness) => next == match observer_gate_of(readiness, intent) {
                Err(e) => ApplyStage::Finished(Err(e)),
                Ok(Some(guide)) => ApplyStage::Finished(Ok(guide)),
                Ok(None) => ApplyStage::AwaitOutcome,
            },
            ApplyEvent::Outcome(_) => next == stage,
        },
        ApplyStage::AwaitOutcome => match event {
            ApplyEvent::Outcome(Err(e)) => next == ApplyStage::Finished(Err(e)),
            ApplyEvent::Outcome(Ok(outcome)) => next matches ApplyStage::Finished(r) && outcome_check(
                outcome,
                r,
            ),
            ApplyEvent::Readiness(_) => next == stage,
        },
        ApplyStage::Finished(_) => next == stage,
    }
}

/// Decides where applying `action` starts.
pub fn apply_start(action: &ApplicationAction) -> (r: ApplyStage)
    ensures
        r == apply_start_of(*action),
{
    match action.validate() {
        Err(e) => ApplyStage::Finished(Err(e)),
        Ok(()) => match action.observer_intent() {
            Some(intent) => ApplyStage::AwaitReadiness(intent),
            None => ApplyStage::AwaitOutcome,
        },
    }
}

/// Advances an application by the backend's answer.
pub fn apply_step(stage: ApplyStage, event: ApplyEvent) -> (r: ApplyStage)
    ensures
        apply_next(stage, event, r),
{
    match stage {
        ApplyStage::AwaitReadiness(intent) => match event {
            ApplyEvent::Readiness(readiness) => match observer_gate_outcome(readiness, intent) {
                Err(e) => ApplyStage::Finished(Err(e)),
                Ok(Some(guide)) => ApplyStage::Finished(Ok(guide)),
                Ok(None) => ApplyStage::AwaitOutcome,
            },
            ApplyEvent::Outcome(_) => ApplyStage::AwaitReadiness(intent),
        },
        ApplyStage::AwaitOutcome => match event {
            ApplyEvent::Outcome(Err(e)) => ApplyStage::Finished(Err(e)),
            ApplyEvent::Outcome(Ok(outcome)) => ApplyStage::Finished(check_outcome(outcome)),
            ApplyEvent::Readiness(_) => ApplyStage::AwaitOutcome,
        },
        ApplyStage::Finished(r) => ApplyStage::Finished(r),
    }
}

/// A readiness answer that reports the observer `Ready`.
pub open spec fn reports_ready(event: ApplyEvent) -> bool {
    event matches ApplyEvent::Readiness(Ok(evidence)) && evidence.readiness == ObserverReadiness::Ready
}

/// A run that reached the stage in which the action goes to the backend.
pub open spec fn run_reaches_backend(stages: Seq<ApplyStage>) -> bool {
    exists|k: int| 0 <= k < stages.len() && #[trigger] stages[k] is AwaitOutcome
}

/// A run of an application of `action`: `stages[0]` is where it starts and
/// each answer in `events` moves `stages[k]` to `stages[k + 1]`.
pub open spec fn apply_run(action: ApplicationAction, events: Seq<ApplyEvent>, stages: Seq<ApplyStage>) -> bool {
    &&& stages.len() == events.len() + 1
    &&& stages[0] == apply_start_of(action)
    &&& forall|k: int|
        #![trigger events[k]]
        0 <= k < events.len() ==> apply_next(stages[k], events[k], stages[k + 1])
}

/// An action with an observer intent reaches the backend only after the
/// backend reported the observer `Ready`: in any run, a stage that awaits
/// the backend's outcome comes after a readiness answer that reports `Ready`.
pub proof fn lemma_backend_reached_only_after_ready(
    action: ApplicationAction,
    events: Seq<ApplyEvent>,
    stages: Seq<ApplyStage>,
    k: int,
)
    requires
        apply_run(action, events, stages),
        observer_intent_of(action) is Some,
        0 <= k < stages.len(),
        stages[k] is AwaitOutcome,
    ensures
        exists|j: int| 0 <= j < k && #[trigger] reports_ready(events[j]),
    decreases k,
{
    if k == 0 {
        assert(stages[0] !is AwaitOutcome);
    } else {
        assert(apply_next(stages[k - 1], events[k - 1], stages[k]));
        match stages[k - 1] {
            ApplyStage::AwaitOutcome => {
                lemma_backend_reached_only_after_ready(action, events, stages, k - 1);
                let j = choose|j: int| 0 <= j < k - 1 && #[trigger] reports_ready(events[j]);
                assert(0 <= j < k && reports_ready(events[j]));
            },
            ApplyStage::AwaitReadiness(intent) => {
                assert(reports_ready(events[k - 1]));
            },
            ApplyStage::Finished(_) => {},
        }
    }
}

/// The actions that start, recover or create a Codex Runtime: a Codex
/// start, recovery, operation recovery, location registration, new
/// Workstream at a location or beside another, or fork.
pub open spec fn launches_codex(action: ApplicationAction) -> bool {
    ||| action matches ApplicationAction::Start { provider: ProviderKind::Codex, .. }
    ||| action matches ApplicationAction::Recover { provider: ProviderKind::Codex, .. }
    ||| action matches ApplicationAction::RecoverOperation { provider: ProviderKind::Codex, .. }
    ||| action matches ApplicationAction::RegisterLocation { provider: ProviderKind::Codex, .. }
    ||| action matches ApplicationAction::NewAtLocation { provider: ProviderKind::Codex, .. }
    ||| action matches ApplicationAction::NewAtSameLocation { provider: ProviderKind::Codex, .. }
    ||| action matches ApplicationAction::Fork { provider: ProviderKind::Codex, .. }
}

/// Exactly the actions that launch Codex carry an observer intent, and the
/// intent names the action's own targets and expected revisions.
pub proof fn lemma_codex_launches_carry_their_intent(action: ApplicationAction)
    ensures
        observer_intent_of(action) is Some <==> launches_codex(action),
        action matches ApplicationAction::Start { workstream_id, expected_revision, provider }
            ==> (provider == ProviderKind::Codex ==> observer_intent_of(action) == Some(
            ObserverIntent::Start { workstream_id, expected_revision, provider },
        )),
        action matches ApplicationAction::Recover { workstream_id, expected_revision, provider }
            ==> (provider == ProviderKind::Codex ==> observer_intent_of(action) == Some(
            ObserverIntent::Recover { workstream_id, expected_revision, provider },
        )),
        action matches ApplicationAction::RecoverOperation { operation_id, expected_revision, provider }
            ==> (provider == ProviderKind::Codex ==> observer_intent_of(action) == Some(
            ObserverIntent::RecoverOperation { operation_id, expected_revision, provider },
        )),
        action matches ApplicationAction::RegisterLocation { expected_browser_revision, provider, .. }
            ==> (provider == ProviderKind::Codex ==> observer_intent_of(action) == Some(
            ObserverIntent::RegisterLocation { expected_browser_revision, provider },
        )),
        action matches ApplicationAction::NewAtLocation {
            project_id,
            location_id,
            expected_project_revision,
            expected_location_revision,
            provider,
        } ==> (provider == ProviderKind::Codex ==> observer_intent_of(action) == Some(
            ObserverIntent::NewAtLocation {
                project_id,
                location_id,
                expected_project_revision,
                expected_location_revision,
                provider,
            },
        )),
        action matches ApplicationAction::NewAtSameLocation {
            source_workstream_id,
            expected_workstream_revision,
            provider,
        } ==> (provider == ProviderKind::Codex ==> observer_intent_of(action) == Some(
            ObserverIntent::NewAtSameLocation { source_workstream_id, expected_workstream_revision, provider },
        )),
        action matches ApplicationAction::Fork { source_workstream_id, expected_workstream_revision, provider }
            ==> (provider == ProviderKind::Codex ==> observer_intent_of(action) == Some(
            ObserverIntent::Fork { source_workstream_id, expected_workstream_revision, provider },
        )),
{
}

/// An action that launches Codex first awaits observer readiness, and in any
/// run of its application the backend is reached only after a readiness
/// answer that reports the observer `Ready`.
pub proof fn lemma_codex_launch_reaches_backend_only_after_ready(
    action: ApplicationAction,
    events: Seq<ApplyEvent>,
    stages: Seq<ApplyStage>,
    k: int,
)
    requires
        launches_codex(action),
        apply_run(action, events, stages),
        0 <= k < stages.len(),
        stages[k] is AwaitOutcome,
    ensures
        apply_start_of(action) is AwaitReadiness,
        exists|j: int| 0 <= j < k && #[trigger] reports_ready(events[j]),
{
    lemma_codex_launches_carry_their_intent(action);
    lemma_backend_reached_only_after_ready(action, events, stages, k);
}

/// A refused or guided application never reaches the backend: once a run is
/// finished it stays finished with the same result, whatever comes after.
pub proof fn lemma_finished_is_final(
    action: ApplicationAction,
    events: Seq<ApplyEvent>,
    stages: Seq<ApplyStage>,
    j: int,
    k: int,
)
    requires
        apply_run(action, events, stages),
        0 <= j <= k < stages.len(),
        stages[j] is Finished,
    ensures
        stages[k] == stages[j],
    decreases k - j,
{
    if j < k {
        assert(apply_next(stages[j], events[j], stages[j + 1]));
        lemma_finished_is_final(action, events, stages, j + 1, k);
    }
}

/// Injected local state and action authority used by the host-local facade.
pub trait LocalApplicationBackend {
    /// Returns one passive, already-captured host-local projection input.
    fn read_snapshot(&self) -> Result<SnapshotInput, ApplicationError>;

    /// Reads readiness only; it never prepares or reviews the observer.
    fn observer_readiness(&self) -> Result<ObserverReadinessEvidence, ApplicationError>;

    /// Applies one explicit typed local action.
    fn apply(&mut self, action: &ApplicationAction) -> Result<ApplicationOutcome, ApplicationError>;

    /// Delegates exact opaque local evidence to native attachment authority.
    fn attach(&mut self, evidence: &AttachEvidence) -> Result<AttachOutcome, ApplicationError>;
}

/// Typed host-local application facade.
pub struct LocalApplication<B> {
    backend: B,
    host_id: HostId,
    hostname: Option<String>,
    limits: SnapshotLimits,
}

impl<B> LocalApplication<B> {
    pub closed spec fn spec_backend(&self) -> B {
        self.backend
    }

    pub closed spec fn spec_host_id(&self) -> HostId {
        self.host_id
    }

    pub closed spec fn spec_hostname(&self) -> Option<Seq<char>> {
        match self.hostname {
            Some(h) => Some(h@),
            None => None,
        }
    }

    pub closed spec fn spec_limits(&self) -> SnapshotLimits {
        self.limits
    }

    /// Builds a facade with production hard bounds.
    pub fn new(backend: B, host_id: HostId, hostname: Option<String>) -> (r: LocalApplication<B>)
        ensures
            r.spec_backend() == backend,
            r.spec_host_id() == host_id,
            r.spec_hostname() == (match hostname {
                Some(h) => Some(h@),
                None => None::<Seq<char>>,
            }),
            r.spec_limits() == SnapshotLimits::spec_production(),
    {
        LocalApplication { backend, host_id, hostname, limits: SnapshotLimits::production() }
    }

    /// Convenience constructor for a borrowed hostname sample.
    pub fn with_hostname(backend: B, host_id: HostId, hostname: Option<&str>) -> (r: LocalApplication<B>)
        ensures
            r.spec_backend() == backend,
            r.spec_host_id() == host_id,
            r.spec_hostname() == optional_text_view(hostname),
            r.spec_limits() == SnapshotLimits::spec_production(),
    {
        let owned = match hostname {
            Some(h) => Some(String::from_str(h)),
            None => None,
        };
        LocalApplication::new(backend, host_id, owned)
    }

    /// Uses explicit projection bounds.
    pub fn with_limits(self, limits: SnapshotLimits) -> (r: LocalApplication<B>)
        ensures
            r.spec_backend() == self.spec_backend(),
            r.spec_host_id() == self.spec_host_id(),
            r.spec_hostname() == self.spec_hostname(),
            r.spec_limits() == limits,
    {
        LocalApplication { backend: self.backend, host_id: self.host_id, hostname: self.hostname, limits }
    }

    /// The injected backend.
    pub fn backend(&self) -> (r: &B)
        ensures
            *r == self.spec_backend(),
    {
        &self.backend
    }

    /// Mutable access to the injected backend.
    pub fn backend_mut(&mut self) -> (r: &mut B)
        ensures
            *r == old(self).spec_backend(),
            final(self).spec_backend() == *final(r),
            final(self).spec_host_id() == old(self).spec_host_id(),
            final(self).spec_hostname() == old(self).spec_hostname(),
            final(self).spec_limits() == old(self).spec_limits(),
    {
        &mut self.backend
    }

    fn hostname_str(&self) -> (r: Option<&str>)
        ensures
            optional_text_view(r) == self.spec_hostname(),
    {
        match &self.hostname {
            Some(h) => Some(h.as_str()),
            None => None,
        }
    }

    /// The display-only current-host label.
    pub fn host_display(&self) -> (r: String)
        ensures
            r@ == host_label(self.spec_host_id(), self.spec_hostname()),
            host_label_ok(r@),
    {
        derived_host_label(self.host_id, self.hostname_str())
    }
}

impl<B: LocalApplicationBackend> LocalApplication<B> {
    /// Builds one deterministic, bounded projection of what the backend
    /// reads: `snapshot_from_read` of its one read.
    pub fn snapshot(&self) -> (r: Result<ApplicationSnapshot, ApplicationError>)
        ensures
            exists|read: Result<SnapshotInput, ApplicationError>|
                #[trigger] snapshot_answer(
                    self.spec_host_id(),
                    self.spec_hostname(),
                    read,
                    self.spec_limits(),
                    r,
                ),
            r matches Ok(snapshot) ==> exists|input: SnapshotInput|
                snapshot_input_ok(input, self.spec_limits()) && snapshot_assembled(
                    snapshot,
                    self.spec_host_id(),
                    self.spec_hostname(),
                    input,
                ),
    {
        let read = self.backend.read_snapshot();
        let ghost captured = read;
        let result = snapshot_from_read(self.host_id, self.hostname_str(), read, self.limits);
        proof {
            assert(snapshot_answer(
                self.spec_host_id(),
                self.spec_hostname(),
                captured,
                self.spec_limits(),
                result,
            ));
            if result is Ok {
                let input = captured->Ok_0;
                assert(snapshot_input_ok(input, self.spec_limits()) && snapshot_assembled(
                    result->Ok_0,
                    self.spec_host_id(),
                    self.spec_hostname(),
                    input,
                ));
            }
        }
        result
    }

    /// Applies one typed action as a run of `apply_step` from `apply_start`:
    /// an action with invalid fields is refused before the backend sees it;
    /// an action with an observer intent asks the backend for readiness only,
    /// and reaches the backend's `apply` only when the observer gate lets it
    /// through; the backend's outcome is checked before it is returned. A
    /// run that never reaches the backend (a refusal or a readiness guide)
    /// leaves the backend as it was.
    pub fn apply(&mut self, action: ApplicationAction) -> (r: Result<ApplicationOutcome, ApplicationError>)
        ensures
            action_error(action) matches Some(e) ==> r == Err::<ApplicationOutcome, ApplicationError>(e)
                && final(self).spec_backend() == old(self).spec_backend(),
            r matches Ok(outcome) ==> outcome_checked(outcome),
            exists|events: Seq<ApplyEvent>, stages: Seq<ApplyStage>|
                apply_run(action, events, stages) && stages.last() == ApplyStage::Finished(r) && (
                !run_reaches_backend(stages) ==> final(self).spec_backend() == old(
                self,
                ).spec_backend()),
            final(self).spec_host_id() == old(self).spec_host_id(),
            final(self).spec_hostname() == old(self).spec_hostname(),
            final(self).spec_limits() == old(self).spec_limits(),
    {
        let ghost before = self.backend;
        let mut stage = apply_start(&action);
        let ghost mut events: Seq<ApplyEvent> = Seq::empty();
        let ghost mut stages: Seq<ApplyStage> = seq![stage];
        if let ApplyStage::AwaitReadiness(_) = &stage {
            let event = ApplyEvent::Readiness(self.backend.observer_readiness());
            proof {
                events = events.push(event);
            }
            stage = apply_step(stage, event);
            proof {
                stages = stages.push(stage);
            }
        }
        assert(apply_run(action, events, stages) && stages.last() == stage);
        assert(self.backend == before);
        assert(stage is AwaitOutcome ==> run_reaches_backend(stages));
        if let ApplyStage::AwaitOutcome = &stage {
            let event = ApplyEvent::Outcome(self.backend.apply(&action));
            proof {
                events = events.push(event);
            }
            stage = apply_step(stage, event);
            proof {
                let reached = stages.len() - 1;
                stages = stages.push(stage);
                assert(stages[reached] is AwaitOutcome);
                assert(run_reaches_backend(stages));
            }
        }
        assert(apply_run(action, events, stages) && stages.last() == stage);
        assert(!run_reaches_backend(stages) ==> self.backend == before);
        match stage {
            ApplyStage::Finished(r) => r,
            _ => {
                proof {
                    assert(false);
                }
                Err(ApplicationError::AttachmentEvidenceMismatch)
            },
        }
    }

    /// Delegates exact opaque Workstream/Runtime evidence to native attach and
    /// accepts only the exact pair it asked for.
    pub fn attach(&mut self, evidence: AttachEvidence) -> (r: Result<AttachOutcome, ApplicationError>)
        ensures
            exists|answer: Result<AttachOutcome, ApplicationError>|
                r == #[trigger] attach_answer(evidence, answer),
            r matches Ok(outcome) ==> outcome.workstream_id == evidence.workstream_id
                && outcome.runtime_id == evidence.runtime_id,
    {
        let answer = self.backend.attach(&evidence);
        let ghost captured = answer;
        let r = check_attach_outcome(evidence, answer);
        assert(r == attach_answer(evidence, captured));
        r
    }
}


/// What an inspection of the owned observer profile found.
#[derive(Clone, Copy, Debug, PartialEq, Eq, Structural)]
pub enum ProfileInspection {
    Missing,
    Foreign,
    Modified,
    UpdateRequired,
    TrustPending,
    Ready,
}

/// Readiness from the durable integration lifecycle and the inspected
/// profile: a disabled integration wins; otherwise the profile decides, and a
/// ready profile defers to the recorded lifecycle.
pub open spec fn profile_readiness(
    lifecycle: Option<IntegrationLifecycle>,
    profile: ProfileInspection,
) -> ObserverReadiness {
    if lifecycle == Some(IntegrationLifecycle::Disabled) {
        ObserverReadiness::Disabled
    } else {
        match profile {
            ProfileInspection::Missing => ObserverReadiness::SetupRequired,
            ProfileInspection::Foreign => ObserverReadiness::Foreign,
            ProfileInspection::Modified => ObserverReadiness::Modified,
            ProfileInspection::UpdateRequired => ObserverReadiness::UpdateRequired,
            ProfileInspection::TrustPending => ObserverReadiness::TrustReviewRequired,
            ProfileInspection::Ready => match lifecycle {
                Some(IntegrationLifecycle::Modified) => ObserverReadiness::Modified,
                Some(IntegrationLifecycle::TrustPending) => ObserverReadiness::TrustReviewRequired,
                _ => ObserverReadiness::Ready,
            },
        }
    }
}

/// Maps the integration lifecycle and profile inspection to readiness.
pub fn map_profile_readiness(
    lifecycle: Option<IntegrationLifecycle>,
    profile: ProfileInspection,
) -> (r: ObserverReadiness)
    ensures
        r == profile_readiness(lifecycle, profile),
{
    if let Some(IntegrationLifecycle::Disabled) = lifecycle {
        return ObserverReadiness::Disabled;
    }
    match profile {
        ProfileInspection::Missing => ObserverReadiness::SetupRequired,
        ProfileInspection::Foreign => ObserverReadiness::Foreign,
        ProfileInspection::Modified => ObserverReadiness::Modified,
        ProfileInspection::UpdateRequired => ObserverReadiness::UpdateRequired,
        ProfileInspection::TrustPending => ObserverReadiness::TrustReviewRequired,
        ProfileInspection::Ready => match lifecycle {
            Some(IntegrationLifecycle::Ready) | None => ObserverReadiness::Ready,
            Some(IntegrationLifecycle::Modified) => ObserverReadiness::Modified,
            Some(IntegrationLifecycle::TrustPending) => ObserverReadiness::TrustReviewRequired,
            Some(IntegrationLifecycle::Disabled) => ObserverReadiness::Disabled,
        },
    }
}

/// The capability row an unready observer leaves for Codex.
pub open spec fn observer_not_ready_capability() -> ProviderCapability {
    ProviderCapability {
        provider: ProviderKind::Codex,
        status: ProviderCapabilityStatus::Unavailable,
        reason: Some(ProviderCapabilityReason::ObserverNotReady),
        fresh_launch: false,
        exact_resume: false,
        observe: false,
        metadata_read: false,
        navigator_rename: false,
        fork: false,
    }
}

/// A row after the observer constraint: unless the observer is ready, an
/// available Codex row becomes unavailable for want of the observer.
pub open spec fn constrained_capability(c: ProviderCapability, readiness: ObserverReadiness) -> ProviderCapability {
    if readiness != ObserverReadiness::Ready && c.provider == ProviderKind::Codex && c.status
        == ProviderCapabilityStatus::Available {
        observer_not_ready_capability()
    } else {
        c
    }
}

/// Constrains the Codex capability rows by observer readiness.
pub fn constrain_codex_capability(
    capabilities: Vec<ProviderCapability>,
    readiness: ObserverReadiness,
) -> (r: Vec<ProviderCapability>)
    ensures
        r@.len() == capabilities@.len(),
        forall|i: int| 0 <= i < r@.len() ==> #[trigger] r@[i] == constrained_capability(capabilities@[i], readiness),
{
    let mut capabilities = capabilities;
    let ghost given = capabilities@;
    if readiness == ObserverReadiness::Ready {
        return capabilities;
    }
    let mut i: usize = 0;
    while i < capabilities.len()
        invariant
            readiness != ObserverReadiness::Ready,
            capabilities@.len() == given.len(),
            i <= capabilities@.len(),
            forall|k: int| 0 <= k < i ==> #[trigger] capabilities@[k] == constrained_capability(given[k], readiness),
            forall|k: int| i <= k < capabilities@.len() ==> #[trigger] capabilities@[k] == given[k],
        decreases capabilities@.len() - i,
    {
        let c = capabilities[i];
        if c.provider == ProviderKind::Codex && c.status == ProviderCapabilityStatus::Available {
            capabilities.set(
                i,
                ProviderCapability {
                    provider: ProviderKind::Codex,
                    status: ProviderCapabilityStatus::Unavailable,
                    reason: Some(ProviderCapabilityReason::ObserverNotReady),
                    fresh_launch: false,
                    exact_resume: false,
                    observe: false,
                    metadata_read: false,
                    navigator_rename: false,
                    fork: false,
                },
            );
        }
        i = i + 1;
    }
    capabilities
}

/// Constraining capabilities twice is constraining them once.
pub proof fn lemma_constrain_idempotent(c: ProviderCapability, readiness: ObserverReadiness)
    ensures
        constrained_capability(constrained_capability(c, readiness), readiness)
            == constrained_capability(c, readiness),
{
}

} // verus!
