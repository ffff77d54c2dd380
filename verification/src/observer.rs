//! Read-only classification of the Codex observer contract that gates a
//! shell launch, and the adjacent-Workstream choice of provider cycling.

use vstd::prelude::*;

use crate::actions::{RuntimeProbe, RuntimeRecord};
use crate::domain::{IntegrationLifecycle, ProviderKind, Revision, RuntimeStatus, WorkstreamLifecycle};
use crate::facade::ProfileInspection;
use crate::lifecycle::WorkstreamOverview;

verus! {

/// Readiness of the observer contract for a shell launch.
#[derive(Clone, Copy, Debug, PartialEq, Eq, Structural)]
pub enum LaunchReadiness {
    Ready,
    /// Native trust is present but the durable lifecycle still needs its
    /// revision-fenced finalization; no second native review is needed.
    TrustFinalizationRequired,
    SetupRequired,
    TrustReviewRequired,
    UpdateRequired,
    Modified,
    Disabled,
    Foreign,
    Ambiguous,
    Unknown,
}

pub open spec fn readiness_needs_interactive_setup(r: LaunchReadiness) -> bool {
    r == LaunchReadiness::SetupRequired || r == LaunchReadiness::TrustFinalizationRequired || r
        == LaunchReadiness::TrustReviewRequired || r == LaunchReadiness::UpdateRequired
}

impl LaunchReadiness {
    /// Whether the launch must stop for interactive setup or review.
    pub fn needs_interactive_setup(self) -> (r: bool)
        ensures
            r == readiness_needs_interactive_setup(self),
    {
        match self {
            LaunchReadiness::SetupRequired
            | LaunchReadiness::TrustFinalizationRequired
            | LaunchReadiness::TrustReviewRequired
            | LaunchReadiness::UpdateRequired => true,
            _ => false,
        }
    }
}

/// Failures of observer activation and classification.
#[derive(Clone, Copy, Debug, PartialEq, Eq, Structural)]
pub enum ObserverActivationError {
    State,
    Profile,
    LiveRuntime,
    EvidenceChanged,
    NotReady,
}

/// Where a recorded integration's Codex home lies.
#[derive(Clone, Copy, Debug, PartialEq, Eq, Structural)]
pub enum CodexHomeShape {
    /// The owned profile path has no parent directory.
    NoParent,
    Relative,
    Absolute,
}

/// The outcome of inspecting the profile: `None` when no profile manager is
/// available, `Some(None)` when the inspection failed.
pub open spec fn launch_readiness_of(
    lifecycle: Option<IntegrationLifecycle>,
    home: CodexHomeShape,
    inspection: Option<Option<ProfileInspection>>,
) -> Result<LaunchReadiness, ObserverActivationError> {
    match lifecycle {
        None => match inspection {
            None => Err(ObserverActivationError::NotReady),
            Some(None) => Err(ObserverActivationError::Profile),
            Some(Some(ProfileInspection::Missing)) => Ok(LaunchReadiness::SetupRequired),
            Some(Some(_)) => Ok(LaunchReadiness::Foreign),
        },
        Some(IntegrationLifecycle::Disabled) => Ok(LaunchReadiness::Disabled),
        Some(l) => if home != CodexHomeShape::Absolute {
            Ok(LaunchReadiness::Ambiguous)
        } else {
            match inspection {
                None => Err(ObserverActivationError::NotReady),
                Some(found) => {
                    let i = match found {
                        Some(i) => i,
                        None => ProfileInspection::Modified,
                    };
                    Ok(
                        match i {
                            ProfileInspection::Missing => LaunchReadiness::Unknown,
                            ProfileInspection::Foreign => LaunchReadiness::Foreign,
                            ProfileInspection::Modified => LaunchReadiness::Modified,
                            ProfileInspection::UpdateRequired => LaunchReadiness::UpdateRequired,
                            ProfileInspection::TrustPending => if l == IntegrationLifecycle::Modified {
                                LaunchReadiness::Modified
                            } else {
                                LaunchReadiness::TrustReviewRequired
                            },
                            ProfileInspection::Ready => match l {
                                IntegrationLifecycle::Ready => LaunchReadiness::Ready,
                                IntegrationLifecycle::TrustPending =>
                                    LaunchReadiness::TrustFinalizationRequired,
                                IntegrationLifecycle::Modified => LaunchReadiness::Modified,
                                IntegrationLifecycle::Disabled => LaunchReadiness::Disabled,
                            },
                        },
                    )
                },
            }
        },
    }
}

/// What the readiness classification reads of the recorded Codex
/// integration: its durable lifecycle and its revision.
#[derive(Clone, Copy, Debug, PartialEq, Eq, Structural)]
pub struct CodexIntegrationRecord {
    pub lifecycle: IntegrationLifecycle,
    pub revision: Revision,
}

/// The readiness of the observer contract with the integration it was read
/// from and that integration's revision.
#[derive(Clone, Copy, Debug, PartialEq, Eq, Structural)]
pub struct LaunchReadinessEvidence {
    pub readiness: LaunchReadiness,
    pub integration: Option<CodexIntegrationRecord>,
    pub integration_revision: Option<Revision>,
}

/// The lifecycle of a recorded integration, if there is one.
pub open spec fn integration_lifecycle(integration: Option<CodexIntegrationRecord>) -> Option<
    IntegrationLifecycle,
> {
    match integration {
        Some(i) => Some(i.lifecycle),
        None => None,
    }
}

/// The revision of a recorded integration, if there is one.
pub open spec fn integration_revision(integration: Option<CodexIntegrationRecord>) -> Option<Revision> {
    match integration {
        Some(i) => Some(i.revision),
        None => None,
    }
}

/// The classified evidence: the readiness from the integration's lifecycle,
/// the home shape and the inspection, carrying the integration and its
/// revision; a classification failure is the result.
pub open spec fn launch_evidence_of(
    integration: Option<CodexIntegrationRecord>,
    home: CodexHomeShape,
    inspection: Option<Option<ProfileInspection>>,
) -> Result<LaunchReadinessEvidence, ObserverActivationError> {
    match launch_readiness_of(integration_lifecycle(integration), home, inspection) {
        Ok(readiness) => Ok(
            LaunchReadinessEvidence {
                readiness,
                integration,
                integration_revision: integration_revision(integration),
            },
        ),
        Err(e) => Err(e),
    }
}

fn launch_readiness(
    lifecycle: Option<IntegrationLifecycle>,
    home: CodexHomeShape,
    inspection: Option<Option<ProfileInspection>>,
) -> (r: Result<LaunchReadiness, ObserverActivationError>)
    ensures
        r == launch_readiness_of(lifecycle, home, inspection),
{
    match lifecycle {
        None => match inspection {
            None => Err(ObserverActivationError::NotReady),
            Some(None) => Err(ObserverActivationError::Profile),
            Some(Some(ProfileInspection::Missing)) => Ok(LaunchReadiness::SetupRequired),
            Some(Some(_)) => Ok(LaunchReadiness::Foreign),
        },
        Some(IntegrationLifecycle::Disabled) => Ok(LaunchReadiness::Disabled),
        Some(l) => {
            if home != CodexHomeShape::Absolute {
                return Ok(LaunchReadiness::Ambiguous);
            }
            let found = match inspection {
                None => {
                    return Err(ObserverActivationError::NotReady);
                },
                Some(found) => found,
            };
            let i = match found {
                Some(i) => i,
                None => ProfileInspection::Modified,
            };
            Ok(
                match i {
                    ProfileInspection::Missing => LaunchReadiness::Unknown,
                    ProfileInspection::Foreign => LaunchReadiness::Foreign,
                    ProfileInspection::Modified => LaunchReadiness::Modified,
                    ProfileInspection::UpdateRequired => LaunchReadiness::UpdateRequired,
                    ProfileInspection::TrustPending => if l == IntegrationLifecycle::Modified {
                        LaunchReadiness::Modified
                    } else {
                        LaunchReadiness::TrustReviewRequired
                    },
                    ProfileInspection::Ready => match l {
                        IntegrationLifecycle::Ready => LaunchReadiness::Ready,
                        IntegrationLifecycle::TrustPending => LaunchReadiness::TrustFinalizationRequired,
                        IntegrationLifecycle::Modified => LaunchReadiness::Modified,
                        IntegrationLifecycle::Disabled => LaunchReadiness::Disabled,
                    },
                },
            )
        },
    }
}

/// Classifies the observer contract from the recorded integration, the shape
/// of the recorded Codex home and the profile inspection, and returns the
/// readiness as evidence with the integration and its revision.
pub fn classify_observer_readiness(
    integration: Option<CodexIntegrationRecord>,
    home: CodexHomeShape,
    inspection: Option<Option<ProfileInspection>>,
) -> (r: Result<LaunchReadinessEvidence, ObserverActivationError>)
    ensures
        r == launch_evidence_of(integration, home, inspection),
{
    let lifecycle = match integration {
        Some(i) => Some(i.lifecycle),
        None => None,
    };
    let revision = match integration {
        Some(i) => Some(i.revision),
        None => None,
    };
    match launch_readiness(lifecycle, home, inspection) {
        Ok(readiness) => Ok(LaunchReadinessEvidence { readiness, integration, integration_revision: revision }),
        Err(e) => Err(e),
    }
}

/// The observer is ready for a launch exactly when a recorded integration
/// whose lifecycle is `Ready` has an absolute Codex home and a profile
/// inspected as `Ready`. For a recorded, enabled integration with an absolute
/// home, an outdated profile asks for an update, which needs interactive
/// setup before a launch.
pub proof fn lemma_launch_ready_exactly_when_everything_is_ready(
    integration: Option<CodexIntegrationRecord>,
    home: CodexHomeShape,
    inspection: Option<Option<ProfileInspection>>,
)
    ensures
        (launch_evidence_of(integration, home, inspection) matches Ok(evidence) && evidence.readiness
            == LaunchReadiness::Ready) <==> (integration matches Some(i) && i.lifecycle
            == IntegrationLifecycle::Ready && home == CodexHomeShape::Absolute && inspection == Some(
            Some(ProfileInspection::Ready),
        )),
        integration matches Some(i) ==> (i.lifecycle != IntegrationLifecycle::Disabled && home
            == CodexHomeShape::Absolute && inspection == Some(Some(ProfileInspection::UpdateRequired))
            ==> (launch_evidence_of(integration, home, inspection) matches Ok(evidence)
            && evidence.readiness == LaunchReadiness::UpdateRequired && evidence.integration
            == integration && evidence.integration_revision == Some(i.revision))),
        readiness_needs_interactive_setup(LaunchReadiness::UpdateRequired),
        !readiness_needs_interactive_setup(LaunchReadiness::Ready),
{
}

/// A disabled integration is never ready, whatever the profile shows.
pub proof fn lemma_disabled_is_never_ready(
    home: CodexHomeShape,
    inspection: Option<Option<ProfileInspection>>,
)
    ensures
        launch_readiness_of(Some(IntegrationLifecycle::Disabled), home, inspection) == Ok::<
            LaunchReadiness,
            ObserverActivationError,
        >(LaunchReadiness::Disabled),
{
}

/// A Workstream row provider cycling may land on: active, open, not
/// onboarding, with a Runtime that is idle, working or asking for attention.
pub open spec fn cycle_row_eligible(
    archived: bool,
    lifecycle: WorkstreamLifecycle,
    onboarding: bool,
    runtime_status: Option<RuntimeStatus>,
) -> bool {
    &&& !archived
    &&& lifecycle == WorkstreamLifecycle::Open
    &&& !onboarding
    &&& runtime_status matches Some(s) && (s == RuntimeStatus::Idle || s == RuntimeStatus::Working
        || s == RuntimeStatus::Attention)
}

/// Whether provider cycling may land on a Workstream row.
pub fn cycle_workstream_eligible(
    archived: bool,
    lifecycle: WorkstreamLifecycle,
    onboarding: bool,
    runtime_status: Option<RuntimeStatus>,
) -> (r: bool)
    ensures
        r == cycle_row_eligible(archived, lifecycle, onboarding, runtime_status),
{
    !archived && lifecycle == WorkstreamLifecycle::Open && !onboarding && match runtime_status {
        Some(RuntimeStatus::Idle) | Some(RuntimeStatus::Working) | Some(RuntimeStatus::Attention) => true,
        _ => false,
    }
}

/// The direction of a provider cycle.
#[derive(Clone, Copy, Debug, PartialEq, Eq, Structural)]
pub enum CycleDirection {
    Previous,
    Next,
}

/// The adjacent eligible row: the nearest eligible row before the source
/// for `Previous`, after it for `Next`; the order never wraps.
pub open spec fn adjacent_candidate_ok(
    eligible: Seq<bool>,
    source: int,
    direction: CycleDirection,
    candidate: Option<usize>,
) -> bool {
    match direction {
        CycleDirection::Previous => match candidate {
            Some(k) => 0 <= k && k < source && eligible[k as int] && forall|m: int|
                k < m && m < source ==> !#[trigger] eligible[m],
            None => forall|m: int| 0 <= m && m < source && m < eligible.len() ==> !#[trigger] eligible[m],
        },
        CycleDirection::Next => match candidate {
            Some(k) => source < k && k < eligible.len() && eligible[k as int] && forall|m: int|
                source < m && m < k ==> !#[trigger] eligible[m],
            None => forall|m: int| source < m && m < eligible.len() ==> !#[trigger] eligible[m],
        },
    }
}

/// Chooses the adjacent eligible row of the visual order.
pub fn adjacent_cycle_candidate(eligible: &Vec<bool>, source: usize, direction: CycleDirection) -> (r:
    Option<usize>)
    requires
        source <= eligible@.len(),
    ensures
        adjacent_candidate_ok(eligible@, source as int, direction, r),
{
    match direction {
        CycleDirection::Previous => {
            let mut k: usize = source;
            while k > 0
                invariant
                    direction == CycleDirection::Previous,
                    k <= source <= eligible@.len(),
                    forall|m: int| k <= m < source ==> !#[trigger] eligible@[m],
                decreases k,
            {
                if eligible[k - 1] {
                    return Some(k - 1);
                }
                k = k - 1;
            }
            None
        },
        CycleDirection::Next => {
            let n = eligible.len();
            if source >= n {
                return None;
            }
            let mut k: usize = source + 1;
            while k < n
                invariant
                    direction == CycleDirection::Next,
                    n == eligible@.len(),
                    source < k <= n,
                    forall|m: int| source < m < k ==> !#[trigger] eligible@[m],
                decreases n - k,
            {
                if eligible[k] {
                    return Some(k);
                }
                k = k + 1;
            }
            None
        },
    }
}

/// Probes a private Runtime's pane; users supply the probe.
pub trait RuntimePaneProbe {
    fn probe_runtime(&mut self, record: &RuntimeRecord) -> Result<RuntimeProbe, ()>;
}

/// A Codex Workstream whose Runtime record names another provider.
pub open spec fn codex_record_mismatch(o: WorkstreamOverview) -> bool {
    o.provider == ProviderKind::Codex && (o.runtime matches Some(record) && record.provider
        != ProviderKind::Codex)
}

/// A Codex Workstream with a Runtime record, which must be probed.
pub open spec fn codex_runtime_recorded(o: WorkstreamOverview) -> bool {
    o.provider == ProviderKind::Codex && o.runtime is Some
}

/// A probe of a Runtime proves it absent only when it found it missing.
pub open spec fn probe_shows_absent(probe: Result<RuntimeProbe, ()>) -> bool {
    probe == Ok::<RuntimeProbe, ()>(RuntimeProbe::Missing)
}

/// Whether one probe result proves its Runtime absent.
pub fn runtime_probe_shows_absent(probe: &Result<RuntimeProbe, ()>) -> (r: bool)
    ensures
        r == probe_shows_absent(*probe),
{
    match probe {
        Ok(RuntimeProbe::Missing) => true,
        _ => false,
    }
}

/// Whether no Codex Workstream can still have a live private Runtime: every
/// Codex Runtime record must be a Codex record whose pane a probe finds
/// missing. OpenCode Workstreams are not probed. A record of another
/// provider refuses whatever the probes give, and with no Codex Runtime
/// recorded nothing is probed and nothing refuses.
pub fn no_live_codex_runtime<P: RuntimePaneProbe>(overviews: &Vec<WorkstreamOverview>, probe: &mut P) -> (r:
    bool)
    ensures
        (forall|i: int| 0 <= i < overviews@.len() ==> !codex_runtime_recorded(
            #[trigger] overviews@[i],
        )) ==> r,
        (exists|i: int| 0 <= i < overviews@.len() && codex_record_mismatch(#[trigger] overviews@[i]))
            ==> !r,
{
    let mut k: usize = 0;
    while k < overviews.len()
        invariant
            k <= overviews@.len(),
            forall|i: int| 0 <= i < k ==> !codex_record_mismatch(#[trigger] overviews@[i]),
        decreases overviews@.len() - k,
    {
        let overview = &overviews[k];
        if overview.provider == ProviderKind::Codex {
            if let Some(record) = &overview.runtime {
                if record.provider != ProviderKind::Codex {
                    return false;
                }
                let found = probe.probe_runtime(record);
                if !runtime_probe_shows_absent(&found) {
                    proof {
                        assert(codex_runtime_recorded(overviews@[k as int]));
                    }
                    return false;
                }
            }
        }
        k = k + 1;
    }
    true
}

/// What the observer diagnosis found: no integration, an integration whose
/// profile schema is outdated, or the inspected owned profile with the
/// integration's lifecycle.
#[derive(Clone, Copy, Debug, PartialEq, Eq, Structural)]
pub enum ObserverDoctorEvidence {
    NotInstalled,
    SchemaOutdated,
    Inspected { lifecycle: IntegrationLifecycle, inspection: ProfileInspection },
}

/// The diagnosis line for what was found; a ready profile reports the
/// integration's lifecycle.
pub open spec fn observer_doctor_text(e: ObserverDoctorEvidence) -> Seq<char> {
    match e {
        ObserverDoctorEvidence::NotInstalled => "observer: not installed"@,
        ObserverDoctorEvidence::SchemaOutdated => "observer: update required"@,
        ObserverDoctorEvidence::Inspected { lifecycle, inspection } => match inspection {
            ProfileInspection::UpdateRequired => "observer: update required"@,
            ProfileInspection::TrustPending => "observer: trust pending"@,
            ProfileInspection::Missing => "observer: owned profile is missing"@,
            ProfileInspection::Foreign => "observer: profile path is foreign"@,
            ProfileInspection::Modified => "observer: owned profile is modified"@,
            ProfileInspection::Ready => match lifecycle {
                IntegrationLifecycle::TrustPending => "observer: TrustPending"@,
                IntegrationLifecycle::Ready => "observer: Ready"@,
                IntegrationLifecycle::Modified => "observer: Modified"@,
                IntegrationLifecycle::Disabled => "observer: Disabled"@,
            },
        },
    }
}

/// The line the observer diagnosis prints for what it found.
pub fn observer_doctor_line(e: ObserverDoctorEvidence) -> (r: &'static str)
    ensures
        r@ == observer_doctor_text(e),
{
    match e {
        ObserverDoctorEvidence::NotInstalled => "observer: not installed",
        ObserverDoctorEvidence::SchemaOutdated => "observer: update required",
        ObserverDoctorEvidence::Inspected { lifecycle, inspection } => match inspection {
            ProfileInspection::UpdateRequired => "observer: update required",
            ProfileInspection::TrustPending => "observer: trust pending",
            ProfileInspection::Missing => "observer: owned profile is missing",
            ProfileInspection::Foreign => "observer: profile path is foreign",
            ProfileInspection::Modified => "observer: owned profile is modified",
            ProfileInspection::Ready => match lifecycle {
                IntegrationLifecycle::TrustPending => "observer: TrustPending",
                IntegrationLifecycle::Ready => "observer: Ready",
                IntegrationLifecycle::Modified => "observer: Modified",
                IntegrationLifecycle::Disabled => "observer: Disabled",
            },
        },
    }
}

} // verus!
