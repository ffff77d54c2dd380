//! The confirmed state cutover: its bounded confirmation, the read-only
//! plan classification, and the exact observer process identities that a
//! handover may act on.

use vstd::prelude::*;

use crate::state::StateError;
use crate::text::{seq_has_char, contains_char, text_eq};

verus! {

/// The only launch provenance that can authorize a destructive cutover.
#[derive(Clone, Copy, Debug, PartialEq, Eq, Structural)]
pub enum CutoverLaunchKind {
    OrdinaryInteractive,
    Hook,
    ObserverSidecar,
    HiddenHelper,
    Script,
}

/// The bounded categories that cutover discards.
#[derive(Clone, Copy, Debug, PartialEq, Eq, Structural, Hash, PartialOrd, Ord)]
pub enum DiscardedCutoverCategory {
    RemoteRegistrations,
    HostAliases,
    ClientProjectGrouping,
    ProjectHiddenState,
    CachedCapabilities,
    ExecutablePaths,
    ClientPreferences,
    LegacyPresentation,
}

impl DiscardedCutoverCategory {
    /// The category's display label.
    pub fn label(self) -> (r: &'static str)
        ensures
            r@.len() > 0,
            self == DiscardedCutoverCategory::RemoteRegistrations ==> r@ == "remote registrations"@,
            self == DiscardedCutoverCategory::HostAliases ==> r@ == "host aliases"@,
            self == DiscardedCutoverCategory::ClientProjectGrouping ==> r@
                == "client Project grouping and IDs"@,
            self == DiscardedCutoverCategory::ProjectHiddenState ==> r@ == "Project hidden state"@,
            self == DiscardedCutoverCategory::CachedCapabilities ==> r@ == "cached capabilities"@,
            self == DiscardedCutoverCategory::ExecutablePaths ==> r@ == "client executable paths"@,
            self == DiscardedCutoverCategory::ClientPreferences ==> r@ == "client preferences"@,
            self == DiscardedCutoverCategory::LegacyPresentation ==> r@
                == "the exact legacy presentation"@,
    {
        proof {
            reveal_strlit("remote registrations");
            reveal_strlit("host aliases");
            reveal_strlit("client Project grouping and IDs");
            reveal_strlit("Project hidden state");
            reveal_strlit("cached capabilities");
            reveal_strlit("client executable paths");
            reveal_strlit("client preferences");
            reveal_strlit("the exact legacy presentation");
        }
        match self {
            DiscardedCutoverCategory::RemoteRegistrations => "remote registrations",
            DiscardedCutoverCategory::HostAliases => "host aliases",
            DiscardedCutoverCategory::ClientProjectGrouping => "client Project grouping and IDs",
            DiscardedCutoverCategory::ProjectHiddenState => "Project hidden state",
            DiscardedCutoverCategory::CachedCapabilities => "cached capabilities",
            DiscardedCutoverCategory::ExecutablePaths => "client executable paths",
            DiscardedCutoverCategory::ClientPreferences => "client preferences",
            DiscardedCutoverCategory::LegacyPresentation => "the exact legacy presentation",
        }
    }
}

/// The bounded authoritative categories that survive cutover.
#[derive(Clone, Copy, Debug, PartialEq, Eq, Structural, Hash, PartialOrd, Ord)]
pub enum PreservedCutoverCategory {
    HostIdentity,
    Integrations,
    ProjectLocations,
    ProjectBrowserRoot,
    WorkstreamState,
    RuntimeGenerations,
    OpenCodeHandles,
    ProviderBindings,
    IndependentCreationRequests,
    Attention,
    CompoundOperations,
    PrivateRuntimeTmux,
    NativeProviderHistory,
}

impl PreservedCutoverCategory {
    /// The category's display label.
    pub fn label(self) -> (r: &'static str)
        ensures
            r@.len() > 0,
            self == PreservedCutoverCategory::HostIdentity ==> r@ == "host identity"@,
            self == PreservedCutoverCategory::Integrations ==> r@
                == "provider and observer integrations"@,
            self == PreservedCutoverCategory::ProjectLocations ==> r@ == "host-local ProjectLocations"@,
            self == PreservedCutoverCategory::ProjectBrowserRoot ==> r@ == "the Project browser root"@,
            self == PreservedCutoverCategory::WorkstreamState ==> r@
                == "Workstream provider, lifecycle, and activity state"@,
            self == PreservedCutoverCategory::RuntimeGenerations ==> r@ == "Runtime generations"@,
            self == PreservedCutoverCategory::OpenCodeHandles ==> r@ == "OpenCode Runtime handles"@,
            self == PreservedCutoverCategory::ProviderBindings ==> r@ == "provider bindings"@,
            self == PreservedCutoverCategory::IndependentCreationRequests ==> r@
                == "independent Runtime creation requests"@,
            self == PreservedCutoverCategory::Attention ==> r@ == "attention state"@,
            self == PreservedCutoverCategory::CompoundOperations ==> r@ == "compound operations"@,
            self == PreservedCutoverCategory::PrivateRuntimeTmux ==> r@
                == "private Runtime tmux servers"@,
            self == PreservedCutoverCategory::NativeProviderHistory ==> r@
                == "native provider history"@,
    {
        proof {
            reveal_strlit("host identity");
            reveal_strlit("provider and observer integrations");
            reveal_strlit("host-local ProjectLocations");
            reveal_strlit("the Project browser root");
            reveal_strlit("Workstream provider, lifecycle, and activity state");
            reveal_strlit("Runtime generations");
            reveal_strlit("OpenCode Runtime handles");
            reveal_strlit("provider bindings");
            reveal_strlit("independent Runtime creation requests");
            reveal_strlit("attention state");
            reveal_strlit("compound operations");
            reveal_strlit("private Runtime tmux servers");
            reveal_strlit("native provider history");
        }
        match self {
            PreservedCutoverCategory::HostIdentity => "host identity",
            PreservedCutoverCategory::Integrations => "provider and observer integrations",
            PreservedCutoverCategory::ProjectLocations => "host-local ProjectLocations",
            PreservedCutoverCategory::ProjectBrowserRoot => "the Project browser root",
            PreservedCutoverCategory::WorkstreamState =>
                "Workstream provider, lifecycle, and activity state",
            PreservedCutoverCategory::RuntimeGenerations => "Runtime generations",
            PreservedCutoverCategory::OpenCodeHandles => "OpenCode Runtime handles",
            PreservedCutoverCategory::ProviderBindings => "provider bindings",
            PreservedCutoverCategory::IndependentCreationRequests =>
                "independent Runtime creation requests",
            PreservedCutoverCategory::Attention => "attention state",
            PreservedCutoverCategory::CompoundOperations => "compound operations",
            PreservedCutoverCategory::PrivateRuntimeTmux => "private Runtime tmux servers",
            PreservedCutoverCategory::NativeProviderHistory => "native provider history",
        }
    }
}

/// Every discarded category, in the order the confirmation names them.
pub open spec fn standard_discarded() -> Seq<DiscardedCutoverCategory> {
    seq![
        DiscardedCutoverCategory::RemoteRegistrations,
        DiscardedCutoverCategory::HostAliases,
        DiscardedCutoverCategory::ClientProjectGrouping,
        DiscardedCutoverCategory::ProjectHiddenState,
        DiscardedCutoverCategory::CachedCapabilities,
        DiscardedCutoverCategory::ExecutablePaths,
        DiscardedCutoverCategory::ClientPreferences,
        DiscardedCutoverCategory::LegacyPresentation,
    ]
}

/// Every preserved category, in the order the confirmation names them.
pub open spec fn standard_preserved() -> Seq<PreservedCutoverCategory> {
    seq![
        PreservedCutoverCategory::HostIdentity,
        PreservedCutoverCategory::Integrations,
        PreservedCutoverCategory::ProjectLocations,
        PreservedCutoverCategory::ProjectBrowserRoot,
        PreservedCutoverCategory::WorkstreamState,
        PreservedCutoverCategory::RuntimeGenerations,
        PreservedCutoverCategory::OpenCodeHandles,
        PreservedCutoverCategory::ProviderBindings,
        PreservedCutoverCategory::IndependentCreationRequests,
        PreservedCutoverCategory::Attention,
        PreservedCutoverCategory::CompoundOperations,
        PreservedCutoverCategory::PrivateRuntimeTmux,
        PreservedCutoverCategory::NativeProviderHistory,
    ]
}

/// The exact summary shown before a launcher presents the confirmation.
#[derive(Clone, Debug, PartialEq, Eq)]
pub struct CutoverConfirmationSummary {
    discarded: Vec<DiscardedCutoverCategory>,
    preserved: Vec<PreservedCutoverCategory>,
}

impl CutoverConfirmationSummary {
    pub closed spec fn spec_discarded(&self) -> Seq<DiscardedCutoverCategory> {
        self.discarded@
    }

    pub closed spec fn spec_preserved(&self) -> Seq<PreservedCutoverCategory> {
        self.preserved@
    }

    /// The summary naming every discarded and every preserved category.
    pub fn standard() -> (r: CutoverConfirmationSummary)
        ensures
            r.spec_discarded() == standard_discarded(),
            r.spec_preserved() == standard_preserved(),
    {
        let discarded = vec![
            DiscardedCutoverCategory::RemoteRegistrations,
            DiscardedCutoverCategory::HostAliases,
            DiscardedCutoverCategory::ClientProjectGrouping,
            DiscardedCutoverCategory::ProjectHiddenState,
            DiscardedCutoverCategory::CachedCapabilities,
            DiscardedCutoverCategory::ExecutablePaths,
            DiscardedCutoverCategory::ClientPreferences,
            DiscardedCutoverCategory::LegacyPresentation,
        ];
        let preserved = vec![
            PreservedCutoverCategory::HostIdentity,
            PreservedCutoverCategory::Integrations,
            PreservedCutoverCategory::ProjectLocations,
            PreservedCutoverCategory::ProjectBrowserRoot,
            PreservedCutoverCategory::WorkstreamState,
            PreservedCutoverCategory::RuntimeGenerations,
            PreservedCutoverCategory::OpenCodeHandles,
            PreservedCutoverCategory::ProviderBindings,
            PreservedCutoverCategory::IndependentCreationRequests,
            PreservedCutoverCategory::Attention,
            PreservedCutoverCategory::CompoundOperations,
            PreservedCutoverCategory::PrivateRuntimeTmux,
            PreservedCutoverCategory::NativeProviderHistory,
        ];
        proof {
            assert(discarded@ =~= standard_discarded());
            assert(preserved@ =~= standard_preserved());
        }
        CutoverConfirmationSummary { discarded, preserved }
    }

    /// The discarded categories.
    pub fn discarded(&self) -> (r: &[DiscardedCutoverCategory])
        ensures
            r@ == self.spec_discarded(),
    {
        self.discarded.as_slice()
    }

    /// The preserved categories.
    pub fn preserved(&self) -> (r: &[PreservedCutoverCategory])
        ensures
            r@ == self.spec_preserved(),
    {
        self.preserved.as_slice()
    }

    /// Whether the summary names exactly the standard categories.
    pub fn is_standard(&self) -> (r: bool)
        ensures
            r == (self.spec_discarded() == standard_discarded() && self.spec_preserved()
                == standard_preserved()),
    {
        let standard = CutoverConfirmationSummary::standard();
        if self.discarded.len() != standard.discarded.len() || self.preserved.len()
            != standard.preserved.len() {
            return false;
        }
        let mut i: usize = 0;
        while i < self.discarded.len()
            invariant
                standard.discarded@ == standard_discarded(),
                self.discarded@.len() == standard.discarded@.len(),
                i <= self.discarded@.len(),
                forall|k: int| 0 <= k < i ==> #[trigger] self.discarded@[k] == standard.discarded@[k],
            decreases self.discarded@.len() - i,
        {
            if self.discarded[i] != standard.discarded[i] {
                return false;
            }
            i = i + 1;
        }
        let mut j: usize = 0;
        while j < self.preserved.len()
            invariant
                standard.preserved@ == standard_preserved(),
                self.preserved@.len() == standard.preserved@.len(),
                j <= self.preserved@.len(),
                forall|k: int| 0 <= k < j ==> #[trigger] self.preserved@[k] == standard.preserved@[k],
            decreases self.preserved@.len() - j,
        {
            if self.preserved[j] != standard.preserved[j] {
                return false;
            }
            j = j + 1;
        }
        proof {
            assert(self.discarded@ =~= standard_discarded());
            assert(self.preserved@ =~= standard_preserved());
        }
        true
    }
}

/// User/launcher input captured before any host state is opened.
#[derive(Clone, Debug, PartialEq, Eq)]
pub struct CutoverConfirmationInput {
    pub launch_kind: CutoverLaunchKind,
    pub confirmed: bool,
    pub summary: CutoverConfirmationSummary,
}

/// Why a confirmation does not authorize cutover, in check order.
pub open spec fn authorization_error(input: CutoverConfirmationInput) -> Option<CutoverError> {
    if !input.confirmed {
        Some(CutoverError::Declined)
    } else if input.launch_kind != CutoverLaunchKind::OrdinaryInteractive {
        Some(CutoverError::UnauthorizedLaunch)
    } else if !(input.summary.spec_discarded() == standard_discarded()
        && input.summary.spec_preserved() == standard_preserved()) {
        Some(CutoverError::InvalidConfirmationSummary)
    } else {
        None
    }
}

impl CutoverConfirmationInput {
    /// A confirmed ordinary interactive launch with the standard summary.
    pub fn confirmed_interactive() -> (r: CutoverConfirmationInput)
        ensures
            r.launch_kind == CutoverLaunchKind::OrdinaryInteractive,
            r.confirmed,
            r.summary.spec_discarded() == standard_discarded(),
            r.summary.spec_preserved() == standard_preserved(),
    {
        CutoverConfirmationInput {
            launch_kind: CutoverLaunchKind::OrdinaryInteractive,
            confirmed: true,
            summary: CutoverConfirmationSummary::standard(),
        }
    }

    /// A declined ordinary interactive launch with the standard summary.
    pub fn declined_interactive() -> (r: CutoverConfirmationInput)
        ensures
            r.launch_kind == CutoverLaunchKind::OrdinaryInteractive,
            !r.confirmed,
            r.summary.spec_discarded() == standard_discarded(),
            r.summary.spec_preserved() == standard_preserved(),
    {
        CutoverConfirmationInput {
            launch_kind: CutoverLaunchKind::OrdinaryInteractive,
            confirmed: false,
            summary: CutoverConfirmationSummary::standard(),
        }
    }

    /// Authorizes cutover only for an explicitly confirmed ordinary
    /// interactive launch that showed the standard summary.
    pub fn authorize(&self) -> (r: Result<(), CutoverError>)
        ensures
            authorization_error(*self) matches Some(e) ==> r == Err::<(), CutoverError>(e),
            authorization_error(*self) is None ==> r is Ok,
    {
        if !self.confirmed {
            return Err(CutoverError::Declined);
        }
        if self.launch_kind != CutoverLaunchKind::OrdinaryInteractive {
            return Err(CutoverError::UnauthorizedLaunch);
        }
        if !self.summary.is_standard() {
            return Err(CutoverError::InvalidConfirmationSummary);
        }
        Ok(())
    }
}

/// Only an explicitly confirmed ordinary interactive launch with the standard
/// summary authorizes cutover; a declined confirmation is reported as such,
/// and no other launch provenance ever authorizes.
pub proof fn lemma_authorization(input: CutoverConfirmationInput)
    ensures
        authorization_error(input) is None <==> (input.confirmed && input.launch_kind
            == CutoverLaunchKind::OrdinaryInteractive && input.summary.spec_discarded()
            == standard_discarded() && input.summary.spec_preserved() == standard_preserved()),
        !input.confirmed ==> authorization_error(input) == Some(CutoverError::Declined),
        input.confirmed && input.launch_kind != CutoverLaunchKind::OrdinaryInteractive
            ==> authorization_error(input) == Some(CutoverError::UnauthorizedLaunch),
{
}

/// Classified state of the legacy presentation under a state root.
#[derive(Clone, Copy, Debug, PartialEq, Eq, Structural)]
pub enum LegacyPresentationState {
    NoPresentation,
    DetachedOrdinary,
    DeadOwned,
    Attached,
    UtilityShell,
    ObserverReview,
    Malformed,
}

/// Exact cleanup failure categories of the legacy client files.
#[derive(Clone, Copy, Debug, PartialEq, Eq, Structural)]
pub enum LegacyClientArtifactReason {
    Symlink,
    NonRegular,
    Foreign,
    NonPrivate,
    Changed,
}

/// Typed orchestration failures; no variant carries provider payloads, pane
/// bytes or raw process diagnostics.
#[derive(Clone, Debug, PartialEq, Eq)]
pub enum CutoverError {
    Declined,
    UnauthorizedLaunch,
    InvalidConfirmationSummary,
    InvalidRoot,
    DrainOnly,
    UnsafePresentation(LegacyPresentationState),
    PresentationProofChanged,
    PresentationNotRetired,
    PresentationInspection(String),
    PresentationRetirement(String),
    AmbiguousRuntime,
    InvalidObserverTarget,
    FuzzyProcessIdentity,
    RuntimeProjectionUnavailable,
    ObserverGenerationUnavailable,
    StandbyObserverUnavailable,
    StandbyActivationAckUnavailable,
    InvalidHandoverJournal,
    LegacyClientArtifact(LegacyClientArtifactReason),
    Io { path: String },
    StateEffect(String),
    ProcessEffect(String),
    State(StateError),
}


/// A bounded classification before confirmation and state access.
#[derive(Clone, Copy, Debug, PartialEq, Eq, Structural)]
pub enum CutoverPlanKind {
    Ready,
    DrainOnly,
}

/// What presentation discovery proved: the classified state and, when one
/// exists, the opaque proof token of the exact presentation.
#[derive(Clone, Debug, PartialEq, Eq)]
pub struct LegacyPresentationAssessment {
    pub state: LegacyPresentationState,
    pub proof: Option<String>,
}

impl LegacyPresentationAssessment {
    /// The classified presentation state.
    pub fn state(&self) -> (r: LegacyPresentationState)
        ensures
            r == self.state,
    {
        self.state
    }
}

/// How a presentation state classifies a plan: no, detached or dead-owned
/// presentations are ready; attached, utility-shell or observer-review ones
/// drain only; anything else is unsafe.
pub open spec fn plan_kind_of(state: LegacyPresentationState) -> Result<CutoverPlanKind, CutoverError> {
    match state {
        LegacyPresentationState::NoPresentation
        | LegacyPresentationState::DetachedOrdinary
        | LegacyPresentationState::DeadOwned => Ok(CutoverPlanKind::Ready),
        LegacyPresentationState::Attached
        | LegacyPresentationState::UtilityShell
        | LegacyPresentationState::ObserverReview => Ok(CutoverPlanKind::DrainOnly),
        _ => Err(CutoverError::UnsafePresentation(state)),
    }
}

/// Classifies a plan by the discovered presentation state.
pub fn classify_plan(state: LegacyPresentationState) -> (r: Result<CutoverPlanKind, CutoverError>)
    ensures
        r == plan_kind_of(state),
{
    match state {
        LegacyPresentationState::NoPresentation
        | LegacyPresentationState::DetachedOrdinary
        | LegacyPresentationState::DeadOwned => Ok(CutoverPlanKind::Ready),
        LegacyPresentationState::Attached
        | LegacyPresentationState::UtilityShell
        | LegacyPresentationState::ObserverReview => Ok(CutoverPlanKind::DrainOnly),
        _ => Err(CutoverError::UnsafePresentation(state)),
    }
}

/// A cutover plan is drain-only exactly when the legacy presentation is
/// attached, a utility shell or under observer review; it is ready exactly
/// when there is no presentation or only a detached or dead owned one; every
/// other presentation is refused as unsafe. A drain-only plan's presentation
/// is one the retirement refuses as drain-only, and a ready plan's
/// presentation with its proof token is one the retirement accepts.
pub proof fn lemma_plan_kind_follows_the_presentation(state: LegacyPresentationState, proof: Option<String>)
    ensures
        plan_kind_of(state) == Ok::<CutoverPlanKind, CutoverError>(CutoverPlanKind::DrainOnly) <==> (state
            == LegacyPresentationState::Attached || state == LegacyPresentationState::UtilityShell
            || state == LegacyPresentationState::ObserverReview),
        plan_kind_of(state) == Ok::<CutoverPlanKind, CutoverError>(CutoverPlanKind::Ready) <==> (state
            == LegacyPresentationState::NoPresentation || state
            == LegacyPresentationState::DetachedOrdinary || state == LegacyPresentationState::DeadOwned),
        plan_kind_of(state) is Err <==> state == LegacyPresentationState::Malformed,
        plan_kind_of(state) == Ok::<CutoverPlanKind, CutoverError>(CutoverPlanKind::DrainOnly)
            ==> crate::presentation::retirement_refusal(LegacyPresentationAssessment { state, proof })
            == Some(CutoverError::DrainOnly),
        plan_kind_of(state) == Ok::<CutoverPlanKind, CutoverError>(CutoverPlanKind::Ready) && proof is Some
            ==> crate::presentation::retirement_refusal(LegacyPresentationAssessment { state, proof })
            is None,
{
}

/// A read-only presentation proof source; implementations inspect only
/// bounded topology and process identity metadata.
pub trait PresentationProofSource {
    fn prove(&mut self, state_root: &str) -> Result<LegacyPresentationAssessment, CutoverError>;
}

/// The cutover plan: the canonical root, the operator spelling kept for exact
/// legacy argument proof, and the proof metadata. It never holds state.
#[derive(Clone, Debug, PartialEq, Eq)]
pub struct CutoverPlan {
    root: String,
    presentation_root: String,
    assessment: LegacyPresentationAssessment,
    kind: CutoverPlanKind,
}

impl CutoverPlan {
    pub closed spec fn spec_root(&self) -> Seq<char> {
        self.root@
    }

    pub closed spec fn spec_presentation_root(&self) -> Seq<char> {
        self.presentation_root@
    }

    pub closed spec fn spec_assessment(&self) -> LegacyPresentationAssessment {
        self.assessment
    }

    pub closed spec fn spec_kind(&self) -> CutoverPlanKind {
        self.kind
    }

    /// The canonical state root.
    pub fn root(&self) -> (r: &str)
        ensures
            r@ == self.spec_root(),
    {
        self.root.as_str()
    }

    /// The operator spelling retained for exact legacy argument proof.
    pub fn presentation_root(&self) -> (r: &str)
        ensures
            r@ == self.spec_presentation_root(),
    {
        self.presentation_root.as_str()
    }

    /// Whether the plan is ready or drain-only.
    pub fn kind(&self) -> (r: CutoverPlanKind)
        ensures
            r == self.spec_kind(),
    {
        self.kind
    }

    /// The discovered presentation assessment.
    pub fn assessment(&self) -> (r: &LegacyPresentationAssessment)
        ensures
            *r == self.spec_assessment(),
    {
        &self.assessment
    }

    /// The discovered presentation state.
    pub fn presentation_state(&self) -> (r: LegacyPresentationState)
        ensures
            r == self.spec_assessment().state,
    {
        self.assessment.state()
    }
}

/// Builds the plan from the canonical root, the operator spelling and what
/// the proof source reports for that spelling.
pub fn plan_from_assessment(
    root: String,
    presentation_root: String,
    assessment: LegacyPresentationAssessment,
) -> (r: Result<CutoverPlan, CutoverError>)
    ensures
        r is Ok <==> plan_kind_of(assessment.state) is Ok,
        r matches Err(e) ==> plan_kind_of(assessment.state) == Err::<CutoverPlanKind, CutoverError>(e),
        r matches Ok(plan) ==> plan.spec_root() == root@ && plan.spec_presentation_root()
            == presentation_root@ && plan.spec_assessment() == assessment && Ok::<
            CutoverPlanKind,
            CutoverError,
        >(plan.spec_kind()) == plan_kind_of(assessment.state),
{
    let kind = classify_plan(assessment.state())?;
    Ok(CutoverPlan { root, presentation_root, assessment, kind })
}

/// Read-only discovery for an already canonicalized root: asks the proof
/// source about the operator spelling and classifies the plan.
pub fn discover_cutover<P: PresentationProofSource>(
    source: &mut P,
    root: String,
    presentation_root: String,
) -> (r: Result<CutoverPlan, CutoverError>)
    ensures
        r matches Ok(plan) ==> plan.spec_root() == root@ && plan.spec_presentation_root()
            == presentation_root@ && Ok::<CutoverPlanKind, CutoverError>(plan.spec_kind())
            == plan_kind_of(plan.spec_assessment().state),
{
    let assessment = source.prove(presentation_root.as_str())?;
    plan_from_assessment(root, presentation_root, assessment)
}

/// Final result of a cutover orchestration attempt.
#[derive(Clone, Debug, PartialEq, Eq)]
pub enum CutoverOutcome {
    Declined,
    DrainOnly(LegacyPresentationState),
    Completed(CutoverReport),
}

/// What a completed cutover did.
#[derive(Clone, Debug, PartialEq, Eq)]
pub struct CutoverReport {
    pub retired_presentations: usize,
    pub handed_over_runtimes: Vec<crate::ids::RuntimeId>,
    pub removed_client_files: usize,
}

/// The effect-free start of a cutover run: an unconfirmed run is a declined
/// no-op, an unauthorized one fails, and a drain-only plan ends before any
/// lease or state access. `None` lets a ready, authorized plan proceed.
pub open spec fn cutover_gate_result(plan: CutoverPlan, confirmation: CutoverConfirmationInput) -> Result<
    Option<CutoverOutcome>,
    CutoverError,
> {
    match authorization_error(confirmation) {
        Some(CutoverError::Declined) => Ok(Some(CutoverOutcome::Declined)),
        Some(e) => Err(e),
        None => if plan.spec_kind() == CutoverPlanKind::DrainOnly {
            Ok(Some(CutoverOutcome::DrainOnly(plan.spec_assessment().state)))
        } else {
            Ok(None)
        },
    }
}

/// Decides the effect-free start of a cutover run.
pub fn cutover_gate(plan: &CutoverPlan, confirmation: &CutoverConfirmationInput) -> (r: Result<
    Option<CutoverOutcome>,
    CutoverError,
>)
    ensures
        r == cutover_gate_result(*plan, *confirmation),
{
    match confirmation.authorize() {
        Ok(()) => {},
        Err(CutoverError::Declined) => {
            return Ok(Some(CutoverOutcome::Declined));
        },
        Err(error) => {
            return Err(error);
        },
    }
    if plan.kind() == CutoverPlanKind::DrainOnly {
        return Ok(Some(CutoverOutcome::DrainOnly(plan.presentation_state())));
    }
    Ok(None)
}

/// What finishing the cleanup of an old observer does with what it observes
/// of it: an exact stopped old observer is terminated (`true`), a gone one
/// needs nothing (`false`), anything else is a fuzzy identity.
pub open spec fn old_observer_cleanup_of(
    state: ObserverProcessState,
    old: ObserverProcessIdentity,
) -> Result<bool, CutoverError> {
    match state {
        ObserverProcessState::Stopped(actual) => if same_identity(actual, old) {
            Ok(true)
        } else {
            Err(CutoverError::FuzzyProcessIdentity)
        },
        ObserverProcessState::Gone => Ok(false),
        _ => Err(CutoverError::FuzzyProcessIdentity),
    }
}

/// Decides the cleanup of an old observer, as `old_observer_cleanup_of`
/// states; an observation that failed fails the cleanup.
pub fn old_observer_cleanup(
    status: Result<ObserverProcessState, CutoverError>,
    old: &ObserverProcessIdentity,
) -> (r: Result<bool, CutoverError>)
    ensures
        match status {
            Err(e) => r == Err::<bool, CutoverError>(e),
            Ok(state) => r == old_observer_cleanup_of(state, *old),
        },
{
    match status? {
        ObserverProcessState::Stopped(actual) => {
            require_exact_identity(&actual, old)?;
            Ok(true)
        },
        ObserverProcessState::Gone => Ok(false),
        _ => Err(CutoverError::FuzzyProcessIdentity),
    }
}

/// Whether a private OpenCode observer is a legacy sidecar or already a
/// current observer.
#[derive(Clone, Copy, Debug, PartialEq, Eq, Structural)]
pub enum OpenCodeObserverKind {
    PreD16,
    D16,
}

/// The exact identity of one observer process.
#[derive(Clone, Debug, PartialEq, Eq)]
pub struct ObserverProcessIdentity {
    pub pid: u32,
    pub birth: String,
    pub executable: String,
}

/// Two identities name the same process: pid, birth and executable agree.
pub open spec fn same_identity(a: ObserverProcessIdentity, b: ObserverProcessIdentity) -> bool {
    a.pid == b.pid && a.birth@ == b.birth@ && a.executable@ == b.executable@
}

/// The observed state of an exact observer process.
#[derive(Clone, Debug, PartialEq, Eq)]
pub enum ObserverProcessState {
    Running(ObserverProcessIdentity),
    Stopped(ObserverProcessIdentity),
    Gone,
    IdentityMismatch,
}

/// Accepts only the exact expected identity.
pub fn require_exact_identity(
    actual: &ObserverProcessIdentity,
    expected: &ObserverProcessIdentity,
) -> (r: Result<(), CutoverError>)
    ensures
        r is Ok <==> same_identity(*actual, *expected),
        r matches Err(e) ==> e == CutoverError::FuzzyProcessIdentity,
{
    if actual.pid == expected.pid && actual.birth == expected.birth && actual.executable
        == expected.executable {
        Ok(())
    } else {
        Err(CutoverError::FuzzyProcessIdentity)
    }
}

/// Accepts only the exact expected identity, running.
pub fn require_running(
    status: Result<ObserverProcessState, CutoverError>,
    expected: &ObserverProcessIdentity,
) -> (r: Result<(), CutoverError>)
    ensures
        status matches Err(e) ==> r == Err::<(), CutoverError>(e),
        status is Ok ==> (r is Ok <==> (status->Ok_0 matches ObserverProcessState::Running(actual)
            && same_identity(actual, *expected))),
        status is Ok && r is Err ==> r == Err::<(), CutoverError>(CutoverError::FuzzyProcessIdentity),
{
    match status? {
        ObserverProcessState::Running(actual) => require_exact_identity(&actual, expected),
        _ => Err(CutoverError::FuzzyProcessIdentity),
    }
}

/// Accepts only the exact expected identity, stopped.
pub fn require_stopped(
    status: Result<ObserverProcessState, CutoverError>,
    expected: &ObserverProcessIdentity,
) -> (r: Result<(), CutoverError>)
    ensures
        status matches Err(e) ==> r == Err::<(), CutoverError>(e),
        status is Ok ==> (r is Ok <==> (status->Ok_0 matches ObserverProcessState::Stopped(actual)
            && same_identity(actual, *expected))),
        status is Ok && r is Err ==> r == Err::<(), CutoverError>(CutoverError::FuzzyProcessIdentity),
{
    match status? {
        ObserverProcessState::Stopped(actual) => require_exact_identity(&actual, expected),
        _ => Err(CutoverError::FuzzyProcessIdentity),
    }
}

/// Accepts the exact expected identity, running or stopped.
pub fn require_restoreable(
    status: Result<ObserverProcessState, CutoverError>,
    expected: &ObserverProcessIdentity,
) -> (r: Result<(), CutoverError>)
    ensures
        status matches Err(e) ==> r == Err::<(), CutoverError>(e),
        status is Ok ==> (r is Ok <==> ((status->Ok_0 matches ObserverProcessState::Running(actual)
            && same_identity(actual, *expected)) || (status->Ok_0 matches ObserverProcessState::Stopped(
            actual,
        ) && same_identity(actual, *expected)))),
        status is Ok && r is Err ==> r == Err::<(), CutoverError>(CutoverError::FuzzyProcessIdentity),
{
    match status? {
        ObserverProcessState::Running(actual) | ObserverProcessState::Stopped(actual) => {
            require_exact_identity(&actual, expected)
        },
        _ => Err(CutoverError::FuzzyProcessIdentity),
    }
}

/// A bounded single-line process birth token.
pub open spec fn birth_token_ok(birth: Seq<char>) -> bool {
    &&& birth.len() > 0
    &&& (vstd::utf8::encode_utf8(birth).len() as usize) <= 256
    &&& !seq_has_char(birth, '\0')
    &&& !seq_has_char(birth, '\n')
    &&& !seq_has_char(birth, '\r')
}

/// Whether a birth token is non-empty, at most 256 bytes and single-line.
pub fn valid_birth_token(birth: &str) -> (r: bool)
    ensures
        r == birth_token_ok(birth@),
{
    !birth.is_empty() && birth.len() <= 256 && !contains_char(birth, '\0') && !contains_char(
        birth,
        '\n',
    ) && !contains_char(birth, '\r')
}

/// An observer identity a cutover may act on.
pub open spec fn cutover_identity_ok(expected: ObserverProcessIdentity) -> bool {
    &&& expected.pid != 0
    &&& birth_token_ok(expected.birth@)
    &&& expected.executable@.len() > 0
    &&& (vstd::utf8::encode_utf8(expected.executable@).len() as usize) <= 4096
    &&& !seq_has_char(expected.executable@, '\0')
    &&& !seq_has_char(expected.executable@, '\n')
    &&& !seq_has_char(expected.executable@, '\r')
}

/// Refuses an observer identity that cannot name one exact process.
pub fn validate_cutover_observer_identity(expected: &ObserverProcessIdentity) -> (r: Result<
    (),
    CutoverError,
>)
    ensures
        r is Ok <==> cutover_identity_ok(*expected),
        r matches Err(e) ==> e == CutoverError::InvalidObserverTarget,
{
    let executable = expected.executable.as_str();
    if expected.pid == 0 || !valid_birth_token(expected.birth.as_str()) || executable.is_empty()
        || executable.len() > 4096 || contains_char(executable, '\0') || contains_char(
        executable,
        '\n',
    ) || contains_char(executable, '\r') {
        Err(CutoverError::InvalidObserverTarget)
    } else {
        Ok(())
    }
}


/// Whether a process was running or stopped when its evidence was read.
#[derive(Clone, Copy, Debug, PartialEq, Eq, Structural)]
pub enum CutoverProcessStatus {
    Running,
    Stopped,
}

/// Process evidence read for one pid.
#[derive(Clone, Debug, PartialEq, Eq)]
pub struct CutoverProcessEvidence {
    pub birth: String,
    pub executable: String,
    pub cwd: String,
    pub status: CutoverProcessStatus,
    pub arguments: Vec<String>,
}

/// What `Path::new(a) == Path::new(b)` returns: equality of the two
/// spellings' path components, as the standard library defines it.
pub uninterp spec fn path_spelling_equal(a: Seq<char>, b: Seq<char>) -> bool;

/// `std::path::Path` equality of two spellings; identical spellings are equal.
#[verifier::external_body]
pub fn paths_equal(a: &str, b: &str) -> (r: bool)
    ensures
        r == path_spelling_equal(a@, b@),
        a@ == b@ ==> r,
{
    std::path::Path::new(a) == std::path::Path::new(b)
}

/// Path equality of two spellings; a spelling always equals itself.
pub open spec fn paths_same(a: Seq<char>, b: Seq<char>) -> bool {
    a == b || path_spelling_equal(a, b)
}

/// Whether two spellings name the same path, as `paths_same` states.
pub fn same_path(a: &str, b: &str) -> (r: bool)
    ensures
        r == paths_same(a@, b@),
{
    text_eq(a, b) || paths_equal(a, b)
}

/// Whether two executable spellings name the same file: the comparison of
/// their canonical forms when both exist (`canonical`), else path equality
/// of the spellings.
pub open spec fn executable_match_result(a: Seq<char>, b: Seq<char>, canonical: Option<bool>) -> bool {
    match canonical {
        Some(same) => same,
        None => path_spelling_equal(a, b),
    }
}

/// Compares two executable spellings; `canonical` holds the comparison of
/// their canonical forms when both could be resolved.
pub fn executable_paths_match(actual: &str, expected: &str, canonical: Option<bool>) -> (r: bool)
    ensures
        r == executable_match_result(actual@, expected@, canonical),
{
    match canonical {
        Some(same) => same,
        None => paths_equal(actual, expected),
    }
}

/// The suffix Linux appends to the executable of a replaced inode.
pub open spec fn deleted_suffix() -> Seq<char> {
    seq![' ', '(', 'd', 'e', 'l', 'e', 't', 'e', 'd', ')']
}

/// The spelling without the deleted-inode suffix, when it has one.
pub open spec fn without_deleted_suffix(e: Seq<char>) -> Option<Seq<char>> {
    let k = deleted_suffix().len();
    if e.len() >= k && e.subrange(e.len() - k, e.len() as int) == deleted_suffix() {
        Some(e.subrange(0, e.len() - k))
    } else {
        None
    }
}

/// The process is the installed observer: its birth is the expected one, and
/// either its executable is the current one, or it is the current absolute
/// spelling of an upgraded-away inode that was also the process's own first
/// argument.
pub open spec fn installed_observer_matches(
    actual: CutoverProcessEvidence,
    expected_birth: Seq<char>,
    current_executable: Seq<char>,
    executables_match: bool,
) -> bool {
    &&& actual.birth@ == expected_birth
    &&& (executables_match || (without_deleted_suffix(actual.executable@) matches Some(underlying)
        && underlying.len() > 0 && underlying[0] == '/' && underlying == current_executable
        && actual.arguments@.len() > 0 && actual.arguments@[0]@ == underlying))
}

pub(crate) fn strip_deleted_suffix(executable: &str) -> (r: Option<&str>)
    ensures
        optional_view(r) == without_deleted_suffix(executable@),
{
    let suffix = " (deleted)";
    proof {
        reveal_strlit(" (deleted)");
        assert(suffix@ =~= deleted_suffix());
    }
    let n = executable.unicode_len();
    if n < 10 {
        return None;
    }
    let tail = executable.substring_char(n - 10, n);
    if text_eq(tail, suffix) {
        Some(executable.substring_char(0, n - 10))
    } else {
        None
    }
}

pub open spec fn optional_view(o: Option<&str>) -> Option<Seq<char>> {
    match o {
        Some(s) => Some(s@),
        None => None,
    }
}

pub(crate) fn starts_with_slash(text: &str) -> (r: bool)
    ensures
        r == (text@.len() > 0 && text@[0] == '/'),
{
    text.unicode_len() > 0 && text.get_char(0) == '/'
}

/// Accepts the installed observer process, including the one executable
/// identity change an in-place upgrade creates.
pub fn process_identity_matches_installed_observer(
    actual: &CutoverProcessEvidence,
    expected_birth: &str,
    current_executable: &str,
    canonical: Option<bool>,
) -> (r: bool)
    ensures
        r == installed_observer_matches(
            *actual,
            expected_birth@,
            current_executable@,
            executable_match_result(actual.executable@, current_executable@, canonical),
        ),
{
    if !text_eq(actual.birth.as_str(), expected_birth) {
        return false;
    }
    if executable_paths_match(actual.executable.as_str(), current_executable, canonical) {
        return true;
    }
    let underlying = match strip_deleted_suffix(actual.executable.as_str()) {
        Some(underlying) => underlying,
        None => {
            return false;
        },
    };
    starts_with_slash(underlying) && text_eq(underlying, current_executable)
        && actual.arguments.len() > 0 && text_eq(actual.arguments[0].as_str(), underlying)
}

/// The process has the expected birth and executable.
pub open spec fn process_matches(
    actual: CutoverProcessEvidence,
    expected_birth: Seq<char>,
    executables_match: bool,
) -> bool {
    actual.birth@ == expected_birth && executables_match
}

/// Accepts a process only with the expected birth and executable.
pub fn process_identity_matches(
    actual: &CutoverProcessEvidence,
    expected_birth: &str,
    expected_executable: &str,
    canonical: Option<bool>,
) -> (r: bool)
    ensures
        r == process_matches(
            *actual,
            expected_birth@,
            executable_match_result(actual.executable@, expected_executable@, canonical),
        ),
{
    text_eq(actual.birth.as_str(), expected_birth) && executable_paths_match(
        actual.executable.as_str(),
        expected_executable,
        canonical,
    )
}

/// The sub-command of a standby observer.
pub open spec fn standby_command() -> Seq<char> {
    "_opencode_observer_standby"@
}

/// Whether an observer command line is a standby observer's.
pub fn is_standby_command_line(arguments: &[String]) -> (r: bool)
    ensures
        r == (arguments@.len() == 12 && arguments@[3]@ == standby_command()),
{
    arguments.len() == 12 && text_eq(arguments[3].as_str(), "_opencode_observer_standby")
}


/// An observer process corroborated by the process authority, with its kind.
#[derive(Clone, Debug, PartialEq, Eq)]
pub struct CorroboratedOpenCodeObserver {
    pub observer: ObserverProcessIdentity,
    pub kind: OpenCodeObserverKind,
}

} // verus!
