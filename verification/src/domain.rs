//! Opaque identities, revisions and the closed domain enumerations.

use vstd::prelude::*;

verus! {

/// A native provider that can own a managed Runtime.
#[derive(Clone, Copy, Debug, PartialEq, Eq, Structural, Hash, PartialOrd, Ord)]
pub enum ProviderKind {
    Codex,
    OpenCode,
}

/// The position of a provider in the canonical capability order.
pub open spec fn provider_rank(provider: ProviderKind) -> int {
    match provider {
        ProviderKind::Codex => 0,
        ProviderKind::OpenCode => 1,
    }
}

impl ProviderKind {
    /// Canonical ordering key (Codex before OpenCode).
    pub fn rank(self) -> (r: u8)
        ensures
            r == provider_rank(self),
    {
        match self {
            ProviderKind::Codex => 0,
            ProviderKind::OpenCode => 1,
        }
    }

    /// The provider's lower-case command-line spelling.
    pub fn label(self) -> (r: &'static str)
        ensures
            self == ProviderKind::Codex ==> r@ == "codex"@,
            self == ProviderKind::OpenCode ==> r@ == "opencode"@,
    {
        proof {
            reveal_strlit("codex");
            reveal_strlit("opencode");
        }
        match self {
            ProviderKind::Codex => "codex",
            ProviderKind::OpenCode => "opencode",
        }
    }
}

/// Durable status of one private Runtime.
#[derive(Clone, Copy, Debug, PartialEq, Eq, Structural, Hash)]
pub enum RuntimeStatus {
    Starting,
    Idle,
    Working,
    Attention,
    Stopped,
    Unknown,
    Unreachable,
}

/// Lifecycle of a Workstream as seen by the navigator.
#[derive(Clone, Copy, Debug, PartialEq, Eq, Structural, Hash)]
pub enum WorkstreamLifecycle {
    Open,
    Parked,
    RecoveryRequired,
}

/// Kind of a compound operation.
#[derive(Clone, Copy, Debug, PartialEq, Eq, Structural, Hash)]
pub enum OperationKind {
    Fork,
    IndependentCreation,
    Onboarding,
}

/// Phase of a compound operation.
#[derive(Clone, Copy, Debug, PartialEq, Eq, Structural, Hash)]
pub enum OperationPhase {
    Prepared,
    EffectStarted,
    EffectUnknown,
    Committed,
    Failed,
}

pub open spec fn phase_is_terminal(phase: OperationPhase) -> bool {
    phase == OperationPhase::Committed || phase == OperationPhase::Failed
}

impl OperationPhase {
    /// Whether the operation has reached a final, resolved phase.
    pub fn is_terminal(self) -> (r: bool)
        ensures
            r == phase_is_terminal(self),
    {
        match self {
            OperationPhase::Committed | OperationPhase::Failed => true,
            _ => false,
        }
    }
}

/// Durable lifecycle of the owned Codex observer integration.
#[derive(Clone, Copy, Debug, PartialEq, Eq, Structural, Hash)]
pub enum IntegrationLifecycle {
    TrustPending,
    Ready,
    Modified,
    Disabled,
}

/// A monotonically increasing optimistic-concurrency revision (at least one).
#[derive(Clone, Copy, Debug, PartialEq, Eq, Structural, Hash, PartialOrd, Ord)]
pub struct Revision {
    value: i64,
}

impl Revision {
    pub closed spec fn spec_value(self) -> int {
        self.value as int
    }

    /// The revision every freshly created record starts at.
    pub closed spec fn spec_initial() -> Revision {
        Revision { value: 1 }
    }

    /// The revision every freshly created record starts at.
    pub fn initial() -> (r: Revision)
        ensures
            r.spec_value() == 1,
            r == Revision::spec_initial(),
    {
        Revision { value: 1 }
    }

    /// Accepts only positive revisions.
    pub fn try_from_value(value: i64) -> (r: Option<Revision>)
        ensures
            value >= 1 <==> r is Some,
            r matches Some(rev) ==> rev.spec_value() == value,
    {
        if value >= 1 {
            Some(Revision { value })
        } else {
            None
        }
    }

    /// The raw revision number.
    pub fn value(self) -> (r: i64)
        ensures
            r == self.spec_value(),
    {
        self.value
    }

    /// The revision that follows this one.
    pub fn next(self) -> (r: Revision)
        requires
            self.spec_value() < i64::MAX,
        ensures
            r.spec_value() == self.spec_value() + 1,
    {
        Revision { value: self.value + 1 }
    }
}

} // verus!
