//! Typed failures of the durable host state and the attention record it keeps.

use vstd::prelude::*;

use crate::domain::Revision;
use crate::ids::WorkstreamId;

verus! {

/// Why durable host state needs operator recovery.
#[derive(Clone, Copy, Debug, PartialEq, Eq, Structural, Hash)]
pub enum StateRecoveryReason {
    MissingHostDatabase,
    LockedTransitionLease,
    InterruptedTransition,
    UnexpectedRootEntry,
}

/// Why a fresh state root cannot be adopted.
#[derive(Clone, Copy, Debug, PartialEq, Eq, Structural, Hash)]
pub enum FreshRootRejection {
    NotEmpty,
    NotPrivate,
    NotDirectory,
}

/// Failures of the durable host state.
#[derive(Clone, Copy, Debug, PartialEq, Eq, Structural)]
pub enum StateError {
    ProviderIdentityMismatch,
    CutoverRequired,
    FreshStateRequired,
    HostStateResetRequired(i64),
    MalformedHostSchema,
    UnsupportedFutureHostSchema(i64),
    StateRecoveryRequired(StateRecoveryReason),
    FreshRootRejected(FreshRootRejection),
    NavigatorSnapshotTooLarge,
    UnknownOpenWorkstream(WorkstreamId),
    RevisionConflict,
    UnknownWorkstream,
    UnknownRuntime,
    InvalidTransition,
    Storage,
}

/// Durable sticky attention of one Workstream.
#[derive(Clone, Copy, Debug, PartialEq, Eq, Structural)]
pub struct AttentionState {
    pub result_unseen_since_revision: Option<Revision>,
    pub recovery_unseen_since_revision: Option<Revision>,
    pub revision: Revision,
}

} // verus!
