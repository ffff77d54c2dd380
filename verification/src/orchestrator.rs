//! One confirmed cutover run as a step machine: once authorized, it takes
//! the transition lease, repeats the presentation proof, retires the
//! presentation, opens state only once no presentation remains, hands every
//! live OpenCode observer over in Runtime order, and removes the legacy
//! client files and the lock only after a last proof.

use vstd::prelude::*;

use crate::client_artifact::ClientArtifactIdentity;
use crate::cutover::{
    CorroboratedOpenCodeObserver, CutoverConfirmationInput, CutoverError, CutoverOutcome,
    CutoverPlan, CutoverReport, LegacyPresentationAssessment, cutover_gate, cutover_gate_result,
};
use crate::ids::RuntimeId;
use crate::observer_target::{
    OpenCodeObserverProjection, OpenCodeObserverTarget, distinct_runtimes, observer_target_ok,
    order_observer_projections, strictly_ordered_runtimes, validate_observer_target,
};
use crate::presentation::{
    presentation_absent, presentation_unchanged, require_retired_presentation,
    require_unchanged_presentation,
};
use crate::sort::is_permutation;

verus! {

/// The transition lease a run holds: whether this run created the lock
/// file, and the lock file's identity.
#[derive(Clone, Copy, Debug, PartialEq, Eq, Structural)]
pub struct LeaseHold {
    pub created: bool,
    pub identity: ClientArtifactIdentity,
}

/// Where a cutover run stands. Each stage names the one effect it waits on.
/// In the handover loop, `current` is the next projection to corroborate,
/// `target` the corroborated one being handed over, and `rest` the
/// projections after it, in Runtime order.
#[derive(Debug)]
pub enum CutoverStage {
    AcquireLease,
    ProveUnderLease { lease: LeaseHold },
    Retire { lease: LeaseHold, assessment: LegacyPresentationAssessment },
    ProveRetired { lease: LeaseHold, retired: usize },
    OpenState { lease: LeaseHold, retired: usize },
    ResumeHandover { lease: LeaseHold, retired: usize },
    ListProjections { lease: LeaseHold, retired: usize },
    Corroborate {
        lease: LeaseHold,
        retired: usize,
        current: OpenCodeObserverProjection,
        rest: Vec<OpenCodeObserverProjection>,
        handed: Vec<RuntimeId>,
    },
    HandOver {
        lease: LeaseHold,
        retired: usize,
        target: OpenCodeObserverTarget,
        rest: Vec<OpenCodeObserverProjection>,
        handed: Vec<RuntimeId>,
    },
    ProveBeforeCleanup { lease: LeaseHold, retired: usize, handed: Vec<RuntimeId> },
    RemoveClientFiles { lease: LeaseHold, retired: usize, handed: Vec<RuntimeId> },
    Migrate { lease: LeaseHold, retired: usize, handed: Vec<RuntimeId>, removed: usize },
    RemoveLock { lease: LeaseHold, retired: usize, handed: Vec<RuntimeId>, removed: usize },
    Abort { lease: LeaseHold, durable: bool, error: CutoverError },
    Finished(Result<CutoverOutcome, CutoverError>),
}

/// The result of the effect a stage waited on.
#[derive(Debug)]
pub enum CutoverEvent {
    LeaseAcquired(Result<LeaseHold, CutoverError>),
    Proved(Result<LegacyPresentationAssessment, CutoverError>),
    Retired(Result<usize, CutoverError>),
    Projections(Result<Vec<OpenCodeObserverProjection>, CutoverError>),
    Corroborated(Result<CorroboratedOpenCodeObserver, CutoverError>),
    HandedOver(Result<bool, CutoverError>),
    Removed(Result<usize, CutoverError>),
    Effect(Result<(), CutoverError>),
}

/// The effect a stage asks for. `Corroborate` is of the stage's `current`
/// projection and `HandOver` of its `target`; `ReleaseLease` ends a run
/// that failed before state was opened, removing the lock only when asked.
#[derive(Debug)]
pub enum CutoverAction {
    AcquireLease,
    Prove,
    Retire(LegacyPresentationAssessment),
    OpenState,
    ResumeHandover,
    ListProjections,
    Corroborate,
    HandOver,
    RemoveClientFiles(ClientArtifactIdentity),
    Migrate,
    RemoveLock(ClientArtifactIdentity),
    ReleaseLease { remove_lock: bool, identity: ClientArtifactIdentity },
    Finish,
}

/// Where a run starts: the outcome itself for a declined, unauthorized or
/// drain-only run, and the lease for a confirmed ready plan.
pub open spec fn cutover_start_of(plan: CutoverPlan, confirmation: CutoverConfirmationInput) -> CutoverStage {
    match cutover_gate_result(plan, confirmation) {
        Ok(Some(outcome)) => CutoverStage::Finished(Ok(outcome)),
        Err(e) => CutoverStage::Finished(Err(e)),
        Ok(None) => CutoverStage::AcquireLease,
    }
}

/// The effect each stage waits on.
pub open spec fn cutover_action_of(stage: CutoverStage) -> CutoverAction {
    match stage {
        CutoverStage::AcquireLease => CutoverAction::AcquireLease,
        CutoverStage::ProveUnderLease { .. } => CutoverAction::Prove,
        CutoverStage::Retire { assessment, .. } => CutoverAction::Retire(assessment),
        CutoverStage::ProveRetired { .. } => CutoverAction::Prove,
        CutoverStage::OpenState { .. } => CutoverAction::OpenState,
        CutoverStage::ResumeHandover { .. } => CutoverAction::ResumeHandover,
        CutoverStage::ListProjections { .. } => CutoverAction::ListProjections,
        CutoverStage::Corroborate { .. } => CutoverAction::Corroborate,
        CutoverStage::HandOver { .. } => CutoverAction::HandOver,
        CutoverStage::ProveBeforeCleanup { .. } => CutoverAction::Prove,
        CutoverStage::RemoveClientFiles { lease, .. } => CutoverAction::RemoveClientFiles(
            lease.identity,
        ),
        CutoverStage::Migrate { .. } => CutoverAction::Migrate,
        CutoverStage::RemoveLock { lease, .. } => CutoverAction::RemoveLock(lease.identity),
        CutoverStage::Abort { lease, durable, .. } => CutoverAction::ReleaseLease {
            remove_lock: lease.created && !durable,
            identity: lease.identity,
        },
        CutoverStage::Finished(_) => CutoverAction::Finish,
    }
}

/// The event answers the effect the stage waits on.
pub open spec fn cutover_event_answers(stage: CutoverStage, event: CutoverEvent) -> bool {
    match stage {
        CutoverStage::AcquireLease => event is LeaseAcquired,
        CutoverStage::ProveUnderLease { .. } | CutoverStage::ProveRetired { .. }
        | CutoverStage::ProveBeforeCleanup { .. } => event is Proved,
        CutoverStage::Retire { .. } => event is Retired,
        CutoverStage::ListProjections { .. } => event is Projections,
        CutoverStage::Corroborate { .. } => event is Corroborated,
        CutoverStage::HandOver { .. } => event is HandedOver,
        CutoverStage::RemoveClientFiles { .. } => event is Removed,
        CutoverStage::Finished(_) => false,
        _ => event is Effect,
    }
}

/// The projections a loop stage still has to hand over, in order.
pub open spec fn pending_of(current: OpenCodeObserverProjection, rest: Seq<OpenCodeObserverProjection>) -> Seq<
    OpenCodeObserverProjection,
> {
    seq![current] + rest
}

/// The Runtimes handed over so far, after one more handover that did (or
/// did not) replace an observer.
pub open spec fn handed_after(handed: Seq<RuntimeId>, target: OpenCodeObserverTarget, changed: bool) -> Seq<
    RuntimeId,
> {
    if changed {
        handed.push(target.projection.runtime.runtime_id)
    } else {
        handed
    }
}

/// How a run moves: `after` is the stage a run at `before` reaches when
/// the effect it waited on gives `event`. An event that does not answer the
/// stage's effect leaves it as it is.
pub open spec fn cutover_transition(
    plan: CutoverPlan,
    before: CutoverStage,
    event: CutoverEvent,
    after: CutoverStage,
) -> bool {
    if !cutover_event_answers(before, event) {
        after == before
    } else {
        match before {
            CutoverStage::AcquireLease => match event {
                CutoverEvent::LeaseAcquired(Ok(lease)) => after == CutoverStage::ProveUnderLease {
                    lease,
                },
                CutoverEvent::LeaseAcquired(Err(e)) => after == CutoverStage::Finished(Err(e)),
                _ => false,
            },
            CutoverStage::ProveUnderLease { lease } => match event {
                CutoverEvent::Proved(Ok(a)) => if presentation_unchanged(plan, a) {
                    after == CutoverStage::Retire { lease, assessment: a }
                } else {
                    after == CutoverStage::Abort {
                        lease,
                        durable: false,
                        error: CutoverError::PresentationProofChanged,
                    }
                },
                CutoverEvent::Proved(Err(e)) => after == CutoverStage::Abort {
                    lease,
                    durable: false,
                    error: e,
                },
                _ => false,
            },
            CutoverStage::Retire { lease, .. } => match event {
                CutoverEvent::Retired(Ok(n)) => after == CutoverStage::ProveRetired {
                    lease,
                    retired: n,
                },
                CutoverEvent::Retired(Err(e)) => after == CutoverStage::Abort {
                    lease,
                    durable: true,
                    error: e,
                },
                _ => false,
            },
            CutoverStage::ProveRetired { lease, retired } => match event {
                CutoverEvent::Proved(Ok(a)) => if presentation_absent(a) {
                    after == CutoverStage::OpenState { lease, retired }
                } else {
                    after == CutoverStage::Abort {
                        lease,
                        durable: retired > 0,
                        error: CutoverError::PresentationNotRetired,
                    }
                },
                CutoverEvent::Proved(Err(e)) => after == CutoverStage::Abort {
                    lease,
                    durable: retired > 0,
                    error: e,
                },
                _ => false,
            },
            CutoverStage::OpenState { lease, retired } => match event {
                CutoverEvent::Effect(Ok(())) => after == CutoverStage::ResumeHandover {
                    lease,
                    retired,
                },
                CutoverEvent::Effect(Err(e)) => after == CutoverStage::Finished(Err(e)),
                _ => false,
            },
            CutoverStage::ResumeHandover { lease, retired } => match event {
                CutoverEvent::Effect(Ok(())) => after == CutoverStage::ListProjections {
                    lease,
                    retired,
                },
                CutoverEvent::Effect(Err(e)) => after == CutoverStage::Finished(Err(e)),
                _ => false,
            },
            CutoverStage::ListProjections { lease, retired } => match event {
                CutoverEvent::Projections(Ok(listed)) => if !distinct_runtimes(listed@) {
                    after == CutoverStage::Finished(Err(CutoverError::AmbiguousRuntime))
                } else if listed@.len() == 0 {
                    after matches CutoverStage::ProveBeforeCleanup { lease: l, retired: n, handed }
                        && l == lease && n == retired && handed@.len() == 0
                } else {
                    after matches CutoverStage::Corroborate {
                        lease: l,
                        retired: n,
                        current,
                        rest,
                        handed,
                    } && l == lease && n == retired && handed@.len() == 0 && is_permutation(
                        pending_of(current, rest@),
                        listed@,
                    ) && strictly_ordered_runtimes(pending_of(current, rest@))
                },
                CutoverEvent::Projections(Err(e)) => after == CutoverStage::Finished(Err(e)),
                _ => false,
            },
            CutoverStage::Corroborate { lease, retired, current, rest, handed } => match event {
                CutoverEvent::Corroborated(Ok(c)) => {
                    let target = OpenCodeObserverTarget {
                        projection: current,
                        observer: c.observer,
                        kind: c.kind,
                    };
                    if observer_target_ok(target) {
                        after matches CutoverStage::HandOver {
                            lease: l,
                            retired: n,
                            target: t,
                            rest: r,
                            handed: h,
                        } && l == lease && n == retired && t == target && r@ == rest@ && h@
                            == handed@
                    } else {
                        after == CutoverStage::Finished(Err(CutoverError::InvalidObserverTarget))
                    }
                },
                CutoverEvent::Corroborated(Err(e)) => after == CutoverStage::Finished(Err(e)),
                _ => false,
            },
            CutoverStage::HandOver { lease, retired, target, rest, handed } => match event {
                CutoverEvent::HandedOver(Ok(changed)) => if rest@.len() == 0 {
                    after matches CutoverStage::ProveBeforeCleanup { lease: l, retired: n, handed: h }
                        && l == lease && n == retired && h@ == handed_after(handed@, target, changed)
                } else {
                    after matches CutoverStage::Corroborate {
                        lease: l,
                        retired: n,
                        current: c,
                        rest: r,
                        handed: h,
                    } && l == lease && n == retired && c == rest@[0] && r@ == rest@.drop_first()
                        && h@ == handed_after(handed@, target, changed)
                },
                CutoverEvent::HandedOver(Err(e)) => after == CutoverStage::Finished(Err(e)),
                _ => false,
            },
            CutoverStage::ProveBeforeCleanup { lease, retired, handed } => match event {
                CutoverEvent::Proved(Ok(a)) => if presentation_absent(a) {
                    after matches CutoverStage::RemoveClientFiles { lease: l, retired: n, handed: h }
                        && l == lease && n == retired && h@ == handed@
                } else {
                    after == CutoverStage::Finished(Err(CutoverError::PresentationNotRetired))
                },
                CutoverEvent::Proved(Err(e)) => after == CutoverStage::Finished(Err(e)),
                _ => false,
            },
            CutoverStage::RemoveClientFiles { lease, retired, handed } => match event {
                CutoverEvent::Removed(Ok(removed)) => after matches CutoverStage::Migrate {
                    lease: l,
                    retired: n,
                    handed: h,
                    removed: m,
                } && l == lease && n == retired && h@ == handed@ && m == removed,
                CutoverEvent::Removed(Err(e)) => after == CutoverStage::Finished(Err(e)),
                _ => false,
            },
            CutoverStage::Migrate { lease, retired, handed, removed } => match event {
                CutoverEvent::Effect(Ok(())) => after matches CutoverStage::RemoveLock {
                    lease: l,
                    retired: n,
                    handed: h,
                    removed: m,
                } && l == lease && n == retired && h@ == handed@ && m == removed,
                CutoverEvent::Effect(Err(e)) => after == CutoverStage::Finished(Err(e)),
                _ => false,
            },
            CutoverStage::RemoveLock { retired, handed, removed, .. } => match event {
                CutoverEvent::Effect(Ok(())) => after matches CutoverStage::Finished(
                    Ok(CutoverOutcome::Completed(report)),
                ) && report.retired_presentations == retired && report.handed_over_runtimes@
                    == handed@ && report.removed_client_files == removed,
                CutoverEvent::Effect(Err(e)) => after == CutoverStage::Finished(Err(e)),
                _ => false,
            },
            CutoverStage::Abort { error, .. } => after == CutoverStage::Finished(Err(error)),
            CutoverStage::Finished(_) => after == before,
        }
    }
}

fn copy_assessment(a: &LegacyPresentationAssessment) -> (r: LegacyPresentationAssessment)
    ensures
        r == *a,
{
    let proof = match &a.proof {
        Some(token) => Some(token.clone()),
        None => None,
    };
    LegacyPresentationAssessment { state: a.state, proof }
}

/// Where a run of `plan` under `confirmation` starts.
pub fn cutover_start(plan: &CutoverPlan, confirmation: &CutoverConfirmationInput) -> (r: CutoverStage)
    ensures
        r == cutover_start_of(*plan, *confirmation),
{
    match cutover_gate(plan, confirmation) {
        Ok(Some(outcome)) => CutoverStage::Finished(Ok(outcome)),
        Err(e) => CutoverStage::Finished(Err(e)),
        Ok(None) => CutoverStage::AcquireLease,
    }
}

/// The effect a run waits on at `stage`.
pub fn next_cutover_action(stage: &CutoverStage) -> (r: CutoverAction)
    ensures
        r == cutover_action_of(*stage),
{
    match stage {
        CutoverStage::AcquireLease => CutoverAction::AcquireLease,
        CutoverStage::ProveUnderLease { .. } => CutoverAction::Prove,
        CutoverStage::Retire { assessment, .. } => CutoverAction::Retire(copy_assessment(assessment)),
        CutoverStage::ProveRetired { .. } => CutoverAction::Prove,
        CutoverStage::OpenState { .. } => CutoverAction::OpenState,
        CutoverStage::ResumeHandover { .. } => CutoverAction::ResumeHandover,
        CutoverStage::ListProjections { .. } => CutoverAction::ListProjections,
        CutoverStage::Corroborate { .. } => CutoverAction::Corroborate,
        CutoverStage::HandOver { .. } => CutoverAction::HandOver,
        CutoverStage::ProveBeforeCleanup { .. } => CutoverAction::Prove,
        CutoverStage::RemoveClientFiles { lease, .. } => CutoverAction::RemoveClientFiles(
            lease.identity,
        ),
        CutoverStage::Migrate { .. } => CutoverAction::Migrate,
        CutoverStage::RemoveLock { lease, .. } => CutoverAction::RemoveLock(lease.identity),
        CutoverStage::Abort { lease, durable, .. } => CutoverAction::ReleaseLease {
            remove_lock: lease.created && !*durable,
            identity: lease.identity,
        },
        CutoverStage::Finished(_) => CutoverAction::Finish,
    }
}

fn cutover_answers(stage: &CutoverStage, event: &CutoverEvent) -> (r: bool)
    ensures
        r == cutover_event_answers(*stage, *event),
{
    match stage {
        CutoverStage::AcquireLease => matches!(event, CutoverEvent::LeaseAcquired(_)),
        CutoverStage::ProveUnderLease { .. } | CutoverStage::ProveRetired { .. }
        | CutoverStage::ProveBeforeCleanup { .. } => matches!(event, CutoverEvent::Proved(_)),
        CutoverStage::Retire { .. } => matches!(event, CutoverEvent::Retired(_)),
        CutoverStage::ListProjections { .. } => matches!(event, CutoverEvent::Projections(_)),
        CutoverStage::Corroborate { .. } => matches!(event, CutoverEvent::Corroborated(_)),
        CutoverStage::HandOver { .. } => matches!(event, CutoverEvent::HandedOver(_)),
        CutoverStage::RemoveClientFiles { .. } => matches!(event, CutoverEvent::Removed(_)),
        CutoverStage::Finished(_) => false,
        _ => matches!(event, CutoverEvent::Effect(_)),
    }
}

fn start_handover_loop(
    plan: &CutoverPlan,
    lease: LeaseHold,
    retired: usize,
    listed: Vec<OpenCodeObserverProjection>,
) -> (r: CutoverStage)
    ensures
        cutover_transition(
            *plan,
            CutoverStage::ListProjections { lease, retired },
            CutoverEvent::Projections(Ok(listed)),
            r,
        ),
{
    let ghost given = listed@;
    match order_observer_projections(listed) {
        Err(e) => CutoverStage::Finished(Err(e)),
        Ok(ordered) => {
            proof {
                crate::sort::lemma_permutation_elements(ordered@, given);
            }
            let mut ordered = ordered;
            if ordered.len() == 0 {
                CutoverStage::ProveBeforeCleanup { lease, retired, handed: Vec::new() }
            } else {
                let ghost before = ordered@;
                let current = ordered.remove(0);
                assert(pending_of(current, ordered@) =~= before);
                CutoverStage::Corroborate { lease, retired, current, rest: ordered, handed: Vec::new() }
            }
        },
    }
}

/// Moves a run of `plan` on by the result of the effect `stage` waited on:
/// the whole decision between two effects of a cutover run.
pub fn cutover_step(plan: &CutoverPlan, stage: CutoverStage, event: CutoverEvent) -> (r: CutoverStage)
    ensures
        cutover_transition(*plan, stage, event, r),
{
    if !cutover_answers(&stage, &event) {
        return stage;
    }
    match stage {
        CutoverStage::AcquireLease => match event {
            CutoverEvent::LeaseAcquired(Ok(lease)) => CutoverStage::ProveUnderLease { lease },
            CutoverEvent::LeaseAcquired(Err(e)) => CutoverStage::Finished(Err(e)),
            _ => CutoverStage::AcquireLease,
        },
        CutoverStage::ProveUnderLease { lease } => match event {
            CutoverEvent::Proved(Ok(a)) => match require_unchanged_presentation(plan, &a) {
                Ok(()) => CutoverStage::Retire { lease, assessment: a },
                Err(e) => CutoverStage::Abort { lease, durable: false, error: e },
            },
            CutoverEvent::Proved(Err(e)) => CutoverStage::Abort { lease, durable: false, error: e },
            _ => CutoverStage::ProveUnderLease { lease },
        },
        CutoverStage::Retire { lease, assessment } => match event {
            CutoverEvent::Retired(Ok(n)) => CutoverStage::ProveRetired { lease, retired: n },
            CutoverEvent::Retired(Err(e)) => CutoverStage::Abort { lease, durable: true, error: e },
            _ => CutoverStage::Retire { lease, assessment },
        },
        CutoverStage::ProveRetired { lease, retired } => match event {
            CutoverEvent::Proved(Ok(a)) => match require_retired_presentation(&a) {
                Ok(()) => CutoverStage::OpenState { lease, retired },
                Err(e) => CutoverStage::Abort { lease, durable: retired > 0, error: e },
            },
            CutoverEvent::Proved(Err(e)) => CutoverStage::Abort {
                lease,
                durable: retired > 0,
                error: e,
            },
            _ => CutoverStage::ProveRetired { lease, retired },
        },
        CutoverStage::OpenState { lease, retired } => match event {
            CutoverEvent::Effect(Ok(())) => CutoverStage::ResumeHandover { lease, retired },
            CutoverEvent::Effect(Err(e)) => CutoverStage::Finished(Err(e)),
            _ => CutoverStage::OpenState { lease, retired },
        },
        CutoverStage::ResumeHandover { lease, retired } => match event {
            CutoverEvent::Effect(Ok(())) => CutoverStage::ListProjections { lease, retired },
            CutoverEvent::Effect(Err(e)) => CutoverStage::Finished(Err(e)),
            _ => CutoverStage::ResumeHandover { lease, retired },
        },
        CutoverStage::ListProjections { lease, retired } => match event {
            CutoverEvent::Projections(Ok(listed)) => start_handover_loop(plan, lease, retired, listed),
            CutoverEvent::Projections(Err(e)) => CutoverStage::Finished(Err(e)),
            _ => CutoverStage::ListProjections { lease, retired },
        },
        CutoverStage::Corroborate { lease, retired, current, rest, handed } => match event {
            CutoverEvent::Corroborated(Ok(c)) => {
                let target = OpenCodeObserverTarget {
                    projection: current,
                    observer: c.observer,
                    kind: c.kind,
                };
                match validate_observer_target(&target) {
                    Ok(()) => CutoverStage::HandOver { lease, retired, target, rest, handed },
                    Err(e) => CutoverStage::Finished(Err(e)),
                }
            },
            CutoverEvent::Corroborated(Err(e)) => CutoverStage::Finished(Err(e)),
            _ => CutoverStage::Corroborate { lease, retired, current, rest, handed },
        },
        CutoverStage::HandOver { lease, retired, target, rest, handed } => match event {
            CutoverEvent::HandedOver(Ok(changed)) => {
                let mut handed = handed;
                let mut rest = rest;
                if changed {
                    handed.push(target.projection.runtime.runtime_id);
                }
                if rest.len() == 0 {
                    CutoverStage::ProveBeforeCleanup { lease, retired, handed }
                } else {
                    let current = rest.remove(0);
                    CutoverStage::Corroborate { lease, retired, current, rest, handed }
                }
            },
            CutoverEvent::HandedOver(Err(e)) => CutoverStage::Finished(Err(e)),
            _ => CutoverStage::HandOver { lease, retired, target, rest, handed },
        },
        CutoverStage::ProveBeforeCleanup { lease, retired, handed } => match event {
            CutoverEvent::Proved(Ok(a)) => match require_retired_presentation(&a) {
                Ok(()) => CutoverStage::RemoveClientFiles { lease, retired, handed },
                Err(e) => CutoverStage::Finished(Err(e)),
            },
            CutoverEvent::Proved(Err(e)) => CutoverStage::Finished(Err(e)),
            _ => CutoverStage::ProveBeforeCleanup { lease, retired, handed },
        },
        CutoverStage::RemoveClientFiles { lease, retired, handed } => match event {
            CutoverEvent::Removed(Ok(removed)) => CutoverStage::Migrate {
                lease,
                retired,
                handed,
                removed,
            },
            CutoverEvent::Removed(Err(e)) => CutoverStage::Finished(Err(e)),
            _ => CutoverStage::RemoveClientFiles { lease, retired, handed },
        },
        CutoverStage::Migrate { lease, retired, handed, removed } => match event {
            CutoverEvent::Effect(Ok(())) => CutoverStage::RemoveLock { lease, retired, handed, removed },
            CutoverEvent::Effect(Err(e)) => CutoverStage::Finished(Err(e)),
            _ => CutoverStage::Migrate { lease, retired, handed, removed },
        },
        CutoverStage::RemoveLock { lease, retired, handed, removed } => match event {
            CutoverEvent::Effect(Ok(())) => CutoverStage::Finished(
                Ok(
                    CutoverOutcome::Completed(
                        CutoverReport {
                            retired_presentations: retired,
                            handed_over_runtimes: handed,
                            removed_client_files: removed,
                        },
                    ),
                ),
            ),
            CutoverEvent::Effect(Err(e)) => CutoverStage::Finished(Err(e)),
            _ => CutoverStage::RemoveLock { lease, retired, handed, removed },
        },
        CutoverStage::Abort { error, .. } => CutoverStage::Finished(Err(error)),
        CutoverStage::Finished(result) => CutoverStage::Finished(result),
    }
}

/// A run acquires the lease only for a confirmed, authorized, ready plan;
/// a declined, unauthorized or drain-only run ends before any effect.
pub proof fn lemma_only_a_confirmed_ready_run_takes_the_lease(
    plan: CutoverPlan,
    confirmation: CutoverConfirmationInput,
)
    ensures
        cutover_start_of(plan, confirmation) is AcquireLease <==> cutover_gate_result(
            plan,
            confirmation,
        ) == Ok::<Option<CutoverOutcome>, CutoverError>(None),
        cutover_start_of(plan, confirmation) is AcquireLease || cutover_start_of(
            plan,
            confirmation,
        ) is Finished,
{
}

/// The presentation is retired only when the proof repeated under the
/// lease is the one the plan was made from, and only that proof is handed
/// to the retirement.
pub proof fn lemma_retires_only_the_planned_presentation(
    plan: CutoverPlan,
    before: CutoverStage,
    event: CutoverEvent,
    after: CutoverStage,
)
    requires
        cutover_transition(plan, before, event, after),
    ensures
        after is Retire && before !is Retire ==> before is ProveUnderLease && (event matches CutoverEvent::Proved(Ok(a))
            && presentation_unchanged(plan, a) && after->Retire_assessment == a),
{
}

/// State is opened only once a proof made after the retirement shows that
/// no presentation and no proof token remain.
pub proof fn lemma_state_opens_only_without_presentation(
    plan: CutoverPlan,
    before: CutoverStage,
    event: CutoverEvent,
    after: CutoverStage,
)
    requires
        cutover_transition(plan, before, event, after),
    ensures
        after is OpenState && before !is OpenState ==> before is ProveRetired && (event matches CutoverEvent::Proved(Ok(a))
            && presentation_absent(a)),
{
}

/// A run that fails before state was opened releases the lease, and
/// removes the lock file only when it created it itself and no presentation
/// was retired; once state is opened, no failure removes the lock.
pub proof fn lemma_failure_before_state_keeps_a_durable_lock(
    plan: CutoverPlan,
    before: CutoverStage,
    event: CutoverEvent,
    after: CutoverStage,
)
    requires
        cutover_transition(plan, before, event, after),
    ensures
        after matches CutoverStage::Abort { lease, durable, .. } ==> cutover_action_of(after)
            == (CutoverAction::ReleaseLease {
            remove_lock: lease.created && !durable,
            identity: lease.identity,
        }),
        after matches CutoverStage::Abort { durable, .. } ==> (before !is Abort ==> {
            ||| before is ProveUnderLease && !durable
            ||| before is Retire && durable
            ||| before matches CutoverStage::ProveRetired { retired, .. } && durable == (retired > 0)
        }),
{
}

/// The legacy client files are removed only after every live observer was
/// handed over and a last proof showed no presentation; the schema is
/// migrated only after they were removed, and the lock only after that.
pub proof fn lemma_cleanup_follows_every_handover_and_a_last_proof(
    plan: CutoverPlan,
    before: CutoverStage,
    event: CutoverEvent,
    after: CutoverStage,
)
    requires
        cutover_transition(plan, before, event, after),
    ensures
        after is ProveBeforeCleanup && before !is ProveBeforeCleanup ==> {
            ||| before is ListProjections && (event matches CutoverEvent::Projections(Ok(listed))
                && listed@.len() == 0)
            ||| before is HandOver && before->HandOver_rest@.len() == 0 && event is HandedOver
                && event->HandedOver_0 is Ok
        },
        after is RemoveClientFiles && before !is RemoveClientFiles ==> before is ProveBeforeCleanup
            && (event matches CutoverEvent::Proved(Ok(a)) && presentation_absent(a)),
        after is Migrate && before !is Migrate ==> before is RemoveClientFiles && (event matches CutoverEvent::Removed(Ok(n))
            && after->Migrate_removed == n),
        after is RemoveLock && before !is RemoveLock ==> before is Migrate && event matches CutoverEvent::Effect(Ok(())),
{
}

/// A completed run reports exactly how many presentations it retired, the
/// Runtimes whose observers it replaced, and how many client files it
/// removed, once the lock was removed.
pub proof fn lemma_completed_run_reports_what_it_did(
    plan: CutoverPlan,
    before: CutoverStage,
    event: CutoverEvent,
    after: CutoverStage,
)
    requires
        cutover_transition(plan, before, event, after),
    ensures
        after matches CutoverStage::Finished(Ok(CutoverOutcome::Completed(report))) ==> (before
            !is Finished ==> (before matches CutoverStage::RemoveLock { retired, handed, removed, .. }
            && event is Effect && event->Effect_0 is Ok && report.retired_presentations == retired
            && report.handed_over_runtimes@ == handed@ && report.removed_client_files == removed)),
{
}

/// Runtime identities in strictly increasing order.
pub open spec fn increasing_ids(h: Seq<RuntimeId>) -> bool {
    forall|i: int, j: int| #![trigger h[i], h[j]] 0 <= i < j < h.len() ==> h[i].value < h[j].value
}

/// Every identity is below `id`.
pub open spec fn all_below(h: Seq<RuntimeId>, id: RuntimeId) -> bool {
    forall|i: int| 0 <= i < h.len() ==> (#[trigger] h[i]).value < id.value
}

/// What every stage of a run holds: the projections still to hand over are
/// in strictly increasing Runtime order, the Runtimes already handed over
/// are in strictly increasing order below them, and a target being handed
/// over is a valid one.
pub open spec fn cutover_stage_ok(stage: CutoverStage) -> bool {
    match stage {
        CutoverStage::Corroborate { current, rest, handed, .. } => {
            &&& strictly_ordered_runtimes(pending_of(current, rest@))
            &&& increasing_ids(handed@)
            &&& all_below(handed@, current.runtime.runtime_id)
        },
        CutoverStage::HandOver { target, rest, handed, .. } => {
            &&& observer_target_ok(target)
            &&& strictly_ordered_runtimes(pending_of(target.projection, rest@))
            &&& increasing_ids(handed@)
            &&& all_below(handed@, target.projection.runtime.runtime_id)
        },
        CutoverStage::ProveBeforeCleanup { handed, .. } => increasing_ids(handed@),
        CutoverStage::RemoveClientFiles { handed, .. } => increasing_ids(handed@),
        CutoverStage::Migrate { handed, .. } => increasing_ids(handed@),
        CutoverStage::RemoveLock { handed, .. } => increasing_ids(handed@),
        CutoverStage::Finished(Ok(CutoverOutcome::Completed(report))) => increasing_ids(
            report.handed_over_runtimes@,
        ),
        _ => true,
    }
}

/// Every run starts in a stage that holds the run invariant.
pub proof fn lemma_cutover_start_is_ok(plan: CutoverPlan, confirmation: CutoverConfirmationInput)
    ensures
        cutover_stage_ok(cutover_start_of(plan, confirmation)),
{
}

/// Every step keeps the run invariant: observers are handed over one
/// Runtime at a time in strictly increasing Runtime order, so a completed
/// run reports each replaced Runtime once, in that order.
pub proof fn lemma_cutover_step_keeps_invariant(
    plan: CutoverPlan,
    before: CutoverStage,
    event: CutoverEvent,
    after: CutoverStage,
)
    requires
        cutover_stage_ok(before),
        cutover_transition(plan, before, event, after),
    ensures
        cutover_stage_ok(after),
{
    if cutover_event_answers(before, event) {
        match before {
            CutoverStage::HandOver { target, rest, handed, .. } => {
                if let CutoverEvent::HandedOver(Ok(changed)) = event {
                    let id = target.projection.runtime.runtime_id;
                    let h2 = handed_after(handed@, target, changed);
                    let pending = pending_of(target.projection, rest@);
                    assert(increasing_ids(h2)) by {
                        if changed {
                            assert forall|i: int, j: int|
                                #![trigger h2[i], h2[j]]
                                0 <= i < j < h2.len() implies h2[i].value < h2[j].value by {
                                if j == h2.len() - 1 {
                                    assert(h2[i] == handed@[i]);
                                    assert(h2[j] == id);
                                } else {
                                    assert(h2[i] == handed@[i]);
                                    assert(h2[j] == handed@[j]);
                                }
                            }
                        }
                    }
                    if rest@.len() > 0 {
                        let next = rest@[0];
                        assert(pending[0] == target.projection);
                        assert(pending[1] == next);
                        assert(id.value < next.runtime.runtime_id.value);
                        assert(all_below(h2, next.runtime.runtime_id)) by {
                            assert forall|i: int| 0 <= i < h2.len() implies (#[trigger] h2[i]).value
                                < next.runtime.runtime_id.value by {
                                if changed && i == h2.len() - 1 {
                                    assert(h2[i] == id);
                                } else {
                                    assert(h2[i] == handed@[i]);
                                }
                            }
                        }
                        let tail = pending_of(next, rest@.drop_first());
                        assert(strictly_ordered_runtimes(tail)) by {
                            assert forall|i: int, j: int|
                                #![trigger tail[i], tail[j]]
                                0 <= i < j < tail.len() implies tail[i].runtime.runtime_id.value
                                < tail[j].runtime.runtime_id.value by {
                                assert(tail[i] == pending[i + 1]);
                                assert(tail[j] == pending[j + 1]);
                            }
                        }
                        match after {
                            CutoverStage::Corroborate { current, rest: r2, handed: h, .. } => {
                                assert(pending_of(current, r2@) =~= tail);
                                assert(h@ =~= h2);
                            },
                            _ => {},
                        }
                    } else {
                        match after {
                            CutoverStage::ProveBeforeCleanup { handed: h, .. } => {
                                assert(h@ =~= h2);
                            },
                            _ => {},
                        }
                    }
                }
            },
            CutoverStage::Corroborate { current, rest, handed, .. } => {
                match after {
                    CutoverStage::HandOver { target, rest: r2, handed: h, .. } => {
                        assert(pending_of(target.projection, r2@) =~= pending_of(current, rest@));
                    },
                    _ => {},
                }
            },
            _ => {},
        }
    }
}

/// How far along its run a stage is; the handover loop is one phase.
pub open spec fn cutover_phase(stage: CutoverStage) -> int {
    match stage {
        CutoverStage::AcquireLease => 0,
        CutoverStage::ProveUnderLease { .. } => 1,
        CutoverStage::Retire { .. } => 2,
        CutoverStage::ProveRetired { .. } => 3,
        CutoverStage::OpenState { .. } => 4,
        CutoverStage::ResumeHandover { .. } => 5,
        CutoverStage::ListProjections { .. } => 6,
        CutoverStage::Corroborate { .. } => 7,
        CutoverStage::HandOver { .. } => 7,
        CutoverStage::ProveBeforeCleanup { .. } => 8,
        CutoverStage::RemoveClientFiles { .. } => 9,
        CutoverStage::Migrate { .. } => 10,
        CutoverStage::RemoveLock { .. } => 11,
        CutoverStage::Abort { .. } => 12,
        CutoverStage::Finished(_) => 13,
    }
}

/// How far along the handover loop a stage is: fewer projections left,
/// and a corroborated target after its corroboration.
pub open spec fn loop_progress(stage: CutoverStage) -> int {
    match stage {
        CutoverStage::Corroborate { rest, .. } => -2 * rest@.len(),
        CutoverStage::HandOver { rest, .. } => 1 - 2 * rest@.len(),
        _ => 0,
    }
}

/// Each answered effect moves a run to a later phase or, in the handover
/// loop, strictly closer to its end, so no effect is asked twice for the
/// same projection and every run ends; an event that does not answer the
/// pending effect changes nothing.
pub proof fn lemma_cutover_moves_forward(
    plan: CutoverPlan,
    before: CutoverStage,
    event: CutoverEvent,
    after: CutoverStage,
)
    requires
        cutover_transition(plan, before, event, after),
    ensures
        cutover_event_answers(before, event) ==> cutover_phase(after) > cutover_phase(before) || (
        cutover_phase(after) == cutover_phase(before) == 7 && loop_progress(after) > loop_progress(
            before,
        )),
        !cutover_event_answers(before, event) ==> after == before,
        loop_progress(before) <= 1,
{
}

/// `stages` is a run of `plan` under `confirmation`: it starts where the run
/// starts, and each stage is what the one before moves to on the event
/// between them.
pub open spec fn cutover_trace(
    plan: CutoverPlan,
    confirmation: CutoverConfirmationInput,
    stages: Seq<CutoverStage>,
    events: Seq<CutoverEvent>,
) -> bool {
    &&& stages.len() == events.len() + 1
    &&& stages[0] == cutover_start_of(plan, confirmation)
    &&& forall|k: int|
        #![trigger events[k]]
        0 <= k < events.len() ==> cutover_transition(plan, stages[k], events[k], stages[k + 1])
}

/// Every stage of every run holds the run invariant; in particular a
/// completed run reports the replaced Runtimes in strictly increasing order,
/// each once.
pub proof fn lemma_cutover_trace_keeps_invariant(
    plan: CutoverPlan,
    confirmation: CutoverConfirmationInput,
    stages: Seq<CutoverStage>,
    events: Seq<CutoverEvent>,
)
    requires
        cutover_trace(plan, confirmation, stages, events),
    ensures
        forall|k: int| 0 <= k < stages.len() ==> cutover_stage_ok(#[trigger] stages[k]),
{
    assert forall|k: int| 0 <= k < stages.len() implies cutover_stage_ok(#[trigger] stages[k]) by {
        lemma_cutover_trace_prefix_ok(plan, confirmation, stages, events, k);
    }
}

proof fn lemma_cutover_trace_prefix_ok(
    plan: CutoverPlan,
    confirmation: CutoverConfirmationInput,
    stages: Seq<CutoverStage>,
    events: Seq<CutoverEvent>,
    k: int,
)
    requires
        cutover_trace(plan, confirmation, stages, events),
        0 <= k < stages.len(),
    ensures
        cutover_stage_ok(stages[k]),
    decreases k,
{
    if k == 0 {
        lemma_cutover_start_is_ok(plan, confirmation);
    } else {
        lemma_cutover_trace_prefix_ok(plan, confirmation, stages, events, k - 1);
        let previous = events[k - 1];
        assert(cutover_transition(plan, stages[k - 1], previous, stages[k]));
        lemma_cutover_step_keeps_invariant(plan, stages[k - 1], events[k - 1], stages[k]);
    }
}

} // verus!
