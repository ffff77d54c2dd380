//! Handing one OpenCode Runtime over from its legacy observer to a standby
//! observer: the step machine that decides, after each effect, the next
//! effect, so that the old observer is only frozen, and then terminated,
//! once the standby is proven and the recorded handle names it.

use vstd::prelude::*;

use crate::cutover::{
    CorroboratedOpenCodeObserver, CutoverError, ObserverProcessIdentity, ObserverProcessState,
    OpenCodeObserverKind, require_exact_identity, same_identity,
};
use crate::domain::Revision;
use crate::ids::RuntimeId;
use crate::observer_target::{
    CurrentObserverHandleProof, OpenCodeObserverProjection, OpenCodeObserverTarget,
    current_handle_matches, next_handle_revision, require_current_handle, revision_can_advance,
    standby_identity_ok, validate_standby_identity,
};

verus! {

/// The phase a handover journal records, in the order a handover passes them.
#[derive(Clone, Copy, Debug, PartialEq, Eq, Structural)]
pub enum HandoverPhase {
    Prepared,
    StandbyReady,
    OldFrozen,
    HandleSwapped,
    OldCleaning,
    Complete,
}

/// Injected process effects on exact observer identities. Implementations
/// own the signals and the spawning; the callers only ever hand them the
/// identity a step has proven.
pub trait CutoverProcessAuthority {
    fn corroborate_observer(
        &mut self,
        target: &OpenCodeObserverProjection,
    ) -> Result<CorroboratedOpenCodeObserver, CutoverError>;

    fn observe(&mut self, expected: &ObserverProcessIdentity) -> Result<
        ObserverProcessState,
        CutoverError,
    >;

    fn start_standby(&mut self, target: &OpenCodeObserverProjection) -> Result<
        ObserverProcessIdentity,
        CutoverError,
    >;

    fn freeze_exact(&mut self, expected: &ObserverProcessIdentity) -> Result<(), CutoverError>;

    fn restore_old_exact(&mut self, expected: &ObserverProcessIdentity) -> Result<
        (),
        CutoverError,
    >;

    fn discard_standby_exact(&mut self, expected: &ObserverProcessIdentity) -> Result<
        (),
        CutoverError,
    >;

    fn activate_standby_exact(&mut self, expected: &ObserverProcessIdentity) -> Result<
        (),
        CutoverError,
    >;

    fn terminate_frozen_exact(&mut self, expected: &ObserverProcessIdentity) -> Result<
        (),
        CutoverError,
    >;
}

/// Injected host-state effects of a handover: the live observer
/// projections, the handle the state records for a Runtime, and the
/// compare-and-swap that assigns a standby to it.
pub trait CutoverStateAuthority {
    fn live_opencode_observer_projections(&mut self) -> Result<
        Vec<OpenCodeObserverProjection>,
        CutoverError,
    >;

    fn current_observer(&mut self, runtime_id: RuntimeId) -> Result<
        CurrentObserverHandleProof,
        CutoverError,
    >;

    fn compare_and_swap_observer(
        &mut self,
        runtime_id: RuntimeId,
        expected_revision: Revision,
        standby: &ObserverProcessIdentity,
    ) -> Result<CurrentObserverHandleProof, CutoverError>;

    fn migrate_schema12_to13(&mut self) -> Result<(), CutoverError>;
}

/// What an observation gives when the exact expected process must be running.
pub open spec fn running_check(
    status: Result<ObserverProcessState, CutoverError>,
    expected: ObserverProcessIdentity,
) -> Result<(), CutoverError> {
    match status {
        Err(e) => Err(e),
        Ok(ObserverProcessState::Running(actual)) => if same_identity(actual, expected) {
            Ok(())
        } else {
            Err(CutoverError::FuzzyProcessIdentity)
        },
        Ok(_) => Err(CutoverError::FuzzyProcessIdentity),
    }
}

/// What an observation gives when the exact expected process must be stopped.
pub open spec fn stopped_check(
    status: Result<ObserverProcessState, CutoverError>,
    expected: ObserverProcessIdentity,
) -> Result<(), CutoverError> {
    match status {
        Err(e) => Err(e),
        Ok(ObserverProcessState::Stopped(actual)) => if same_identity(actual, expected) {
            Ok(())
        } else {
            Err(CutoverError::FuzzyProcessIdentity)
        },
        Ok(_) => Err(CutoverError::FuzzyProcessIdentity),
    }
}

/// The handle the compare-and-swap returned names the standby, for the
/// target's Runtime generation, one revision past the target's handle.
pub open spec fn swapped_handle_matches(
    swapped: CurrentObserverHandleProof,
    t: OpenCodeObserverTarget,
    standby: ObserverProcessIdentity,
) -> bool {
    &&& swapped.runtime_id == t.projection.runtime.runtime_id
    &&& swapped.runtime_generation@ == t.projection.handle.runtime_generation@
    &&& swapped.pid == standby.pid
    &&& swapped.birth@ == standby.birth@
    &&& swapped.revision.spec_value() == t.projection.handle.revision.spec_value() + 1
}

/// Where one handover stands. Each stage names the one effect it waits on;
/// the stages after the compare-and-swap carry the handle it returned.
#[derive(Debug)]
pub enum HandoverStage {
    ReadHandle,
    ObserveOld,
    StartStandby,
    ObserveStandby { standby: ObserverProcessIdentity },
    RecordPrepared { standby: ObserverProcessIdentity },
    RecordStandbyReady { standby: ObserverProcessIdentity },
    FreezeOld { standby: ObserverProcessIdentity },
    ObserveFrozenOld { standby: ObserverProcessIdentity },
    ReadFrozenHandle { standby: ObserverProcessIdentity },
    RecordOldFrozen { standby: ObserverProcessIdentity },
    SwapHandle { standby: ObserverProcessIdentity },
    ObserveSwappedStandby { standby: ObserverProcessIdentity, swapped: CurrentObserverHandleProof },
    RecordHandleSwapped { standby: ObserverProcessIdentity, swapped: CurrentObserverHandleProof },
    ActivateStandby { standby: ObserverProcessIdentity, swapped: CurrentObserverHandleProof },
    RecordOldCleaning { standby: ObserverProcessIdentity, swapped: CurrentObserverHandleProof },
    ObserveCleanedOld { standby: ObserverProcessIdentity, swapped: CurrentObserverHandleProof },
    TerminateOld { standby: ObserverProcessIdentity, swapped: CurrentObserverHandleProof },
    RecordComplete { standby: ObserverProcessIdentity, swapped: CurrentObserverHandleProof },
    RemoveJournal { standby: ObserverProcessIdentity, swapped: CurrentObserverHandleProof },
    DiscardStandby { standby: ObserverProcessIdentity, error: CutoverError },
    Finished(Result<bool, CutoverError>),
}

/// The result of the effect a stage waited on.
#[derive(Debug)]
pub enum HandoverEvent {
    Handle(Result<CurrentObserverHandleProof, CutoverError>),
    Observed(Result<ObserverProcessState, CutoverError>),
    Started(Result<ObserverProcessIdentity, CutoverError>),
    Effect(Result<(), CutoverError>),
}

/// The effect a stage asks for. `Record` writes the handover journal for
/// the target with the given standby and phase.
#[derive(Debug)]
pub enum HandoverAction {
    ReadHandle,
    Observe(ObserverProcessIdentity),
    StartStandby,
    Record { phase: HandoverPhase, standby: ObserverProcessIdentity },
    Freeze(ObserverProcessIdentity),
    /// Swap the current-observer handle of `runtime_id` from its
    /// `expected_revision` to `standby`.
    CompareAndSwap { runtime_id: RuntimeId, expected_revision: Revision, standby: ObserverProcessIdentity },
    Activate(ObserverProcessIdentity),
    Terminate(ObserverProcessIdentity),
    RemoveJournal,
    Discard(ObserverProcessIdentity),
    Restore(ObserverProcessIdentity),
    Finish,
}

/// The standby a stage carries, if any.
pub open spec fn stage_standby(stage: HandoverStage) -> Option<ObserverProcessIdentity> {
    match stage {
        HandoverStage::ObserveStandby { standby } => Some(standby),
        HandoverStage::RecordPrepared { standby } => Some(standby),
        HandoverStage::RecordStandbyReady { standby } => Some(standby),
        HandoverStage::FreezeOld { standby } => Some(standby),
        HandoverStage::ObserveFrozenOld { standby } => Some(standby),
        HandoverStage::ReadFrozenHandle { standby } => Some(standby),
        HandoverStage::RecordOldFrozen { standby } => Some(standby),
        HandoverStage::SwapHandle { standby } => Some(standby),
        HandoverStage::ObserveSwappedStandby { standby, .. } => Some(standby),
        HandoverStage::RecordHandleSwapped { standby, .. } => Some(standby),
        HandoverStage::ActivateStandby { standby, .. } => Some(standby),
        HandoverStage::RecordOldCleaning { standby, .. } => Some(standby),
        HandoverStage::ObserveCleanedOld { standby, .. } => Some(standby),
        HandoverStage::TerminateOld { standby, .. } => Some(standby),
        HandoverStage::RecordComplete { standby, .. } => Some(standby),
        HandoverStage::RemoveJournal { standby, .. } => Some(standby),
        HandoverStage::DiscardStandby { standby, .. } => Some(standby),
        _ => None,
    }
}

/// The swapped handle a stage carries, if any.
pub open spec fn stage_swapped(stage: HandoverStage) -> Option<CurrentObserverHandleProof> {
    match stage {
        HandoverStage::ObserveSwappedStandby { swapped, .. } => Some(swapped),
        HandoverStage::RecordHandleSwapped { swapped, .. } => Some(swapped),
        HandoverStage::ActivateStandby { swapped, .. } => Some(swapped),
        HandoverStage::RecordOldCleaning { swapped, .. } => Some(swapped),
        HandoverStage::ObserveCleanedOld { swapped, .. } => Some(swapped),
        HandoverStage::TerminateOld { swapped, .. } => Some(swapped),
        HandoverStage::RecordComplete { swapped, .. } => Some(swapped),
        HandoverStage::RemoveJournal { swapped, .. } => Some(swapped),
        _ => None,
    }
}

/// What every stage a handover reaches holds: its standby is another,
/// named process, and after the swap the recorded handle names that standby
/// one revision on.
pub open spec fn handover_stage_ok(t: OpenCodeObserverTarget, stage: HandoverStage) -> bool {
    &&& (stage_standby(stage) matches Some(s) ==> standby_identity_ok(s, t.observer))
    &&& (stage_swapped(stage) matches Some(h) ==> (stage_standby(stage) matches Some(s)
        && swapped_handle_matches(h, t, s)))
}

/// The effect each stage waits on.
pub open spec fn handover_action_of(t: OpenCodeObserverTarget, stage: HandoverStage) -> HandoverAction {
    let old = t.observer;
    match stage {
        HandoverStage::ReadHandle => HandoverAction::ReadHandle,
        HandoverStage::ObserveOld => HandoverAction::Observe(old),
        HandoverStage::StartStandby => HandoverAction::StartStandby,
        HandoverStage::ObserveStandby { standby } => HandoverAction::Observe(standby),
        HandoverStage::RecordPrepared { standby } => HandoverAction::Record {
            phase: HandoverPhase::Prepared,
            standby,
        },
        HandoverStage::RecordStandbyReady { standby } => HandoverAction::Record {
            phase: HandoverPhase::StandbyReady,
            standby,
        },
        HandoverStage::FreezeOld { .. } => HandoverAction::Freeze(old),
        HandoverStage::ObserveFrozenOld { .. } => HandoverAction::Observe(old),
        HandoverStage::ReadFrozenHandle { .. } => HandoverAction::ReadHandle,
        HandoverStage::RecordOldFrozen { standby } => HandoverAction::Record {
            phase: HandoverPhase::OldFrozen,
            standby,
        },
        HandoverStage::SwapHandle { standby } => HandoverAction::CompareAndSwap {
            runtime_id: t.projection.runtime.runtime_id,
            expected_revision: t.projection.handle.revision,
            standby,
        },
        HandoverStage::ObserveSwappedStandby { standby, .. } => HandoverAction::Observe(standby),
        HandoverStage::RecordHandleSwapped { standby, .. } => HandoverAction::Record {
            phase: HandoverPhase::HandleSwapped,
            standby,
        },
        HandoverStage::ActivateStandby { standby, .. } => HandoverAction::Activate(standby),
        HandoverStage::RecordOldCleaning { standby, .. } => HandoverAction::Record {
            phase: HandoverPhase::OldCleaning,
            standby,
        },
        HandoverStage::ObserveCleanedOld { .. } => HandoverAction::Observe(old),
        HandoverStage::TerminateOld { .. } => HandoverAction::Terminate(old),
        HandoverStage::RecordComplete { standby, .. } => HandoverAction::Record {
            phase: HandoverPhase::Complete,
            standby,
        },
        HandoverStage::RemoveJournal { .. } => HandoverAction::RemoveJournal,
        HandoverStage::DiscardStandby { standby, .. } => HandoverAction::Discard(standby),
        HandoverStage::Finished(_) => HandoverAction::Finish,
    }
}

/// The event answers the effect the stage waits on.
pub open spec fn handover_event_answers(stage: HandoverStage, event: HandoverEvent) -> bool {
    match stage {
        HandoverStage::ReadHandle | HandoverStage::ReadFrozenHandle { .. }
        | HandoverStage::SwapHandle { .. } => event is Handle,
        HandoverStage::ObserveOld | HandoverStage::ObserveStandby { .. }
        | HandoverStage::ObserveFrozenOld { .. } | HandoverStage::ObserveSwappedStandby { .. }
        | HandoverStage::ObserveCleanedOld { .. } => event is Observed,
        HandoverStage::StartStandby => event is Started,
        HandoverStage::Finished(_) => false,
        _ => event is Effect,
    }
}

/// The stage an effect-stage moves to on success, or the failure it ends in.
pub open spec fn on_effect(
    result: Result<(), CutoverError>,
    next: HandoverStage,
) -> HandoverStage {
    match result {
        Ok(()) => next,
        Err(e) => HandoverStage::Finished(Err(e)),
    }
}

/// The stage a handover moves to when the effect its stage waited on gives
/// `event`. An event that does not answer the stage's effect leaves it as
/// it is; a finished handover stays finished.
pub open spec fn handover_next(
    t: OpenCodeObserverTarget,
    stage: HandoverStage,
    event: HandoverEvent,
) -> HandoverStage {
    let old = t.observer;
    let revision = t.projection.handle.revision;
    if !handover_event_answers(stage, event) {
        stage
    } else {
        match stage {
            HandoverStage::ReadHandle => match event {
                HandoverEvent::Handle(Ok(h)) => if current_handle_matches(
                    h,
                    t,
                    old.pid,
                    old.birth@,
                    revision,
                ) {
                    HandoverStage::ObserveOld
                } else {
                    HandoverStage::Finished(Err(CutoverError::FuzzyProcessIdentity))
                },
                HandoverEvent::Handle(Err(e)) => HandoverStage::Finished(Err(e)),
                _ => stage,
            },
            HandoverStage::ObserveOld => match event {
                HandoverEvent::Observed(status) => match running_check(status, old) {
                    Err(e) => HandoverStage::Finished(Err(e)),
                    Ok(()) => if t.kind == OpenCodeObserverKind::D16 {
                        HandoverStage::Finished(Ok(false))
                    } else {
                        HandoverStage::StartStandby
                    },
                },
                _ => stage,
            },
            HandoverStage::StartStandby => match event {
                HandoverEvent::Started(Ok(s)) => if standby_identity_ok(s, old) {
                    HandoverStage::ObserveStandby { standby: s }
                } else {
                    HandoverStage::Finished(Err(CutoverError::InvalidObserverTarget))
                },
                HandoverEvent::Started(Err(e)) => HandoverStage::Finished(Err(e)),
                _ => stage,
            },
            HandoverStage::ObserveStandby { standby } => match event {
                HandoverEvent::Observed(status) => match running_check(status, standby) {
                    Ok(()) => HandoverStage::RecordPrepared { standby },
                    Err(e) => HandoverStage::DiscardStandby { standby, error: e },
                },
                _ => stage,
            },
            HandoverStage::RecordPrepared { standby } => match event {
                HandoverEvent::Effect(Ok(())) => HandoverStage::RecordStandbyReady { standby },
                HandoverEvent::Effect(Err(e)) => HandoverStage::DiscardStandby { standby, error: e },
                _ => stage,
            },
            HandoverStage::RecordStandbyReady { standby } => match event {
                HandoverEvent::Effect(r) => on_effect(r, HandoverStage::FreezeOld { standby }),
                _ => stage,
            },
            HandoverStage::FreezeOld { standby } => match event {
                HandoverEvent::Effect(Ok(())) => HandoverStage::ObserveFrozenOld { standby },
                HandoverEvent::Effect(Err(e)) => HandoverStage::DiscardStandby { standby, error: e },
                _ => stage,
            },
            HandoverStage::ObserveFrozenOld { standby } => match event {
                HandoverEvent::Observed(status) => on_effect(
                    stopped_check(status, old),
                    HandoverStage::ReadFrozenHandle { standby },
                ),
                _ => stage,
            },
            HandoverStage::ReadFrozenHandle { standby } => match event {
                HandoverEvent::Handle(Ok(h)) => if current_handle_matches(
                    h,
                    t,
                    old.pid,
                    old.birth@,
                    revision,
                ) {
                    HandoverStage::RecordOldFrozen { standby }
                } else {
                    HandoverStage::Finished(Err(CutoverError::FuzzyProcessIdentity))
                },
                HandoverEvent::Handle(Err(e)) => HandoverStage::Finished(Err(e)),
                _ => stage,
            },
            HandoverStage::RecordOldFrozen { standby } => match event {
                HandoverEvent::Effect(r) => on_effect(r, HandoverStage::SwapHandle { standby }),
                _ => stage,
            },
            HandoverStage::SwapHandle { standby } => match event {
                HandoverEvent::Handle(Ok(h)) => if !revision_can_advance(revision) {
                    HandoverStage::Finished(Err(CutoverError::InvalidHandoverJournal))
                } else if swapped_handle_matches(h, t, standby) {
                    HandoverStage::ObserveSwappedStandby { standby, swapped: h }
                } else {
                    HandoverStage::Finished(Err(CutoverError::FuzzyProcessIdentity))
                },
                HandoverEvent::Handle(Err(e)) => HandoverStage::Finished(Err(e)),
                _ => stage,
            },
            HandoverStage::ObserveSwappedStandby { standby, swapped } => match event {
                HandoverEvent::Observed(status) => on_effect(
                    running_check(status, standby),
                    HandoverStage::RecordHandleSwapped { standby, swapped },
                ),
                _ => stage,
            },
            HandoverStage::RecordHandleSwapped { standby, swapped } => match event {
                HandoverEvent::Effect(r) => on_effect(
                    r,
                    HandoverStage::ActivateStandby { standby, swapped },
                ),
                _ => stage,
            },
            HandoverStage::ActivateStandby { standby, swapped } => match event {
                HandoverEvent::Effect(r) => on_effect(
                    r,
                    HandoverStage::RecordOldCleaning { standby, swapped },
                ),
                _ => stage,
            },
            HandoverStage::RecordOldCleaning { standby, swapped } => match event {
                HandoverEvent::Effect(r) => on_effect(
                    r,
                    HandoverStage::ObserveCleanedOld { standby, swapped },
                ),
                _ => stage,
            },
            HandoverStage::ObserveCleanedOld { standby, swapped } => match event {
                HandoverEvent::Observed(status) => on_effect(
                    stopped_check(status, old),
                    HandoverStage::TerminateOld { standby, swapped },
                ),
                _ => stage,
            },
            HandoverStage::TerminateOld { standby, swapped } => match event {
                HandoverEvent::Effect(r) => on_effect(
                    r,
                    HandoverStage::RecordComplete { standby, swapped },
                ),
                _ => stage,
            },
            HandoverStage::RecordComplete { standby, swapped } => match event {
                HandoverEvent::Effect(r) => on_effect(
                    r,
                    HandoverStage::RemoveJournal { standby, swapped },
                ),
                _ => stage,
            },
            HandoverStage::RemoveJournal { .. } => match event {
                HandoverEvent::Effect(r) => on_effect(r, HandoverStage::Finished(Ok(true))),
                _ => stage,
            },
            HandoverStage::DiscardStandby { error, .. } => HandoverStage::Finished(Err(error)),
            HandoverStage::Finished(_) => stage,
        }
    }
}

fn copy_identity(id: &ObserverProcessIdentity) -> (r: ObserverProcessIdentity)
    ensures
        r == *id,
{
    ObserverProcessIdentity { pid: id.pid, birth: id.birth.clone(), executable: id.executable.clone() }
}

/// The effect the handover of `t` waits on at `stage`.
pub fn next_handover_action(t: &OpenCodeObserverTarget, stage: &HandoverStage) -> (r: HandoverAction)
    ensures
        r == handover_action_of(*t, *stage),
{
    let old = &t.observer;
    match stage {
        HandoverStage::ReadHandle => HandoverAction::ReadHandle,
        HandoverStage::ObserveOld => HandoverAction::Observe(copy_identity(old)),
        HandoverStage::StartStandby => HandoverAction::StartStandby,
        HandoverStage::ObserveStandby { standby } => HandoverAction::Observe(copy_identity(standby)),
        HandoverStage::RecordPrepared { standby } => HandoverAction::Record {
            phase: HandoverPhase::Prepared,
            standby: copy_identity(standby),
        },
        HandoverStage::RecordStandbyReady { standby } => HandoverAction::Record {
            phase: HandoverPhase::StandbyReady,
            standby: copy_identity(standby),
        },
        HandoverStage::FreezeOld { .. } => HandoverAction::Freeze(copy_identity(old)),
        HandoverStage::ObserveFrozenOld { .. } => HandoverAction::Observe(copy_identity(old)),
        HandoverStage::ReadFrozenHandle { .. } => HandoverAction::ReadHandle,
        HandoverStage::RecordOldFrozen { standby } => HandoverAction::Record {
            phase: HandoverPhase::OldFrozen,
            standby: copy_identity(standby),
        },
        HandoverStage::SwapHandle { standby } => HandoverAction::CompareAndSwap {
            runtime_id: t.projection.runtime.runtime_id,
            expected_revision: t.projection.handle.revision,
            standby: copy_identity(standby),
        },
        HandoverStage::ObserveSwappedStandby { standby, .. } => HandoverAction::Observe(
            copy_identity(standby),
        ),
        HandoverStage::RecordHandleSwapped { standby, .. } => HandoverAction::Record {
            phase: HandoverPhase::HandleSwapped,
            standby: copy_identity(standby),
        },
        HandoverStage::ActivateStandby { standby, .. } => HandoverAction::Activate(
            copy_identity(standby),
        ),
        HandoverStage::RecordOldCleaning { standby, .. } => HandoverAction::Record {
            phase: HandoverPhase::OldCleaning,
            standby: copy_identity(standby),
        },
        HandoverStage::ObserveCleanedOld { .. } => HandoverAction::Observe(copy_identity(old)),
        HandoverStage::TerminateOld { .. } => HandoverAction::Terminate(copy_identity(old)),
        HandoverStage::RecordComplete { standby, .. } => HandoverAction::Record {
            phase: HandoverPhase::Complete,
            standby: copy_identity(standby),
        },
        HandoverStage::RemoveJournal { .. } => HandoverAction::RemoveJournal,
        HandoverStage::DiscardStandby { standby, .. } => HandoverAction::Discard(copy_identity(standby)),
        HandoverStage::Finished(_) => HandoverAction::Finish,
    }
}

fn event_answers(stage: &HandoverStage, event: &HandoverEvent) -> (r: bool)
    ensures
        r == handover_event_answers(*stage, *event),
{
    match stage {
        HandoverStage::ReadHandle | HandoverStage::ReadFrozenHandle { .. }
        | HandoverStage::SwapHandle { .. } => matches!(event, HandoverEvent::Handle(_)),
        HandoverStage::ObserveOld | HandoverStage::ObserveStandby { .. }
        | HandoverStage::ObserveFrozenOld { .. } | HandoverStage::ObserveSwappedStandby { .. }
        | HandoverStage::ObserveCleanedOld { .. } => matches!(event, HandoverEvent::Observed(_)),
        HandoverStage::StartStandby => matches!(event, HandoverEvent::Started(_)),
        HandoverStage::Finished(_) => false,
        _ => matches!(event, HandoverEvent::Effect(_)),
    }
}

fn observed_running(
    status: Result<ObserverProcessState, CutoverError>,
    expected: &ObserverProcessIdentity,
) -> (r: Result<(), CutoverError>)
    ensures
        r == running_check(status, *expected),
{
    match status {
        Err(e) => Err(e),
        Ok(ObserverProcessState::Running(actual)) => match require_exact_identity(&actual, expected) {
            Ok(()) => Ok(()),
            Err(e) => Err(e),
        },
        Ok(_) => Err(CutoverError::FuzzyProcessIdentity),
    }
}

fn observed_stopped(
    status: Result<ObserverProcessState, CutoverError>,
    expected: &ObserverProcessIdentity,
) -> (r: Result<(), CutoverError>)
    ensures
        r == stopped_check(status, *expected),
{
    match status {
        Err(e) => Err(e),
        Ok(ObserverProcessState::Stopped(actual)) => match require_exact_identity(&actual, expected) {
            Ok(()) => Ok(()),
            Err(e) => Err(e),
        },
        Ok(_) => Err(CutoverError::FuzzyProcessIdentity),
    }
}

fn after_effect(result: Result<(), CutoverError>, next: HandoverStage) -> (r: HandoverStage)
    ensures
        r == on_effect(result, next),
{
    match result {
        Ok(()) => next,
        Err(e) => HandoverStage::Finished(Err(e)),
    }
}

/// Moves the handover of `t` on by the result of the effect `stage` waited
/// on: the whole decision between two effects of a handover.
pub fn handover_step(t: &OpenCodeObserverTarget, stage: HandoverStage, event: HandoverEvent) -> (r:
    HandoverStage)
    ensures
        r == handover_next(*t, stage, event),
{
    if !event_answers(&stage, &event) {
        return stage;
    }
    let old = &t.observer;
    let revision = t.projection.handle.revision;
    match stage {
        HandoverStage::ReadHandle => match event {
            HandoverEvent::Handle(Ok(h)) => match require_current_handle(
                &h,
                t,
                old.pid,
                old.birth.as_str(),
                revision,
            ) {
                Ok(()) => HandoverStage::ObserveOld,
                Err(e) => HandoverStage::Finished(Err(e)),
            },
            HandoverEvent::Handle(Err(e)) => HandoverStage::Finished(Err(e)),
            _ => HandoverStage::ReadHandle,
        },
        HandoverStage::ObserveOld => match event {
            HandoverEvent::Observed(status) => match observed_running(status, old) {
                Err(e) => HandoverStage::Finished(Err(e)),
                Ok(()) => if t.kind == OpenCodeObserverKind::D16 {
                    HandoverStage::Finished(Ok(false))
                } else {
                    HandoverStage::StartStandby
                },
            },
            _ => HandoverStage::ObserveOld,
        },
        HandoverStage::StartStandby => match event {
            HandoverEvent::Started(Ok(s)) => match validate_standby_identity(&s, old) {
                Ok(()) => HandoverStage::ObserveStandby { standby: s },
                Err(e) => HandoverStage::Finished(Err(e)),
            },
            HandoverEvent::Started(Err(e)) => HandoverStage::Finished(Err(e)),
            _ => HandoverStage::StartStandby,
        },
        HandoverStage::ObserveStandby { standby } => match event {
            HandoverEvent::Observed(status) => match observed_running(status, &standby) {
                Ok(()) => HandoverStage::RecordPrepared { standby },
                Err(e) => HandoverStage::DiscardStandby { standby, error: e },
            },
            _ => HandoverStage::ObserveStandby { standby },
        },
        HandoverStage::RecordPrepared { standby } => match event {
            HandoverEvent::Effect(Ok(())) => HandoverStage::RecordStandbyReady { standby },
            HandoverEvent::Effect(Err(e)) => HandoverStage::DiscardStandby { standby, error: e },
            _ => HandoverStage::RecordPrepared { standby },
        },
        HandoverStage::RecordStandbyReady { standby } => match event {
            HandoverEvent::Effect(r) => after_effect(r, HandoverStage::FreezeOld { standby }),
            _ => HandoverStage::RecordStandbyReady { standby },
        },
        HandoverStage::FreezeOld { standby } => match event {
            HandoverEvent::Effect(Ok(())) => HandoverStage::ObserveFrozenOld { standby },
            HandoverEvent::Effect(Err(e)) => HandoverStage::DiscardStandby { standby, error: e },
            _ => HandoverStage::FreezeOld { standby },
        },
        HandoverStage::ObserveFrozenOld { standby } => match event {
            HandoverEvent::Observed(status) => after_effect(
                observed_stopped(status, old),
                HandoverStage::ReadFrozenHandle { standby },
            ),
            _ => HandoverStage::ObserveFrozenOld { standby },
        },
        HandoverStage::ReadFrozenHandle { standby } => match event {
            HandoverEvent::Handle(Ok(h)) => match require_current_handle(
                &h,
                t,
                old.pid,
                old.birth.as_str(),
                revision,
            ) {
                Ok(()) => HandoverStage::RecordOldFrozen { standby },
                Err(e) => HandoverStage::Finished(Err(e)),
            },
            HandoverEvent::Handle(Err(e)) => HandoverStage::Finished(Err(e)),
            _ => HandoverStage::ReadFrozenHandle { standby },
        },
        HandoverStage::RecordOldFrozen { standby } => match event {
            HandoverEvent::Effect(r) => after_effect(r, HandoverStage::SwapHandle { standby }),
            _ => HandoverStage::RecordOldFrozen { standby },
        },
        HandoverStage::SwapHandle { standby } => match event {
            HandoverEvent::Handle(Ok(h)) => match next_handle_revision(revision) {
                Err(e) => HandoverStage::Finished(Err(e)),
                Ok(next) => match require_current_handle(
                    &h,
                    t,
                    standby.pid,
                    standby.birth.as_str(),
                    next,
                ) {
                    Ok(()) => HandoverStage::ObserveSwappedStandby { standby, swapped: h },
                    Err(e) => HandoverStage::Finished(Err(e)),
                },
            },
            HandoverEvent::Handle(Err(e)) => HandoverStage::Finished(Err(e)),
            _ => HandoverStage::SwapHandle { standby },
        },
        HandoverStage::ObserveSwappedStandby { standby, swapped } => match event {
            HandoverEvent::Observed(status) => {
                let checked = observed_running(status, &standby);
                after_effect(checked, HandoverStage::RecordHandleSwapped { standby, swapped })
            },
            _ => HandoverStage::ObserveSwappedStandby { standby, swapped },
        },
        HandoverStage::RecordHandleSwapped { standby, swapped } => match event {
            HandoverEvent::Effect(r) => after_effect(
                r,
                HandoverStage::ActivateStandby { standby, swapped },
            ),
            _ => HandoverStage::RecordHandleSwapped { standby, swapped },
        },
        HandoverStage::ActivateStandby { standby, swapped } => match event {
            HandoverEvent::Effect(r) => after_effect(
                r,
                HandoverStage::RecordOldCleaning { standby, swapped },
            ),
            _ => HandoverStage::ActivateStandby { standby, swapped },
        },
        HandoverStage::RecordOldCleaning { standby, swapped } => match event {
            HandoverEvent::Effect(r) => after_effect(
                r,
                HandoverStage::ObserveCleanedOld { standby, swapped },
            ),
            _ => HandoverStage::RecordOldCleaning { standby, swapped },
        },
        HandoverStage::ObserveCleanedOld { standby, swapped } => match event {
            HandoverEvent::Observed(status) => after_effect(
                observed_stopped(status, old),
                HandoverStage::TerminateOld { standby, swapped },
            ),
            _ => HandoverStage::ObserveCleanedOld { standby, swapped },
        },
        HandoverStage::TerminateOld { standby, swapped } => match event {
            HandoverEvent::Effect(r) => after_effect(
                r,
                HandoverStage::RecordComplete { standby, swapped },
            ),
            _ => HandoverStage::TerminateOld { standby, swapped },
        },
        HandoverStage::RecordComplete { standby, swapped } => match event {
            HandoverEvent::Effect(r) => after_effect(
                r,
                HandoverStage::RemoveJournal { standby, swapped },
            ),
            _ => HandoverStage::RecordComplete { standby, swapped },
        },
        HandoverStage::RemoveJournal { standby, swapped } => match event {
            HandoverEvent::Effect(r) => after_effect(r, HandoverStage::Finished(Ok(true))),
            _ => HandoverStage::RemoveJournal { standby, swapped },
        },
        HandoverStage::DiscardStandby { error, .. } => HandoverStage::Finished(Err(error)),
        HandoverStage::Finished(result) => HandoverStage::Finished(result),
    }
}

/// How far along a handover a stage is.
pub open spec fn handover_rank(stage: HandoverStage) -> int {
    match stage {
        HandoverStage::ReadHandle => 0,
        HandoverStage::ObserveOld => 1,
        HandoverStage::StartStandby => 2,
        HandoverStage::ObserveStandby { .. } => 3,
        HandoverStage::RecordPrepared { .. } => 4,
        HandoverStage::RecordStandbyReady { .. } => 5,
        HandoverStage::FreezeOld { .. } => 6,
        HandoverStage::ObserveFrozenOld { .. } => 7,
        HandoverStage::ReadFrozenHandle { .. } => 8,
        HandoverStage::RecordOldFrozen { .. } => 9,
        HandoverStage::SwapHandle { .. } => 10,
        HandoverStage::ObserveSwappedStandby { .. } => 11,
        HandoverStage::RecordHandleSwapped { .. } => 12,
        HandoverStage::ActivateStandby { .. } => 13,
        HandoverStage::RecordOldCleaning { .. } => 14,
        HandoverStage::ObserveCleanedOld { .. } => 15,
        HandoverStage::TerminateOld { .. } => 16,
        HandoverStage::RecordComplete { .. } => 17,
        HandoverStage::RemoveJournal { .. } => 18,
        HandoverStage::DiscardStandby { .. } => 19,
        HandoverStage::Finished(_) => 20,
    }
}

/// The stage a handover of `t` reaches from its start through `events`.
pub open spec fn handover_run(t: OpenCodeObserverTarget, events: Seq<HandoverEvent>) -> HandoverStage
    decreases events.len(),
{
    if events.len() == 0 {
        HandoverStage::ReadHandle
    } else {
        handover_next(t, handover_run(t, events.drop_last()), events.last())
    }
}

/// Every step keeps the handover invariant: the standby a stage carries is
/// another, named process, and once the handle has been swapped it names
/// that standby one revision past the target's handle.
pub proof fn lemma_handover_step_keeps_invariant(
    t: OpenCodeObserverTarget,
    stage: HandoverStage,
    event: HandoverEvent,
)
    requires
        handover_stage_ok(t, stage),
    ensures
        handover_stage_ok(t, handover_next(t, stage, event)),
{
}

/// Every stage any sequence of effect results leads a handover to holds
/// the handover invariant.
pub proof fn lemma_handover_run_keeps_invariant(t: OpenCodeObserverTarget, events: Seq<HandoverEvent>)
    ensures
        handover_stage_ok(t, handover_run(t, events)),
    decreases events.len(),
{
    if events.len() > 0 {
        lemma_handover_run_keeps_invariant(t, events.drop_last());
        lemma_handover_step_keeps_invariant(t, handover_run(t, events.drop_last()), events.last());
    }
}

/// A handover acts only on the exact processes it has proven: it freezes,
/// observes and terminates the target's old observer, and observes,
/// assigns, activates or discards only the standby it started, which is
/// never the old observer; it activates the standby and terminates the old
/// observer only once the recorded handle names the standby.
pub proof fn lemma_handover_acts_on_exact_processes(t: OpenCodeObserverTarget, stage: HandoverStage)
    requires
        handover_stage_ok(t, stage),
    ensures
        handover_action_of(t, stage) matches HandoverAction::Freeze(x) ==> x == t.observer,
        handover_action_of(t, stage) matches HandoverAction::Terminate(x) ==> x == t.observer
            && (stage_standby(stage) matches Some(s) && stage_swapped(stage) matches Some(h)
            && swapped_handle_matches(h, t, s)),
        handover_action_of(t, stage) matches HandoverAction::Observe(x) ==> x == t.observer
            || stage_standby(stage) == Some(x),
        handover_action_of(t, stage) matches HandoverAction::CompareAndSwap {
            runtime_id,
            expected_revision,
            standby: x,
        } ==> stage_standby(stage) == Some(x) && standby_identity_ok(x, t.observer) && runtime_id
            == t.projection.runtime.runtime_id && expected_revision == t.projection.handle.revision,
        handover_action_of(t, stage) matches HandoverAction::Discard(x) ==> stage_standby(stage)
            == Some(x) && standby_identity_ok(x, t.observer),
        handover_action_of(t, stage) matches HandoverAction::Activate(x) ==> stage_standby(stage)
            == Some(x) && standby_identity_ok(x, t.observer) && (stage_swapped(
            stage,
        ) matches Some(h) && swapped_handle_matches(h, t, x)),
        handover_action_of(t, stage) matches HandoverAction::Record { standby, .. }
            ==> stage_standby(stage) == Some(standby),
{
}

/// The old observer is frozen only after the standby was seen running and
/// the journal recorded both the prepared and the ready standby; it is
/// terminated only after the standby's activation succeeded, the journal
/// recorded the cleaning phase, and the old observer was seen exactly
/// stopped.
pub proof fn lemma_handover_order(t: OpenCodeObserverTarget, stage: HandoverStage, event: HandoverEvent)
    ensures
        handover_next(t, stage, event) is RecordPrepared && stage !is RecordPrepared ==> (
        stage is ObserveStandby && (event matches HandoverEvent::Observed(status) && running_check(
            status,
            stage->ObserveStandby_standby,
        ) is Ok)),
        handover_next(t, stage, event) is RecordStandbyReady && stage !is RecordStandbyReady ==> (
        stage is RecordPrepared && event matches HandoverEvent::Effect(Ok(()))),
        handover_next(t, stage, event) is FreezeOld && stage !is FreezeOld ==> (
        stage is RecordStandbyReady && event matches HandoverEvent::Effect(Ok(()))),
        handover_next(t, stage, event) is RecordOldCleaning && stage !is RecordOldCleaning ==> (
        stage is ActivateStandby && event matches HandoverEvent::Effect(Ok(()))),
        handover_next(t, stage, event) is ObserveCleanedOld && stage !is ObserveCleanedOld ==> (
        stage is RecordOldCleaning && event matches HandoverEvent::Effect(Ok(()))),
        handover_next(t, stage, event) is TerminateOld && stage !is TerminateOld ==> (
        stage is ObserveCleanedOld && (event matches HandoverEvent::Observed(Ok(
            ObserverProcessState::Stopped(actual),
        )) && same_identity(actual, t.observer))),
        handover_next(t, stage, event) == HandoverStage::Finished(Ok(true)) && stage
            !is Finished ==> stage is RemoveJournal && event matches HandoverEvent::Effect(Ok(())),
{
}

/// An observer that is already current is never handed over: a standby is
/// started only for a legacy observer, after it was seen running, and a
/// current observer's handover ends unchanged.
pub proof fn lemma_current_observer_is_kept(
    t: OpenCodeObserverTarget,
    stage: HandoverStage,
    event: HandoverEvent,
)
    ensures
        handover_next(t, stage, event) is StartStandby && stage !is StartStandby ==> stage
            is ObserveOld && t.kind == OpenCodeObserverKind::PreD16,
        handover_next(t, stage, event) == HandoverStage::Finished(Ok(false)) && stage
            !is Finished ==> stage is ObserveOld && t.kind == OpenCodeObserverKind::D16,
{
}

/// A failure after the standby was started and before the old observer
/// was frozen discards the standby; the discard's own result does not
/// change the failure reported.
pub proof fn lemma_failed_standby_is_discarded(
    t: OpenCodeObserverTarget,
    stage: HandoverStage,
    event: HandoverEvent,
)
    ensures
        handover_next(t, stage, event) is DiscardStandby && stage !is DiscardStandby ==> (
        stage is ObserveStandby || stage is RecordPrepared || stage is FreezeOld),
        stage matches HandoverStage::DiscardStandby { error, .. } ==> (event is Effect
            ==> handover_next(t, stage, event) == HandoverStage::Finished(
            Err::<bool, CutoverError>(error),
        )),
{
}

/// Each answered effect moves a handover strictly forward, so no effect is
/// asked twice and a handover finishes after at most twenty answered
/// effects; an event that does not answer the pending effect changes
/// nothing.
pub proof fn lemma_handover_moves_forward(
    t: OpenCodeObserverTarget,
    stage: HandoverStage,
    event: HandoverEvent,
)
    ensures
        handover_event_answers(stage, event) ==> handover_rank(handover_next(t, stage, event))
            > handover_rank(stage),
        !handover_event_answers(stage, event) ==> handover_next(t, stage, event) == stage,
        0 <= handover_rank(stage) <= 20,
{
}

/// Whatever results its effects give, a handover terminates no process but
/// the target's old observer, and only once the recorded handle names the
/// standby it started in its place.
pub proof fn lemma_handover_run_terminates_only_old_observer(
    t: OpenCodeObserverTarget,
    events: Seq<HandoverEvent>,
)
    ensures
        handover_action_of(t, handover_run(t, events)) matches HandoverAction::Terminate(x) ==> x
            == t.observer && (stage_standby(handover_run(t, events)) matches Some(s)
            && standby_identity_ok(s, t.observer) && (stage_swapped(handover_run(t, events)) matches Some(
            h,
        ) && swapped_handle_matches(h, t, s))),
{
    lemma_handover_run_keeps_invariant(t, events);
    lemma_handover_acts_on_exact_processes(t, handover_run(t, events));
}

/// How an interrupted handover is replayed, as the recorded handle decides.
#[derive(Clone, Copy, Debug, PartialEq, Eq, Structural)]
pub enum HandoverRestartAction {
    RestoreOldObserver,
    FinishOldObserverCleanup,
    RemoveJournal,
}

/// The journal of an interrupted handover, as far as its replay needs it.
#[derive(Clone, Debug, PartialEq, Eq)]
pub struct InterruptedHandover {
    pub old_observer: ObserverProcessIdentity,
    pub standby_observer: ObserverProcessIdentity,
    pub phase: HandoverPhase,
}

/// Where the replay of an interrupted handover stands.
#[derive(Debug)]
pub enum RestartStage {
    CheckRestoreable,
    RestoreOld,
    DiscardStandby,
    CheckStandbyForCleanup,
    RecordHandleSwapped,
    ActivateStandby { phase: HandoverPhase },
    RecordOldCleaning,
    ObserveOldForCleanup { phase: HandoverPhase },
    TerminateOld { phase: HandoverPhase },
    RecordComplete,
    CheckStandbyForRemoval,
    ObserveOldForRemoval,
    RemoveJournal,
    Finished(Result<bool, CutoverError>),
}

/// What an observation gives when the exact expected process must be
/// running or stopped.
pub open spec fn restoreable_check(
    status: Result<ObserverProcessState, CutoverError>,
    expected: ObserverProcessIdentity,
) -> Result<(), CutoverError> {
    match status {
        Err(e) => Err(e),
        Ok(ObserverProcessState::Running(actual)) => if same_identity(actual, expected) {
            Ok(())
        } else {
            Err(CutoverError::FuzzyProcessIdentity)
        },
        Ok(ObserverProcessState::Stopped(actual)) => if same_identity(actual, expected) {
            Ok(())
        } else {
            Err(CutoverError::FuzzyProcessIdentity)
        },
        Ok(_) => Err(CutoverError::FuzzyProcessIdentity),
    }
}

/// Where a replay starts for each restart action.
pub open spec fn restart_start_of(action: HandoverRestartAction) -> RestartStage {
    match action {
        HandoverRestartAction::RestoreOldObserver => RestartStage::CheckRestoreable,
        HandoverRestartAction::FinishOldObserverCleanup => RestartStage::CheckStandbyForCleanup,
        HandoverRestartAction::RemoveJournal => RestartStage::CheckStandbyForRemoval,
    }
}

/// The effect each replay stage waits on.
pub open spec fn restart_action_of(j: InterruptedHandover, stage: RestartStage) -> HandoverAction {
    match stage {
        RestartStage::CheckRestoreable => HandoverAction::Observe(j.old_observer),
        RestartStage::RestoreOld => HandoverAction::Restore(j.old_observer),
        RestartStage::DiscardStandby => HandoverAction::Discard(j.standby_observer),
        RestartStage::CheckStandbyForCleanup => HandoverAction::Observe(j.standby_observer),
        RestartStage::RecordHandleSwapped => HandoverAction::Record {
            phase: HandoverPhase::HandleSwapped,
            standby: j.standby_observer,
        },
        RestartStage::ActivateStandby { .. } => HandoverAction::Activate(j.standby_observer),
        RestartStage::RecordOldCleaning => HandoverAction::Record {
            phase: HandoverPhase::OldCleaning,
            standby: j.standby_observer,
        },
        RestartStage::ObserveOldForCleanup { .. } => HandoverAction::Observe(j.old_observer),
        RestartStage::TerminateOld { .. } => HandoverAction::Terminate(j.old_observer),
        RestartStage::RecordComplete => HandoverAction::Record {
            phase: HandoverPhase::Complete,
            standby: j.standby_observer,
        },
        RestartStage::CheckStandbyForRemoval => HandoverAction::Observe(j.standby_observer),
        RestartStage::ObserveOldForRemoval => HandoverAction::Observe(j.old_observer),
        RestartStage::RemoveJournal => HandoverAction::RemoveJournal,
        RestartStage::Finished(_) => HandoverAction::Finish,
    }
}

/// The event answers the effect the replay stage waits on.
pub open spec fn restart_event_answers(stage: RestartStage, event: HandoverEvent) -> bool {
    match stage {
        RestartStage::CheckRestoreable | RestartStage::CheckStandbyForCleanup
        | RestartStage::ObserveOldForCleanup { .. } | RestartStage::CheckStandbyForRemoval
        | RestartStage::ObserveOldForRemoval => event is Observed,
        RestartStage::Finished(_) => false,
        _ => event is Effect,
    }
}

/// After the old observer's cleanup, a journal that recorded the cleaning
/// phase first records completion; any other is removed at once.
pub open spec fn after_cleanup(phase: HandoverPhase) -> RestartStage {
    if phase == HandoverPhase::OldCleaning {
        RestartStage::RecordComplete
    } else {
        RestartStage::RemoveJournal
    }
}

/// The stage a replay moves to when the effect its stage waited on gives
/// `event`. An event that does not answer the stage's effect leaves it as
/// it is; a finished replay stays finished.
pub open spec fn restart_next(j: InterruptedHandover, stage: RestartStage, event: HandoverEvent) -> RestartStage {
    let old = j.old_observer;
    let standby = j.standby_observer;
    if !restart_event_answers(stage, event) {
        stage
    } else {
        match event {
            HandoverEvent::Observed(status) => match stage {
                RestartStage::CheckRestoreable => match restoreable_check(status, old) {
                    Ok(()) => RestartStage::RestoreOld,
                    Err(e) => RestartStage::Finished(Err(e)),
                },
                RestartStage::CheckStandbyForCleanup => match running_check(status, standby) {
                    Ok(()) => if j.phase == HandoverPhase::OldFrozen {
                        RestartStage::RecordHandleSwapped
                    } else {
                        RestartStage::ActivateStandby { phase: j.phase }
                    },
                    Err(e) => RestartStage::Finished(Err(e)),
                },
                RestartStage::ObserveOldForCleanup { phase } => match status {
                    Err(e) => RestartStage::Finished(Err(e)),
                    Ok(ObserverProcessState::Stopped(actual)) => if same_identity(actual, old) {
                        RestartStage::TerminateOld { phase }
                    } else {
                        RestartStage::Finished(Err(CutoverError::FuzzyProcessIdentity))
                    },
                    Ok(ObserverProcessState::Gone) => after_cleanup(phase),
                    Ok(_) => RestartStage::Finished(Err(CutoverError::FuzzyProcessIdentity)),
                },
                RestartStage::CheckStandbyForRemoval => match running_check(status, standby) {
                    Ok(()) => RestartStage::ObserveOldForRemoval,
                    Err(e) => RestartStage::Finished(Err(e)),
                },
                RestartStage::ObserveOldForRemoval => match status {
                    Err(e) => RestartStage::Finished(Err(e)),
                    Ok(ObserverProcessState::Gone) => RestartStage::RemoveJournal,
                    Ok(ObserverProcessState::Stopped(actual)) => if same_identity(actual, old) {
                        RestartStage::RemoveJournal
                    } else {
                        RestartStage::Finished(Err(CutoverError::FuzzyProcessIdentity))
                    },
                    Ok(_) => RestartStage::Finished(Err(CutoverError::FuzzyProcessIdentity)),
                },
                _ => stage,
            },
            HandoverEvent::Effect(Err(e)) => RestartStage::Finished(Err(e)),
            HandoverEvent::Effect(Ok(())) => match stage {
                RestartStage::RestoreOld => RestartStage::DiscardStandby,
                RestartStage::DiscardStandby => RestartStage::RemoveJournal,
                RestartStage::RecordHandleSwapped => RestartStage::ActivateStandby {
                    phase: HandoverPhase::HandleSwapped,
                },
                RestartStage::ActivateStandby { phase } => if phase == HandoverPhase::HandleSwapped {
                    RestartStage::RecordOldCleaning
                } else {
                    RestartStage::ObserveOldForCleanup { phase }
                },
                RestartStage::RecordOldCleaning => RestartStage::ObserveOldForCleanup {
                    phase: HandoverPhase::OldCleaning,
                },
                RestartStage::TerminateOld { phase } => after_cleanup(phase),
                RestartStage::RecordComplete => RestartStage::RemoveJournal,
                RestartStage::RemoveJournal => RestartStage::Finished(Ok(true)),
                _ => stage,
            },
            _ => stage,
        }
    }
}

/// Where the replay of `j` by `action` starts.
pub fn restart_start(action: HandoverRestartAction) -> (r: RestartStage)
    ensures
        r == restart_start_of(action),
{
    match action {
        HandoverRestartAction::RestoreOldObserver => RestartStage::CheckRestoreable,
        HandoverRestartAction::FinishOldObserverCleanup => RestartStage::CheckStandbyForCleanup,
        HandoverRestartAction::RemoveJournal => RestartStage::CheckStandbyForRemoval,
    }
}

/// The effect the replay of `j` waits on at `stage`.
pub fn next_restart_action(j: &InterruptedHandover, stage: &RestartStage) -> (r: HandoverAction)
    ensures
        r == restart_action_of(*j, *stage),
{
    match stage {
        RestartStage::CheckRestoreable => HandoverAction::Observe(copy_identity(&j.old_observer)),
        RestartStage::RestoreOld => HandoverAction::Restore(copy_identity(&j.old_observer)),
        RestartStage::DiscardStandby => HandoverAction::Discard(copy_identity(&j.standby_observer)),
        RestartStage::CheckStandbyForCleanup => HandoverAction::Observe(
            copy_identity(&j.standby_observer),
        ),
        RestartStage::RecordHandleSwapped => HandoverAction::Record {
            phase: HandoverPhase::HandleSwapped,
            standby: copy_identity(&j.standby_observer),
        },
        RestartStage::ActivateStandby { .. } => HandoverAction::Activate(
            copy_identity(&j.standby_observer),
        ),
        RestartStage::RecordOldCleaning => HandoverAction::Record {
            phase: HandoverPhase::OldCleaning,
            standby: copy_identity(&j.standby_observer),
        },
        RestartStage::ObserveOldForCleanup { .. } => HandoverAction::Observe(
            copy_identity(&j.old_observer),
        ),
        RestartStage::TerminateOld { .. } => HandoverAction::Terminate(copy_identity(&j.old_observer)),
        RestartStage::RecordComplete => HandoverAction::Record {
            phase: HandoverPhase::Complete,
            standby: copy_identity(&j.standby_observer),
        },
        RestartStage::CheckStandbyForRemoval => HandoverAction::Observe(
            copy_identity(&j.standby_observer),
        ),
        RestartStage::ObserveOldForRemoval => HandoverAction::Observe(copy_identity(&j.old_observer)),
        RestartStage::RemoveJournal => HandoverAction::RemoveJournal,
        RestartStage::Finished(_) => HandoverAction::Finish,
    }
}

fn restart_answers(stage: &RestartStage, event: &HandoverEvent) -> (r: bool)
    ensures
        r == restart_event_answers(*stage, *event),
{
    match stage {
        RestartStage::CheckRestoreable | RestartStage::CheckStandbyForCleanup
        | RestartStage::ObserveOldForCleanup { .. } | RestartStage::CheckStandbyForRemoval
        | RestartStage::ObserveOldForRemoval => matches!(event, HandoverEvent::Observed(_)),
        RestartStage::Finished(_) => false,
        _ => matches!(event, HandoverEvent::Effect(_)),
    }
}

fn observed_restoreable(
    status: Result<ObserverProcessState, CutoverError>,
    expected: &ObserverProcessIdentity,
) -> (r: Result<(), CutoverError>)
    ensures
        r == restoreable_check(status, *expected),
{
    match status {
        Err(e) => Err(e),
        Ok(ObserverProcessState::Running(actual)) => match require_exact_identity(&actual, expected) {
            Ok(()) => Ok(()),
            Err(e) => Err(e),
        },
        Ok(ObserverProcessState::Stopped(actual)) => match require_exact_identity(&actual, expected) {
            Ok(()) => Ok(()),
            Err(e) => Err(e),
        },
        Ok(_) => Err(CutoverError::FuzzyProcessIdentity),
    }
}

fn cleanup_done(phase: HandoverPhase) -> (r: RestartStage)
    ensures
        r == after_cleanup(phase),
{
    if phase == HandoverPhase::OldCleaning {
        RestartStage::RecordComplete
    } else {
        RestartStage::RemoveJournal
    }
}

/// Moves the replay of `j` on by the result of the effect `stage` waited
/// on: the whole decision between two effects of a replay.
pub fn restart_step(j: &InterruptedHandover, stage: RestartStage, event: HandoverEvent) -> (r:
    RestartStage)
    ensures
        r == restart_next(*j, stage, event),
{
    if !restart_answers(&stage, &event) {
        return stage;
    }
    let old = &j.old_observer;
    let standby = &j.standby_observer;
    match event {
        HandoverEvent::Observed(status) => match stage {
            RestartStage::CheckRestoreable => match observed_restoreable(status, old) {
                Ok(()) => RestartStage::RestoreOld,
                Err(e) => RestartStage::Finished(Err(e)),
            },
            RestartStage::CheckStandbyForCleanup => match observed_running(status, standby) {
                Ok(()) => if j.phase == HandoverPhase::OldFrozen {
                    RestartStage::RecordHandleSwapped
                } else {
                    RestartStage::ActivateStandby { phase: j.phase }
                },
                Err(e) => RestartStage::Finished(Err(e)),
            },
            RestartStage::ObserveOldForCleanup { phase } => match status {
                Err(e) => RestartStage::Finished(Err(e)),
                Ok(ObserverProcessState::Stopped(actual)) => match require_exact_identity(
                    &actual,
                    old,
                ) {
                    Ok(()) => RestartStage::TerminateOld { phase },
                    Err(e) => RestartStage::Finished(Err(e)),
                },
                Ok(ObserverProcessState::Gone) => cleanup_done(phase),
                Ok(_) => RestartStage::Finished(Err(CutoverError::FuzzyProcessIdentity)),
            },
            RestartStage::CheckStandbyForRemoval => match observed_running(status, standby) {
                Ok(()) => RestartStage::ObserveOldForRemoval,
                Err(e) => RestartStage::Finished(Err(e)),
            },
            RestartStage::ObserveOldForRemoval => match status {
                Err(e) => RestartStage::Finished(Err(e)),
                Ok(ObserverProcessState::Gone) => RestartStage::RemoveJournal,
                Ok(ObserverProcessState::Stopped(actual)) => match require_exact_identity(
                    &actual,
                    old,
                ) {
                    Ok(()) => RestartStage::RemoveJournal,
                    Err(e) => RestartStage::Finished(Err(e)),
                },
                Ok(_) => RestartStage::Finished(Err(CutoverError::FuzzyProcessIdentity)),
            },
            other => other,
        },
        HandoverEvent::Effect(Err(e)) => RestartStage::Finished(Err(e)),
        HandoverEvent::Effect(Ok(())) => match stage {
            RestartStage::RestoreOld => RestartStage::DiscardStandby,
            RestartStage::DiscardStandby => RestartStage::RemoveJournal,
            RestartStage::RecordHandleSwapped => RestartStage::ActivateStandby {
                phase: HandoverPhase::HandleSwapped,
            },
            RestartStage::ActivateStandby { phase } => if phase == HandoverPhase::HandleSwapped {
                RestartStage::RecordOldCleaning
            } else {
                RestartStage::ObserveOldForCleanup { phase }
            },
            RestartStage::RecordOldCleaning => RestartStage::ObserveOldForCleanup {
                phase: HandoverPhase::OldCleaning,
            },
            RestartStage::TerminateOld { phase } => cleanup_done(phase),
            RestartStage::RecordComplete => RestartStage::RemoveJournal,
            RestartStage::RemoveJournal => RestartStage::Finished(Ok(true)),
            other => other,
        },
        _ => stage,
    }
}

/// How far along its replay a stage is.
pub open spec fn restart_rank(stage: RestartStage) -> int {
    match stage {
        RestartStage::CheckRestoreable => 0,
        RestartStage::RestoreOld => 1,
        RestartStage::DiscardStandby => 2,
        RestartStage::CheckStandbyForCleanup => 0,
        RestartStage::RecordHandleSwapped => 1,
        RestartStage::ActivateStandby { .. } => 2,
        RestartStage::RecordOldCleaning => 3,
        RestartStage::ObserveOldForCleanup { .. } => 4,
        RestartStage::TerminateOld { .. } => 5,
        RestartStage::RecordComplete => 6,
        RestartStage::CheckStandbyForRemoval => 0,
        RestartStage::ObserveOldForRemoval => 1,
        RestartStage::RemoveJournal => 7,
        RestartStage::Finished(_) => 8,
    }
}

/// Each answered effect moves a replay strictly forward, so a replay asks
/// no effect twice and finishes after at most eight answered effects; an
/// event that does not answer the pending effect changes nothing.
pub proof fn lemma_restart_moves_forward(j: InterruptedHandover, stage: RestartStage, event: HandoverEvent)
    ensures
        restart_event_answers(stage, event) ==> restart_rank(restart_next(j, stage, event))
            > restart_rank(stage),
        !restart_event_answers(stage, event) ==> restart_next(j, stage, event) == stage,
        0 <= restart_rank(stage) <= 8,
{
}

/// A replay acts only on the two processes its journal names: it restores
/// and terminates only the old observer, and activates and discards only
/// the standby.
pub proof fn lemma_restart_acts_on_journal_processes(j: InterruptedHandover, stage: RestartStage)
    ensures
        restart_action_of(j, stage) matches HandoverAction::Restore(x) ==> x == j.old_observer,
        restart_action_of(j, stage) matches HandoverAction::Terminate(x) ==> x == j.old_observer,
        restart_action_of(j, stage) matches HandoverAction::Activate(x) ==> x == j.standby_observer,
        restart_action_of(j, stage) matches HandoverAction::Discard(x) ==> x == j.standby_observer,
        restart_action_of(j, stage) matches HandoverAction::Observe(x) ==> x == j.old_observer || x
            == j.standby_observer,
        restart_action_of(j, stage) matches HandoverAction::Record { standby, .. } ==> standby
            == j.standby_observer,
        !(restart_action_of(j, stage) is Freeze || restart_action_of(j, stage) is CompareAndSwap
            || restart_action_of(j, stage) is StartStandby || restart_action_of(j, stage) is ReadHandle),
{
}

/// A replay whose first observation is not the exact process in the state
/// it needs ends there with that refusal, before it signals, restores,
/// discards or removes anything; a process of another identity is a fuzzy
/// identity.
pub proof fn lemma_fuzzy_restart_signals_nothing(
    j: InterruptedHandover,
    action: HandoverRestartAction,
    status: Result<ObserverProcessState, CutoverError>,
)
    ensures
        action == HandoverRestartAction::RestoreOldObserver && restoreable_check(
            status,
            j.old_observer,
        ) is Err ==> restart_next(j, restart_start_of(action), HandoverEvent::Observed(status))
            == RestartStage::Finished(Err::<bool, CutoverError>(
            restoreable_check(status, j.old_observer)->Err_0,
        )),
        action != HandoverRestartAction::RestoreOldObserver && running_check(
            status,
            j.standby_observer,
        ) is Err ==> restart_next(j, restart_start_of(action), HandoverEvent::Observed(status))
            == RestartStage::Finished(Err::<bool, CutoverError>(
            running_check(status, j.standby_observer)->Err_0,
        )),
        restart_next(
            j,
            restart_start_of(action),
            HandoverEvent::Observed(Ok(ObserverProcessState::IdentityMismatch)),
        ) == RestartStage::Finished(Err::<bool, CutoverError>(CutoverError::FuzzyProcessIdentity)),
{
}

/// A replay activates the standby only once it was seen running, and
/// terminates the old observer only once it was seen exactly stopped after
/// that activation.
pub proof fn lemma_restart_order(j: InterruptedHandover, stage: RestartStage, event: HandoverEvent)
    ensures
        restart_next(j, stage, event) is ActivateStandby && stage !is ActivateStandby ==> (
        (stage is CheckStandbyForCleanup && (event matches HandoverEvent::Observed(status)
            && running_check(status, j.standby_observer) is Ok)) || (stage is RecordHandleSwapped
            && event matches HandoverEvent::Effect(Ok(())))),
        restart_next(j, stage, event) is ObserveOldForCleanup && stage !is ObserveOldForCleanup ==> (
        (stage is ActivateStandby || stage is RecordOldCleaning) && event matches HandoverEvent::Effect(
            Ok(()),
        )),
        restart_next(j, stage, event) is TerminateOld && stage !is TerminateOld ==> (
        stage is ObserveOldForCleanup && (event matches HandoverEvent::Observed(Ok(
            ObserverProcessState::Stopped(actual),
        )) && same_identity(actual, j.old_observer))),
{
}

/// A replay removes the journal only after proof: after restoring the old
/// observer and discarding the standby, or once the old observer was seen
/// gone, or exactly stopped and, during a cleanup, terminated.
pub proof fn lemma_restart_removes_journal_only_after_proof(
    j: InterruptedHandover,
    stage: RestartStage,
    event: HandoverEvent,
)
    ensures
        restart_next(j, stage, event) is RemoveJournal && stage !is RemoveJournal ==> {
            ||| stage is DiscardStandby && event matches HandoverEvent::Effect(Ok(()))
            ||| stage is RecordComplete && event matches HandoverEvent::Effect(Ok(()))
            ||| stage is TerminateOld && event matches HandoverEvent::Effect(Ok(()))
            ||| (stage is ObserveOldForCleanup || stage is ObserveOldForRemoval) && event
                == HandoverEvent::Observed(Ok(ObserverProcessState::Gone))
            ||| stage is ObserveOldForRemoval && (event matches HandoverEvent::Observed(Ok(
                ObserverProcessState::Stopped(actual),
            )) && same_identity(actual, j.old_observer))
        },
        restart_next(j, stage, event) == RestartStage::Finished(Ok::<bool, CutoverError>(true))
            && stage !is Finished ==> stage is RemoveJournal && event matches HandoverEvent::Effect(
            Ok(()),
        ),
{
}

} // verus!
