use wsnav::actions::{
    OpenCodeObserverStatus, OpenCodeRuntimeHandle, ProviderBinding, ProviderSessionId,
    RuntimeRecord, loopback_host_text,
};
use wsnav::cutover::{
    CutoverError, ObserverProcessIdentity, ObserverProcessState, OpenCodeObserverKind,
};
use wsnav::domain::{ProviderKind, Revision, RuntimeStatus};
use wsnav::handover::{
    HandoverAction, HandoverEvent, HandoverPhase, HandoverRestartAction, HandoverStage,
    InterruptedHandover, RestartStage, handover_step, next_handover_action, next_restart_action,
    restart_start, restart_step,
};
use wsnav::ids::{RuntimeId, WorkstreamId};
use wsnav::observer_target::{
    CurrentObserverHandleProof, OpenCodeObserverProjection, OpenCodeObserverTarget,
};

fn identity(pid: u32, birth: &str) -> ObserverProcessIdentity {
    ObserverProcessIdentity {
        pid,
        birth: birth.to_owned(),
        executable: "/private/wsnav-observer".to_owned(),
    }
}

fn runtime_id() -> RuntimeId {
    RuntimeId::from_u128(0x0123_4567_89ab_cdef_0123_4567_89ab_cdef)
}

fn target(kind: OpenCodeObserverKind) -> OpenCodeObserverTarget {
    let runtime_id = runtime_id();
    let session = ProviderSessionId::new(ProviderKind::OpenCode, "ses_root").unwrap();
    let projection = OpenCodeObserverProjection {
        runtime: RuntimeRecord {
            runtime_id,
            workstream_id: WorkstreamId::from_u128(7),
            provider: ProviderKind::OpenCode,
            tmux_generation: "generation-a".to_owned(),
            tmux_session: "wsnav-runtime".to_owned(),
            cwd: "/disposable/repository".to_owned(),
            provider_pid: Some(4242),
            process_birth: Some("provider-birth".to_owned()),
            status: RuntimeStatus::Idle,
            revision: Revision::initial(),
        },
        handle: OpenCodeRuntimeHandle {
            runtime_id,
            runtime_generation: "generation-a".to_owned(),
            endpoint_host: loopback_host_text().to_owned(),
            endpoint_port: 4321,
            version: "1.2.3".to_owned(),
            native_session_id: session.clone(),
            observer_pid: Some(77),
            observer_birth: Some("old".to_owned()),
            observer_status: OpenCodeObserverStatus::Ready,
            revision: Revision::initial(),
        },
        binding: ProviderBinding {
            runtime_id,
            runtime_generation: "generation-a".to_owned(),
            provider: ProviderKind::OpenCode,
            native_session_id: session,
            start_source: "create".to_owned(),
            last_settled_turn_id: None,
            observed_thread_name: None,
            revision: Revision::initial(),
        },
    };
    OpenCodeObserverTarget {
        projection,
        observer: identity(77, "old"),
        kind,
    }
}

fn handle(observer: &ObserverProcessIdentity, revision: Revision) -> CurrentObserverHandleProof {
    CurrentObserverHandleProof {
        runtime_id: runtime_id(),
        runtime_generation: "generation-a".to_owned(),
        pid: observer.pid,
        birth: observer.birth.clone(),
        revision,
    }
}

#[derive(Clone, Copy, PartialEq, Eq, Debug)]
enum Status {
    Running,
    Stopped,
    Gone,
}

/// A simulated host: two processes, the recorded handle, and the calls made.
struct Host {
    old: Status,
    standby: Status,
    standby_identity: ObserverProcessIdentity,
    current: CurrentObserverHandleProof,
    swap_names: Option<CurrentObserverHandleProof>,
    fail_freeze: bool,
    mismatch: bool,
    calls: Vec<String>,
}

impl Host {
    fn new() -> Self {
        Host {
            old: Status::Running,
            standby: Status::Gone,
            standby_identity: identity(88, "standby"),
            current: handle(&identity(77, "old"), Revision::initial()),
            swap_names: None,
            fail_freeze: false,
            mismatch: false,
            calls: Vec::new(),
        }
    }

    fn status_of(&self, who: &ObserverProcessIdentity) -> ObserverProcessState {
        if self.mismatch {
            return ObserverProcessState::IdentityMismatch;
        }
        let status = if who.pid == 77 { self.old } else { self.standby };
        match status {
            Status::Running => ObserverProcessState::Running(who.clone()),
            Status::Stopped => ObserverProcessState::Stopped(who.clone()),
            Status::Gone => ObserverProcessState::Gone,
        }
    }

    fn perform(&mut self, action: HandoverAction) -> Option<HandoverEvent> {
        match action {
            HandoverAction::ReadHandle => {
                self.calls.push("read".to_owned());
                Some(HandoverEvent::Handle(Ok(self.current.clone())))
            }
            HandoverAction::Observe(who) => {
                self.calls.push(format!("observe {}", who.pid));
                Some(HandoverEvent::Observed(Ok(self.status_of(&who))))
            }
            HandoverAction::StartStandby => {
                self.calls.push("start".to_owned());
                self.standby = Status::Running;
                Some(HandoverEvent::Started(Ok(self.standby_identity.clone())))
            }
            HandoverAction::Record { phase, standby } => {
                self.calls.push(format!("record {:?} {}", phase, standby.pid));
                Some(HandoverEvent::Effect(Ok(())))
            }
            HandoverAction::Freeze(who) => {
                self.calls.push(format!("freeze {}", who.pid));
                if self.fail_freeze {
                    return Some(HandoverEvent::Effect(Err(CutoverError::ProcessEffect(
                        "freeze".to_owned(),
                    ))));
                }
                self.old = Status::Stopped;
                Some(HandoverEvent::Effect(Ok(())))
            }
            HandoverAction::CompareAndSwap { runtime_id: swapped_runtime, expected_revision, standby: who } => {
                assert_eq!(swapped_runtime, runtime_id());
                self.calls.push(format!("swap {} from {}", who.pid, expected_revision.value()));
                let swapped = match &self.swap_names {
                    Some(named) => named.clone(),
                    None => handle(&who, Revision::try_from_value(2).unwrap()),
                };
                self.current = swapped.clone();
                Some(HandoverEvent::Handle(Ok(swapped)))
            }
            HandoverAction::Activate(who) => {
                self.calls.push(format!("activate {}", who.pid));
                Some(HandoverEvent::Effect(Ok(())))
            }
            HandoverAction::Terminate(who) => {
                self.calls.push(format!("terminate {}", who.pid));
                self.old = Status::Gone;
                Some(HandoverEvent::Effect(Ok(())))
            }
            HandoverAction::Restore(who) => {
                self.calls.push(format!("restore {}", who.pid));
                self.old = Status::Running;
                Some(HandoverEvent::Effect(Ok(())))
            }
            HandoverAction::Discard(who) => {
                self.calls.push(format!("discard {}", who.pid));
                self.standby = Status::Gone;
                Some(HandoverEvent::Effect(Ok(())))
            }
            HandoverAction::RemoveJournal => {
                self.calls.push("remove".to_owned());
                Some(HandoverEvent::Effect(Ok(())))
            }
            HandoverAction::Finish => None,
        }
    }

    fn called(&self, call: &str) -> bool {
        self.calls.iter().any(|made| made == call)
    }
}

fn hand_over(target: &OpenCodeObserverTarget, host: &mut Host) -> Result<bool, CutoverError> {
    let mut stage = HandoverStage::ReadHandle;
    loop {
        let action = next_handover_action(target, &stage);
        match host.perform(action) {
            Some(event) => stage = handover_step(target, stage, event),
            None => match stage {
                HandoverStage::Finished(result) => return result,
                _ => unreachable!(),
            },
        }
    }
}

fn replay(
    journal: &InterruptedHandover,
    action: HandoverRestartAction,
    host: &mut Host,
) -> Result<bool, CutoverError> {
    let mut stage = restart_start(action);
    loop {
        let next = next_restart_action(journal, &stage);
        match host.perform(next) {
            Some(event) => stage = restart_step(journal, stage, event),
            None => match stage {
                RestartStage::Finished(result) => return result,
                _ => unreachable!(),
            },
        }
    }
}

#[test]
fn a_legacy_observer_is_handed_over_in_order() {
    let target = target(OpenCodeObserverKind::PreD16);
    let mut host = Host::new();
    assert_eq!(hand_over(&target, &mut host), Ok(true));
    let expected = vec![
        "read",
        "observe 77",
        "start",
        "observe 88",
        "record Prepared 88",
        "record StandbyReady 88",
        "freeze 77",
        "observe 77",
        "read",
        "record OldFrozen 88",
        "swap 88 from 1",
        "observe 88",
        "record HandleSwapped 88",
        "activate 88",
        "record OldCleaning 88",
        "observe 77",
        "terminate 77",
        "record Complete 88",
        "remove",
    ];
    assert_eq!(host.calls, expected);
    assert_eq!(host.old, Status::Gone);
    assert_eq!(host.current.pid, 88);
}

#[test]
fn a_current_observer_is_left_in_place() {
    let target = target(OpenCodeObserverKind::D16);
    let mut host = Host::new();
    assert_eq!(hand_over(&target, &mut host), Ok(false));
    assert_eq!(host.calls, vec!["read", "observe 77"]);
}

#[test]
fn a_handle_naming_another_observer_refuses_before_any_effect() {
    let target = target(OpenCodeObserverKind::PreD16);
    let mut host = Host::new();
    host.current = handle(&identity(78, "old"), Revision::initial());
    assert_eq!(
        hand_over(&target, &mut host),
        Err(CutoverError::FuzzyProcessIdentity)
    );
    assert_eq!(host.calls, vec!["read"]);
}

#[test]
fn a_standby_that_is_the_old_observer_is_refused() {
    let target = target(OpenCodeObserverKind::PreD16);
    let mut host = Host::new();
    host.standby_identity = identity(77, "old");
    assert_eq!(
        hand_over(&target, &mut host),
        Err(CutoverError::InvalidObserverTarget)
    );
    assert!(!host.called("freeze 77"));
}

#[test]
fn a_standby_that_is_not_running_is_discarded() {
    let target = target(OpenCodeObserverKind::PreD16);
    let mut host = Host::new();
    host.standby_identity = identity(88, "standby");
    let mut stage = HandoverStage::ReadHandle;
    for _ in 0..3 {
        let action = next_handover_action(&target, &stage);
        let event = host.perform(action).unwrap();
        stage = handover_step(&target, stage, event);
    }
    host.standby = Status::Stopped;
    let action = next_handover_action(&target, &stage);
    let event = host.perform(action).unwrap();
    stage = handover_step(&target, stage, event);
    assert!(matches!(
        next_handover_action(&target, &stage),
        HandoverAction::Discard(ref who) if who.pid == 88
    ));
    let event = host.perform(next_handover_action(&target, &stage)).unwrap();
    stage = handover_step(&target, stage, event);
    assert!(matches!(
        stage,
        HandoverStage::Finished(Err(CutoverError::FuzzyProcessIdentity))
    ));
    assert!(!host.called("freeze 77"));
}

#[test]
fn a_failed_freeze_discards_the_standby_and_reports_the_failure() {
    let target = target(OpenCodeObserverKind::PreD16);
    let mut host = Host::new();
    host.fail_freeze = true;
    assert_eq!(
        hand_over(&target, &mut host),
        Err(CutoverError::ProcessEffect("freeze".to_owned()))
    );
    assert!(host.called("discard 88"));
    assert!(!host.called("swap 88 from 1"));
}

#[test]
fn a_swap_that_does_not_name_the_standby_neither_activates_nor_terminates() {
    let target = target(OpenCodeObserverKind::PreD16);
    let mut host = Host::new();
    host.swap_names = Some(handle(&identity(88, "standby"), Revision::initial()));
    assert_eq!(
        hand_over(&target, &mut host),
        Err(CutoverError::FuzzyProcessIdentity)
    );
    assert!(!host.called("activate 88"));
    assert!(!host.called("terminate 77"));
}

#[test]
fn an_event_that_does_not_answer_the_stage_changes_nothing() {
    let target = target(OpenCodeObserverKind::PreD16);
    let stage = handover_step(
        &target,
        HandoverStage::ReadHandle,
        HandoverEvent::Effect(Ok(())),
    );
    assert!(matches!(stage, HandoverStage::ReadHandle));
    let finished = handover_step(
        &target,
        HandoverStage::Finished(Ok(true)),
        HandoverEvent::Effect(Err(CutoverError::DrainOnly)),
    );
    assert!(matches!(finished, HandoverStage::Finished(Ok(true))));
}

fn journal(phase: HandoverPhase) -> InterruptedHandover {
    InterruptedHandover {
        old_observer: identity(77, "old"),
        standby_observer: identity(88, "standby"),
        phase,
    }
}

fn restart_action_for(phase: HandoverPhase) -> HandoverRestartAction {
    match phase {
        HandoverPhase::Prepared | HandoverPhase::StandbyReady | HandoverPhase::OldFrozen => {
            HandoverRestartAction::RestoreOldObserver
        }
        HandoverPhase::HandleSwapped | HandoverPhase::OldCleaning => {
            HandoverRestartAction::FinishOldObserverCleanup
        }
        HandoverPhase::Complete => HandoverRestartAction::RemoveJournal,
    }
}

#[test]
fn restart_replays_every_journal_phase_and_removes_only_after_proof() {
    for phase in [
        HandoverPhase::Prepared,
        HandoverPhase::StandbyReady,
        HandoverPhase::OldFrozen,
        HandoverPhase::HandleSwapped,
        HandoverPhase::OldCleaning,
        HandoverPhase::Complete,
    ] {
        let current_is_standby = matches!(
            phase,
            HandoverPhase::HandleSwapped | HandoverPhase::OldCleaning | HandoverPhase::Complete
        );
        let mut host = Host::new();
        host.standby = Status::Running;
        if current_is_standby {
            host.old = Status::Gone;
        }
        let journal = journal(phase);
        assert!(replay(&journal, restart_action_for(phase), &mut host).is_ok());
        assert!(host.called("remove"));
    }
}

#[test]
fn completed_restart_refuses_to_forget_a_running_old_observer() {
    let mut host = Host::new();
    host.standby = Status::Running;
    let journal = journal(HandoverPhase::Complete);
    assert_eq!(
        replay(&journal, HandoverRestartAction::RemoveJournal, &mut host),
        Err(CutoverError::FuzzyProcessIdentity)
    );
    assert!(!host.called("remove"));
}

#[test]
fn restart_restores_exact_stopped_old_after_freeze_interruption() {
    let mut host = Host::new();
    host.old = Status::Stopped;
    host.standby = Status::Running;
    let journal = journal(HandoverPhase::StandbyReady);
    assert!(replay(&journal, HandoverRestartAction::RestoreOldObserver, &mut host).is_ok());
    assert!(host.called("restore 77"));
    assert!(!host.called("terminate 77"));
}

#[test]
fn old_cleaning_restart_accepts_exact_old_gone_without_signaling() {
    let mut host = Host::new();
    host.old = Status::Gone;
    host.standby = Status::Running;
    let journal = journal(HandoverPhase::OldCleaning);
    assert!(
        replay(
            &journal,
            HandoverRestartAction::FinishOldObserverCleanup,
            &mut host
        )
        .is_ok()
    );
    assert!(!host.called("terminate 77"));
    assert!(host.called("record Complete 88"));
}

#[test]
fn fuzzy_restart_identity_signals_nothing() {
    let mut host = Host::new();
    host.mismatch = true;
    let journal = journal(HandoverPhase::StandbyReady);
    let error = replay(&journal, HandoverRestartAction::RestoreOldObserver, &mut host)
        .expect_err("fuzzy process identity must refuse");
    assert!(matches!(error, CutoverError::FuzzyProcessIdentity));
    assert!(!host.called("restore 77"));
    assert!(!host.called("discard 88"));
    assert!(!host.called("remove"));
}

#[test]
fn an_interrupted_swap_records_each_remaining_phase_before_cleanup() {
    let mut host = Host::new();
    host.old = Status::Stopped;
    host.standby = Status::Running;
    let journal = journal(HandoverPhase::OldFrozen);
    assert_eq!(
        replay(
            &journal,
            HandoverRestartAction::FinishOldObserverCleanup,
            &mut host
        ),
        Ok(true)
    );
    assert_eq!(
        host.calls,
        vec![
            "observe 88",
            "record HandleSwapped 88",
            "activate 88",
            "record OldCleaning 88",
            "observe 77",
            "terminate 77",
            "record Complete 88",
            "remove",
        ]
    );
}
