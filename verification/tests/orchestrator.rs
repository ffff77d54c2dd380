use wsnav::actions::{
    OpenCodeObserverStatus, OpenCodeRuntimeHandle, ProviderBinding, ProviderSessionId,
    RuntimeRecord, loopback_host_text,
};
use wsnav::client_artifact::ClientArtifactIdentity;
use wsnav::cutover::{
    CorroboratedOpenCodeObserver, CutoverConfirmationInput, CutoverError, CutoverOutcome,
    CutoverPlan, LegacyPresentationAssessment, LegacyPresentationState, ObserverProcessIdentity,
    OpenCodeObserverKind, plan_from_assessment,
};
use wsnav::domain::{ProviderKind, Revision, RuntimeStatus};
use wsnav::ids::{RuntimeId, WorkstreamId};
use wsnav::observer_target::OpenCodeObserverProjection;
use wsnav::orchestrator::{
    CutoverAction, CutoverEvent, CutoverStage, LeaseHold, cutover_start, cutover_step,
    next_cutover_action,
};

fn projection(runtime: u128) -> OpenCodeObserverProjection {
    let runtime_id = RuntimeId::from_u128(runtime);
    let session = ProviderSessionId::new(ProviderKind::OpenCode, "ses_root").unwrap();
    OpenCodeObserverProjection {
        runtime: RuntimeRecord {
            runtime_id,
            workstream_id: WorkstreamId::from_u128(7),
            provider: ProviderKind::OpenCode,
            tmux_generation: "generation-a".to_owned(),
            tmux_session: "wsnav-runtime".to_owned(),
            cwd: "/disposable/repository".to_owned(),
            provider_pid: Some(4242),
            process_birth: Some("provider-birth".to_owned()),
            status: RuntimeStatus::Idle,
            revision: Revision::initial(),
        },
        handle: OpenCodeRuntimeHandle {
            runtime_id,
            runtime_generation: "generation-a".to_owned(),
            endpoint_host: loopback_host_text().to_owned(),
            endpoint_port: 4321,
            version: "1.2.3".to_owned(),
            native_session_id: session.clone(),
            observer_pid: Some(77),
            observer_birth: Some("old".to_owned()),
            observer_status: OpenCodeObserverStatus::Ready,
            revision: Revision::initial(),
        },
        binding: ProviderBinding {
            runtime_id,
            runtime_generation: "generation-a".to_owned(),
            provider: ProviderKind::OpenCode,
            native_session_id: session,
            start_source: "create".to_owned(),
            last_settled_turn_id: None,
            observed_thread_name: None,
            revision: Revision::initial(),
        },
    }
}

fn assessment(state: LegacyPresentationState, proof: Option<&str>) -> LegacyPresentationAssessment {
    LegacyPresentationAssessment {
        state,
        proof: proof.map(|token| token.to_owned()),
    }
}

fn ready_plan() -> CutoverPlan {
    plan_from_assessment(
        "/state".to_owned(),
        "/state".to_owned(),
        assessment(LegacyPresentationState::DetachedOrdinary, Some("proof-a")),
    )
    .unwrap()
}

fn lock() -> ClientArtifactIdentity {
    ClientArtifactIdentity {
        size: 0,
        mode: 0o100600,
        device: 1,
        inode: 2,
        uid: 1000,
    }
}

/// A simulated host answering each effect of a run.
struct Host {
    proofs: Vec<LegacyPresentationAssessment>,
    retired: Result<usize, CutoverError>,
    projections: Vec<OpenCodeObserverProjection>,
    calls: Vec<String>,
}

impl Host {
    fn new(projections: Vec<OpenCodeObserverProjection>) -> Self {
        Host {
            proofs: vec![
                assessment(LegacyPresentationState::DetachedOrdinary, Some("proof-a")),
                assessment(LegacyPresentationState::NoPresentation, None),
                assessment(LegacyPresentationState::NoPresentation, None),
            ],
            retired: Ok(1),
            projections,
            calls: Vec::new(),
        }
    }

    fn answer(&mut self, stage: &CutoverStage) -> Option<CutoverEvent> {
        match next_cutover_action(stage) {
            CutoverAction::AcquireLease => {
                self.calls.push("lease".to_owned());
                Some(CutoverEvent::LeaseAcquired(Ok(LeaseHold {
                    created: true,
                    identity: lock(),
                })))
            }
            CutoverAction::Prove => {
                self.calls.push("prove".to_owned());
                Some(CutoverEvent::Proved(Ok(self.proofs.remove(0))))
            }
            CutoverAction::Retire(planned) => {
                self.calls.push(format!("retire {:?}", planned.proof));
                Some(CutoverEvent::Retired(self.retired.clone()))
            }
            CutoverAction::OpenState => {
                self.calls.push("open".to_owned());
                Some(CutoverEvent::Effect(Ok(())))
            }
            CutoverAction::ResumeHandover => {
                self.calls.push("resume".to_owned());
                Some(CutoverEvent::Effect(Ok(())))
            }
            CutoverAction::ListProjections => {
                self.calls.push("list".to_owned());
                Some(CutoverEvent::Projections(Ok(self.projections.clone())))
            }
            CutoverAction::Corroborate => match stage {
                CutoverStage::Corroborate { current, .. } => {
                    self.calls.push(format!("corroborate {}", current.runtime.runtime_id.value));
                    Some(CutoverEvent::Corroborated(Ok(CorroboratedOpenCodeObserver {
                        observer: ObserverProcessIdentity {
                            pid: 77,
                            birth: "old".to_owned(),
                            executable: "/private/wsnav-observer".to_owned(),
                        },
                        kind: OpenCodeObserverKind::PreD16,
                    })))
                }
                _ => unreachable!(),
            },
            CutoverAction::HandOver => match stage {
                CutoverStage::HandOver { target, .. } => {
                    let id = target.projection.runtime.runtime_id.value;
                    self.calls.push(format!("hand over {}", id));
                    Some(CutoverEvent::HandedOver(Ok(id != 4)))
                }
                _ => unreachable!(),
            },
            CutoverAction::RemoveClientFiles(identity) => {
                assert_eq!(identity, lock());
                self.calls.push("remove client files".to_owned());
                Some(CutoverEvent::Removed(Ok(3)))
            }
            CutoverAction::Migrate => {
                self.calls.push("migrate".to_owned());
                Some(CutoverEvent::Effect(Ok(())))
            }
            CutoverAction::RemoveLock(identity) => {
                assert_eq!(identity, lock());
                self.calls.push("remove lock".to_owned());
                Some(CutoverEvent::Effect(Ok(())))
            }
            CutoverAction::ReleaseLease { remove_lock, .. } => {
                self.calls.push(format!("release {}", remove_lock));
                Some(CutoverEvent::Effect(Ok(())))
            }
            CutoverAction::Finish => None,
        }
    }
}

fn run(plan: &CutoverPlan, confirmation: &CutoverConfirmationInput, host: &mut Host) -> Result<CutoverOutcome, CutoverError> {
    let mut stage = cutover_start(plan, confirmation);
    loop {
        match host.answer(&stage) {
            Some(event) => stage = cutover_step(plan, stage, event),
            None => match stage {
                CutoverStage::Finished(result) => return result,
                _ => unreachable!(),
            },
        }
    }
}

#[test]
fn a_confirmed_run_hands_over_every_observer_in_runtime_order() {
    let plan = ready_plan();
    let confirmation = CutoverConfirmationInput::confirmed_interactive();
    let mut host = Host::new(vec![projection(5), projection(3), projection(4)]);
    let outcome = run(&plan, &confirmation, &mut host).unwrap();
    match outcome {
        CutoverOutcome::Completed(report) => {
            assert_eq!(report.retired_presentations, 1);
            assert_eq!(
                report.handed_over_runtimes,
                vec![RuntimeId::from_u128(3), RuntimeId::from_u128(5)]
            );
            assert_eq!(report.removed_client_files, 3);
        }
        other => panic!("unexpected outcome {:?}", other),
    }
    assert_eq!(
        host.calls,
        vec![
            "lease",
            "prove",
            "retire Some(\"proof-a\")",
            "prove",
            "open",
            "resume",
            "list",
            "corroborate 3",
            "hand over 3",
            "corroborate 4",
            "hand over 4",
            "corroborate 5",
            "hand over 5",
            "prove",
            "remove client files",
            "migrate",
            "remove lock",
        ]
    );
}

#[test]
fn a_declined_or_drain_only_run_touches_nothing() {
    let plan = ready_plan();
    let mut host = Host::new(Vec::new());
    assert_eq!(
        run(&plan, &CutoverConfirmationInput::declined_interactive(), &mut host),
        Ok(CutoverOutcome::Declined)
    );
    let drain = plan_from_assessment(
        "/state".to_owned(),
        "/state".to_owned(),
        assessment(LegacyPresentationState::Attached, None),
    )
    .unwrap();
    assert_eq!(
        run(&drain, &CutoverConfirmationInput::confirmed_interactive(), &mut host),
        Ok(CutoverOutcome::DrainOnly(LegacyPresentationState::Attached))
    );
    assert!(host.calls.is_empty());
}

#[test]
fn a_changed_proof_under_the_lease_removes_the_new_lock_and_refuses() {
    let plan = ready_plan();
    let mut host = Host::new(Vec::new());
    host.proofs[0] = assessment(LegacyPresentationState::DetachedOrdinary, Some("proof-b"));
    assert_eq!(
        run(&plan, &CutoverConfirmationInput::confirmed_interactive(), &mut host),
        Err(CutoverError::PresentationProofChanged)
    );
    assert_eq!(host.calls, vec!["lease", "prove", "release true"]);
}

#[test]
fn a_failed_retirement_keeps_the_lock_it_may_have_made_durable() {
    let plan = ready_plan();
    let mut host = Host::new(Vec::new());
    host.retired = Err(CutoverError::PresentationRetirement("busy".to_owned()));
    assert_eq!(
        run(&plan, &CutoverConfirmationInput::confirmed_interactive(), &mut host),
        Err(CutoverError::PresentationRetirement("busy".to_owned()))
    );
    assert_eq!(
        host.calls,
        vec!["lease", "prove", "retire Some(\"proof-a\")", "release false"]
    );
}

#[test]
fn a_remaining_presentation_never_opens_state() {
    let plan = ready_plan();
    let mut host = Host::new(Vec::new());
    host.proofs[1] = assessment(LegacyPresentationState::DetachedOrdinary, Some("proof-a"));
    assert_eq!(
        run(&plan, &CutoverConfirmationInput::confirmed_interactive(), &mut host),
        Err(CutoverError::PresentationNotRetired)
    );
    assert!(!host.calls.contains(&"open".to_owned()));
    assert_eq!(host.calls.last().unwrap(), "release false");
}

#[test]
fn two_projections_of_one_runtime_are_ambiguous() {
    let plan = ready_plan();
    let mut host = Host::new(vec![projection(3), projection(3)]);
    assert_eq!(
        run(&plan, &CutoverConfirmationInput::confirmed_interactive(), &mut host),
        Err(CutoverError::AmbiguousRuntime)
    );
    assert!(!host.calls.iter().any(|call| call.starts_with("corroborate")));
    assert!(!host.calls.contains(&"remove client files".to_owned()));
}

#[test]
fn a_run_without_live_observers_goes_straight_to_cleanup() {
    let plan = ready_plan();
    let mut host = Host::new(Vec::new());
    let outcome = run(&plan, &CutoverConfirmationInput::confirmed_interactive(), &mut host);
    match outcome {
        Ok(CutoverOutcome::Completed(report)) => {
            assert!(report.handed_over_runtimes.is_empty());
        }
        other => panic!("unexpected outcome {:?}", other),
    }
}
