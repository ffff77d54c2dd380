use wsnav::cutover::{
    CutoverConfirmationInput, CutoverConfirmationSummary, CutoverError, CutoverLaunchKind,
    CutoverOutcome, CutoverPlanKind, CutoverProcessEvidence, CutoverProcessStatus,
    LegacyPresentationAssessment, LegacyPresentationState, ObserverProcessIdentity,
    ObserverProcessState, PresentationProofSource, cutover_gate, discover_cutover,
    is_standby_command_line, old_observer_cleanup, plan_from_assessment,
    process_identity_matches_installed_observer,
    require_restoreable, require_running, require_stopped, valid_birth_token,
    validate_cutover_observer_identity,
};
use wsnav::domain::Revision;
use wsnav::ids::RuntimeId;
use wsnav::standby::{parse_standby_activation_ack, parse_standby_ready_line};

#[test]
fn summary_names_all_bounded_categories_without_state_access() {
    let summary = CutoverConfirmationSummary::standard();
    assert_eq!(summary.discarded().len(), 8);
    assert_eq!(summary.preserved().len(), 13);
    assert!(summary.discarded().iter().all(|category| !category.label().is_empty()));
    assert!(summary.preserved().iter().all(|category| !category.label().is_empty()));
}

#[test]
fn noninteractive_confirmation_never_authorizes() {
    let mut input = CutoverConfirmationInput::confirmed_interactive();
    input.launch_kind = CutoverLaunchKind::Hook;
    assert!(matches!(input.authorize(), Err(CutoverError::UnauthorizedLaunch)));
}

#[test]
fn confirmation_authorizes_only_a_confirmed_ordinary_launch() {
    assert!(CutoverConfirmationInput::confirmed_interactive().authorize().is_ok());
    assert_eq!(
        CutoverConfirmationInput::declined_interactive().authorize(),
        Err(CutoverError::Declined)
    );
    for kind in [
        CutoverLaunchKind::Hook,
        CutoverLaunchKind::ObserverSidecar,
        CutoverLaunchKind::HiddenHelper,
        CutoverLaunchKind::Script,
    ] {
        let mut input = CutoverConfirmationInput::confirmed_interactive();
        input.launch_kind = kind;
        assert_eq!(input.authorize(), Err(CutoverError::UnauthorizedLaunch));
    }
    assert!(CutoverConfirmationSummary::standard().is_standard());
}

fn evidence(executable: &str, argv0: &str) -> CutoverProcessEvidence {
    CutoverProcessEvidence {
        birth: "birth-old".to_owned(),
        executable: executable.to_owned(),
        cwd: "/private/project".to_owned(),
        status: CutoverProcessStatus::Running,
        arguments: vec![argv0.to_owned(), "--state-root".to_owned()],
    }
}

#[test]
fn upgraded_deleted_observer_executable_requires_exact_original_spelling() {
    let current_executable = "/private/wsnav";
    let evidence = evidence("/private/wsnav (deleted)", current_executable);
    assert!(process_identity_matches_installed_observer(
        &evidence,
        "birth-old",
        current_executable,
        None,
    ));

    let mut wrong_argv = evidence.clone();
    wrong_argv.arguments[0] = "/private/other-wsnav".to_owned();
    assert!(!process_identity_matches_installed_observer(
        &wrong_argv,
        "birth-old",
        current_executable,
        None,
    ));

    let mut arbitrary_deleted_path = evidence.clone();
    arbitrary_deleted_path.executable = "/tmp/unrelated-wsnav (deleted)".to_owned();
    arbitrary_deleted_path.arguments[0] = "/tmp/unrelated-wsnav".to_owned();
    assert!(!process_identity_matches_installed_observer(
        &arbitrary_deleted_path,
        "birth-old",
        current_executable,
        None,
    ));
}

#[test]
fn installed_observer_requires_its_birth() {
    let current = evidence("/private/wsnav", "/private/wsnav");
    assert!(process_identity_matches_installed_observer(&current, "birth-old", "/private/wsnav", None));
    assert!(!process_identity_matches_installed_observer(&current, "birth-new", "/private/wsnav", None));
    assert!(process_identity_matches_installed_observer(
        &evidence("/a/wsnav", "/a/wsnav"),
        "birth-old",
        "/b/wsnav",
        Some(true)
    ));
}

fn identity(pid: u32, birth: &str) -> ObserverProcessIdentity {
    ObserverProcessIdentity {
        pid,
        birth: birth.to_owned(),
        executable: "/private/wsnav".to_owned(),
    }
}

#[test]
fn handover_process_states_must_be_exact() {
    let expected = identity(7, "b");
    assert_eq!(require_running(Ok(ObserverProcessState::Running(identity(7, "b"))), &expected), Ok(()));
    assert_eq!(
        require_running(Ok(ObserverProcessState::Running(identity(7, "c"))), &expected),
        Err(CutoverError::FuzzyProcessIdentity)
    );
    assert_eq!(
        require_running(Ok(ObserverProcessState::Stopped(identity(7, "b"))), &expected),
        Err(CutoverError::FuzzyProcessIdentity)
    );
    assert_eq!(require_stopped(Ok(ObserverProcessState::Stopped(identity(7, "b"))), &expected), Ok(()));
    assert_eq!(
        require_stopped(Ok(ObserverProcessState::Gone), &expected),
        Err(CutoverError::FuzzyProcessIdentity)
    );
    assert_eq!(require_restoreable(Ok(ObserverProcessState::Stopped(identity(7, "b"))), &expected), Ok(()));
    assert_eq!(
        require_restoreable(Ok(ObserverProcessState::IdentityMismatch), &expected),
        Err(CutoverError::FuzzyProcessIdentity)
    );
    assert_eq!(
        require_restoreable(Err(CutoverError::InvalidRoot), &expected),
        Err(CutoverError::InvalidRoot)
    );
}

#[test]
fn observer_identities_must_be_bounded_and_single_line() {
    assert!(validate_cutover_observer_identity(&identity(7, "b")).is_ok());
    assert_eq!(
        validate_cutover_observer_identity(&identity(0, "b")),
        Err(CutoverError::InvalidObserverTarget)
    );
    assert_eq!(
        validate_cutover_observer_identity(&identity(7, "b\nc")),
        Err(CutoverError::InvalidObserverTarget)
    );
    assert!(!valid_birth_token(""));
    assert!(!valid_birth_token(&"x".repeat(257)));
    assert!(valid_birth_token(&"x".repeat(256)));
}

struct Fixed(LegacyPresentationState);

impl PresentationProofSource for Fixed {
    fn prove(&mut self, _state_root: &str) -> Result<LegacyPresentationAssessment, CutoverError> {
        Ok(LegacyPresentationAssessment { state: self.0, proof: None })
    }
}

#[test]
fn plans_classify_presentations_and_gate_the_run() {
    let ready = discover_cutover(
        &mut Fixed(LegacyPresentationState::DetachedOrdinary),
        "/state".to_owned(),
        "./state".to_owned(),
    )
    .unwrap();
    assert_eq!(ready.kind(), CutoverPlanKind::Ready);
    assert_eq!(ready.root(), "/state");
    assert_eq!(ready.presentation_root(), "./state");
    let drain = plan_from_assessment(
        "/state".to_owned(),
        "/state".to_owned(),
        LegacyPresentationAssessment { state: LegacyPresentationState::Attached, proof: None },
    )
    .unwrap();
    assert_eq!(drain.kind(), CutoverPlanKind::DrainOnly);
    assert_eq!(
        plan_from_assessment(
            "/state".to_owned(),
            "/state".to_owned(),
            LegacyPresentationAssessment { state: LegacyPresentationState::Malformed, proof: None },
        ),
        Err(CutoverError::UnsafePresentation(LegacyPresentationState::Malformed))
    );
    let confirmed = CutoverConfirmationInput::confirmed_interactive();
    assert_eq!(cutover_gate(&ready, &confirmed), Ok(None));
    assert_eq!(
        cutover_gate(&drain, &confirmed),
        Ok(Some(CutoverOutcome::DrainOnly(LegacyPresentationState::Attached)))
    );
    assert_eq!(
        cutover_gate(&ready, &CutoverConfirmationInput::declined_interactive()),
        Ok(Some(CutoverOutcome::Declined))
    );
}

#[test]
fn standby_ready_line_has_exactly_three_fields() {
    assert_eq!(
        parse_standby_ready_line(b"READY 202 standby-birth\n").unwrap(),
        (202, "standby-birth".to_owned())
    );
    for bad in [
        &b"READY 202 standby-birth"[..],
        b"READY 0 birth\n",
        b"READY 202\n",
        b"READY 202 birth extra\n",
        b"READY  202 birth\n",
        b"READY x birth\n",
        b"READY 4294967296 birth\n",
        b"\n",
        b"",
    ] {
        assert_eq!(parse_standby_ready_line(bad), Err(CutoverError::StandbyObserverUnavailable));
    }
    assert_eq!(parse_standby_ready_line(b"READY +7 b\n").unwrap(), (7, "b".to_owned()));
}

#[test]
fn activation_ack_must_name_the_exact_standby_and_handle() {
    let runtime_id = RuntimeId::from_u128(77);
    let expected = identity(202, "standby-birth");
    let revision = Revision::try_from_value(3).unwrap();
    let line = format!("ACTIVATED 202 standby-birth {} 3 generation a\n", runtime_id.text());
    assert_eq!(
        parse_standby_activation_ack(line.as_bytes(), &expected, runtime_id, "generation a", revision),
        Ok(())
    );
    let wrong_birth = format!("ACTIVATED 202 other {} 3 generation a\n", runtime_id.text());
    assert_eq!(
        parse_standby_activation_ack(wrong_birth.as_bytes(), &expected, runtime_id, "generation a", revision),
        Err(CutoverError::StandbyActivationAckUnavailable)
    );
    let wrong_revision = format!("ACTIVATED 202 standby-birth {} 4 generation a\n", runtime_id.text());
    assert_eq!(
        parse_standby_activation_ack(wrong_revision.as_bytes(), &expected, runtime_id, "generation a", revision),
        Err(CutoverError::StandbyActivationAckUnavailable)
    );
    let empty_generation = format!("ACTIVATED 202 standby-birth {} 3 \n", runtime_id.text());
    assert_eq!(
        parse_standby_activation_ack(empty_generation.as_bytes(), &expected, runtime_id, "", revision),
        Err(CutoverError::StandbyActivationAckUnavailable)
    );
}

#[test]
fn standby_command_lines_are_recognized_by_shape() {
    let mut arguments: Vec<String> = (0..12).map(|i| format!("arg{i}")).collect();
    arguments[3] = "_opencode_observer_standby".to_owned();
    assert!(is_standby_command_line(&arguments));
    arguments.pop();
    assert!(!is_standby_command_line(&arguments));
}

#[test]
fn an_old_observer_is_cleaned_only_when_exactly_stopped_or_gone() {
    let old = ObserverProcessIdentity {
        pid: 77,
        birth: "old-birth".to_owned(),
        executable: "/usr/bin/wsnav".to_owned(),
    };
    assert_eq!(
        old_observer_cleanup(Ok(ObserverProcessState::Stopped(old.clone())), &old),
        Ok(true)
    );
    assert_eq!(old_observer_cleanup(Ok(ObserverProcessState::Gone), &old), Ok(false));
    assert_eq!(
        old_observer_cleanup(Ok(ObserverProcessState::Running(old.clone())), &old),
        Err(CutoverError::FuzzyProcessIdentity)
    );
    let mut reused = old.clone();
    reused.birth = "new-birth".to_owned();
    assert_eq!(
        old_observer_cleanup(Ok(ObserverProcessState::Stopped(reused)), &old),
        Err(CutoverError::FuzzyProcessIdentity)
    );
    assert_eq!(
        old_observer_cleanup(Ok(ObserverProcessState::IdentityMismatch), &old),
        Err(CutoverError::FuzzyProcessIdentity)
    );
    assert_eq!(
        old_observer_cleanup(Err(CutoverError::InvalidRoot), &old),
        Err(CutoverError::InvalidRoot)
    );
}

#[test]
fn activation_ack_requires_exact_process_and_state_handle_identity() {
    let runtime_id = RuntimeId::from_u128(77);
    let expected = ObserverProcessIdentity {
        pid: 202,
        birth: "standby-birth".to_owned(),
        executable: "/private/wsnav".to_owned(),
    };
    let generation = "generation-a";
    let revision = Revision::initial().next();
    let line = format!(
        "ACTIVATED {} {} {} {} {}\n",
        expected.pid,
        expected.birth,
        runtime_id.text(),
        revision.value(),
        generation,
    );
    assert!(
        parse_standby_activation_ack(line.as_bytes(), &expected, runtime_id, generation, revision)
            .is_ok()
    );

    for malformed in [
        "",
        "ACTIVATED 202 standby-birth wrong-runtime 2 generation-a\n",
        "ACTIVATED 999 standby-birth 00000000-0000-0000-0000-00000000004d 2 generation-a\n",
        "ACTIVATED 202 standby-birth 00000000-0000-0000-0000-00000000004d 1 generation-a\n",
        "ACTIVATED 202 standby-birth 00000000-0000-0000-0000-00000000004d 2 generation-b\n",
    ] {
        assert!(matches!(
            parse_standby_activation_ack(
                malformed.as_bytes(),
                &expected,
                runtime_id,
                generation,
                revision,
            ),
            Err(CutoverError::StandbyActivationAckUnavailable)
        ));
    }
}
