use wsnav::actions::{
    ActionError, LostRuntimeDecision, backfill_candidate, OpenCodeObserverStatus, OpenCodeRuntimeHandle, ProcessProbe,
    ProviderBinding, ProviderSessionId, RuntimeProbe, RuntimeRecord, attachment_runtime_matches,
    codex_launch_program, codex_recovery_program, lost_runtime_decision, loopback_host_text,
    managed_codex_environment, matches_recorded_runtime, observer_identity_matches,
    opencode_recovery_handle_matches, prefer_cleanup_error, recorded_provider_identity,
    runtime_launch_program, spawned_observer_identity_matches,
};
use wsnav::domain::{ProviderKind, Revision, RuntimeStatus, WorkstreamLifecycle};
use wsnav::ids::{RuntimeId, WorkstreamId};
use wsnav::observer::{RuntimePaneProbe, no_live_codex_runtime, runtime_probe_shows_absent};
use wsnav::lifecycle::{
    ArchiveStep, ForgetStep, ParkProbeStep, PriorRuntimeStep, WorkstreamOverview, archive_step,
    forget_step, hook_observation_matches, launched_provider_identity, park_probe_step,
    prior_runtime_step, runtime_status_label, start_gate, HookEvidence, LaunchFailureCleanup,
    OpenCodeLaunchEffect, hook_candidate_needs_direct_check, hook_candidate_needs_probe,
    launch_failure_cleanup, next_launch_effect, select_hook_runtime, CatalogAuthorization,
    park_gate, restore_gate, prior_opencode_step, prior_opencode_handle_unknown, PriorOpenCodeStep,
    recovery_gate, require_runtime,
};

fn record(provider_pid: Option<u32>, process_birth: Option<&str>) -> RuntimeRecord {
    RuntimeRecord {
        runtime_id: RuntimeId::new(),
        workstream_id: WorkstreamId::new(),
        provider: ProviderKind::Codex,
        tmux_generation: "generation".to_owned(),
        tmux_session: "session".to_owned(),
        cwd: "/disposable/repository".to_owned(),
        provider_pid,
        process_birth: process_birth.map(str::to_owned),
        status: RuntimeStatus::Idle,
        revision: Revision::initial(),
    }
}

fn live(pane_pid: u32, cwd: &str, birth: &str) -> RuntimeProbe {
    RuntimeProbe::Live {
        pane_id: "%1".to_owned(),
        pane_pid,
        cwd: cwd.to_owned(),
        process_birth: Some(birth.to_owned()),
    }
}

#[test]
fn managed_codex_environment_has_only_the_explicit_utf8_locale() {
    let environment = managed_codex_environment();
    for key in ["LANG", "LC_CTYPE", "LC_ALL"] {
        let value = environment
            .iter()
            .find(|(name, _)| name == key)
            .map(|(_, value)| value.as_str());
        assert_eq!(value, Some("C.UTF-8"));
    }
    assert_eq!(environment.len(), 3);
}

#[test]
fn native_provider_is_wrapped_by_the_private_launch_barrier() {
    let runtime_id = RuntimeId::new();
    let wrapped = runtime_launch_program(
        "/usr/local/bin/wsnav",
        "/state",
        runtime_id,
        vec!["codex".into(), "--profile".into(), "wsnav-observer".into()],
    );
    assert_eq!(
        &wrapped[1..],
        &[
            "--state-root".to_owned(),
            "/state".to_owned(),
            "_runtime_launch".to_owned(),
            runtime_id.text(),
            "--".to_owned(),
            "codex".to_owned(),
            "--profile".to_owned(),
            "wsnav-observer".to_owned(),
        ]
    );
    assert_eq!(wrapped[0], "/usr/local/bin/wsnav");
}

#[test]
fn live_runtime_is_accepted_only_when_its_recorded_identity_matches() {
    let record = record(Some(1), Some("birth-a"));
    let exact = live(1, "/disposable/repository", "birth-a");

    assert!(attachment_runtime_matches(&record, &exact));
    assert!(matches_recorded_runtime(&record, &exact, false));
    assert!(!matches_recorded_runtime(&record, &exact, true));
    assert!(!matches_recorded_runtime(
        &record,
        &live(2, "/disposable/repository", "birth-a"),
        false
    ));
    assert!(!matches_recorded_runtime(
        &record,
        &live(1, "/another/checkout", "birth-a"),
        false
    ));
    assert!(!matches_recorded_runtime(
        &record,
        &live(1, "/disposable/repository", "birth-b"),
        false
    ));
    assert!(!attachment_runtime_matches(&record, &RuntimeProbe::Missing));
    assert!(!attachment_runtime_matches(
        &record,
        &RuntimeProbe::Unknown {
            diagnostic: "probe unavailable".to_owned(),
        },
    ));
}

#[test]
fn codex_attachment_requires_a_complete_recorded_process_identity() {
    let record = record(None, None);
    let probe = live(1, "/disposable/repository", "birth-a");
    assert!(!attachment_runtime_matches(&record, &probe));
}

struct FixedBirth(Option<String>);

impl ProcessProbe for FixedBirth {
    fn process_birth(&self, _pid: u32) -> Option<String> {
        self.0.clone()
    }
}

#[test]
fn observer_cleanup_refuses_missing_or_reused_birth_without_signalling() {
    assert!(!observer_identity_matches(&FixedBirth(None), 77, "birth-a"));
    assert!(!observer_identity_matches(
        &FixedBirth(Some("birth-b".to_owned())),
        77,
        "birth-a"
    ));
    assert!(!observer_identity_matches(
        &FixedBirth(Some("birth-a".to_owned())),
        77,
        ""
    ));
    assert!(observer_identity_matches(
        &FixedBirth(Some("birth-a".to_owned())),
        77,
        "birth-a"
    ));
}

fn session(provider: ProviderKind, id: &str) -> ProviderSessionId {
    ProviderSessionId::new(provider, id).unwrap()
}

fn handle(runtime_id: RuntimeId, version: &str, session_id: ProviderSessionId) -> OpenCodeRuntimeHandle {
    OpenCodeRuntimeHandle {
        runtime_id,
        runtime_generation: "generation-a".to_owned(),
        endpoint_host: loopback_host_text().to_owned(),
        endpoint_port: 4321,
        version: version.to_owned(),
        native_session_id: session_id,
        observer_pid: Some(77),
        observer_birth: Some("birth-a".to_owned()),
        observer_status: OpenCodeObserverStatus::Ready,
        revision: Revision::initial(),
    }
}

#[test]
fn spawned_observer_ready_requires_the_exact_live_pid_and_birth() {
    let handle = handle(
        RuntimeId::new(),
        "contract-build-a",
        session(ProviderKind::OpenCode, "session"),
    );
    assert!(spawned_observer_identity_matches(
        &handle,
        77,
        "birth-a",
        &FixedBirth(Some("birth-a".to_owned())),
    ));
    assert!(!spawned_observer_identity_matches(
        &handle,
        77,
        "birth-a",
        &FixedBirth(None),
    ));
    assert!(!spawned_observer_identity_matches(
        &handle,
        78,
        "birth-a",
        &FixedBirth(Some("birth-a".to_owned())),
    ));
}

#[test]
fn opencode_recovery_handle_match_is_exact_and_provider_namespaced() {
    let runtime_id = RuntimeId::new();
    let root_session = session(ProviderKind::OpenCode, "root-session");
    let runtime = RuntimeRecord {
        runtime_id,
        workstream_id: WorkstreamId::new(),
        provider: ProviderKind::OpenCode,
        tmux_generation: "generation-a".to_owned(),
        tmux_session: "wsnav-runtime".to_owned(),
        cwd: "/disposable/repository".to_owned(),
        provider_pid: Some(42),
        process_birth: Some("pane-birth".to_owned()),
        status: RuntimeStatus::Unknown,
        revision: Revision::initial(),
    };
    let binding = ProviderBinding {
        runtime_id,
        runtime_generation: "generation-a".to_owned(),
        provider: ProviderKind::OpenCode,
        native_session_id: root_session.clone(),
        start_source: "resume".to_owned(),
        last_settled_turn_id: Some("settled-message".to_owned()),
        observed_thread_name: None,
        revision: Revision::initial(),
    };
    let mut handle = handle(runtime_id, "contract-build-b", root_session);
    handle.observer_birth = Some("observer-birth".to_owned());
    handle.observer_status = OpenCodeObserverStatus::Unknown;
    assert!(opencode_recovery_handle_matches(&runtime, &binding, &handle));

    let mut mismatched = handle.clone();
    mismatched.runtime_generation = "generation-b".to_owned();
    assert!(!opencode_recovery_handle_matches(&runtime, &binding, &mismatched));
    mismatched = handle.clone();
    mismatched.native_session_id = session(ProviderKind::OpenCode, "other");
    assert!(!opencode_recovery_handle_matches(&runtime, &binding, &mismatched));
    mismatched = handle.clone();
    mismatched.endpoint_host = "0.0.0.0".to_owned();
    assert!(!opencode_recovery_handle_matches(&runtime, &binding, &mismatched));
    mismatched = handle;
    let mut codex_binding = binding;
    codex_binding.provider = ProviderKind::Codex;
    assert!(!opencode_recovery_handle_matches(&runtime, &codex_binding, &mismatched));
}

#[test]
fn conclusive_private_runtime_loss_becomes_recovery_required_before_snapshot() {
    let mut recorded = record(Some(42), Some("birth-a"));
    recorded.status = RuntimeStatus::Starting;
    assert_eq!(
        lost_runtime_decision(WorkstreamLifecycle::Open, &recorded, Some(&RuntimeProbe::Missing)),
        LostRuntimeDecision::MarkRecoveryRequired
    );
}

#[test]
fn lost_runtime_reconciliation_leaves_ambiguous_and_exact_probes_alone() {
    let recorded = record(Some(42), Some("birth-a"));
    let unknown = RuntimeProbe::Unknown {
        diagnostic: "busy".to_owned(),
    };
    assert_eq!(
        lost_runtime_decision(WorkstreamLifecycle::Open, &recorded, Some(&unknown)),
        LostRuntimeDecision::Keep
    );
    assert_eq!(
        lost_runtime_decision(WorkstreamLifecycle::Open, &recorded, None),
        LostRuntimeDecision::Keep
    );
    assert_eq!(
        lost_runtime_decision(
            WorkstreamLifecycle::Open,
            &recorded,
            Some(&live(42, "/disposable/repository", "birth-a"))
        ),
        LostRuntimeDecision::Keep
    );
    assert_eq!(
        lost_runtime_decision(
            WorkstreamLifecycle::Open,
            &recorded,
            Some(&live(43, "/disposable/repository", "birth-a"))
        ),
        LostRuntimeDecision::MarkRecoveryRequired
    );
    assert_eq!(
        lost_runtime_decision(
            WorkstreamLifecycle::RecoveryRequired,
            &recorded,
            Some(&RuntimeProbe::Missing)
        ),
        LostRuntimeDecision::Skip
    );
    let unpid = record(None, Some("birth-a"));
    assert_eq!(
        lost_runtime_decision(
            WorkstreamLifecycle::Open,
            &unpid,
            Some(&live(77, "/disposable/repository", "birth-a"))
        ),
        LostRuntimeDecision::Backfill { pane_pid: 77 }
    );
}

fn overview(archived: bool, runtime: Option<RuntimeRecord>) -> WorkstreamOverview {
    WorkstreamOverview {
        workstream_id: WorkstreamId::from_u128(7),
        provider: ProviderKind::Codex,
        lifecycle: WorkstreamLifecycle::Open,
        archived_at_millis: if archived { Some(1_000) } else { None },
        revision: Revision::initial(),
        runtime,
    }
}

#[test]
fn archive_and_restore_without_a_runtime_never_start_codex() {
    let active = overview(false, None);
    assert_eq!(
        archive_step(&active, Revision::initial()),
        Ok(ArchiveStep::ArchiveAt(Revision::initial()))
    );
    let archived = overview(true, None);
    assert_eq!(
        start_gate(&archived, Some(archived.revision)),
        Err(ActionError::WorkstreamArchived)
    );
    assert_eq!(
        park_gate(&archived, Some(archived.revision), CatalogAuthorization::ActiveOnly),
        Err(ActionError::WorkstreamArchived)
    );
    assert_eq!(
        archive_step(&archived, archived.revision),
        Err(ActionError::WorkstreamAlreadyArchived)
    );
    assert_eq!(restore_gate(&archived, archived.revision), Ok(()));
    assert_eq!(
        restore_gate(&archived, Revision::try_from_value(9).unwrap()),
        Err(ActionError::WorkstreamRevisionConflict)
    );
    let restored = overview(false, None);
    assert_eq!(
        park_gate(&restored, Some(restored.revision), CatalogAuthorization::ActiveOnly),
        Ok(())
    );
    assert_eq!(
        park_gate(&archived, Some(archived.revision), CatalogAuthorization::ArchivedAllowed),
        Ok(())
    );
}

#[test]
fn archive_parks_a_live_runtime_first_and_refuses_a_stale_revision() {
    let with_runtime = overview(false, Some(record(Some(1), Some("birth-a"))));
    assert_eq!(
        archive_step(&with_runtime, Revision::initial()),
        Ok(ArchiveStep::ParkFirst)
    );
    let stale = Revision::initial().next();
    assert_eq!(
        archive_step(&with_runtime, stale),
        Err(ActionError::WorkstreamRevisionConflict)
    );
}

#[test]
fn forget_requires_an_archived_workstream() {
    let active = overview(false, None);
    assert_eq!(
        forget_step(&active, Revision::initial()),
        Err(ActionError::WorkstreamNotArchived)
    );
    let archived = overview(true, None);
    assert_eq!(
        forget_step(&archived, Revision::initial()),
        Ok(ForgetStep::ForgetAt(Revision::initial()))
    );
    let archived_live = overview(true, Some(record(Some(1), Some("birth-a"))));
    assert_eq!(
        forget_step(&archived_live, Revision::initial()),
        Ok(ForgetStep::ParkFirst)
    );
}

#[test]
fn start_refuses_recovery_required_per_provider() {
    let mut codex = overview(false, None);
    codex.lifecycle = WorkstreamLifecycle::RecoveryRequired;
    assert_eq!(start_gate(&codex, None), Err(ActionError::NativeRecoveryRequired));
    let mut opencode = codex.clone();
    opencode.provider = ProviderKind::OpenCode;
    assert_eq!(
        start_gate(&opencode, None),
        Err(ActionError::ProviderRecoveryUnavailable(ProviderKind::OpenCode))
    );
    assert_eq!(start_gate(&overview(false, None), None), Ok(()));
}

#[test]
fn prior_runtime_and_park_probe_decisions() {
    let recorded = record(Some(1), Some("birth-a"));
    assert_eq!(
        prior_runtime_step(&recorded, &live(1, "/disposable/repository", "birth-a")),
        Ok(PriorRuntimeStep::AlreadyLive)
    );
    assert_eq!(
        prior_runtime_step(&recorded, &RuntimeProbe::Missing),
        Ok(PriorRuntimeStep::MarkRecoveryRequired)
    );
    assert_eq!(
        prior_runtime_step(&recorded, &live(2, "/disposable/repository", "birth-a")),
        Err(ActionError::RuntimeProbeAmbiguous)
    );
    let unpid = record(None, Some("birth-a"));
    assert_eq!(
        park_probe_step(&unpid, &live(9, "/disposable/repository", "birth-a"), false),
        Ok(ParkProbeStep::BackfillThenStop { pane_pid: 9 })
    );
    assert_eq!(
        park_probe_step(&record(None, None), &RuntimeProbe::Missing, false),
        Ok(ParkProbeStep::Stop)
    );
    assert_eq!(
        park_probe_step(&unpid, &RuntimeProbe::Missing, false),
        Err(ActionError::RuntimeProbeAmbiguous)
    );
}

#[test]
fn recovery_program_resumes_the_bound_session_or_opens_the_picker() {
    let runtime_id = RuntimeId::new();
    let binding = ProviderBinding {
        runtime_id,
        runtime_generation: "generation".to_owned(),
        provider: ProviderKind::Codex,
        native_session_id: session(ProviderKind::Codex, "thread-1"),
        start_source: "startup".to_owned(),
        last_settled_turn_id: None,
        observed_thread_name: None,
        revision: Revision::initial(),
    };
    let launch = codex_launch_program("/repo", Some(&binding));
    assert_eq!(
        launch,
        vec!["codex", "--profile", "wsnav-observer", "-C", "/repo", "resume", "thread-1"]
    );
    assert_eq!(codex_recovery_program("/repo", Some(&binding)), launch);
    assert_eq!(
        codex_recovery_program("/repo", None),
        vec!["codex", "--profile", "wsnav-observer", "-C", "/repo", "resume"]
    );
    assert_eq!(
        codex_launch_program("/repo", None),
        vec!["codex", "--profile", "wsnav-observer", "-C", "/repo"]
    );
}

#[test]
fn incomplete_recorded_identity_is_ambiguous_and_cleanup_errors_win() {
    assert!(matches!(
        recorded_provider_identity(&record(Some(5), Some(""))),
        Err(ActionError::RuntimeProbeAmbiguous)
    ));
    assert!(matches!(
        recorded_provider_identity(&record(None, Some("b"))),
        Err(ActionError::RuntimeProbeAmbiguous)
    ));
    let complete = record(Some(5), Some("b"));
    assert_eq!(recorded_provider_identity(&complete).unwrap(), (5, "b"));
    assert_eq!(
        prefer_cleanup_error(Err(ActionError::Io), ActionError::NoRuntime(WorkstreamId::from_u128(1))),
        ActionError::Io
    );
    assert_eq!(
        prefer_cleanup_error(Ok(()), ActionError::Profile),
        ActionError::Profile
    );
}

#[test]
fn exact_live_probe_backfills_a_missing_provider_pid() {
    let legacy = record(None, Some("birth-a"));
    let probe = live(77, "/disposable/repository", "birth-a");

    let pane_pid = backfill_candidate(&legacy, &probe).unwrap();
    let mut repaired = legacy.clone();
    repaired.provider_pid = Some(pane_pid);

    assert_eq!(repaired.provider_pid, Some(77));
    assert!(matches_recorded_runtime(&repaired, &probe, false));
    assert_eq!(backfill_candidate(&repaired, &probe), None);
    assert_eq!(
        backfill_candidate(&legacy, &live(77, "/disposable/repository", "birth-b")),
        None
    );
}

#[test]
fn a_launched_pane_proves_its_provider_only_in_the_recorded_directory() {
    let reserved = record(None, None);
    assert_eq!(
        launched_provider_identity(&reserved, &live(88, "/disposable/repository", "birth-c")),
        Ok((88, "birth-c".to_owned()))
    );
    assert_eq!(
        launched_provider_identity(&reserved, &live(88, "/disposable/repository/", "birth-c")),
        Ok((88, "birth-c".to_owned()))
    );
    assert_eq!(
        launched_provider_identity(&reserved, &live(88, "/elsewhere", "birth-c")),
        Err(ActionError::RuntimeProbeAmbiguous)
    );
    let unborn = RuntimeProbe::Live {
        pane_id: "%1".to_owned(),
        pane_pid: 88,
        cwd: "/disposable/repository".to_owned(),
        process_birth: None,
    };
    assert_eq!(
        launched_provider_identity(&reserved, &unborn),
        Err(ActionError::RuntimeProbeAmbiguous)
    );
    assert_eq!(
        launched_provider_identity(&reserved, &RuntimeProbe::Missing),
        Err(ActionError::RuntimeProbeAmbiguous)
    );
}

#[test]
fn a_hook_is_attributed_only_to_its_exact_runtime() {
    let recorded = record(Some(42), Some("birth-a"));
    let probe = live(42, "/disposable/repository", "birth-a");
    assert!(hook_observation_matches(&recorded, "/disposable/repository", &probe));
    assert!(!hook_observation_matches(&recorded, "/other/repository", &probe));
    assert!(!hook_observation_matches(
        &recorded,
        "/disposable/repository",
        &live(43, "/disposable/repository", "birth-a")
    ));
    assert!(!hook_observation_matches(
        &recorded,
        "/disposable/repository",
        &live(42, "/disposable/repository", "birth-b")
    ));
}

#[test]
fn runtime_statuses_have_short_labels() {
    assert_eq!(runtime_status_label(RuntimeStatus::Starting), "starting");
    assert_eq!(runtime_status_label(RuntimeStatus::Idle), "idle");
    assert_eq!(runtime_status_label(RuntimeStatus::Attention), "idle");
    assert_eq!(runtime_status_label(RuntimeStatus::Working), "working");
    assert_eq!(runtime_status_label(RuntimeStatus::Stopped), "parked");
    assert_eq!(runtime_status_label(RuntimeStatus::Unknown), "unknown");
    assert_eq!(runtime_status_label(RuntimeStatus::Unreachable), "unreachable");
}

struct ScriptedProbe {
    answers: Vec<Result<RuntimeProbe, ()>>,
    probed: usize,
}

impl RuntimePaneProbe for ScriptedProbe {
    fn probe_runtime(&mut self, _record: &RuntimeRecord) -> Result<RuntimeProbe, ()> {
        self.probed += 1;
        self.answers.remove(0)
    }
}

#[test]
fn codex_profile_changes_require_every_codex_runtime_absent() {
    let mut opencode_record = record(None, None);
    opencode_record.provider = ProviderKind::OpenCode;
    let mut opencode = overview(false, Some(opencode_record.clone()));
    opencode.provider = ProviderKind::OpenCode;
    let mut probe = ScriptedProbe { answers: Vec::new(), probed: 0 };
    assert!(no_live_codex_runtime(&vec![opencode.clone(), overview(false, None)], &mut probe));
    assert_eq!(probe.probed, 0);

    let mut probe = ScriptedProbe { answers: vec![Ok(RuntimeProbe::Missing)], probed: 0 };
    assert!(no_live_codex_runtime(&vec![overview(false, Some(record(None, None)))], &mut probe));

    let mut probe = ScriptedProbe {
        answers: vec![Ok(live(42, "/disposable/repository", "birth"))],
        probed: 0,
    };
    assert!(!no_live_codex_runtime(&vec![overview(false, Some(record(None, None)))], &mut probe));

    let mut probe = ScriptedProbe { answers: vec![Err(())], probed: 0 };
    assert!(!no_live_codex_runtime(&vec![overview(false, Some(record(None, None)))], &mut probe));

    let mut probe = ScriptedProbe { answers: Vec::new(), probed: 0 };
    assert!(!no_live_codex_runtime(&vec![overview(false, Some(opencode_record))], &mut probe));
    assert_eq!(probe.probed, 0);

    assert!(runtime_probe_shows_absent(&Ok(RuntimeProbe::Missing)));
    assert!(!runtime_probe_shows_absent(&Ok(RuntimeProbe::Unknown {
        diagnostic: "tmux".to_owned()
    })));
}

#[test]
fn fresh_identities_are_version_four_uuids() {
    for text in [WorkstreamId::new().text(), RuntimeId::new().text()] {
        let characters: Vec<char> = text.chars().collect();
        assert_eq!(characters.len(), 36);
        assert_eq!(characters[14], '4');
        assert!(matches!(characters[19], '8' | '9' | 'a' | 'b'));
    }
    assert_ne!(WorkstreamId::new(), WorkstreamId::new());
}

#[test]
fn a_hook_is_attributed_only_to_its_one_exact_runtime() {
    let a = record(Some(41), Some("birth-a"));
    let b = record(Some(42), Some("birth-b"));
    let cwd = "/disposable/repository";
    assert!(hook_candidate_needs_probe(&a, cwd));
    assert!(!hook_candidate_needs_probe(&a, "/elsewhere"));
    let probe_a = Ok(live(41, cwd, "birth-a"));
    assert!(hook_candidate_needs_direct_check(&a, cwd, &probe_a));
    assert!(!hook_candidate_needs_direct_check(&a, cwd, &Ok(live(41, cwd, "reused"))));
    let records = vec![a.clone(), b.clone()];
    let one = vec![
        HookEvidence { probe: Ok(live(41, cwd, "birth-a")), direct_hook: true },
        HookEvidence { probe: Ok(live(42, cwd, "birth-b")), direct_hook: false },
    ];
    assert_eq!(select_hook_runtime(&records, cwd, &one), Some(0));
    let both = vec![
        HookEvidence { probe: Ok(live(41, cwd, "birth-a")), direct_hook: true },
        HookEvidence { probe: Ok(live(42, cwd, "birth-b")), direct_hook: true },
    ];
    assert_eq!(select_hook_runtime(&records, cwd, &both), None);
    let none = vec![
        HookEvidence { probe: Err(()), direct_hook: true },
        HookEvidence { probe: Ok(RuntimeProbe::Missing), direct_hook: true },
    ];
    assert_eq!(select_hook_runtime(&records, cwd, &none), None);
    assert_eq!(select_hook_runtime(&records, "/elsewhere", &one), None);
}

#[test]
fn each_failed_launch_effect_has_its_cleanup() {
    assert_eq!(launch_failure_cleanup(OpenCodeLaunchEffect::Prepare), LaunchFailureCleanup::Nothing);
    assert_eq!(
        launch_failure_cleanup(OpenCodeLaunchEffect::ProbeRuntime),
        LaunchFailureCleanup::UnidentifiedLaunch
    );
    assert_eq!(
        launch_failure_cleanup(OpenCodeLaunchEffect::ProveProcessGroup),
        LaunchFailureCleanup::StopProcessInstanceAndRequireRecovery
    );
    assert_eq!(
        launch_failure_cleanup(OpenCodeLaunchEffect::WaitForProvider),
        LaunchFailureCleanup::ParkAndStopProvider
    );
    let mut effect = OpenCodeLaunchEffect::Prepare;
    let mut steps = 1;
    while let Some(next) = next_launch_effect(effect) {
        effect = next;
        steps += 1;
    }
    assert_eq!(effect, OpenCodeLaunchEffect::SpawnObserver);
    assert_eq!(steps, 9);
}

fn opencode_record(status: RuntimeStatus, process_birth: Option<&str>) -> RuntimeRecord {
    let mut runtime = record(Some(1), process_birth);
    runtime.provider = ProviderKind::OpenCode;
    runtime.status = status;
    runtime
}

#[test]
fn an_unresolved_opencode_session_creation_blocks_a_new_start() {
    let idle = opencode_record(RuntimeStatus::Idle, None);
    assert_eq!(
        prior_opencode_step(&idle, &RuntimeProbe::Missing, true),
        Ok(PriorOpenCodeStep::MarkRecoveryRequiredThenRefuse)
    );
    let unknown = opencode_record(RuntimeStatus::Unknown, None);
    assert_eq!(
        prior_opencode_step(&unknown, &RuntimeProbe::Missing, true),
        Err(ActionError::ProviderRecoveryUnavailable(ProviderKind::OpenCode))
    );
    let launched = opencode_record(RuntimeStatus::Idle, Some("birth-a"));
    assert_eq!(
        prior_opencode_step(&launched, &RuntimeProbe::Missing, false),
        Ok(PriorOpenCodeStep::MarkRecoveryRequiredThenRefuse)
    );
    assert_eq!(
        prior_opencode_step(&idle, &RuntimeProbe::Missing, false),
        Ok(PriorOpenCodeStep::MarkStoppedThenReady)
    );
    let stopped = opencode_record(RuntimeStatus::Stopped, Some("birth-a"));
    assert_eq!(
        prior_opencode_step(&stopped, &RuntimeProbe::Missing, false),
        Ok(PriorOpenCodeStep::Ready)
    );
    let exact = live(1, "/disposable/repository", "birth-a");
    assert_eq!(
        prior_opencode_step(&launched, &exact, true),
        Ok(PriorOpenCodeStep::ValidateLive)
    );
    let foreign = live(2, "/disposable/repository", "birth-b");
    assert_eq!(
        prior_opencode_step(&launched, &foreign, false),
        Err(ActionError::RuntimeProbeAmbiguous)
    );
    assert!(prior_opencode_handle_unknown(&launched, &foreign));
    assert!(!prior_opencode_handle_unknown(&launched, &exact));
    assert!(!prior_opencode_handle_unknown(&launched, &RuntimeProbe::Missing));
    assert!(!prior_opencode_handle_unknown(&record(Some(1), Some("birth-a")), &foreign));
}

#[test]
fn lifecycle_actions_without_a_runtime_or_recovery_need_are_refused() {
    let workstream_id = WorkstreamId::from_u128(7);
    assert_eq!(
        require_runtime(workstream_id, None),
        Err(ActionError::NoRuntime(workstream_id))
    );
    let runtime = record(Some(1), Some("birth-a"));
    assert_eq!(require_runtime(workstream_id, Some(runtime.clone())), Ok(runtime));

    let open = overview(false, None);
    assert_eq!(
        recovery_gate(&open, Some(open.revision)),
        Err(ActionError::NativeRecoveryUnavailable)
    );
    let mut open_opencode = overview(false, None);
    open_opencode.provider = ProviderKind::OpenCode;
    assert_eq!(
        recovery_gate(&open_opencode, None),
        Err(ActionError::ProviderRecoveryUnavailable(ProviderKind::OpenCode))
    );
    let mut needs_recovery = overview(false, None);
    needs_recovery.lifecycle = WorkstreamLifecycle::RecoveryRequired;
    assert_eq!(recovery_gate(&needs_recovery, Some(needs_recovery.revision)), Ok(()));
    assert_eq!(
        recovery_gate(&needs_recovery, Some(Revision::initial().next())),
        Err(ActionError::WorkstreamRevisionConflict)
    );
    assert_eq!(
        start_gate(&needs_recovery, None),
        Err(ActionError::NativeRecoveryRequired)
    );
    assert_eq!(start_gate(&open, None), Ok(()));
}
