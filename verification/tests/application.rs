use wsnav::actions::ActionError;
use wsnav::application::{
    ActionFailureReason, ApplicationError, AttachEvidence, AttachOutcome, AttentionSnapshot,
    Authority, BrowserEntry, LocationSnapshot, ObserverIntent, ObserverReadiness,
    ObserverReadinessEvidence, OperationSnapshot, ProjectBrowserSnapshot, ProjectSnapshotInput,
    ProviderCapability, ProviderCapabilityReason, ProviderCapabilityStatus, SnapshotEntity,
    SnapshotInput, SnapshotLimitKind, SnapshotLimits, WorkstreamSnapshotInput, map_action_error,
    map_state_error,
};
use wsnav::browser::{BrowserListing, BrowserPath, BrowserRootPath, validate_and_sort_browser_listing};
use wsnav::domain::{
    OperationKind, OperationPhase, ProviderKind, Revision, RuntimeStatus, WorkstreamLifecycle,
};
use wsnav::facade::{
    ApplicationAction, ApplicationOutcome, ApplyEvent, ApplyStage, LocalApplication,
    LocalApplicationBackend, apply_start, apply_step, check_attach_outcome, constrain_codex_capability,
    snapshot_from_read, derived_host_label, observer_gate_outcome, readiness_gate,
};
use wsnav::ids::{HostId, LocationId, OperationId, ProjectId, WorkstreamId};
use wsnav::snapshot::build_snapshot;
use wsnav::state::{StateError, StateRecoveryReason};

#[test]
fn state_readiness_failures_remain_typed_at_the_application_boundary() {
    let authority = Authority::Snapshot;
    assert_eq!(
        map_state_error(StateError::CutoverRequired, authority),
        ApplicationError::CutoverRequired
    );
    assert_eq!(
        map_state_error(StateError::FreshStateRequired, authority),
        ApplicationError::FreshStateRequired
    );
    assert_eq!(
        map_state_error(StateError::HostStateResetRequired(11), authority),
        ApplicationError::HostStateResetRequired { schema_version: 11 }
    );
    assert_eq!(
        map_state_error(
            StateError::StateRecoveryRequired(StateRecoveryReason::MissingHostDatabase),
            authority,
        ),
        ApplicationError::StateRecoveryRequired {
            reason: StateRecoveryReason::MissingHostDatabase,
        }
    );
    assert_eq!(
        map_state_error(StateError::UnsupportedFutureHostSchema(14), authority),
        ApplicationError::UnsupportedFutureHostSchema { schema_version: 14 }
    );
}

#[test]
fn action_failures_preserve_bounded_provider_runtime_and_observer_reasons() {
    assert_eq!(
        map_action_error(ActionError::OpenCodeProviderReadinessTimeout),
        ApplicationError::ActionFailed {
            reason: ActionFailureReason::ProviderReadinessTimeout,
        }
    );
    assert_eq!(
        map_action_error(ActionError::OpenCodeObserverStartupFailed),
        ApplicationError::ActionFailed {
            reason: ActionFailureReason::OpenCodeObserverStartupFailed,
        }
    );
    assert_eq!(
        map_action_error(ActionError::OpenCodeObserverReadinessTimeout),
        ApplicationError::ActionFailed {
            reason: ActionFailureReason::OpenCodeObserverReadinessTimeout,
        }
    );
    assert_eq!(
        map_action_error(ActionError::OpenCodeObserverIdentityChanged),
        ApplicationError::ActionFailed {
            reason: ActionFailureReason::OpenCodeObserverIdentityChanged,
        }
    );
    assert_eq!(
        map_action_error(ActionError::OpenCodeObserverExitedBeforeReady),
        ApplicationError::ActionFailed {
            reason: ActionFailureReason::OpenCodeObserverExitedBeforeReady,
        }
    );
    assert_eq!(
        map_action_error(ActionError::RuntimeProbeAmbiguous),
        ApplicationError::ActionFailed {
            reason: ActionFailureReason::RuntimeEvidenceAmbiguous,
        }
    );
    assert_eq!(
        map_action_error(ActionError::NativeRecoveryRequired),
        ApplicationError::ActionAuthorityFailed
    );
    assert_eq!(
        map_action_error(ActionError::State(StateError::ProviderIdentityMismatch)),
        ApplicationError::ProviderIdentityMismatch
    );
}

#[test]
fn other_state_failures_become_the_requesting_authority_failure() {
    assert_eq!(
        map_state_error(StateError::RevisionConflict, Authority::Snapshot),
        ApplicationError::SnapshotAuthorityFailed
    );
    assert_eq!(
        map_state_error(StateError::Storage, Authority::Attachment),
        ApplicationError::AttachmentAuthorityFailed
    );
    assert_eq!(
        map_action_error(ActionError::State(StateError::UnknownRuntime)),
        ApplicationError::ActionAuthorityFailed
    );
}

fn revision() -> Revision {
    Revision::initial()
}

fn location(project: u128, id: u128, label: bool) -> LocationSnapshot {
    LocationSnapshot {
        project_id: ProjectId::from_u128(project),
        location_id: LocationId::from_u128(id),
        display_name: format!("checkout-{id}"),
        revision: revision(),
        repository_fingerprint: None,
        origin_display: None,
        is_label_source: label,
    }
}

fn project(id: u128, label: u128, locations: Vec<LocationSnapshot>) -> ProjectSnapshotInput {
    ProjectSnapshotInput {
        project_id: ProjectId::from_u128(id),
        display_name: format!("project-{id}"),
        revision: revision(),
        label_location_id: LocationId::from_u128(label),
        repository_fingerprint: Some("fingerprint".to_owned()),
        origin_display: None,
        locations,
    }
}

fn workstream(project: u128, location: u128, id: u128, sequence: i64, archived: bool) -> WorkstreamSnapshotInput {
    WorkstreamSnapshotInput {
        project_id: ProjectId::from_u128(project),
        location_id: LocationId::from_u128(location),
        workstream_id: WorkstreamId::from_u128(id),
        provider: ProviderKind::Codex,
        lifecycle: WorkstreamLifecycle::Open,
        archived,
        last_activity_sequence: sequence,
        last_activity_at_millis: Some(1),
        revision: revision(),
        runtime: None,
        attention: AttentionSnapshot {
            result_unseen: false,
            recovery_unseen: false,
            revision: revision(),
        },
        native_name: None,
    }
}

fn available(provider: ProviderKind) -> ProviderCapability {
    ProviderCapability {
        provider,
        status: ProviderCapabilityStatus::Available,
        reason: None,
        fresh_launch: true,
        exact_resume: true,
        observe: true,
        metadata_read: true,
        navigator_rename: true,
        fork: true,
    }
}

fn input() -> SnapshotInput {
    SnapshotInput {
        projects: vec![
            project(2, 21, vec![location(2, 22, false), location(2, 21, true)]),
            project(1, 11, vec![location(1, 11, true)]),
        ],
        workstreams: vec![
            workstream(1, 11, 100, 5, false),
            workstream(2, 21, 200, 9, false),
            workstream(2, 22, 201, 3, false),
            workstream(1, 11, 101, 7, true),
        ],
        unresolved_operations: vec![
            OperationSnapshot {
                operation_id: OperationId::from_u128(9),
                kind: OperationKind::Fork,
                provider: ProviderKind::Codex,
                source_workstream_id: Some(WorkstreamId::from_u128(100)),
                phase: OperationPhase::Prepared,
                revision: revision(),
            },
            OperationSnapshot {
                operation_id: OperationId::from_u128(3),
                kind: OperationKind::IndependentCreation,
                provider: ProviderKind::OpenCode,
                source_workstream_id: None,
                phase: OperationPhase::EffectStarted,
                revision: revision(),
            },
        ],
        observer_readiness: ObserverReadinessEvidence {
            readiness: ObserverReadiness::Ready,
            integration_revision: Some(revision()),
        },
        project_browser: ProjectBrowserSnapshot {
            root_label: "~/src".to_owned(),
            revision: revision(),
        },
        provider_capabilities: vec![available(ProviderKind::OpenCode), available(ProviderKind::Codex)],
    }
}

#[test]
fn snapshot_orders_projects_groups_and_rows_deterministically() {
    let snapshot = build_snapshot(HostId::from_u128(1), Some("devbox"), input(), SnapshotLimits::production())
        .expect("valid input");
    assert_eq!(snapshot.host_display, "devbox");
    let project_ids: Vec<u128> = snapshot.projects.iter().map(|p| p.project_id.value).collect();
    assert_eq!(project_ids, vec![1, 2]);
    let locations: Vec<u128> = snapshot.projects[1].locations.iter().map(|l| l.location_id.value).collect();
    assert_eq!(locations, vec![21, 22]);
    let groups: Vec<(u128, i64)> = snapshot
        .active_project_groups
        .iter()
        .map(|g| (g.project_id.value, g.max_activity_sequence))
        .collect();
    assert_eq!(groups, vec![(2, 9), (1, 5)]);
    let active: Vec<u128> = snapshot.active_workstreams().iter().map(|w| w.workstream_id.value).collect();
    assert_eq!(active, vec![200, 201, 100]);
    let archived: Vec<u128> = snapshot.archived_workstreams().iter().map(|w| w.workstream_id.value).collect();
    assert_eq!(archived, vec![101]);
    let operations: Vec<u128> = snapshot.unresolved_operations.iter().map(|o| o.operation_id.value).collect();
    assert_eq!(operations, vec![3, 9]);
    let providers: Vec<ProviderKind> = snapshot.provider_capabilities.iter().map(|c| c.provider).collect();
    assert_eq!(providers, vec![ProviderKind::Codex, ProviderKind::OpenCode]);
}

#[test]
fn snapshot_bounds_are_checked_in_order() {
    let limits = SnapshotLimits::new(1, 512, 128, 128, 8);
    assert_eq!(
        build_snapshot(HostId::from_u128(1), None, input(), limits),
        Err(ApplicationError::SnapshotOverLimit {
            kind: SnapshotLimitKind::Projects,
            limit: 1
        })
    );
    let limits = SnapshotLimits::new(128, 2, 128, 128, 8);
    assert_eq!(
        build_snapshot(HostId::from_u128(1), None, input(), limits),
        Err(ApplicationError::SnapshotOverLimit {
            kind: SnapshotLimitKind::Locations,
            limit: 2
        })
    );
    let mut bad_label = input();
    bad_label.project_browser.root_label = String::new();
    assert_eq!(
        build_snapshot(HostId::from_u128(1), None, bad_label, SnapshotLimits::production()),
        Err(ApplicationError::InvalidSnapshotEntity {
            entity: SnapshotEntity::DisplayText
        })
    );
}

#[test]
fn snapshot_refuses_inconsistent_rows() {
    let mut duplicate = input();
    duplicate.workstreams.push(workstream(1, 11, 100, 1, false));
    assert_eq!(
        build_snapshot(HostId::from_u128(1), None, duplicate, SnapshotLimits::production()),
        Err(ApplicationError::DuplicateSnapshotIdentity {
            entity: SnapshotEntity::Workstream
        })
    );
    let mut mismatch = input();
    mismatch.workstreams.push(workstream(1, 22, 300, 1, false));
    assert_eq!(
        build_snapshot(HostId::from_u128(1), None, mismatch, SnapshotLimits::production()),
        Err(ApplicationError::WorkstreamProjectMismatch(WorkstreamId::from_u128(300)))
    );
    let mut terminal = input();
    terminal.unresolved_operations[1].phase = OperationPhase::Committed;
    assert_eq!(
        build_snapshot(HostId::from_u128(1), None, terminal, SnapshotLimits::production()),
        Err(ApplicationError::TerminalOperation(OperationId::from_u128(3)))
    );
    let mut missing = input();
    missing.provider_capabilities.remove(1);
    assert_eq!(
        build_snapshot(HostId::from_u128(1), None, missing, SnapshotLimits::production()),
        Err(ApplicationError::MissingProviderCapability(ProviderKind::Codex))
    );
    let mut repeated = input();
    repeated.provider_capabilities.push(available(ProviderKind::OpenCode));
    assert_eq!(
        build_snapshot(HostId::from_u128(1), None, repeated, SnapshotLimits::production()),
        Err(ApplicationError::DuplicateProviderCapability(ProviderKind::OpenCode))
    );
    let mut no_label = input();
    no_label.projects[1].locations[0].is_label_source = false;
    assert_eq!(
        build_snapshot(HostId::from_u128(1), None, no_label, SnapshotLimits::production()),
        Err(ApplicationError::InvalidSnapshotEntity {
            entity: SnapshotEntity::Location
        })
    );
    let mut unknown = input();
    unknown.workstreams.push(workstream(7, 11, 301, 1, false));
    assert_eq!(
        build_snapshot(HostId::from_u128(1), None, unknown, SnapshotLimits::production()),
        Err(ApplicationError::UnknownSnapshotProject(ProjectId::from_u128(7)))
    );
}

#[test]
fn host_label_falls_back_to_the_host_identity() {
    let host = HostId::from_u128(0x0123_4567_89ab_cdef_0000_0000_0000_0000);
    assert_eq!(derived_host_label(host, Some("  devbox  ")), "devbox");
    assert_eq!(derived_host_label(host, None), "host-01234567");
    assert_eq!(derived_host_label(host, Some("   ")), "host-01234567");
    assert_eq!(derived_host_label(host, Some("line\u{2028}break")), "host-01234567");
    let long = "x".repeat(65);
    assert_eq!(derived_host_label(host, Some(long.as_str())), "host-01234567");
    let exact = "y".repeat(64);
    assert_eq!(derived_host_label(host, Some(exact.as_str())), exact);
}

#[test]
fn browser_paths_refuse_traversal_and_unsafe_text() {
    assert_eq!(BrowserPath::root().as_str(), "");
    assert_eq!(BrowserPath::new("src/app".to_owned()).unwrap().as_str(), "src/app");
    for bad in ["/abs", "a//b", "a/", "./a", "a/..", "a\\b", "a\u{0}b", "..", "."] {
        assert_eq!(
            BrowserPath::new(bad.to_owned()),
            Err(ApplicationError::InvalidBrowserPath),
            "{bad:?}"
        );
    }
    assert_eq!(BrowserPath::new("a/.hidden/..b".to_owned()).unwrap().as_str(), "a/.hidden/..b");
    assert_eq!(BrowserRootPath::new("/".to_owned()).unwrap().as_str(), "/");
    assert_eq!(BrowserRootPath::new("/home/me".to_owned()).unwrap().as_str(), "/home/me");
    for bad in ["", "relative", "/home/", "/home//me", "/home/./me", "/home/.."] {
        assert_eq!(
            BrowserRootPath::new(bad.to_owned()),
            Err(ApplicationError::InvalidBrowserPath),
            "{bad:?}"
        );
    }
}

fn entry(name: &str, git: bool) -> BrowserEntry {
    BrowserEntry {
        name: name.to_owned(),
        is_git_repository: git,
    }
}

#[test]
fn browser_listing_puts_repositories_and_hidden_entries_first() {
    let mut listing = BrowserListing {
        root_label: "~".to_owned(),
        relative_path: BrowserPath::root(),
        include_hidden: true,
        entries: vec![
            entry("beta", false),
            entry(".config", false),
            entry("Alpha", false),
            entry("repo", true),
            entry("alpha", false),
        ],
        revision: Revision::initial(),
    };
    validate_and_sort_browser_listing(&mut listing).unwrap();
    let names: Vec<&str> = listing.entries.iter().map(|e| e.name.as_str()).collect();
    assert_eq!(names, vec!["repo", ".config", "Alpha", "alpha", "beta"]);

    let mut refused = listing.clone();
    refused.entries.push(entry("a/b", false));
    let before = refused.clone();
    assert_eq!(
        validate_and_sort_browser_listing(&mut refused),
        Err(ApplicationError::InvalidBrowserListing)
    );
    assert_eq!(refused, before);
}

#[test]
fn unready_observer_removes_available_codex_capability() {
    let rows = vec![available(ProviderKind::Codex), available(ProviderKind::OpenCode)];
    let constrained = constrain_codex_capability(rows.clone(), ObserverReadiness::SetupRequired);
    assert_eq!(constrained[0].status, ProviderCapabilityStatus::Unavailable);
    assert_eq!(
        constrained[0].reason,
        Some(ProviderCapabilityReason::ObserverNotReady)
    );
    assert!(!constrained[0].fresh_launch);
    assert_eq!(constrained[1], rows[1]);
    assert_eq!(constrain_codex_capability(constrained.clone(), ObserverReadiness::SetupRequired), constrained);
    assert_eq!(constrain_codex_capability(rows.clone(), ObserverReadiness::Ready), rows);
}

struct FakeBackend {
    readiness: ObserverReadiness,
    applied: usize,
    attach_runtime: u128,
}

impl LocalApplicationBackend for FakeBackend {
    fn read_snapshot(&self) -> Result<SnapshotInput, ApplicationError> {
        Ok(input())
    }

    fn observer_readiness(&self) -> Result<ObserverReadinessEvidence, ApplicationError> {
        Ok(ObserverReadinessEvidence {
            readiness: self.readiness,
            integration_revision: None,
        })
    }

    fn apply(&mut self, action: &ApplicationAction) -> Result<ApplicationOutcome, ApplicationError> {
        self.applied += 1;
        match action {
            ApplicationAction::ListProjectBrowser { relative_path, include_hidden } => {
                Ok(ApplicationOutcome::BrowserListed(BrowserListing {
                    root_label: "~".to_owned(),
                    relative_path: relative_path.clone(),
                    include_hidden: *include_hidden,
                    entries: vec![entry("b", false), entry("a", false)],
                    revision: Revision::initial(),
                }))
            }
            _ => Ok(ApplicationOutcome::ProjectRefreshed {
                project_id: ProjectId::from_u128(1),
                revision: Revision::initial(),
            }),
        }
    }

    fn attach(&mut self, evidence: &AttachEvidence) -> Result<AttachOutcome, ApplicationError> {
        Ok(AttachOutcome {
            workstream_id: evidence.workstream_id,
            runtime_id: wsnav::ids::RuntimeId::from_u128(self.attach_runtime),
        })
    }
}

fn start_codex() -> ApplicationAction {
    ApplicationAction::Start {
        workstream_id: WorkstreamId::from_u128(5),
        expected_revision: Revision::initial(),
        provider: ProviderKind::Codex,
    }
}

#[test]
fn facade_guides_before_any_observer_dependent_mutation() {
    let backend = FakeBackend {
        readiness: ObserverReadiness::SetupRequired,
        applied: 0,
        attach_runtime: 1,
    };
    let mut app = LocalApplication::with_hostname(backend, HostId::from_u128(1), Some("devbox"));
    match app.apply(start_codex()).unwrap() {
        ApplicationOutcome::ObserverReadinessRequired(guide) => {
            assert!(guide.explicit_interactive_consent_required);
            assert!(guide.native_trust_review_required);
            assert!(matches!(guide.intent, ObserverIntent::Start { .. }));
        }
        other => panic!("unexpected {other:?}"),
    }
    assert_eq!(app.backend().applied, 0);
    app.backend_mut().readiness = ObserverReadiness::Disabled;
    assert_eq!(
        app.apply(start_codex()),
        Err(ApplicationError::ObserverUnavailable {
            readiness: ObserverReadiness::Disabled
        })
    );
    app.backend_mut().readiness = ObserverReadiness::Ready;
    assert!(app.apply(start_codex()).is_ok());
    assert_eq!(app.backend().applied, 1);
    assert_eq!(app.host_display(), "devbox");
    assert!(app.snapshot().is_ok());
}

#[test]
fn facade_sorts_listings_refuses_bad_names_and_checks_attachment() {
    let backend = FakeBackend {
        readiness: ObserverReadiness::Ready,
        applied: 0,
        attach_runtime: 2,
    };
    let mut app = LocalApplication::new(backend, HostId::from_u128(1), None);
    let listed = app
        .apply(ApplicationAction::ListProjectBrowser {
            relative_path: BrowserPath::root(),
            include_hidden: false,
        })
        .unwrap();
    match listed {
        ApplicationOutcome::BrowserListed(listing) => {
            let names: Vec<&str> = listing.entries.iter().map(|e| e.name.as_str()).collect();
            assert_eq!(names, vec!["a", "b"]);
        }
        other => panic!("unexpected {other:?}"),
    }
    assert_eq!(
        app.apply(ApplicationAction::Rename {
            workstream_id: WorkstreamId::from_u128(5),
            expected_revision: Revision::initial(),
            name: String::new(),
        }),
        Err(ApplicationError::InvalidSnapshotEntity {
            entity: SnapshotEntity::NativeName
        })
    );
    let evidence = AttachEvidence {
        workstream_id: WorkstreamId::from_u128(5),
        runtime_id: wsnav::ids::RuntimeId::from_u128(1),
        expected_workstream_revision: Revision::initial(),
        expected_runtime_revision: Revision::initial(),
    };
    assert_eq!(app.attach(evidence), Err(ApplicationError::AttachmentEvidenceMismatch));
}

#[test]
fn readiness_gate_lets_only_ready_evidence_through() {
    let intent = ObserverIntent::RegisterLocation {
        expected_browser_revision: Revision::initial(),
        provider: ProviderKind::Codex,
    };
    let ready = ObserverReadinessEvidence {
        readiness: ObserverReadiness::Ready,
        integration_revision: Some(Revision::initial()),
    };
    assert_eq!(readiness_gate(ready, intent), Ok(None));
    let review = ObserverReadinessEvidence {
        readiness: ObserverReadiness::TrustReviewRequired,
        integration_revision: Some(Revision::initial()),
    };
    assert!(matches!(readiness_gate(review, intent), Ok(Some(_))));
    let foreign = ObserverReadinessEvidence {
        readiness: ObserverReadiness::Foreign,
        integration_revision: None,
    };
    assert_eq!(
        readiness_gate(foreign, intent),
        Err(ApplicationError::ObserverUnavailable {
            readiness: ObserverReadiness::Foreign
        })
    );
}

#[test]
fn project_locations_are_checked_in_identity_order() {
    let mut first_invalid = input();
    let mut unnamed = location(2, 22, false);
    unnamed.display_name = String::new();
    first_invalid.projects[0] = project(2, 21, vec![unnamed, location(3, 21, true)]);
    assert_eq!(
        build_snapshot(HostId::from_u128(1), None, first_invalid, SnapshotLimits::production()),
        Err(ApplicationError::LocationProjectMismatch(LocationId::from_u128(21)))
    );
    let mut duplicated = input();
    let mut renamed = location(2, 21, false);
    renamed.display_name = String::new();
    duplicated.projects[0] = project(2, 21, vec![location(2, 22, false), location(2, 21, true), renamed]);
    assert_eq!(
        build_snapshot(HostId::from_u128(1), None, duplicated, SnapshotLimits::production()),
        Err(ApplicationError::DuplicateSnapshotIdentity { entity: SnapshotEntity::Location })
    );
}

#[test]
fn the_observer_gate_answers_before_any_effect() {
    let intent = ObserverIntent::RegisterLocation {
        expected_browser_revision: Revision::initial(),
        provider: ProviderKind::Codex,
    };
    let setup = ObserverReadinessEvidence {
        readiness: ObserverReadiness::SetupRequired,
        integration_revision: None,
    };
    match observer_gate_outcome(Ok(setup), intent) {
        Ok(Some(ApplicationOutcome::ObserverReadinessRequired(guide))) => {
            assert_eq!(guide.intent, intent);
            assert_eq!(guide.evidence, setup);
            assert!(guide.explicit_interactive_consent_required);
        }
        other => panic!("unexpected gate {:?}", other),
    }
    let ready = ObserverReadinessEvidence {
        readiness: ObserverReadiness::Ready,
        integration_revision: Some(Revision::initial()),
    };
    assert_eq!(observer_gate_outcome(Ok(ready), intent), Ok(None));
    assert_eq!(
        observer_gate_outcome(Err(ApplicationError::SnapshotAuthorityFailed), intent),
        Err(ApplicationError::SnapshotAuthorityFailed)
    );
}

#[test]
fn apply_steps_reach_the_backend_only_after_a_ready_observer() {
    let intent = ObserverIntent::Start {
        workstream_id: WorkstreamId::from_u128(5),
        expected_revision: Revision::initial(),
        provider: ProviderKind::Codex,
    };
    assert_eq!(apply_start(&start_codex()), ApplyStage::AwaitReadiness(intent));
    let refresh = ApplicationAction::Park {
        workstream_id: WorkstreamId::from_u128(5),
        expected_revision: Revision::initial(),
    };
    assert_eq!(apply_start(&refresh), ApplyStage::AwaitOutcome);
    let opencode_start = ApplicationAction::Start {
        workstream_id: WorkstreamId::from_u128(5),
        expected_revision: Revision::initial(),
        provider: ProviderKind::OpenCode,
    };
    assert_eq!(apply_start(&opencode_start), ApplyStage::AwaitOutcome);
    let unnamed = ApplicationAction::Rename {
        workstream_id: WorkstreamId::from_u128(5),
        expected_revision: Revision::initial(),
        name: String::new(),
    };
    assert_eq!(
        apply_start(&unnamed),
        ApplyStage::Finished(Err(ApplicationError::InvalidSnapshotEntity {
            entity: SnapshotEntity::NativeName
        }))
    );

    let ready = ObserverReadinessEvidence {
        readiness: ObserverReadiness::Ready,
        integration_revision: Some(Revision::initial()),
    };
    assert_eq!(
        apply_step(ApplyStage::AwaitReadiness(intent), ApplyEvent::Readiness(Ok(ready))),
        ApplyStage::AwaitOutcome
    );
    let disabled = ObserverReadinessEvidence {
        readiness: ObserverReadiness::Disabled,
        integration_revision: None,
    };
    assert_eq!(
        apply_step(ApplyStage::AwaitReadiness(intent), ApplyEvent::Readiness(Ok(disabled))),
        ApplyStage::Finished(Err(ApplicationError::ObserverUnavailable {
            readiness: ObserverReadiness::Disabled
        }))
    );
    let setup = ObserverReadinessEvidence {
        readiness: ObserverReadiness::SetupRequired,
        integration_revision: None,
    };
    match apply_step(ApplyStage::AwaitReadiness(intent), ApplyEvent::Readiness(Ok(setup))) {
        ApplyStage::Finished(Ok(ApplicationOutcome::ObserverReadinessRequired(guide))) => {
            assert_eq!(guide.intent, intent);
            assert_eq!(guide.evidence, setup);
        }
        other => panic!("unexpected stage {other:?}"),
    }
    assert_eq!(
        apply_step(
            ApplyStage::AwaitReadiness(intent),
            ApplyEvent::Readiness(Err(ApplicationError::ActionAuthorityFailed))
        ),
        ApplyStage::Finished(Err(ApplicationError::ActionAuthorityFailed))
    );
    let refreshed = ApplicationOutcome::ProjectRefreshed {
        project_id: ProjectId::from_u128(1),
        revision: Revision::initial(),
    };
    assert_eq!(
        apply_step(ApplyStage::AwaitReadiness(intent), ApplyEvent::Outcome(Ok(refreshed.clone()))),
        ApplyStage::AwaitReadiness(intent)
    );
    assert_eq!(
        apply_step(ApplyStage::AwaitOutcome, ApplyEvent::Outcome(Ok(refreshed.clone()))),
        ApplyStage::Finished(Ok(refreshed.clone()))
    );
    assert_eq!(
        apply_step(ApplyStage::AwaitOutcome, ApplyEvent::Readiness(Ok(ready))),
        ApplyStage::AwaitOutcome
    );
    let listing = ApplicationOutcome::BrowserListed(BrowserListing {
        root_label: "~".to_owned(),
        relative_path: BrowserPath::root(),
        include_hidden: false,
        entries: vec![entry("b", false), entry("a", false)],
        revision: Revision::initial(),
    });
    match apply_step(ApplyStage::AwaitOutcome, ApplyEvent::Outcome(Ok(listing))) {
        ApplyStage::Finished(Ok(ApplicationOutcome::BrowserListed(sorted))) => {
            let names: Vec<&str> = sorted.entries.iter().map(|e| e.name.as_str()).collect();
            assert_eq!(names, vec!["a", "b"]);
        }
        other => panic!("unexpected stage {other:?}"),
    }
    let finished = ApplyStage::Finished(Err(ApplicationError::ActionAuthorityFailed));
    assert_eq!(
        apply_step(finished, ApplyEvent::Outcome(Ok(refreshed))),
        ApplyStage::Finished(Err(ApplicationError::ActionAuthorityFailed))
    );
}

#[test]
fn an_invalid_or_refused_action_leaves_the_backend_untouched() {
    let backend = FakeBackend {
        readiness: ObserverReadiness::Foreign,
        applied: 0,
        attach_runtime: 1,
    };
    let mut app = LocalApplication::new(backend, HostId::from_u128(1), None);
    assert!(app
        .apply(ApplicationAction::Rename {
            workstream_id: WorkstreamId::from_u128(5),
            expected_revision: Revision::initial(),
            name: String::new(),
        })
        .is_err());
    assert_eq!(
        app.apply(start_codex()),
        Err(ApplicationError::ObserverUnavailable {
            readiness: ObserverReadiness::Foreign
        })
    );
    assert_eq!(app.backend().applied, 0);
    assert!(app
        .apply(ApplicationAction::Park {
            workstream_id: WorkstreamId::from_u128(5),
            expected_revision: Revision::initial(),
        })
        .is_ok());
    assert_eq!(app.backend().applied, 1);
}

#[test]
fn backend_errors_pass_through_the_facade_unchanged() {
    let evidence = AttachEvidence {
        workstream_id: WorkstreamId::from_u128(5),
        runtime_id: wsnav::ids::RuntimeId::from_u128(1),
        expected_workstream_revision: Revision::initial(),
        expected_runtime_revision: Revision::initial(),
    };
    assert_eq!(
        check_attach_outcome(evidence, Err(ApplicationError::ActionAuthorityFailed)),
        Err(ApplicationError::ActionAuthorityFailed)
    );
    let exact = AttachOutcome {
        workstream_id: WorkstreamId::from_u128(5),
        runtime_id: wsnav::ids::RuntimeId::from_u128(1),
    };
    assert_eq!(check_attach_outcome(evidence, Ok(exact)), Ok(exact));
    let other = AttachOutcome {
        workstream_id: WorkstreamId::from_u128(5),
        runtime_id: wsnav::ids::RuntimeId::from_u128(2),
    };
    assert_eq!(
        check_attach_outcome(evidence, Ok(other)),
        Err(ApplicationError::AttachmentEvidenceMismatch)
    );
    assert_eq!(
        snapshot_from_read(
            HostId::from_u128(1),
            None,
            Err(ApplicationError::SnapshotAuthorityFailed),
            SnapshotLimits::production()
        ),
        Err(ApplicationError::SnapshotAuthorityFailed)
    );
    assert_eq!(
        snapshot_from_read(HostId::from_u128(1), Some("devbox"), Ok(input()), SnapshotLimits::production()),
        build_snapshot(HostId::from_u128(1), Some("devbox"), input(), SnapshotLimits::production())
    );
}

#[test]
fn host_identities_parse_in_every_uuid_spelling() {
    let hyphenated = HostId::parse("67e55044-10b1-426f-9247-bb680e5fe0c8").unwrap();
    assert_eq!(hyphenated.value, 0x67e5504410b1426f9247bb680e5fe0c8);
    assert_eq!(HostId::parse("67E5504410B1426F9247BB680E5FE0C8"), Some(hyphenated));
    assert_eq!(
        HostId::parse("urn:uuid:67e55044-10b1-426f-9247-bb680e5fe0c8"),
        Some(hyphenated)
    );
    assert_eq!(HostId::parse("not-a-host"), None);
}
