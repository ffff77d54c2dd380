use wsnav::actions::{ProviderBinding, ProviderSessionId, RuntimeRecord};
use wsnav::application::{
    ApplicationError, AttentionSnapshot, ObserverReadiness, ObserverReadinessEvidence,
    OperationSnapshot, ProviderCapability, ProviderCapabilityStatus, RuntimeSnapshot,
    SnapshotEntity, SnapshotLimits,
};
use wsnav::domain::{
    OperationKind, OperationPhase, ProviderKind, Revision, RuntimeStatus, WorkstreamLifecycle,
};
use wsnav::ids::{HostId, LocationId, OperationId, ProjectId, RuntimeId, WorkstreamId};
use wsnav::action_authority::require_observer_available;
use wsnav::lifecycle::WorkstreamOverview;
use wsnav::snapshot::build_snapshot;
use wsnav::snapshot_source::{
    CatalogWorkstream, LocationProjection, ProjectProjection, assemble_snapshot_input,
};
use wsnav::state::AttentionState;

fn revision(value: i64) -> Revision {
    Revision::try_from_value(value).unwrap()
}

fn location(id: u128, label: bool) -> LocationProjection {
    LocationProjection {
        location_id: LocationId::from_u128(id),
        display_name: format!("location-{id}"),
        revision: revision(1),
        repository_fingerprint: Some(format!("fingerprint-{id}")),
        origin_display: None,
        is_label_source: label,
    }
}

fn project(id: u128, locations: Vec<LocationProjection>) -> ProjectProjection {
    ProjectProjection {
        project_id: ProjectId::from_u128(id),
        display_name: format!("project-{id}"),
        revision: revision(2),
        label_location_id: locations[0].location_id,
        repository_fingerprint: None,
        locations,
    }
}

fn catalog_workstream(id: u128, location: u128) -> CatalogWorkstream {
    CatalogWorkstream {
        workstream_id: WorkstreamId::from_u128(id),
        location_id: LocationId::from_u128(location),
        provider: ProviderKind::Codex,
        lifecycle: WorkstreamLifecycle::Open,
        archived_at_millis: None,
        last_activity_sequence: 5,
        last_activity_at_millis: Some(1_000),
        revision: revision(3),
        runtime: None,
        binding: None,
        attention: None,
    }
}

fn runtime(id: u128, provider: ProviderKind) -> RuntimeRecord {
    RuntimeRecord {
        runtime_id: RuntimeId::from_u128(id),
        workstream_id: WorkstreamId::from_u128(1),
        provider,
        tmux_generation: "generation".to_owned(),
        tmux_session: "session".to_owned(),
        cwd: "/repository".to_owned(),
        provider_pid: Some(42),
        process_birth: Some("birth".to_owned()),
        status: RuntimeStatus::Idle,
        revision: revision(4),
    }
}

fn binding(name: Option<&str>) -> ProviderBinding {
    ProviderBinding {
        runtime_id: RuntimeId::from_u128(9),
        runtime_generation: "generation".to_owned(),
        provider: ProviderKind::Codex,
        native_session_id: ProviderSessionId::new(ProviderKind::Codex, "thread").unwrap(),
        start_source: "create".to_owned(),
        last_settled_turn_id: None,
        observed_thread_name: name.map(str::to_owned),
        revision: revision(1),
    }
}

fn capability(provider: ProviderKind) -> ProviderCapability {
    ProviderCapability {
        provider,
        status: ProviderCapabilityStatus::Available,
        reason: None,
        fresh_launch: true,
        exact_resume: true,
        observe: true,
        metadata_read: true,
        navigator_rename: true,
        fork: true,
    }
}

fn readiness(readiness: ObserverReadiness) -> ObserverReadinessEvidence {
    ObserverReadinessEvidence {
        readiness,
        integration_revision: Some(revision(1)),
    }
}

fn operation(kind: OperationKind, source: Option<u128>, provider: ProviderKind) -> OperationSnapshot {
    OperationSnapshot {
        operation_id: OperationId::from_u128(50),
        kind,
        provider,
        source_workstream_id: source.map(WorkstreamId::from_u128),
        phase: OperationPhase::EffectUnknown,
        revision: revision(1),
    }
}

fn catalog() -> Vec<ProjectProjection> {
    vec![
        project(100, vec![location(10, true), location(11, false)]),
        project(200, vec![location(20, true)]),
    ]
}

#[test]
fn the_catalog_becomes_a_snapshot_input_under_owning_projects() {
    let mut first = catalog_workstream(1, 11);
    first.runtime = Some(runtime(7, ProviderKind::Codex));
    first.binding = Some(binding(Some("Fix the parser")));
    first.attention = Some(AttentionState {
        result_unseen_since_revision: Some(revision(2)),
        recovery_unseen_since_revision: None,
        revision: revision(6),
    });
    let mut second = catalog_workstream(2, 20);
    second.binding = Some(binding(Some("")));
    second.archived_at_millis = Some(2_000);
    let workstreams = vec![first, second];
    let operations = vec![operation(OperationKind::Fork, Some(1), ProviderKind::Codex)];
    let input = assemble_snapshot_input(
        catalog(),
        &workstreams,
        &vec![RuntimeId::from_u128(7)],
        &operations,
        readiness(ObserverReadiness::Ready),
        "~".to_owned(),
        revision(1),
        vec![capability(ProviderKind::Codex), capability(ProviderKind::OpenCode)],
    )
    .unwrap();

    assert_eq!(input.projects.len(), 2);
    assert_eq!(input.projects[0].locations.len(), 2);
    assert_eq!(input.projects[0].locations[1].project_id, ProjectId::from_u128(100));
    assert_eq!(input.projects[1].locations[0].display_name, "location-20");
    assert_eq!(input.projects[0].origin_display, None);

    let first = &input.workstreams[0];
    assert_eq!(first.project_id, ProjectId::from_u128(100));
    assert_eq!(first.native_name.as_deref(), Some("Fix the parser"));
    assert_eq!(
        first.runtime,
        Some(RuntimeSnapshot {
            runtime_id: RuntimeId::from_u128(7),
            status: RuntimeStatus::Idle,
            revision: revision(4),
            observer_degraded: true,
        })
    );
    assert_eq!(
        first.attention,
        AttentionSnapshot {
            result_unseen: true,
            recovery_unseen: false,
            revision: revision(6),
        }
    );
    let second = &input.workstreams[1];
    assert_eq!(second.project_id, ProjectId::from_u128(200));
    assert!(second.archived);
    assert_eq!(second.native_name, None);
    assert_eq!(
        second.attention,
        AttentionSnapshot {
            result_unseen: false,
            recovery_unseen: false,
            revision: Revision::initial(),
        }
    );
    assert_eq!(input.unresolved_operations, operations);
    assert_eq!(input.project_browser.root_label, "~");
    assert_eq!(input.provider_capabilities.len(), 2);

    let snapshot =
        build_snapshot(HostId::from_u128(1), Some("devbox"), input, SnapshotLimits::production())
            .unwrap();
    assert_eq!(snapshot.projects.len(), 2);
}

#[test]
fn codex_capability_is_constrained_by_observer_readiness() {
    let input = assemble_snapshot_input(
        catalog(),
        &Vec::new(),
        &Vec::new(),
        &Vec::new(),
        readiness(ObserverReadiness::SetupRequired),
        "~".to_owned(),
        revision(1),
        vec![capability(ProviderKind::Codex), capability(ProviderKind::OpenCode)],
    )
    .unwrap();
    assert_ne!(input.provider_capabilities[0].status, ProviderCapabilityStatus::Available);
    assert_eq!(input.provider_capabilities[1], capability(ProviderKind::OpenCode));
}

fn refusal(workstreams: Vec<CatalogWorkstream>, operations: Vec<OperationSnapshot>) -> ApplicationError {
    assemble_snapshot_input(
        catalog(),
        &workstreams,
        &Vec::new(),
        &operations,
        readiness(ObserverReadiness::Ready),
        "~".to_owned(),
        revision(1),
        Vec::new(),
    )
    .unwrap_err()
}

#[test]
fn unowned_or_inconsistent_catalog_rows_refuse_the_snapshot() {
    assert_eq!(
        refusal(vec![catalog_workstream(1, 99)], Vec::new()),
        ApplicationError::SnapshotAuthorityFailed
    );
    let mut mismatched = catalog_workstream(1, 10);
    mismatched.runtime = Some(runtime(7, ProviderKind::OpenCode));
    assert_eq!(
        refusal(vec![mismatched.clone(), catalog_workstream(2, 99)], Vec::new()),
        ApplicationError::ProviderIdentityMismatch
    );
    assert_eq!(
        refusal(vec![catalog_workstream(2, 99), mismatched], Vec::new()),
        ApplicationError::SnapshotAuthorityFailed
    );
    assert_eq!(
        refusal(
            vec![catalog_workstream(1, 10)],
            vec![operation(OperationKind::Fork, None, ProviderKind::Codex)]
        ),
        ApplicationError::InvalidSnapshotEntity {
            entity: SnapshotEntity::Operation
        }
    );
    assert_eq!(
        refusal(
            vec![catalog_workstream(1, 10)],
            vec![operation(OperationKind::Fork, Some(3), ProviderKind::Codex)]
        ),
        ApplicationError::UnknownLocalIdentity
    );
    assert_eq!(
        refusal(
            vec![catalog_workstream(1, 10)],
            vec![operation(OperationKind::Fork, Some(1), ProviderKind::OpenCode)]
        ),
        ApplicationError::ProviderIdentityMismatch
    );
    assert!(assemble_snapshot_input(
        catalog(),
        &vec![catalog_workstream(1, 10)],
        &Vec::new(),
        &vec![operation(OperationKind::IndependentCreation, None, ProviderKind::OpenCode)],
        readiness(ObserverReadiness::Ready),
        "~".to_owned(),
        revision(1),
        Vec::new(),
    )
    .is_ok());
}

#[test]
fn a_location_listed_twice_belongs_to_the_last_project_listing_it() {
    let projects = vec![
        project(100, vec![location(10, true)]),
        project(200, vec![location(10, true)]),
    ];
    let input = assemble_snapshot_input(
        projects,
        &vec![catalog_workstream(1, 10)],
        &Vec::new(),
        &Vec::new(),
        readiness(ObserverReadiness::Ready),
        "~".to_owned(),
        revision(1),
        Vec::new(),
    )
    .unwrap();
    assert_eq!(input.workstreams[0].project_id, ProjectId::from_u128(200));
}

/// The Runtimes whose exact current generation carries a degraded marker,
/// as the host reads them from its marker files.
fn degraded_runtime_ids(
    workstreams: &[CatalogWorkstream],
    markers: &[(RuntimeId, &str)],
) -> Vec<RuntimeId> {
    workstreams
        .iter()
        .filter_map(|workstream| workstream.runtime.as_ref())
        .filter(|runtime| {
            markers.iter().any(|(id, generation)| {
                *id == runtime.runtime_id && *generation == runtime.tmux_generation
            })
        })
        .map(|runtime| runtime.runtime_id)
        .collect()
}

#[test]
fn snapshot_marks_only_the_current_runtime_generation_degraded() {
    let mut row = catalog_workstream(1, 10);
    row.provider = ProviderKind::OpenCode;
    let mut current_runtime = runtime(7, ProviderKind::OpenCode);
    current_runtime.status = RuntimeStatus::Starting;
    row.runtime = Some(current_runtime.clone());
    let workstreams = vec![row.clone()];
    let markers = vec![(current_runtime.runtime_id, "generation")];

    let overview = WorkstreamOverview {
        workstream_id: row.workstream_id,
        provider: row.provider,
        lifecycle: row.lifecycle,
        archived_at_millis: None,
        revision: row.revision,
        runtime: Some(current_runtime.clone()),
    };
    let marked = |runtime: &RuntimeRecord| {
        markers
            .iter()
            .any(|(id, generation)| *id == runtime.runtime_id && *generation == runtime.tmux_generation)
    };
    assert_eq!(
        require_observer_available(&overview, marked(&current_runtime)),
        Err(ApplicationError::ObserverUnavailable {
            readiness: ObserverReadiness::Unknown
        })
    );
    let mut unaffected = current_runtime.clone();
    unaffected.runtime_id = RuntimeId::from_u128(8);
    unaffected.tmux_generation = "unaffected-generation".to_owned();
    let mut unaffected_overview = overview.clone();
    unaffected_overview.runtime = Some(unaffected.clone());
    assert_eq!(
        require_observer_available(&unaffected_overview, marked(&unaffected)),
        Ok(())
    );

    let assemble = |degraded: Vec<RuntimeId>| {
        assemble_snapshot_input(
            catalog(),
            &workstreams,
            &degraded,
            &Vec::new(),
            readiness(ObserverReadiness::Ready),
            "~".to_owned(),
            revision(1),
            vec![capability(ProviderKind::Codex), capability(ProviderKind::OpenCode)],
        )
        .unwrap()
    };
    let degraded = assemble(degraded_runtime_ids(&workstreams, &markers));
    assert_eq!(
        degraded.workstreams[0]
            .runtime
            .as_ref()
            .map(|runtime| (runtime.status, runtime.observer_degraded)),
        Some((RuntimeStatus::Starting, true))
    );
    let opencode = degraded
        .provider_capabilities
        .iter()
        .find(|capability| capability.provider == ProviderKind::OpenCode)
        .unwrap();
    assert_eq!(opencode.status, ProviderCapabilityStatus::Available);
    assert!(opencode.fresh_launch);

    let stale = vec![(current_runtime.runtime_id, "stale-generation")];
    let current = assemble(degraded_runtime_ids(&workstreams, &stale));
    assert_eq!(
        current.workstreams[0]
            .runtime
            .as_ref()
            .map(|runtime| runtime.observer_degraded),
        Some(false)
    );
}
