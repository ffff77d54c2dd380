use wsnav::action_authority::{
    ActionCheck, action_check, check_attention_revision, BrowserMetadata, check_listing_authority, check_registration_candidate,
    check_registration_request, operation_recovery_source, require_observer_available,
    require_revision, select_workstream,
};
use wsnav::actions::RuntimeRecord;
use wsnav::application::{
    ApplicationError, ObserverReadiness, OperationSnapshot, RevisionSubject,
};
use wsnav::browser::{BrowserPath, browser_root_label};
use wsnav::domain::{
    OperationKind, OperationPhase, ProviderKind, Revision, RuntimeStatus, WorkstreamLifecycle,
};
use wsnav::ids::{OperationId, RuntimeId, WorkstreamId};
use wsnav::lifecycle::WorkstreamOverview;

fn revision(value: i64) -> Revision {
    Revision::try_from_value(value).unwrap()
}

fn workstream(id: u128, provider: ProviderKind, rev: i64) -> WorkstreamOverview {
    WorkstreamOverview {
        workstream_id: WorkstreamId::from_u128(id),
        provider,
        lifecycle: WorkstreamLifecycle::Open,
        archived_at_millis: None,
        revision: revision(rev),
        runtime: None,
    }
}

#[test]
fn stale_revisions_name_subject_expected_and_current() {
    let subject = RevisionSubject::Workstream(WorkstreamId::from_u128(1));
    assert_eq!(require_revision(subject, revision(3), revision(3)), Ok(()));
    assert_eq!(
        require_revision(subject, revision(3), revision(4)),
        Err(ApplicationError::StaleRevision {
            subject,
            expected: revision(3),
            current: revision(4),
        })
    );
}

#[test]
fn an_action_selects_its_workstream_by_identity_revision_and_provider() {
    let catalog = vec![
        workstream(1, ProviderKind::Codex, 2),
        workstream(2, ProviderKind::OpenCode, 5),
    ];
    let id = WorkstreamId::from_u128(2);
    assert_eq!(select_workstream(&catalog, id, None, None), Ok(1));
    assert_eq!(
        select_workstream(&catalog, id, Some(revision(5)), Some(ProviderKind::OpenCode)),
        Ok(1)
    );
    assert_eq!(
        select_workstream(&catalog, id, Some(revision(4)), Some(ProviderKind::OpenCode)),
        Err(ApplicationError::StaleRevision {
            subject: RevisionSubject::Workstream(id),
            expected: revision(4),
            current: revision(5),
        })
    );
    assert_eq!(
        select_workstream(&catalog, id, Some(revision(5)), Some(ProviderKind::Codex)),
        Err(ApplicationError::ProviderIdentityMismatch)
    );
    assert_eq!(
        select_workstream(&catalog, WorkstreamId::from_u128(9), None, None),
        Err(ApplicationError::UnknownLocalIdentity)
    );
}

#[test]
fn a_degraded_runtime_generation_blocks_observer_dependent_actions() {
    let mut with_runtime = workstream(1, ProviderKind::Codex, 1);
    assert_eq!(require_observer_available(&with_runtime, true), Ok(()));
    with_runtime.runtime = Some(RuntimeRecord {
        runtime_id: RuntimeId::from_u128(3),
        workstream_id: WorkstreamId::from_u128(1),
        provider: ProviderKind::Codex,
        tmux_generation: "generation".to_owned(),
        tmux_session: "session".to_owned(),
        cwd: "/repository".to_owned(),
        provider_pid: Some(42),
        process_birth: Some("birth".to_owned()),
        status: RuntimeStatus::Idle,
        revision: Revision::initial(),
    });
    assert_eq!(require_observer_available(&with_runtime, false), Ok(()));
    assert_eq!(
        require_observer_available(&with_runtime, true),
        Err(ApplicationError::ObserverUnavailable {
            readiness: ObserverReadiness::Unknown,
        })
    );
}

fn operation(kind: OperationKind, source: Option<u128>) -> OperationSnapshot {
    OperationSnapshot {
        operation_id: OperationId::from_u128(7),
        kind,
        provider: ProviderKind::Codex,
        source_workstream_id: source.map(WorkstreamId::from_u128),
        phase: OperationPhase::EffectUnknown,
        revision: revision(2),
    }
}

#[test]
fn only_a_fork_with_a_source_can_be_recovered() {
    let id = OperationId::from_u128(7);
    let fork = vec![operation(OperationKind::Fork, Some(1))];
    assert_eq!(
        operation_recovery_source(&fork, id, revision(2), ProviderKind::Codex),
        Ok(WorkstreamId::from_u128(1))
    );
    assert_eq!(
        operation_recovery_source(&fork, id, revision(1), ProviderKind::Codex),
        Err(ApplicationError::StaleRevision {
            subject: RevisionSubject::Operation(id),
            expected: revision(1),
            current: revision(2),
        })
    );
    assert_eq!(
        operation_recovery_source(&fork, id, revision(2), ProviderKind::OpenCode),
        Err(ApplicationError::ProviderIdentityMismatch)
    );
    let creation = vec![operation(OperationKind::IndependentCreation, Some(1))];
    assert_eq!(
        operation_recovery_source(&creation, id, revision(2), ProviderKind::Codex),
        Err(ApplicationError::UnsupportedAction)
    );
    let sourceless = vec![operation(OperationKind::Fork, None)];
    assert_eq!(
        operation_recovery_source(&sourceless, id, revision(2), ProviderKind::Codex),
        Err(ApplicationError::UnknownLocalIdentity)
    );
    assert_eq!(
        operation_recovery_source(&[], id, revision(2), ProviderKind::Codex),
        Err(ApplicationError::UnknownLocalIdentity)
    );
}

fn metadata(root: &str, rev: i64) -> BrowserMetadata {
    BrowserMetadata {
        root: root.to_owned(),
        label: "~".to_owned(),
        revision: revision(rev),
    }
}

#[test]
fn a_listing_must_answer_the_request_under_an_unmoved_root() {
    let requested = BrowserPath::new("work".to_owned()).unwrap();
    let before = metadata("/home/user", 2);
    assert_eq!(
        check_listing_authority(&before, &before.clone(), "~", "work", false, &requested, false),
        Ok(())
    );
    assert_eq!(
        check_listing_authority(&before, &metadata("/home/user/", 2), "~", "work", false, &requested, false),
        Ok(())
    );
    assert_eq!(
        check_listing_authority(&before, &metadata("/home/user", 3), "~", "work", false, &requested, false),
        Err(ApplicationError::StaleRevision {
            subject: RevisionSubject::ProjectBrowserRoot,
            expected: revision(2),
            current: revision(3),
        })
    );
    assert_eq!(
        check_listing_authority(&before, &metadata("/srv", 2), "~", "work", false, &requested, false),
        Err(ApplicationError::ActionAuthorityFailed)
    );
    assert_eq!(
        check_listing_authority(&before, &before.clone(), "~", "other", false, &requested, false),
        Err(ApplicationError::InvalidBrowserListing)
    );
    assert_eq!(
        check_listing_authority(&before, &before.clone(), "~", "work", true, &requested, false),
        Err(ApplicationError::InvalidBrowserListing)
    );
}

#[test]
fn a_registered_location_lies_strictly_inside_the_root() {
    let current = metadata("/home/user", 2);
    let path = BrowserPath::new("work/repo".to_owned()).unwrap();
    assert_eq!(check_registration_request(revision(2), &current, &path), Ok(()));
    assert_eq!(
        check_registration_request(revision(2), &current, &BrowserPath::root()),
        Err(ApplicationError::InvalidBrowserPath)
    );
    assert_eq!(
        check_registration_request(revision(1), &current, &path),
        Err(ApplicationError::StaleRevision {
            subject: RevisionSubject::ProjectBrowserRoot,
            expected: revision(1),
            current: revision(2),
        })
    );
    assert_eq!(
        check_registration_candidate("/home/user/work/repo", "/home/user"),
        Ok(())
    );
    assert_eq!(
        check_registration_candidate("/home/user", "/home/user"),
        Err(ApplicationError::InvalidBrowserPath)
    );
    assert_eq!(
        check_registration_candidate("/home/username/repo", "/home/user"),
        Err(ApplicationError::InvalidBrowserPath)
    );
    assert_eq!(
        check_registration_candidate("/srv/repo", "/home/user"),
        Err(ApplicationError::InvalidBrowserPath)
    );
}

#[test]
fn the_browser_root_is_labelled_relative_to_home() {
    assert_eq!(browser_root_label("/home/user", Some("/home/user")), "~");
    assert_eq!(browser_root_label("/home/user", Some("/home/user/")), "~");
    assert_eq!(browser_root_label("/home/user/work/repos", Some("/home/user")), "~/work/repos");
    assert_eq!(browser_root_label("/srv/projects", Some("/home/user")), "custom root · projects");
    assert_eq!(browser_root_label("/", Some("/home/user")), "custom project root");
    assert_eq!(browser_root_label("/srv/projects", None), "projects");
    assert_eq!(browser_root_label("/", None), "project root");
}

#[test]
fn each_action_is_dispatched_to_its_first_check() {
    let expected = revision(3);
    let set_root = wsnav::facade::ApplicationAction::SetProjectBrowserRoot {
        root_path: wsnav::browser::BrowserRootPath::new("/home/user/src".to_owned()).unwrap(),
        expected_revision: expected,
    };
    assert_eq!(action_check(&set_root), ActionCheck::BrowserRootRevision { expected });
    assert_eq!(
        require_revision(RevisionSubject::ProjectBrowserRoot, expected, revision(4)),
        Err(ApplicationError::StaleRevision {
            subject: RevisionSubject::ProjectBrowserRoot,
            expected,
            current: revision(4),
        })
    );
    let workstream_id = WorkstreamId::from_u128(5);
    let start = wsnav::facade::ApplicationAction::Start {
        workstream_id,
        expected_revision: expected,
        provider: ProviderKind::Codex,
    };
    assert_eq!(
        action_check(&start),
        ActionCheck::Workstream {
            workstream_id,
            expected,
            provider: Some(ProviderKind::Codex),
            observer_required: true,
        }
    );
    let park = wsnav::facade::ApplicationAction::Park { workstream_id, expected_revision: expected };
    assert_eq!(
        action_check(&park),
        ActionCheck::Workstream { workstream_id, expected, provider: None, observer_required: false }
    );
    assert_eq!(
        check_attention_revision(workstream_id, expected, None),
        Err(ApplicationError::UnknownLocalIdentity)
    );
    assert_eq!(
        check_attention_revision(workstream_id, expected, Some(revision(2))),
        Err(ApplicationError::StaleRevision {
            subject: RevisionSubject::Attention(workstream_id),
            expected,
            current: revision(2),
        })
    );
    assert_eq!(check_attention_revision(workstream_id, expected, Some(expected)), Ok(()));
}
