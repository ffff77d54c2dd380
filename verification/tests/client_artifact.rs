use wsnav::client_artifact::{
    CreatedLockStep, FileFacts, RootFacts, check_state_root, check_existing_lock, client_identity, created_lock_step,
    handover_file_removal,
    inspect_client_artifact, is_private_owner_file, may_remove_created_lock,
    removes_created_lock_after, validate_transition_lock,
};
use wsnav::cutover::{CutoverError, LegacyClientArtifactReason};
use wsnav::state::{StateError, StateRecoveryReason};

const UID: u32 = 1000;

fn private_file(inode: u64) -> FileFacts {
    FileFacts {
        is_symlink: false,
        is_file: true,
        uid: UID,
        mode: 0o100_600,
        size: 0,
        device: 7,
        inode,
    }
}

#[test]
fn private_files_are_regular_owned_and_owner_only() {
    assert!(is_private_owner_file(&private_file(1), UID));
    let mut shared = private_file(1);
    shared.mode = 0o100_644;
    assert!(!is_private_owner_file(&shared, UID));
    assert!(!is_private_owner_file(&private_file(1), UID + 1));
    let mut directory = private_file(1);
    directory.is_file = false;
    assert!(!is_private_owner_file(&directory, UID));
}

#[test]
fn unsafe_client_artifacts_are_refused_by_reason() {
    assert_eq!(inspect_client_artifact(None, UID), Ok(None));
    assert_eq!(
        inspect_client_artifact(Some(private_file(3)), UID),
        Ok(Some(client_identity(&private_file(3))))
    );
    let mut link = private_file(3);
    link.is_symlink = true;
    link.is_file = false;
    assert_eq!(
        inspect_client_artifact(Some(link), UID),
        Err(CutoverError::LegacyClientArtifact(LegacyClientArtifactReason::Symlink))
    );
    let mut fifo = private_file(3);
    fifo.is_file = false;
    assert_eq!(
        inspect_client_artifact(Some(fifo), UID),
        Err(CutoverError::LegacyClientArtifact(LegacyClientArtifactReason::NonRegular))
    );
    assert_eq!(
        inspect_client_artifact(Some(private_file(3)), UID + 1),
        Err(CutoverError::LegacyClientArtifact(LegacyClientArtifactReason::Foreign))
    );
    let mut readable = private_file(3);
    readable.mode = 0o100_640;
    assert_eq!(
        inspect_client_artifact(Some(readable), UID),
        Err(CutoverError::LegacyClientArtifact(LegacyClientArtifactReason::NonPrivate))
    );
}

#[test]
fn the_transition_lock_must_still_be_exactly_ours() {
    let held = client_identity(&private_file(5));
    assert_eq!(validate_transition_lock(Some(private_file(5)), UID, held), Ok(()));
    assert_eq!(
        validate_transition_lock(None, UID, held),
        Err(CutoverError::LegacyClientArtifact(LegacyClientArtifactReason::Changed))
    );
    assert_eq!(
        validate_transition_lock(Some(private_file(6)), UID, held),
        Err(CutoverError::LegacyClientArtifact(LegacyClientArtifactReason::Changed))
    );
    let mut open = private_file(5);
    open.mode = 0o100_666;
    assert_eq!(
        validate_transition_lock(Some(open), UID, held),
        Err(CutoverError::InvalidRoot)
    );
    assert_eq!(check_existing_lock(&private_file(5), UID), Ok(()));
    assert_eq!(check_existing_lock(&open, UID), Err(CutoverError::InvalidRoot));
}

#[test]
fn a_created_lock_is_removed_only_while_it_is_ours() {
    let opened = private_file(8);
    assert_eq!(
        created_lock_step(&opened, &private_file(8), UID),
        CreatedLockStep::Proceed
    );
    let mut foreign = private_file(8);
    foreign.uid = UID + 1;
    assert_eq!(
        created_lock_step(&foreign, &foreign, UID),
        CreatedLockStep::Fail {
            error: CutoverError::InvalidRoot,
            remove: true,
        }
    );
    assert_eq!(
        created_lock_step(&opened, &private_file(9), UID),
        CreatedLockStep::Fail {
            error: CutoverError::LegacyClientArtifact(LegacyClientArtifactReason::Changed),
            remove: false,
        }
    );
    let created = client_identity(&opened);
    assert!(may_remove_created_lock(Some(private_file(8)), created));
    assert!(!may_remove_created_lock(Some(private_file(9)), created));
    assert!(!may_remove_created_lock(None, created));
    assert!(!removes_created_lock_after(&CutoverError::State(
        StateError::StateRecoveryRequired(StateRecoveryReason::LockedTransitionLease)
    )));
    assert!(removes_created_lock_after(&CutoverError::InvalidRoot));
}

#[test]
fn handover_files_are_removed_only_as_private_regular_files() {
    assert_eq!(handover_file_removal(None, UID), Ok(false));
    assert_eq!(handover_file_removal(Some(private_file(4)), UID), Ok(true));
    let mut link = private_file(4);
    link.is_symlink = true;
    assert_eq!(
        handover_file_removal(Some(link), UID),
        Err(CutoverError::InvalidHandoverJournal)
    );
    let mut shared = private_file(4);
    shared.mode = 0o100_644;
    assert_eq!(
        handover_file_removal(Some(shared), UID),
        Err(CutoverError::InvalidHandoverJournal)
    );
}

#[test]
fn a_state_root_must_be_a_private_directory_of_the_current_user() {
    let root = RootFacts { is_symlink: false, is_dir: true, uid: 1000, mode: 0o40700 };
    assert_eq!(check_state_root(&root, 1000), Ok(()));
    assert_eq!(check_state_root(&root, 1001), Err(CutoverError::InvalidRoot));
    assert_eq!(
        check_state_root(&RootFacts { mode: 0o40750, ..root }, 1000),
        Err(CutoverError::InvalidRoot)
    );
    assert_eq!(
        check_state_root(&RootFacts { is_symlink: true, ..root }, 1000),
        Err(CutoverError::InvalidRoot)
    );
    assert_eq!(
        check_state_root(&RootFacts { is_dir: false, ..root }, 1000),
        Err(CutoverError::InvalidRoot)
    );
}
