//! The file facts a cutover trusts before it touches a legacy client file or
//! its own transition lock: what a path shows without following a final
//! symlink, which files are private to the current user, and which failures
//! leave a lock that this process created in place.

use vstd::prelude::*;

use crate::cutover::{CutoverError, LegacyClientArtifactReason};
use crate::state::{StateError, StateRecoveryReason};

verus! {

/// What `symlink_metadata` shows of one path: its kind, owner, permission
/// bits and identity.
#[derive(Clone, Copy, Debug, PartialEq, Eq, Structural)]
pub struct FileFacts {
    pub is_symlink: bool,
    pub is_file: bool,
    pub uid: u32,
    pub mode: u32,
    pub size: u64,
    pub device: u64,
    pub inode: u64,
}

/// What `symlink_metadata` shows of a state root: its kind, owner and
/// permission bits.
#[derive(Clone, Copy, Debug, PartialEq, Eq, Structural)]
pub struct RootFacts {
    pub is_symlink: bool,
    pub is_dir: bool,
    pub uid: u32,
    pub mode: u32,
}

/// A state root a cutover may use: a real directory of the current user,
/// accessible to that user only.
pub open spec fn private_owner_root(f: RootFacts, current_uid: u32) -> bool {
    !f.is_symlink && f.is_dir && f.uid == current_uid && f.mode & 0o777 == 0o700
}

/// Refuses a state root that is a symlink, not a directory, another user's,
/// or accessible to others, before it is canonicalized.
pub fn check_state_root(f: &RootFacts, current_uid: u32) -> (r: Result<(), CutoverError>)
    ensures
        r is Ok <==> private_owner_root(*f, current_uid),
        r matches Err(e) ==> e == CutoverError::InvalidRoot,
{
    if f.is_symlink || !f.is_dir || f.uid != current_uid || f.mode & 0o777 != 0o700 {
        Err(CutoverError::InvalidRoot)
    } else {
        Ok(())
    }
}

/// The identity a client artifact or lock is checked against later: size,
/// mode, device, inode and owner.
#[derive(Clone, Copy, Debug, PartialEq, Eq, Structural)]
pub struct ClientArtifactIdentity {
    pub size: u64,
    pub mode: u32,
    pub device: u64,
    pub inode: u64,
    pub uid: u32,
}

/// The identity of the file the facts describe.
pub open spec fn identity_of(f: FileFacts) -> ClientArtifactIdentity {
    ClientArtifactIdentity {
        size: f.size,
        mode: f.mode,
        device: f.device,
        inode: f.inode,
        uid: f.uid,
    }
}

/// The identity of the file the facts describe.
pub fn client_identity(f: &FileFacts) -> (r: ClientArtifactIdentity)
    ensures
        r == identity_of(*f),
{
    ClientArtifactIdentity {
        size: f.size,
        mode: f.mode,
        device: f.device,
        inode: f.inode,
        uid: f.uid,
    }
}

/// A regular file of the current user readable and writable by that user only.
pub open spec fn private_owner_file(f: FileFacts, current_uid: u32) -> bool {
    f.is_file && f.uid == current_uid && f.mode & 0o777 == 0o600
}

/// Whether the facts show a regular file private to the current user.
pub fn is_private_owner_file(f: &FileFacts, current_uid: u32) -> (r: bool)
    ensures
        r == private_owner_file(*f, current_uid),
{
    f.is_file && f.uid == current_uid && f.mode & 0o777 == 0o600
}

/// Why a legacy client file may not be removed, in check order: a symlink, a
/// non-regular file, another owner, or permissions beyond the owner's.
pub open spec fn client_artifact_refusal(f: FileFacts, current_uid: u32) -> Option<
    LegacyClientArtifactReason,
> {
    if f.is_symlink {
        Some(LegacyClientArtifactReason::Symlink)
    } else if !f.is_file {
        Some(LegacyClientArtifactReason::NonRegular)
    } else if f.uid != current_uid {
        Some(LegacyClientArtifactReason::Foreign)
    } else if !private_owner_file(f, current_uid) {
        Some(LegacyClientArtifactReason::NonPrivate)
    } else {
        None
    }
}

/// Inspects a legacy client file: absent files are skipped, unsafe ones are
/// refused as `client_artifact_refusal` states, safe ones yield the identity
/// to check again before removal.
pub fn inspect_client_artifact(
    facts: Option<FileFacts>,
    current_uid: u32,
) -> (r: Result<Option<ClientArtifactIdentity>, CutoverError>)
    ensures
        match facts {
            None => r == Ok::<Option<ClientArtifactIdentity>, CutoverError>(None),
            Some(f) => match client_artifact_refusal(f, current_uid) {
                Some(reason) => r == Err::<Option<ClientArtifactIdentity>, CutoverError>(
                    CutoverError::LegacyClientArtifact(reason),
                ),
                None => r == Ok::<Option<ClientArtifactIdentity>, CutoverError>(
                    Some(identity_of(f)),
                ),
            },
        },
{
    let f = match facts {
        Some(f) => f,
        None => {
            return Ok(None);
        },
    };
    if f.is_symlink {
        return Err(CutoverError::LegacyClientArtifact(LegacyClientArtifactReason::Symlink));
    }
    if !f.is_file {
        return Err(CutoverError::LegacyClientArtifact(LegacyClientArtifactReason::NonRegular));
    }
    if f.uid != current_uid {
        return Err(CutoverError::LegacyClientArtifact(LegacyClientArtifactReason::Foreign));
    }
    if !is_private_owner_file(&f, current_uid) {
        return Err(CutoverError::LegacyClientArtifact(LegacyClientArtifactReason::NonPrivate));
    }
    Ok(Some(client_identity(&f)))
}

/// Why the transition lock no longer proves this cutover's authority: it is
/// gone or replaced (changed), or no longer a private regular file (invalid
/// root).
pub open spec fn transition_lock_refusal(
    facts: Option<FileFacts>,
    current_uid: u32,
    expected: ClientArtifactIdentity,
) -> Option<CutoverError> {
    match facts {
        None => Some(CutoverError::LegacyClientArtifact(LegacyClientArtifactReason::Changed)),
        Some(f) => if f.is_symlink || !f.is_file || !private_owner_file(f, current_uid) {
            Some(CutoverError::InvalidRoot)
        } else if identity_of(f) != expected {
            Some(CutoverError::LegacyClientArtifact(LegacyClientArtifactReason::Changed))
        } else {
            None
        },
    }
}

/// Refuses to go on unless the transition lock is still exactly the one
/// this cutover holds.
pub fn validate_transition_lock(
    facts: Option<FileFacts>,
    current_uid: u32,
    expected: ClientArtifactIdentity,
) -> (r: Result<(), CutoverError>)
    ensures
        r == (match transition_lock_refusal(facts, current_uid, expected) {
            Some(e) => Err(e),
            None => Ok::<(), CutoverError>(()),
        }),
{
    let f = match facts {
        Some(f) => f,
        None => {
            return Err(CutoverError::LegacyClientArtifact(LegacyClientArtifactReason::Changed));
        },
    };
    if f.is_symlink || !f.is_file || !is_private_owner_file(&f, current_uid) {
        return Err(CutoverError::InvalidRoot);
    }
    if client_identity(&f) != expected {
        return Err(CutoverError::LegacyClientArtifact(LegacyClientArtifactReason::Changed));
    }
    Ok(())
}

/// A lock file found in place may carry the lease only as a private regular
/// file, not a symlink.
pub open spec fn existing_lock_usable(f: FileFacts, current_uid: u32) -> bool {
    !f.is_symlink && private_owner_file(f, current_uid)
}

/// Refuses a lock file found in place that is not a private regular file.
pub fn check_existing_lock(f: &FileFacts, current_uid: u32) -> (r: Result<(), CutoverError>)
    ensures
        r is Ok <==> existing_lock_usable(*f, current_uid),
        r matches Err(e) ==> e == CutoverError::InvalidRoot,
{
    if f.is_symlink || !f.is_file || !is_private_owner_file(f, current_uid) {
        Err(CutoverError::InvalidRoot)
    } else {
        Ok(())
    }
}

/// What follows the exclusive creation of the lock file.
#[derive(Clone, Debug, PartialEq, Eq)]
pub enum CreatedLockStep {
    /// The created file and its path agree: sync it and take the lease.
    Proceed,
    /// Fail; the created file is removed only when `remove` holds.
    Fail { error: CutoverError, remove: bool },
}

/// After creating the lock, the opened file must be private to the current
/// user (else the root is invalid and the file is removed), and the path
/// must still show exactly that file (else it changed, and what the path now
/// holds is not this process's to remove).
pub open spec fn created_lock_step_of(
    opened: FileFacts,
    at_path: FileFacts,
    current_uid: u32,
) -> CreatedLockStep {
    if !private_owner_file(opened, current_uid) {
        CreatedLockStep::Fail { error: CutoverError::InvalidRoot, remove: true }
    } else if at_path.is_symlink || !at_path.is_file || identity_of(at_path) != identity_of(
        opened,
    ) {
        CreatedLockStep::Fail {
            error: CutoverError::LegacyClientArtifact(LegacyClientArtifactReason::Changed),
            remove: false,
        }
    } else {
        CreatedLockStep::Proceed
    }
}

/// Decides the step after creating the lock, as `created_lock_step_of` states.
pub fn created_lock_step(opened: &FileFacts, at_path: &FileFacts, current_uid: u32) -> (r:
    CreatedLockStep)
    ensures
        r == created_lock_step_of(*opened, *at_path, current_uid),
{
    if !is_private_owner_file(opened, current_uid) {
        return CreatedLockStep::Fail { error: CutoverError::InvalidRoot, remove: true };
    }
    if at_path.is_symlink || !at_path.is_file || client_identity(at_path) != client_identity(
        opened,
    ) {
        return CreatedLockStep::Fail {
            error: CutoverError::LegacyClientArtifact(LegacyClientArtifactReason::Changed),
            remove: false,
        };
    }
    CreatedLockStep::Proceed
}

/// The lease is held by another process.
pub open spec fn lease_held_elsewhere(error: CutoverError) -> bool {
    error == CutoverError::State(
        StateError::StateRecoveryRequired(StateRecoveryReason::LockedTransitionLease),
    )
}

/// A lock this process created is removed when taking the lease fails,
/// unless another process holds the lease: then the lock is that holder's.
pub fn removes_created_lock_after(error: &CutoverError) -> (r: bool)
    ensures
        r == !lease_held_elsewhere(*error),
{
    match error {
        CutoverError::State(
            StateError::StateRecoveryRequired(StateRecoveryReason::LockedTransitionLease),
        ) => false,
        _ => true,
    }
}

/// A created lock is removed only while the path still shows exactly the
/// file this process created; a missing path needs nothing.
pub open spec fn created_lock_removable(facts: Option<FileFacts>, created: ClientArtifactIdentity) -> bool {
    match facts {
        Some(f) => !f.is_symlink && f.is_file && identity_of(f) == created,
        None => false,
    }
}

/// Whether the path still shows exactly the lock this process created.
pub fn may_remove_created_lock(facts: Option<FileFacts>, created: ClientArtifactIdentity) -> (r:
    bool)
    ensures
        r == created_lock_removable(facts, created),
{
    match facts {
        Some(f) => !f.is_symlink && f.is_file && client_identity(&f) == created,
        None => false,
    }
}

/// Whether a handover journal or acknowledgement file is removed: an absent
/// one needs nothing (`false`), a present one must be a private regular file
/// of the current user (`true`), anything else makes the journal invalid.
pub open spec fn handover_file_removal_of(facts: Option<FileFacts>, current_uid: u32) -> Result<
    bool,
    CutoverError,
> {
    match facts {
        None => Ok(false),
        Some(f) => if f.is_symlink || !private_owner_file(f, current_uid) {
            Err(CutoverError::InvalidHandoverJournal)
        } else {
            Ok(true)
        },
    }
}

/// Decides the removal of one handover file, as `handover_file_removal_of`
/// states.
pub fn handover_file_removal(facts: Option<FileFacts>, current_uid: u32) -> (r: Result<
    bool,
    CutoverError,
>)
    ensures
        r == handover_file_removal_of(facts, current_uid),
{
    match facts {
        None => Ok(false),
        Some(f) => {
            if f.is_symlink || !f.is_file || !is_private_owner_file(&f, current_uid) {
                Err(CutoverError::InvalidHandoverJournal)
            } else {
                Ok(true)
            }
        },
    }
}

/// A lock file whose path changed after creation is never removed: whatever
/// the path holds then was not created by this process.
pub proof fn lemma_changed_lock_is_left_in_place(
    opened: FileFacts,
    at_path: FileFacts,
    current_uid: u32,
)
    requires
        private_owner_file(opened, current_uid),
        identity_of(at_path) != identity_of(opened),
    ensures
        created_lock_step_of(opened, at_path, current_uid) matches CreatedLockStep::Fail {
            remove,
            ..
        } && !remove,
        !created_lock_removable(Some(at_path), identity_of(opened)),
{
}

} // verus!
