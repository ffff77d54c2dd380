//! Validation and deterministic assembly of the bounded host-local snapshot.

use vstd::prelude::*;
use vstd::utf8::encode_utf8;

use crate::application::{
    ApplicationError, ApplicationSnapshot, LocationSnapshot, MAX_BROWSER_ROOT_BYTES,
    MAX_TEXT_SCALARS, ObserverReadiness, ObserverReadinessEvidence, OperationSnapshot,
    ProjectSnapshot, ProjectSnapshotInput, ProjectWorkstreamGroup, ProviderCapability,
    ProviderCapabilityStatus, SnapshotEntity, SnapshotInput, SnapshotLimitKind, SnapshotLimits,
    WorkstreamSnapshot, WorkstreamSnapshotInput,
};
use crate::domain::{OperationKind, ProviderKind, phase_is_terminal, provider_rank};
use crate::ids::{HostId, LocationId, ProjectId, WorkstreamId};
use crate::sort::{
    SortKey, insertion_sorted, is_permutation, lemma_permutation_covers, lemma_permutation_elements, permutes,
    position_covered, sort_by_key, sorted_by_key,
};
use crate::facade::{derived_host_label, host_label, optional_text_view};
use crate::text::{contains_unsafe_char, has_unsafe_char};

verus! {

/// Bounded single-line display text.
pub open spec fn text_ok(s: Seq<char>) -> bool {
    0 < s.len() <= MAX_TEXT_SCALARS && !has_unsafe_char(s)
}

/// Bounded opaque metadata such as a repository fingerprint.
pub open spec fn opaque_ok(s: Seq<char>) -> bool {
    s.len() > 0 && (encode_utf8(s).len() as usize) <= MAX_BROWSER_ROOT_BYTES && !has_unsafe_char(s)
}

pub open spec fn optional_text_ok(o: Option<String>) -> bool {
    match o {
        Some(t) => text_ok(t@),
        None => true,
    }
}

pub open spec fn optional_opaque_ok(o: Option<String>) -> bool {
    match o {
        Some(t) => opaque_ok(t@),
        None => true,
    }
}

/// Validates one display text.
pub fn validate_text(value: &str, entity: SnapshotEntity) -> (r: Result<(), ApplicationError>)
    ensures
        r is Ok <==> text_ok(value@),
        r is Err ==> r == Err::<(), ApplicationError>(
            ApplicationError::InvalidSnapshotEntity { entity },
        ),
{
    if value.is_empty() || value.unicode_len() > MAX_TEXT_SCALARS || contains_unsafe_char(value) {
        return Err(ApplicationError::InvalidSnapshotEntity { entity });
    }
    Ok(())
}

/// Validates one opaque metadata value.
pub fn validate_opaque_metadata(value: &str) -> (r: Result<(), ApplicationError>)
    ensures
        r is Ok <==> opaque_ok(value@),
        r is Err ==> r == Err::<(), ApplicationError>(
            ApplicationError::InvalidSnapshotEntity { entity: SnapshotEntity::DisplayText },
        ),
{
    if value.is_empty() || value.len() > MAX_BROWSER_ROOT_BYTES || contains_unsafe_char(value) {
        return Err(ApplicationError::InvalidSnapshotEntity { entity: SnapshotEntity::DisplayText });
    }
    Ok(())
}

fn validate_optional_text(value: &Option<String>) -> (r: Result<(), ApplicationError>)
    ensures
        r is Ok <==> optional_text_ok(*value),
        r is Err ==> r == Err::<(), ApplicationError>(
            ApplicationError::InvalidSnapshotEntity { entity: SnapshotEntity::DisplayText },
        ),
{
    match value {
        Some(text) => validate_text(text.as_str(), SnapshotEntity::DisplayText),
        None => Ok(()),
    }
}

fn validate_optional_opaque(value: &Option<String>) -> (r: Result<(), ApplicationError>)
    ensures
        r is Ok <==> optional_opaque_ok(*value),
        r is Err ==> r == Err::<(), ApplicationError>(
            ApplicationError::InvalidSnapshotEntity { entity: SnapshotEntity::DisplayText },
        ),
{
    match value {
        Some(text) => validate_opaque_metadata(text.as_str()),
        None => Ok(()),
    }
}

/// One bound of the projection.
pub fn check_limit(actual: usize, limit: usize, kind: SnapshotLimitKind) -> (r: Result<
    (),
    ApplicationError,
>)
    ensures
        r == (if actual <= limit {
            Ok::<(), ApplicationError>(())
        } else {
            Err(ApplicationError::SnapshotOverLimit { kind, limit })
        }),
{
    if actual <= limit {
        Ok(())
    } else {
        Err(ApplicationError::SnapshotOverLimit { kind, limit })
    }
}

/// A capability row is consistent with its status: available rows carry no
/// reason; unavailable or unknown rows carry a reason and no capability.
pub open spec fn capability_ok(c: ProviderCapability) -> bool {
    match c.status {
        ProviderCapabilityStatus::Available => c.reason is None,
        _ => c.reason is Some && !c.fresh_launch && !c.exact_resume && !c.observe
            && !c.metadata_read && !c.navigator_rename && !c.fork,
    }
}

/// Validates one provider capability row.
pub fn validate_provider_capability(capability: &ProviderCapability) -> (r: Result<
    (),
    ApplicationError,
>)
    ensures
        r == (if capability_ok(*capability) {
            Ok::<(), ApplicationError>(())
        } else {
            Err(ApplicationError::InvalidProviderCapability(capability.provider))
        }),
{
    match capability.status {
        ProviderCapabilityStatus::Available => {
            if capability.reason.is_some() {
                return Err(ApplicationError::InvalidProviderCapability(capability.provider));
            }
        },
        ProviderCapabilityStatus::Unavailable | ProviderCapabilityStatus::Unknown => {
            if capability.reason.is_none() || capability.fresh_launch || capability.exact_resume
                || capability.observe || capability.metadata_read || capability.navigator_rename
                || capability.fork {
                return Err(ApplicationError::InvalidProviderCapability(capability.provider));
            }
        },
    }
    Ok(())
}

/// Readiness that claims an owned integration carries its revision; setup
/// required proves there is none.
pub open spec fn readiness_ok(evidence: ObserverReadinessEvidence) -> bool {
    match evidence.readiness {
        ObserverReadiness::Ready
        | ObserverReadiness::TrustReviewRequired
        | ObserverReadiness::UpdateRequired
        | ObserverReadiness::Modified
        | ObserverReadiness::Disabled => evidence.integration_revision is Some,
        ObserverReadiness::SetupRequired => evidence.integration_revision is None,
        _ => true,
    }
}

/// Validates observer readiness evidence.
pub fn validate_observer_readiness(evidence: ObserverReadinessEvidence) -> (r: Result<
    (),
    ApplicationError,
>)
    ensures
        r == (if readiness_ok(evidence) {
            Ok::<(), ApplicationError>(())
        } else {
            Err(ApplicationError::InvalidSnapshotEntity { entity: SnapshotEntity::ObserverReadiness })
        }),
{
    let valid = match evidence.readiness {
        ObserverReadiness::Ready
        | ObserverReadiness::TrustReviewRequired
        | ObserverReadiness::UpdateRequired
        | ObserverReadiness::Modified
        | ObserverReadiness::Disabled => evidence.integration_revision.is_some(),
        ObserverReadiness::SetupRequired => evidence.integration_revision.is_none(),
        ObserverReadiness::Foreign | ObserverReadiness::Ambiguous | ObserverReadiness::Unknown => {
            true
        },
    };
    if valid {
        Ok(())
    } else {
        Err(ApplicationError::InvalidSnapshotEntity { entity: SnapshotEntity::ObserverReadiness })
    }
}


impl SortKey for LocationSnapshot {
    open spec fn key_le(&self, other: &Self) -> bool {
        self.location_id.value <= other.location_id.value
    }

    fn le(&self, other: &Self) -> (r: bool) {
        self.location_id.value <= other.location_id.value
    }

    proof fn lemma_key_le_total(a: &Self, b: &Self) {
    }

    proof fn lemma_key_le_transitive(a: &Self, b: &Self, c: &Self) {
    }
}

/// One location belongs to its Project, carries valid display data, and is
/// a label source only for the Project's label location.
pub open spec fn location_ok(p: ProjectSnapshotInput, l: LocationSnapshot) -> bool {
    &&& l.project_id == p.project_id
    &&& text_ok(l.display_name@)
    &&& optional_text_ok(l.origin_display)
    &&& optional_opaque_ok(l.repository_fingerprint)
    &&& l.is_label_source ==> l.location_id == p.label_location_id
}

pub open spec fn location_text_ok(l: LocationSnapshot) -> bool {
    text_ok(l.display_name@) && optional_text_ok(l.origin_display) && optional_opaque_ok(
        l.repository_fingerprint,
    )
}

pub open spec fn project_fields_ok(p: ProjectSnapshotInput) -> bool {
    text_ok(p.display_name@) && optional_text_ok(p.origin_display) && optional_opaque_ok(
        p.repository_fingerprint,
    )
}

pub open spec fn project_locations_ok(p: ProjectSnapshotInput) -> bool {
    forall|a: int| 0 <= a < p.locations@.len() ==> location_ok(p, #[trigger] p.locations@[a])
}

pub open spec fn has_label_source(p: ProjectSnapshotInput) -> bool {
    exists|a: int| 0 <= a < p.locations@.len() && (#[trigger] p.locations@[a]).is_label_source
}

pub open spec fn distinct_project_ids(ps: Seq<ProjectSnapshotInput>) -> bool {
    forall|i: int, j: int|
        #![trigger ps[i], ps[j]]
        0 <= i < j < ps.len() ==> ps[i].project_id != ps[j].project_id
}

/// The identity of one location paired with the Project it names.
pub open spec fn location_entry(l: LocationSnapshot) -> (LocationId, ProjectId) {
    (l.location_id, l.project_id)
}

/// The location entries of all Projects, in Project order and location order.
pub open spec fn location_index(ps: Seq<ProjectSnapshotInput>) -> Seq<(LocationId, ProjectId)>
    decreases ps.len(),
{
    if ps.len() == 0 {
        Seq::empty()
    } else {
        location_index(ps.drop_last()) + ps.last().locations@.map_values(
            |l: LocationSnapshot| location_entry(l),
        )
    }
}

/// No two entries of the sequence share a location identity.
pub open spec fn distinct_entries(idx: Seq<(LocationId, ProjectId)>) -> bool {
    forall|i: int, j: int| #![trigger idx[i], idx[j]] 0 <= i < j < idx.len() ==> idx[i].0 != idx[j].0
}

/// No two locations of any Projects share an identity.
pub open spec fn distinct_location_ids(ps: Seq<ProjectSnapshotInput>) -> bool {
    distinct_entries(location_index(ps))
}

/// The Project inventory is internally consistent.
pub open spec fn projects_ok(ps: Seq<ProjectSnapshotInput>) -> bool {
    &&& distinct_project_ids(ps)
    &&& distinct_location_ids(ps)
    &&& forall|i: int|
        0 <= i < ps.len() ==> {
            &&& project_fields_ok(#[trigger] ps[i])
            &&& project_locations_ok(ps[i])
            &&& has_label_source(ps[i])
        }
}

/// Why the location at `a` of a Project's locations in identity order is
/// refused, given the entries of the Projects before it: it names another
/// Project, repeats an identity, carries invalid text, or is a label source
/// other than the Project's label location.
pub open spec fn location_row_refusal(
    p: ProjectSnapshotInput,
    base: Seq<(LocationId, ProjectId)>,
    sorted: Seq<LocationSnapshot>,
    a: int,
) -> Option<ApplicationError> {
    let l = sorted[a];
    if l.project_id != p.project_id {
        Some(ApplicationError::LocationProjectMismatch(l.location_id))
    } else if entries_have_id(base, l.location_id) || exists|b: int|
        0 <= b < a && (#[trigger] sorted[b]).location_id == l.location_id {
        Some(ApplicationError::DuplicateSnapshotIdentity { entity: SnapshotEntity::Location })
    } else if !location_text_ok(l) {
        Some(ApplicationError::InvalidSnapshotEntity { entity: SnapshotEntity::DisplayText })
    } else if l.is_label_source && l.location_id != p.label_location_id {
        Some(ApplicationError::InvalidSnapshotEntity { entity: SnapshotEntity::Location })
    } else {
        None
    }
}

/// The first refusal among the first `a` locations in identity order.
pub open spec fn locations_refusal(
    p: ProjectSnapshotInput,
    base: Seq<(LocationId, ProjectId)>,
    sorted: Seq<LocationSnapshot>,
    a: nat,
) -> Option<ApplicationError>
    decreases a,
{
    if a == 0 {
        None
    } else {
        match locations_refusal(p, base, sorted, (a - 1) as nat) {
            Some(e) => Some(e),
            None => location_row_refusal(p, base, sorted, a - 1),
        }
    }
}

/// Why the Project at `i` is refused, given the Projects before it: its
/// identity repeats, its text is invalid, one of its locations read in
/// identity order is refused, or none of them is its label source.
pub open spec fn project_row_refusal(ps: Seq<ProjectSnapshotInput>, i: int) -> Option<ApplicationError> {
    let p = ps[i];
    let sorted = insertion_sorted(p.locations@);
    if exists|j: int| 0 <= j < i && (#[trigger] ps[j]).project_id == p.project_id {
        Some(ApplicationError::DuplicateSnapshotIdentity { entity: SnapshotEntity::Project })
    } else if !project_fields_ok(p) {
        Some(ApplicationError::InvalidSnapshotEntity { entity: SnapshotEntity::DisplayText })
    } else {
        match locations_refusal(p, location_index(ps.subrange(0, i)), sorted, sorted.len()) {
            Some(e) => Some(e),
            None => if exists|b: int| 0 <= b < sorted.len() && (#[trigger] sorted[b]).is_label_source {
                None
            } else {
                Some(ApplicationError::InvalidSnapshotEntity { entity: SnapshotEntity::Location })
            },
        }
    }
}

/// The first refusal among the first `n` Projects of the inventory.
pub open spec fn projects_refusal(ps: Seq<ProjectSnapshotInput>, n: nat) -> Option<ApplicationError>
    decreases n,
{
    if n == 0 {
        None
    } else {
        match projects_refusal(ps, (n - 1) as nat) {
            Some(e) => Some(e),
            None => project_row_refusal(ps, n - 1),
        }
    }
}

proof fn lemma_locations_refusal_sticks(
    p: ProjectSnapshotInput,
    base: Seq<(LocationId, ProjectId)>,
    sorted: Seq<LocationSnapshot>,
    a: nat,
    n: nat,
)
    requires
        a <= n,
        locations_refusal(p, base, sorted, a) is Some,
    ensures
        locations_refusal(p, base, sorted, n) == locations_refusal(p, base, sorted, a),
    decreases n - a,
{
    if a < n {
        lemma_locations_refusal_sticks(p, base, sorted, a, (n - 1) as nat);
    }
}

proof fn lemma_projects_refusal_sticks(ps: Seq<ProjectSnapshotInput>, i: nat, n: nat)
    requires
        i <= n,
        projects_refusal(ps, i) is Some,
    ensures
        projects_refusal(ps, n) == projects_refusal(ps, i),
    decreases n - i,
{
    if i < n {
        lemma_projects_refusal_sticks(ps, i, (n - 1) as nat);
    }
}

proof fn lemma_project_refused(ps: Seq<ProjectSnapshotInput>, i: int, e: ApplicationError)
    requires
        0 <= i < ps.len(),
        projects_refusal(ps, i as nat) is None,
        project_row_refusal(ps, i) == Some(e),
    ensures
        projects_refusal(ps, ps.len()) == Some(e),
{
    assert(projects_refusal(ps, (i + 1) as nat) == Some(e));
    lemma_projects_refusal_sticks(ps, (i + 1) as nat, ps.len());
}

proof fn lemma_location_refused(
    ps: Seq<ProjectSnapshotInput>,
    i: int,
    sorted: Seq<LocationSnapshot>,
    a: int,
    e: ApplicationError,
)
    requires
        0 <= i < ps.len(),
        0 <= a < sorted.len(),
        projects_refusal(ps, i as nat) is None,
        forall|m: int| 0 <= m < i ==> (#[trigger] ps[m]).project_id != ps[i].project_id,
        project_fields_ok(ps[i]),
        sorted == insertion_sorted(ps[i].locations@),
        locations_refusal(ps[i], location_index(ps.subrange(0, i)), sorted, a as nat) is None,
        location_row_refusal(ps[i], location_index(ps.subrange(0, i)), sorted, a) == Some(e),
    ensures
        projects_refusal(ps, ps.len()) == Some(e),
{
    let base = location_index(ps.subrange(0, i));
    assert(locations_refusal(ps[i], base, sorted, (a + 1) as nat) == Some(e));
    lemma_locations_refusal_sticks(ps[i], base, sorted, (a + 1) as nat, sorted.len());
    assert(project_row_refusal(ps, i) == Some(e));
    lemma_project_refused(ps, i, e);
}

/// The condition that a Project-inventory error reports.
pub open spec fn projects_error_evidence(ps: Seq<ProjectSnapshotInput>, e: ApplicationError) -> bool {
    match e {
        ApplicationError::DuplicateSnapshotIdentity { entity: SnapshotEntity::Project } =>
            !distinct_project_ids(ps),
        ApplicationError::DuplicateSnapshotIdentity { entity: SnapshotEntity::Location } =>
            !distinct_location_ids(ps),
        ApplicationError::InvalidSnapshotEntity { entity: SnapshotEntity::DisplayText } =>
            exists|i: int|
                0 <= i < ps.len() && (!project_fields_ok(#[trigger] ps[i]) || exists|a: int|
                    0 <= a < ps[i].locations@.len() && !location_text_ok(
                        #[trigger] ps[i].locations@[a],
                    )),
        ApplicationError::LocationProjectMismatch(lid) => exists|i: int, a: int|
            0 <= i < ps.len() && 0 <= a < ps[i].locations@.len() && (#[trigger] ps[i].locations@[a]).location_id
                == lid && ps[i].locations@[a].project_id != ps[i].project_id,
        ApplicationError::InvalidSnapshotEntity { entity: SnapshotEntity::Location } =>
            exists|i: int|
                0 <= i < ps.len() && (!has_label_source(#[trigger] ps[i]) || exists|a: int|
                    0 <= a < ps[i].locations@.len() && (#[trigger] ps[i].locations@[a]).is_label_source
                        && ps[i].locations@[a].location_id != ps[i].label_location_id),
        _ => false,
    }
}

proof fn lemma_location_index_prefix(ps: Seq<ProjectSnapshotInput>, i: int)
    requires
        0 <= i <= ps.len(),
    ensures
        location_index(ps.subrange(0, i)).len() <= location_index(ps).len(),
        location_index(ps.subrange(0, i)) =~= location_index(ps).subrange(
            0,
            location_index(ps.subrange(0, i)).len() as int,
        ),
    decreases ps.len(),
{
    if i == ps.len() {
        assert(ps.subrange(0, i) =~= ps);
    } else {
        let d = ps.drop_last();
        assert(ps.subrange(0, i) =~= d.subrange(0, i));
        lemma_location_index_prefix(d, i);
    }
}

proof fn lemma_location_index_step(ps: Seq<ProjectSnapshotInput>, i: int)
    requires
        0 <= i < ps.len(),
    ensures
        location_index(ps.subrange(0, i + 1)) == location_index(ps.subrange(0, i))
            + ps[i].locations@.map_values(|l: LocationSnapshot| location_entry(l)),
{
    let s = ps.subrange(0, i + 1);
    assert(s.drop_last() =~= ps.subrange(0, i));
    assert(s.last() == ps[i]);
}

proof fn lemma_projects_evidence_refutes(ps: Seq<ProjectSnapshotInput>, e: ApplicationError)
    requires
        projects_error_evidence(ps, e),
    ensures
        !projects_ok(ps),
{
    if projects_ok(ps) {
        match e {
            ApplicationError::InvalidSnapshotEntity { entity: SnapshotEntity::DisplayText } => {
                let i = choose|i: int|
                    0 <= i < ps.len() && (!project_fields_ok(#[trigger] ps[i]) || exists|a: int|
                        0 <= a < ps[i].locations@.len() && !location_text_ok(
                            #[trigger] ps[i].locations@[a],
                        ));
                assert(project_locations_ok(ps[i]));
            },
            ApplicationError::LocationProjectMismatch(lid) => {
                let (i, a) = choose|i: int, a: int|
                    0 <= i < ps.len() && 0 <= a < ps[i].locations@.len() && (
                    #[trigger] ps[i].locations@[a]).location_id == lid
                        && ps[i].locations@[a].project_id != ps[i].project_id;
                assert(project_locations_ok(ps[i]));
            },
            ApplicationError::InvalidSnapshotEntity { entity: SnapshotEntity::Location } => {
                let i = choose|i: int|
                    0 <= i < ps.len() && (!has_label_source(#[trigger] ps[i]) || exists|a: int|
                        0 <= a < ps[i].locations@.len()
                            && (#[trigger] ps[i].locations@[a]).is_label_source
                            && ps[i].locations@[a].location_id != ps[i].label_location_id);
                assert(project_locations_ok(ps[i]));
            },
            _ => {},
        }
    }
}

fn index_contains(index: &Vec<(LocationId, ProjectId)>, id: LocationId) -> (r: bool)
    ensures
        r == exists|k: int| 0 <= k < index@.len() && (#[trigger] index@[k]).0 == id,
{
    let mut k: usize = 0;
    while k < index.len()
        invariant
            k <= index.len(),
            forall|m: int| 0 <= m < k ==> (#[trigger] index@[m]).0 != id,
        decreases index.len() - k,
    {
        if index[k].0 == id {
            return true;
        }
        k = k + 1;
    }
    false
}

/// The entries hold a location with identity `id`.
pub open spec fn entries_have_id(idx: Seq<(LocationId, ProjectId)>, id: LocationId) -> bool {
    exists|k: int| 0 <= k < idx.len() && (#[trigger] idx[k]).0 == id
}

/// An earlier position of `sorted`, before `a`, holding the identity `id`.
fn position_before(sorted: &Vec<LocationSnapshot>, a: usize, id: LocationId) -> (r: Option<usize>)
    requires
        a <= sorted@.len(),
    ensures
        r matches Some(b) ==> b < a && sorted@[b as int].location_id == id,
        r is None ==> forall|b: int| 0 <= b < a ==> (#[trigger] sorted@[b]).location_id != id,
{
    let mut b: usize = 0;
    while b < a
        invariant
            a <= sorted@.len(),
            b <= a,
            forall|c: int| 0 <= c < b ==> (#[trigger] sorted@[c]).location_id != id,
        decreases a - b,
    {
        if sorted[b].location_id == id {
            return Some(b);
        }
        b = b + 1;
    }
    None
}

fn copy_location(l: &LocationSnapshot) -> (r: LocationSnapshot)
    ensures
        r == *l,
{
    LocationSnapshot {
        project_id: l.project_id,
        location_id: l.location_id,
        display_name: l.display_name.clone(),
        revision: l.revision,
        repository_fingerprint: clone_optional_text(&l.repository_fingerprint),
        origin_display: clone_optional_text(&l.origin_display),
        is_label_source: l.is_label_source,
    }
}

fn copy_locations(v: &Vec<LocationSnapshot>) -> (r: Vec<LocationSnapshot>)
    ensures
        r@ == v@,
{
    let mut r: Vec<LocationSnapshot> = Vec::new();
    let mut k: usize = 0;
    while k < v.len()
        invariant
            k <= v@.len(),
            r@ == v@.subrange(0, k as int),
        decreases v@.len() - k,
    {
        r.push(copy_location(&v[k]));
        proof {
            assert(v@.subrange(0, k + 1) =~= v@.subrange(0, k as int).push(v@[k as int]));
        }
        k = k + 1;
    }
    proof {
        assert(v@.subrange(0, v@.len() as int) =~= v@);
    }
    r
}

proof fn lemma_sorted_position(sorted: Seq<LocationSnapshot>, given: Seq<LocationSnapshot>, k: int) -> (x:
    int)
    requires
        is_permutation(sorted, given),
        0 <= k < sorted.len(),
    ensures
        0 <= x < given.len(),
        given[x] == sorted[k],
{
    let perm = choose|perm: Seq<int>| permutes(sorted, given, perm);
    perm[k]
}

proof fn lemma_given_position(sorted: Seq<LocationSnapshot>, given: Seq<LocationSnapshot>, y: int) -> (k:
    int)
    requires
        is_permutation(sorted, given),
        0 <= y < given.len(),
    ensures
        0 <= k < sorted.len(),
        sorted[k] == given[y],
{
    let perm = choose|perm: Seq<int>| permutes(sorted, given, perm);
    assert(position_covered(perm, y));
    choose|k: int| 0 <= k < perm.len() && #[trigger] perm[k] == y
}

proof fn lemma_sorted_pair(sorted: Seq<LocationSnapshot>, given: Seq<LocationSnapshot>, b: int, a: int) -> (r:
    (int, int))
    requires
        is_permutation(sorted, given),
        0 <= b < a < sorted.len(),
    ensures
        0 <= r.0 < given.len(),
        0 <= r.1 < given.len(),
        r.0 != r.1,
        given[r.0] == sorted[b],
        given[r.1] == sorted[a],
{
    let perm = choose|perm: Seq<int>| permutes(sorted, given, perm);
    assert(perm[b] != perm[a]);
    (perm[b], perm[a])
}

proof fn lemma_sorted_ids_distinct(sorted: Seq<LocationSnapshot>, given: Seq<LocationSnapshot>)
    requires
        is_permutation(sorted, given),
        forall|b: int, c: int|
            #![trigger sorted[b], sorted[c]]
            0 <= b < c < sorted.len() ==> sorted[b].location_id != sorted[c].location_id,
    ensures
        forall|y: int, z: int|
            #![trigger given[y], given[z]]
            0 <= y < z < given.len() ==> given[y].location_id != given[z].location_id,
{
    let perm = choose|perm: Seq<int>| permutes(sorted, given, perm);
    assert forall|y: int, z: int|
        #![trigger given[y], given[z]]
        0 <= y < z < given.len() implies given[y].location_id != given[z].location_id by {
        assert(position_covered(perm, y));
        assert(position_covered(perm, z));
        let ky = choose|k: int| 0 <= k < perm.len() && #[trigger] perm[k] == y;
        let kz = choose|k: int| 0 <= k < perm.len() && #[trigger] perm[k] == z;
        assert(sorted[ky] == given[y]);
        assert(sorted[kz] == given[z]);
        assert(ky != kz);
        if ky < kz {
            assert(sorted[ky].location_id != sorted[kz].location_id);
        } else {
            assert(sorted[kz].location_id != sorted[ky].location_id);
        }
    }
}

/// Validates the Project inventory and returns its location entries.
pub fn validate_projects(projects: &Vec<ProjectSnapshotInput>) -> (r: Result<
    Vec<(LocationId, ProjectId)>,
    ApplicationError,
>)
    ensures
        r is Ok <==> projects_ok(projects@),
        r matches Ok(index) ==> index@ == location_index(projects@),
        r matches Err(e) ==> projects_error_evidence(projects@, e),
        r matches Err(e) ==> projects_refusal(projects@, projects@.len()) == Some(e),
        r is Ok ==> projects_refusal(projects@, projects@.len()) is None,
{
    let ghost ps = projects@;
    let mut index: Vec<(LocationId, ProjectId)> = Vec::new();
    let mut i: usize = 0;
    proof {
        assert(ps.subrange(0, 0) =~= Seq::<ProjectSnapshotInput>::empty());
    }
    while i < projects.len()
        invariant
            ps == projects@,
            i <= ps.len(),
            index@ == location_index(ps.subrange(0, i as int)),
            distinct_entries(index@),
            forall|j: int, k: int|
                #![trigger ps[j], ps[k]]
                0 <= j < k < i ==> ps[j].project_id != ps[k].project_id,
            forall|j: int|
                0 <= j < i ==> project_fields_ok(#[trigger] ps[j]) && project_locations_ok(ps[j])
                    && has_label_source(ps[j]),
            projects_refusal(ps, i as nat) is None,
        decreases ps.len() - i,
    {
        let p = &projects[i];
        let mut j: usize = 0;
        while j < i
            invariant
                j <= i,
                i < ps.len(),
                ps == projects@,
                *p == ps[i as int],
                forall|m: int| 0 <= m < j ==> (#[trigger] ps[m]).project_id != p.project_id,
                projects_refusal(ps, i as nat) is None,
            decreases i - j,
        {
            if projects[j].project_id == p.project_id {
                proof {
                    assert(ps[j as int].project_id == ps[i as int].project_id);
                    assert(!distinct_project_ids(ps));
                    lemma_projects_evidence_refutes(
                        ps,
                        ApplicationError::DuplicateSnapshotIdentity { entity: SnapshotEntity::Project },
                    );
                    lemma_project_refused(
                        ps,
                        i as int,
                        ApplicationError::DuplicateSnapshotIdentity { entity: SnapshotEntity::Project },
                    );
                }
                return Err(ApplicationError::DuplicateSnapshotIdentity { entity: SnapshotEntity::Project });
            }
            j = j + 1;
        }
        let display = validate_text(p.display_name.as_str(), SnapshotEntity::DisplayText);
        let origin = validate_optional_text(&p.origin_display);
        let fingerprint = validate_optional_opaque(&p.repository_fingerprint);
        if display.is_err() || origin.is_err() || fingerprint.is_err() {
            proof {
                assert(!project_fields_ok(ps[i as int]));
                lemma_projects_evidence_refutes(
                    ps,
                    ApplicationError::InvalidSnapshotEntity { entity: SnapshotEntity::DisplayText },
                );
                lemma_project_refused(
                    ps,
                    i as int,
                    ApplicationError::InvalidSnapshotEntity { entity: SnapshotEntity::DisplayText },
                );
            }
            return Err(ApplicationError::InvalidSnapshotEntity { entity: SnapshotEntity::DisplayText });
        }
        let ghost base = index@;
        let sorted = sort_by_key(copy_locations(&p.locations));
        let n = sorted.len();
        proof {
            lemma_permutation_elements(sorted@, p.locations@);
        }
        let mut found_label = false;
        let mut a: usize = 0;
        while a < n
            invariant
                ps == projects@,
                i < ps.len(),
                *p == ps[i as int],
                n == sorted@.len(),
                n == p.locations@.len(),
                is_permutation(sorted@, p.locations@),
                a <= n,
                base == location_index(ps.subrange(0, i as int)),
                index@ == base,
                distinct_entries(base),
                forall|b: int| 0 <= b < a ==> location_ok(*p, #[trigger] sorted@[b]),
                forall|b: int| 0 <= b < a ==> !entries_have_id(base, (#[trigger] sorted@[b]).location_id),
                forall|b: int, c: int|
                    #![trigger sorted@[b], sorted@[c]]
                    0 <= b < c < a ==> sorted@[b].location_id != sorted@[c].location_id,
                found_label <==> exists|b: int| 0 <= b < a && (#[trigger] sorted@[b]).is_label_source,
                sorted@ == insertion_sorted(p.locations@),
                projects_refusal(ps, i as nat) is None,
                forall|m: int| 0 <= m < i ==> (#[trigger] ps[m]).project_id != ps[i as int].project_id,
                project_fields_ok(ps[i as int]),
                locations_refusal(*p, base, sorted@, a as nat) is None,
            decreases n - a,
        {
            let l = &sorted[a];
            let ghost mut x: int = 0;
            proof {
                x = lemma_sorted_position(sorted@, p.locations@, a as int);
            }
            if l.project_id != p.project_id {
                proof {
                    assert(ps[i as int].locations@[x] == *l);
                    lemma_projects_evidence_refutes(ps, ApplicationError::LocationProjectMismatch(l.location_id));
                    lemma_location_refused(
                        ps,
                        i as int,
                        sorted@,
                        a as int,
                        ApplicationError::LocationProjectMismatch(l.location_id),
                    );
                }
                return Err(ApplicationError::LocationProjectMismatch(l.location_id));
            }
            let in_index = index_contains(&index, l.location_id);
            let earlier = position_before(&sorted, a, l.location_id);
            if in_index || earlier.is_some() {
                proof {
                    lemma_location_index_step(ps, i as int);
                    lemma_location_index_prefix(ps, i + 1);
                    let full = location_index(ps);
                    let pre = location_index(ps.subrange(0, i + 1));
                    let entries = p.locations@.map_values(|l: LocationSnapshot| location_entry(l));
                    assert(pre == base + entries);
                    let m = base.len() as int;
                    if in_index {
                        let k = choose|k: int| 0 <= k < base.len() && (#[trigger] base[k]).0 == l.location_id;
                        assert(pre[k] == base[k]);
                        assert(pre[m + x] == entries[x]);
                        assert(full[k] == pre[k]);
                        assert(full[m + x] == pre[m + x]);
                    } else {
                        let b = earlier->Some_0 as int;
                        let (xb, xa) = lemma_sorted_pair(sorted@, p.locations@, b, a as int);
                        assert(pre[m + xb] == entries[xb]);
                        assert(pre[m + xa] == entries[xa]);
                        assert(full[m + xb] == pre[m + xb]);
                        assert(full[m + xa] == pre[m + xa]);
                        if xa < xb {
                            assert(full[m + xa].0 == full[m + xb].0);
                        }
                    }
                    assert(!distinct_entries(full));
                    lemma_projects_evidence_refutes(
                        ps,
                        ApplicationError::DuplicateSnapshotIdentity { entity: SnapshotEntity::Location },
                    );
                    if !in_index {
                        let b = earlier->Some_0 as int;
                        assert(sorted@[b].location_id == l.location_id);
                    }
                    lemma_location_refused(
                        ps,
                        i as int,
                        sorted@,
                        a as int,
                        ApplicationError::DuplicateSnapshotIdentity { entity: SnapshotEntity::Location },
                    );
                }
                return Err(ApplicationError::DuplicateSnapshotIdentity { entity: SnapshotEntity::Location });
            }
            let name = validate_text(l.display_name.as_str(), SnapshotEntity::DisplayText);
            let lorigin = validate_optional_text(&l.origin_display);
            let lfingerprint = validate_optional_opaque(&l.repository_fingerprint);
            if name.is_err() || lorigin.is_err() || lfingerprint.is_err() {
                proof {
                    assert(ps[i as int].locations@[x] == *l);
                    assert(!location_text_ok(ps[i as int].locations@[x]));
                    lemma_projects_evidence_refutes(
                        ps,
                        ApplicationError::InvalidSnapshotEntity { entity: SnapshotEntity::DisplayText },
                    );
                    lemma_location_refused(
                        ps,
                        i as int,
                        sorted@,
                        a as int,
                        ApplicationError::InvalidSnapshotEntity { entity: SnapshotEntity::DisplayText },
                    );
                }
                return Err(ApplicationError::InvalidSnapshotEntity { entity: SnapshotEntity::DisplayText });
            }
            if l.is_label_source {
                found_label = true;
                if l.location_id != p.label_location_id {
                    proof {
                        assert(ps[i as int].locations@[x] == *l);
                        lemma_projects_evidence_refutes(
                            ps,
                            ApplicationError::InvalidSnapshotEntity { entity: SnapshotEntity::Location },
                        );
                        lemma_location_refused(
                            ps,
                            i as int,
                            sorted@,
                            a as int,
                            ApplicationError::InvalidSnapshotEntity { entity: SnapshotEntity::Location },
                        );
                    }
                    return Err(ApplicationError::InvalidSnapshotEntity { entity: SnapshotEntity::Location });
                }
            }
            a = a + 1;
        }
        if !found_label {
            proof {
                assert forall|y: int| 0 <= y < p.locations@.len() implies !(
                #[trigger] p.locations@[y]).is_label_source by {
                    let k = lemma_given_position(sorted@, p.locations@, y);
                    assert(sorted@[k] == p.locations@[y]);
                }
                assert(!has_label_source(ps[i as int]));
                lemma_projects_evidence_refutes(
                    ps,
                    ApplicationError::InvalidSnapshotEntity { entity: SnapshotEntity::Location },
                );
                assert(project_row_refusal(ps, i as int) == Some(
                    ApplicationError::InvalidSnapshotEntity { entity: SnapshotEntity::Location },
                ));
                lemma_project_refused(
                    ps,
                    i as int,
                    ApplicationError::InvalidSnapshotEntity { entity: SnapshotEntity::Location },
                );
            }
            return Err(ApplicationError::InvalidSnapshotEntity { entity: SnapshotEntity::Location });
        }
        proof {
            lemma_sorted_ids_distinct(sorted@, p.locations@);
            assert forall|y: int| 0 <= y < p.locations@.len() implies location_ok(
                *p,
                #[trigger] p.locations@[y],
            ) && !entries_have_id(base, p.locations@[y].location_id) by {
                let k = lemma_given_position(sorted@, p.locations@, y);
                assert(sorted@[k] == p.locations@[y]);
            }
            let lb = choose|b: int| 0 <= b < n && (#[trigger] sorted@[b]).is_label_source;
            let y = lemma_sorted_position(sorted@, p.locations@, lb);
            assert(p.locations@[y].is_label_source);
            assert(p.locations@.subrange(0, 0).map_values(|l: LocationSnapshot| location_entry(l))
                =~= Seq::<(LocationId, ProjectId)>::empty());
            assert(index@ =~= base + p.locations@.subrange(0, 0).map_values(
                |l: LocationSnapshot| location_entry(l),
            ));
        }
        let mut q: usize = 0;
        while q < n
            invariant
                ps == projects@,
                i < ps.len(),
                *p == ps[i as int],
                n == p.locations@.len(),
                q <= n,
                base == location_index(ps.subrange(0, i as int)),
                index@ == base + p.locations@.subrange(0, q as int).map_values(
                    |l: LocationSnapshot| location_entry(l),
                ),
                distinct_entries(base),
                distinct_entries(index@),
                forall|y: int| 0 <= y < n ==> !entries_have_id(base, (#[trigger] p.locations@[y]).location_id),
                forall|y: int, z: int|
                    #![trigger p.locations@[y], p.locations@[z]]
                    0 <= y < z < n ==> p.locations@[y].location_id != p.locations@[z].location_id,
            decreases n - q,
        {
            let l = &p.locations[q];
            let ghost before = index@;
            index.push((l.location_id, l.project_id));
            proof {
                assert(p.locations@.subrange(0, q + 1).map_values(|l: LocationSnapshot| location_entry(l))
                    =~= p.locations@.subrange(0, q as int).map_values(
                    |l: LocationSnapshot| location_entry(l),
                ).push(location_entry(*l)));
                assert(index@ =~= base + p.locations@.subrange(0, q + 1).map_values(
                    |l: LocationSnapshot| location_entry(l),
                ));
                assert forall|u: int, v: int|
                    #![trigger index@[u], index@[v]]
                    0 <= u < v < index@.len() implies index@[u].0 != index@[v].0 by {
                    let m = base.len() as int;
                    if v == before.len() {
                        assert(index@[v].0 == p.locations@[q as int].location_id);
                        if u < m {
                            assert(index@[u] == base[u]);
                            if index@[u].0 == index@[v].0 {
                                assert(entries_have_id(base, p.locations@[q as int].location_id));
                            }
                        } else {
                            assert(index@[u] == before[u]);
                            assert(before[u] == location_entry(p.locations@[u - m]));
                            assert(p.locations@[u - m].location_id != p.locations@[q as int].location_id);
                        }
                    } else {
                        assert(index@[u] == before[u]);
                        assert(index@[v] == before[v]);
                    }
                }
            }
            q = q + 1;
        }
        proof {
            lemma_location_index_step(ps, i as int);
            assert(p.locations@.subrange(0, n as int) =~= p.locations@);
            assert(project_locations_ok(ps[i as int]));
            assert(has_label_source(ps[i as int]));
            assert(project_row_refusal(ps, i as int) is None);
            assert(projects_refusal(ps, (i + 1) as nat) is None);
        }
        i = i + 1;
    }
    proof {
        assert(ps.subrange(0, i as int) =~= ps);
    }
    Ok(index)
}


/// Some Project of the inventory has the identity.
pub open spec fn project_known(ps: Seq<ProjectSnapshotInput>, pid: ProjectId) -> bool {
    exists|i: int| 0 <= i < ps.len() && (#[trigger] ps[i]).project_id == pid
}

/// Some location entry has the identity.
pub open spec fn location_known(idx: Seq<(LocationId, ProjectId)>, lid: LocationId) -> bool {
    exists|k: int| 0 <= k < idx.len() && (#[trigger] idx[k]).0 == lid
}

/// Every location entry with the identity belongs to the Project.
pub open spec fn location_owned_by(
    idx: Seq<(LocationId, ProjectId)>,
    lid: LocationId,
    pid: ProjectId,
) -> bool {
    forall|k: int| 0 <= k < idx.len() && (#[trigger] idx[k]).0 == lid ==> idx[k].1 == pid
}

/// The scalar fields of a Workstream row are in range.
pub open spec fn workstream_scalars_ok(w: WorkstreamSnapshotInput) -> bool {
    &&& w.last_activity_sequence >= 0
    &&& w.last_activity_at_millis matches Some(t) ==> t >= 0
}

/// One Workstream row names a known Project and one of its locations.
pub open spec fn workstream_ok(ps: Seq<ProjectSnapshotInput>, w: WorkstreamSnapshotInput) -> bool {
    &&& project_known(ps, w.project_id)
    &&& location_known(location_index(ps), w.location_id)
    &&& location_owned_by(location_index(ps), w.location_id, w.project_id)
    &&& workstream_scalars_ok(w)
    &&& optional_text_ok(w.native_name)
}

pub open spec fn distinct_workstream_ids(ws: Seq<WorkstreamSnapshotInput>) -> bool {
    forall|i: int, j: int|
        #![trigger ws[i], ws[j]]
        0 <= i < j < ws.len() ==> ws[i].workstream_id != ws[j].workstream_id
}

/// The Workstream rows are consistent with the Project inventory.
pub open spec fn workstreams_ok(
    ps: Seq<ProjectSnapshotInput>,
    ws: Seq<WorkstreamSnapshotInput>,
) -> bool {
    &&& distinct_workstream_ids(ws)
    &&& forall|i: int| 0 <= i < ws.len() ==> workstream_ok(ps, #[trigger] ws[i])
}

/// Why the Workstream row at `i` refuses the snapshot, in the order the rows
/// are checked: an unknown Project, an unknown location, a location of
/// another Project, an identity repeated from an earlier row, scalars out of
/// range, then an unsafe native name.
pub open spec fn workstream_row_refusal(
    ps: Seq<ProjectSnapshotInput>,
    ws: Seq<WorkstreamSnapshotInput>,
    i: int,
) -> Option<ApplicationError> {
    let w = ws[i];
    if !project_known(ps, w.project_id) {
        Some(ApplicationError::UnknownSnapshotProject(w.project_id))
    } else if !location_known(location_index(ps), w.location_id) {
        Some(ApplicationError::UnknownSnapshotLocation(w.location_id))
    } else if !location_owned_by(location_index(ps), w.location_id, w.project_id) {
        Some(ApplicationError::WorkstreamProjectMismatch(w.workstream_id))
    } else if exists|j: int| 0 <= j < i && (#[trigger] ws[j]).workstream_id == w.workstream_id {
        Some(ApplicationError::DuplicateSnapshotIdentity { entity: SnapshotEntity::Workstream })
    } else if !workstream_scalars_ok(w) {
        Some(ApplicationError::InvalidSnapshotEntity { entity: SnapshotEntity::Workstream })
    } else if !optional_text_ok(w.native_name) {
        Some(ApplicationError::InvalidSnapshotEntity { entity: SnapshotEntity::NativeName })
    } else {
        None
    }
}

/// The Workstream rows are refused with `e`: the first row that refuses the
/// snapshot refuses it with `e`.
pub open spec fn workstreams_refusal(
    ps: Seq<ProjectSnapshotInput>,
    ws: Seq<WorkstreamSnapshotInput>,
    e: ApplicationError,
) -> bool {
    exists|i: int|
        0 <= i < ws.len() && (forall|k: int|
            0 <= k < i ==> #[trigger] workstream_row_refusal(ps, ws, k) is None)
            && #[trigger] workstream_row_refusal(ps, ws, i) == Some(e)
}

fn find_location(index: &Vec<(LocationId, ProjectId)>, id: LocationId) -> (r: Option<usize>)
    ensures
        r is None <==> !location_known(index@, id),
        r matches Some(k) ==> k < index@.len() && index@[k as int].0 == id,
{
    let mut k: usize = 0;
    while k < index.len()
        invariant
            k <= index.len(),
            forall|m: int| 0 <= m < k ==> (#[trigger] index@[m]).0 != id,
        decreases index.len() - k,
    {
        if index[k].0 == id {
            return Some(k);
        }
        k = k + 1;
    }
    None
}

fn contains_project(projects: &Vec<ProjectSnapshotInput>, id: ProjectId) -> (r: bool)
    ensures
        r == project_known(projects@, id),
{
    let mut k: usize = 0;
    while k < projects.len()
        invariant
            k <= projects.len(),
            forall|m: int| 0 <= m < k ==> (#[trigger] projects@[m]).project_id != id,
        decreases projects.len() - k,
    {
        if projects[k].project_id == id {
            return true;
        }
        k = k + 1;
    }
    false
}

/// Validates the Workstream rows against a valid Project inventory.
pub fn validate_workstreams(
    projects: &Vec<ProjectSnapshotInput>,
    index: &Vec<(LocationId, ProjectId)>,
    workstreams: &Vec<WorkstreamSnapshotInput>,
) -> (r: Result<(), ApplicationError>)
    requires
        projects_ok(projects@),
        index@ == location_index(projects@),
    ensures
        r is Ok <==> workstreams_ok(projects@, workstreams@),
        r matches Err(e) ==> workstreams_refusal(projects@, workstreams@, e),
{
    let ghost ps = projects@;
    let ghost ws = workstreams@;
    let mut i: usize = 0;
    while i < workstreams.len()
        invariant
            ps == projects@,
            ws == workstreams@,
            index@ == location_index(ps),
            distinct_entries(index@),
            i <= ws.len(),
            forall|j: int, k: int|
                #![trigger ws[j], ws[k]]
                0 <= j < k < i ==> ws[j].workstream_id != ws[k].workstream_id,
            forall|j: int| 0 <= j < i ==> workstream_ok(ps, #[trigger] ws[j]),
            forall|k: int| 0 <= k < i ==> #[trigger] workstream_row_refusal(ps, ws, k) is None,
        decreases ws.len() - i,
    {
        let w = &workstreams[i];
        if !contains_project(projects, w.project_id) {
            proof {
                assert(ws[i as int].project_id == w.project_id);
                assert(workstream_row_refusal(ps, ws, i as int) == Some(
                    ApplicationError::UnknownSnapshotProject(w.project_id),
                ));
            }
            return Err(ApplicationError::UnknownSnapshotProject(w.project_id));
        }
        let found = find_location(index, w.location_id);
        match found {
            None => {
                proof {
                    assert(ws[i as int].location_id == w.location_id);
                    assert(workstream_row_refusal(ps, ws, i as int) == Some(
                        ApplicationError::UnknownSnapshotLocation(w.location_id),
                    ));
                }
                return Err(ApplicationError::UnknownSnapshotLocation(w.location_id));
            },
            Some(k) => {
                if index[k].1 != w.project_id {
                    proof {
                        assert(ws[i as int].workstream_id == w.workstream_id);
                        assert(!workstream_ok(ps, ws[i as int]));
                        assert(!location_owned_by(location_index(ps), w.location_id, w.project_id));
                        assert(workstream_row_refusal(ps, ws, i as int) == Some(
                            ApplicationError::WorkstreamProjectMismatch(w.workstream_id),
                        ));
                    }
                    return Err(ApplicationError::WorkstreamProjectMismatch(w.workstream_id));
                }
                proof {
                    assert forall|m: int|
                        0 <= m < index@.len() && (#[trigger] index@[m]).0 == w.location_id implies index@[m].1
                        == w.project_id by {
                        if m < k {
                            assert(index@[m].0 != index@[k as int].0);
                        } else if m > k {
                            assert(index@[k as int].0 != index@[m].0);
                        }
                    }
                }
            },
        }
        let mut j: usize = 0;
        while j < i
            invariant
                j <= i,
                i < ws.len(),
                ws == workstreams@,
                ps == projects@,
                *w == ws[i as int],
                project_known(ps, w.project_id),
                location_known(location_index(ps), w.location_id),
                location_owned_by(location_index(ps), w.location_id, w.project_id),
                forall|k: int| 0 <= k < i ==> #[trigger] workstream_row_refusal(ps, ws, k) is None,
                forall|m: int| 0 <= m < j ==> (#[trigger] ws[m]).workstream_id != w.workstream_id,
            decreases i - j,
        {
            if workstreams[j].workstream_id == w.workstream_id {
                proof {
                    assert(ws[j as int].workstream_id == ws[i as int].workstream_id);
                    assert(workstream_row_refusal(ps, ws, i as int) == Some(
                        ApplicationError::DuplicateSnapshotIdentity {
                            entity: SnapshotEntity::Workstream,
                        },
                    ));
                }
                return Err(ApplicationError::DuplicateSnapshotIdentity { entity: SnapshotEntity::Workstream });
            }
            j = j + 1;
        }
        proof {
            assert(!exists|m: int| 0 <= m < i && (#[trigger] ws[m]).workstream_id == w.workstream_id);
        }
        let bad_time = match w.last_activity_at_millis {
            Some(t) => t < 0,
            None => false,
        };
        if w.last_activity_sequence < 0 || bad_time {
            proof {
                assert(!workstream_scalars_ok(ws[i as int]));
                assert(workstream_row_refusal(ps, ws, i as int) == Some(
                    ApplicationError::InvalidSnapshotEntity { entity: SnapshotEntity::Workstream },
                ));
            }
            return Err(ApplicationError::InvalidSnapshotEntity { entity: SnapshotEntity::Workstream });
        }
        let name_ok = match &w.native_name {
            Some(name) => validate_text(name.as_str(), SnapshotEntity::NativeName).is_ok(),
            None => true,
        };
        if !name_ok {
            proof {
                assert(!optional_text_ok(ws[i as int].native_name));
                assert(workstream_row_refusal(ps, ws, i as int) == Some(
                    ApplicationError::InvalidSnapshotEntity { entity: SnapshotEntity::NativeName },
                ));
            }
            return Err(ApplicationError::InvalidSnapshotEntity { entity: SnapshotEntity::NativeName });
        }
        proof {
            assert(workstream_row_refusal(ps, ws, i as int) is None);
        }
        i = i + 1;
    }
    Ok(())
}


/// Some Workstream row has the identity.
pub open spec fn workstream_known(ws: Seq<WorkstreamSnapshotInput>, wid: WorkstreamId) -> bool {
    exists|i: int| 0 <= i < ws.len() && (#[trigger] ws[i]).workstream_id == wid
}

/// A fork operation names the Workstream it forks.
pub open spec fn fork_source_ok(ws: Seq<WorkstreamSnapshotInput>, op: OperationSnapshot) -> bool {
    op.kind == OperationKind::Fork ==> (op.source_workstream_id matches Some(source)
        && workstream_known(ws, source))
}

pub open spec fn distinct_operation_ids(ops: Seq<OperationSnapshot>) -> bool {
    forall|i: int, j: int|
        #![trigger ops[i], ops[j]]
        0 <= i < j < ops.len() ==> ops[i].operation_id != ops[j].operation_id
}

/// The unresolved operations are distinct, unresolved, and name their sources.
pub open spec fn operations_ok(ws: Seq<WorkstreamSnapshotInput>, ops: Seq<OperationSnapshot>) -> bool {
    &&& distinct_operation_ids(ops)
    &&& forall|i: int|
        0 <= i < ops.len() ==> !phase_is_terminal((#[trigger] ops[i]).phase) && fork_source_ok(
            ws,
            ops[i],
        )
}

/// Why the operation row at `i` refuses the snapshot, in the order the rows
/// are checked: an identity repeated from an earlier row, a terminal phase,
/// then a fork without a known source.
pub open spec fn operation_row_refusal(
    ws: Seq<WorkstreamSnapshotInput>,
    ops: Seq<OperationSnapshot>,
    i: int,
) -> Option<ApplicationError> {
    let op = ops[i];
    if exists|j: int| 0 <= j < i && (#[trigger] ops[j]).operation_id == op.operation_id {
        Some(ApplicationError::DuplicateSnapshotIdentity { entity: SnapshotEntity::Operation })
    } else if phase_is_terminal(op.phase) {
        Some(ApplicationError::TerminalOperation(op.operation_id))
    } else if !fork_source_ok(ws, op) {
        Some(ApplicationError::InvalidSnapshotEntity { entity: SnapshotEntity::Operation })
    } else {
        None
    }
}

/// The operation rows are refused with `e`: the first row that refuses the
/// snapshot refuses it with `e`.
pub open spec fn operations_refusal(
    ws: Seq<WorkstreamSnapshotInput>,
    ops: Seq<OperationSnapshot>,
    e: ApplicationError,
) -> bool {
    exists|i: int|
        0 <= i < ops.len() && (forall|k: int|
            0 <= k < i ==> #[trigger] operation_row_refusal(ws, ops, k) is None)
            && #[trigger] operation_row_refusal(ws, ops, i) == Some(e)
}

fn contains_workstream(workstreams: &Vec<WorkstreamSnapshotInput>, id: WorkstreamId) -> (r: bool)
    ensures
        r == workstream_known(workstreams@, id),
{
    let mut k: usize = 0;
    while k < workstreams.len()
        invariant
            k <= workstreams.len(),
            forall|m: int| 0 <= m < k ==> (#[trigger] workstreams@[m]).workstream_id != id,
        decreases workstreams.len() - k,
    {
        if workstreams[k].workstream_id == id {
            return true;
        }
        k = k + 1;
    }
    false
}

/// Validates the unresolved operations against the Workstream rows.
pub fn validate_operations(
    workstreams: &Vec<WorkstreamSnapshotInput>,
    operations: &Vec<OperationSnapshot>,
) -> (r: Result<(), ApplicationError>)
    ensures
        r is Ok <==> operations_ok(workstreams@, operations@),
        r matches Err(e) ==> operations_refusal(workstreams@, operations@, e),
{
    let ghost ops = operations@;
    let mut i: usize = 0;
    while i < operations.len()
        invariant
            ops == operations@,
            i <= ops.len(),
            forall|j: int, k: int|
                #![trigger ops[j], ops[k]]
                0 <= j < k < i ==> ops[j].operation_id != ops[k].operation_id,
            forall|j: int|
                0 <= j < i ==> !phase_is_terminal((#[trigger] ops[j]).phase) && fork_source_ok(
                    workstreams@,
                    ops[j],
                ),
            forall|k: int| 0 <= k < i ==> #[trigger] operation_row_refusal(workstreams@, ops, k) is None,
        decreases ops.len() - i,
    {
        let op = operations[i];
        let mut j: usize = 0;
        while j < i
            invariant
                j <= i,
                i < ops.len(),
                ops == operations@,
                op == ops[i as int],
                forall|k: int| 0 <= k < i ==> #[trigger] operation_row_refusal(workstreams@, ops, k) is None,
                forall|m: int| 0 <= m < j ==> (#[trigger] ops[m]).operation_id != op.operation_id,
            decreases i - j,
        {
            if operations[j].operation_id == op.operation_id {
                proof {
                    assert(ops[j as int].operation_id == ops[i as int].operation_id);
                    assert(operation_row_refusal(workstreams@, ops, i as int) == Some(
                        ApplicationError::DuplicateSnapshotIdentity {
                            entity: SnapshotEntity::Operation,
                        },
                    ));
                }
                return Err(ApplicationError::DuplicateSnapshotIdentity { entity: SnapshotEntity::Operation });
            }
            j = j + 1;
        }
        proof {
            assert(!exists|m: int| 0 <= m < i && (#[trigger] ops[m]).operation_id == op.operation_id);
        }
        if op.phase.is_terminal() {
            proof {
                assert(ops[i as int].operation_id == op.operation_id);
                assert(operation_row_refusal(workstreams@, ops, i as int) == Some(
                    ApplicationError::TerminalOperation(op.operation_id),
                ));
            }
            return Err(ApplicationError::TerminalOperation(op.operation_id));
        }
        if op.kind == OperationKind::Fork {
            let known = match op.source_workstream_id {
                Some(source) => contains_workstream(workstreams, source),
                None => false,
            };
            if !known {
                proof {
                    assert(!fork_source_ok(workstreams@, ops[i as int]));
                    assert(operation_row_refusal(workstreams@, ops, i as int) == Some(
                        ApplicationError::InvalidSnapshotEntity { entity: SnapshotEntity::Operation },
                    ));
                }
                return Err(ApplicationError::InvalidSnapshotEntity { entity: SnapshotEntity::Operation });
            }
        }
        proof {
            assert(operation_row_refusal(workstreams@, ops, i as int) is None);
        }
        i = i + 1;
    }
    Ok(())
}

/// Some capability row is for the provider.
pub open spec fn provider_present(cs: Seq<ProviderCapability>, p: ProviderKind) -> bool {
    exists|i: int| 0 <= i < cs.len() && (#[trigger] cs[i]).provider == p
}

/// Two capability rows are for the provider.
pub open spec fn provider_repeated(cs: Seq<ProviderCapability>, p: ProviderKind) -> bool {
    exists|i: int, j: int|
        #![trigger cs[i], cs[j]]
        0 <= i < j < cs.len() && cs[i].provider == p && cs[j].provider == p
}

/// Every capability row for the provider is consistent.
pub open spec fn provider_rows_ok(cs: Seq<ProviderCapability>, p: ProviderKind) -> bool {
    forall|i: int| 0 <= i < cs.len() && (#[trigger] cs[i]).provider == p ==> capability_ok(cs[i])
}

/// The error the capability rows are refused with, in the order the
/// projection checks them: duplicates first, then each provider in canonical
/// order for presence and consistency.
pub open spec fn capabilities_error(cs: Seq<ProviderCapability>) -> Option<ApplicationError> {
    if provider_repeated(cs, ProviderKind::Codex) {
        Some(ApplicationError::DuplicateProviderCapability(ProviderKind::Codex))
    } else if provider_repeated(cs, ProviderKind::OpenCode) {
        Some(ApplicationError::DuplicateProviderCapability(ProviderKind::OpenCode))
    } else if !provider_present(cs, ProviderKind::Codex) {
        Some(ApplicationError::MissingProviderCapability(ProviderKind::Codex))
    } else if !provider_rows_ok(cs, ProviderKind::Codex) {
        Some(ApplicationError::InvalidProviderCapability(ProviderKind::Codex))
    } else if !provider_present(cs, ProviderKind::OpenCode) {
        Some(ApplicationError::MissingProviderCapability(ProviderKind::OpenCode))
    } else if !provider_rows_ok(cs, ProviderKind::OpenCode) {
        Some(ApplicationError::InvalidProviderCapability(ProviderKind::OpenCode))
    } else {
        None
    }
}

/// The first row for the provider, and whether a second one follows it.
fn provider_rows(caps: &Vec<ProviderCapability>, p: ProviderKind) -> (r: (Option<usize>, bool))
    ensures
        r.0 is None <==> !provider_present(caps@, p),
        r.0 matches Some(k) ==> k < caps@.len() && caps@[k as int].provider == p && forall|m: int|
            0 <= m < k ==> (#[trigger] caps@[m]).provider != p,
        r.1 == provider_repeated(caps@, p),
{
    let mut first: Option<usize> = None;
    let mut k: usize = 0;
    while k < caps.len()
        invariant
            k <= caps.len(),
            first is None ==> forall|m: int| 0 <= m < k ==> (#[trigger] caps@[m]).provider != p,
            first matches Some(f) ==> f < k && caps@[f as int].provider == p && forall|m: int|
                0 <= m < f ==> (#[trigger] caps@[m]).provider != p,
            first matches Some(f) ==> forall|m: int| f < m < k ==> (#[trigger] caps@[m]).provider != p,
        decreases caps.len() - k,
    {
        if caps[k].provider == p {
            match first {
                Some(f) => {
                    proof {
                        assert(caps@[f as int].provider == p && caps@[k as int].provider == p);
                    }
                    return (first, true);
                },
                None => {
                    first = Some(k);
                },
            }
        }
        k = k + 1;
    }
    proof {
        if provider_repeated(caps@, p) {
            let (x, y) = choose|x: int, y: int|
                #![trigger caps@[x], caps@[y]]
                0 <= x < y < caps@.len() && caps@[x].provider == p && caps@[y].provider == p;
            assert(caps@[x].provider == p);
        }
    }
    (first, false)
}

/// Validates the provider capability rows.
pub fn validate_capabilities(caps: &Vec<ProviderCapability>) -> (r: Result<(), ApplicationError>)
    ensures
        r == (match capabilities_error(caps@) {
            Some(e) => Err(e),
            None => Ok::<(), ApplicationError>(()),
        }),
{
    let (codex, codex_repeated) = provider_rows(caps, ProviderKind::Codex);
    let (opencode, opencode_repeated) = provider_rows(caps, ProviderKind::OpenCode);
    if codex_repeated {
        return Err(ApplicationError::DuplicateProviderCapability(ProviderKind::Codex));
    }
    if opencode_repeated {
        return Err(ApplicationError::DuplicateProviderCapability(ProviderKind::OpenCode));
    }
    match codex {
        None => {
            return Err(ApplicationError::MissingProviderCapability(ProviderKind::Codex));
        },
        Some(k) => {
            if validate_provider_capability(&caps[k]).is_err() {
                return Err(ApplicationError::InvalidProviderCapability(ProviderKind::Codex));
            }
            proof {
                assert forall|m: int|
                    0 <= m < caps@.len() && (#[trigger] caps@[m]).provider
                        == ProviderKind::Codex implies capability_ok(caps@[m]) by {
                    if m != k {
                        if m < k {
                            assert(caps@[m].provider != ProviderKind::Codex);
                        } else {
                            assert(!provider_repeated(caps@, ProviderKind::Codex));
                            assert(caps@[k as int].provider == ProviderKind::Codex);
                        }
                    }
                }
            }
        },
    }
    match opencode {
        None => {
            return Err(ApplicationError::MissingProviderCapability(ProviderKind::OpenCode));
        },
        Some(k) => {
            if validate_provider_capability(&caps[k]).is_err() {
                return Err(ApplicationError::InvalidProviderCapability(ProviderKind::OpenCode));
            }
            proof {
                assert forall|m: int|
                    0 <= m < caps@.len() && (#[trigger] caps@[m]).provider
                        == ProviderKind::OpenCode implies capability_ok(caps@[m]) by {
                    if m != k {
                        if m < k {
                            assert(caps@[m].provider != ProviderKind::OpenCode);
                        } else {
                            assert(!provider_repeated(caps@, ProviderKind::OpenCode));
                            assert(caps@[k as int].provider == ProviderKind::OpenCode);
                        }
                    }
                }
            }
        },
    }
    Ok(())
}


impl SortKey for ProviderCapability {
    open spec fn key_le(&self, other: &Self) -> bool {
        provider_rank(self.provider) <= provider_rank(other.provider)
    }

    fn le(&self, other: &Self) -> (r: bool) {
        self.provider.rank() <= other.provider.rank()
    }

    proof fn lemma_key_le_total(a: &Self, b: &Self) {
    }

    proof fn lemma_key_le_transitive(a: &Self, b: &Self, c: &Self) {
    }
}

impl SortKey for OperationSnapshot {
    open spec fn key_le(&self, other: &Self) -> bool {
        self.operation_id.value <= other.operation_id.value
    }

    fn le(&self, other: &Self) -> (r: bool) {
        self.operation_id.value <= other.operation_id.value
    }

    proof fn lemma_key_le_total(a: &Self, b: &Self) {
    }

    proof fn lemma_key_le_transitive(a: &Self, b: &Self, c: &Self) {
    }
}

impl SortKey for ProjectSnapshot {
    open spec fn key_le(&self, other: &Self) -> bool {
        self.project_id.value <= other.project_id.value
    }

    fn le(&self, other: &Self) -> (r: bool) {
        self.project_id.value <= other.project_id.value
    }

    proof fn lemma_key_le_total(a: &Self, b: &Self) {
    }

    proof fn lemma_key_le_transitive(a: &Self, b: &Self, c: &Self) {
    }
}

/// Newest activity first, then Workstream identity.
impl SortKey for WorkstreamSnapshot {
    open spec fn key_le(&self, other: &Self) -> bool {
        self.last_activity_sequence > other.last_activity_sequence || (self.last_activity_sequence
            == other.last_activity_sequence && self.workstream_id.value
            <= other.workstream_id.value)
    }

    fn le(&self, other: &Self) -> (r: bool) {
        self.last_activity_sequence > other.last_activity_sequence || (self.last_activity_sequence
            == other.last_activity_sequence && self.workstream_id.value
            <= other.workstream_id.value)
    }

    proof fn lemma_key_le_total(a: &Self, b: &Self) {
    }

    proof fn lemma_key_le_transitive(a: &Self, b: &Self, c: &Self) {
    }
}

/// Newest group activity first, then Project identity.
impl SortKey for ProjectWorkstreamGroup {
    open spec fn key_le(&self, other: &Self) -> bool {
        self.max_activity_sequence > other.max_activity_sequence || (self.max_activity_sequence
            == other.max_activity_sequence && self.project_id.value <= other.project_id.value)
    }

    fn le(&self, other: &Self) -> (r: bool) {
        self.max_activity_sequence > other.max_activity_sequence || (self.max_activity_sequence
            == other.max_activity_sequence && self.project_id.value <= other.project_id.value)
    }

    proof fn lemma_key_le_total(a: &Self, b: &Self) {
    }

    proof fn lemma_key_le_transitive(a: &Self, b: &Self, c: &Self) {
    }
}

/// The projection row of one Workstream input.
pub open spec fn snapshot_of(w: WorkstreamSnapshotInput) -> WorkstreamSnapshot {
    WorkstreamSnapshot {
        project_id: w.project_id,
        location_id: w.location_id,
        workstream_id: w.workstream_id,
        provider: w.provider,
        lifecycle: w.lifecycle,
        archived: w.archived,
        last_activity_sequence: w.last_activity_sequence,
        last_activity_at_millis: w.last_activity_at_millis,
        revision: w.revision,
        runtime: w.runtime,
        attention: w.attention,
        native_name: w.native_name,
    }
}

/// The rows of one Project's active or archived scope, in input order.
pub open spec fn scope_members(
    ws: Seq<WorkstreamSnapshotInput>,
    pid: ProjectId,
    archived: bool,
) -> Seq<WorkstreamSnapshot>
    decreases ws.len(),
{
    if ws.len() == 0 {
        Seq::empty()
    } else {
        let rest = scope_members(ws.drop_last(), pid, archived);
        if ws.last().project_id == pid && ws.last().archived == archived {
            rest.push(snapshot_of(ws.last()))
        } else {
            rest
        }
    }
}

/// One group holds its Project's scope rows, newest first.
#[verifier::opaque]
pub open spec fn group_ok(
    g: ProjectWorkstreamGroup,
    ws: Seq<WorkstreamSnapshotInput>,
    archived: bool,
) -> bool {
    &&& g.workstreams@.len() > 0
    &&& is_permutation(g.workstreams@, scope_members(ws, g.project_id, archived))
    &&& sorted_by_key(g.workstreams@)
    &&& g.max_activity_sequence == g.workstreams@[0].last_activity_sequence
}

/// The groups of one scope: one per Project with rows in the scope, each
/// holding exactly those rows, ordered newest group first.
pub open spec fn groups_ok(
    gs: Seq<ProjectWorkstreamGroup>,
    ps: Seq<ProjectSnapshotInput>,
    ws: Seq<WorkstreamSnapshotInput>,
    archived: bool,
) -> bool {
    &&& sorted_by_key(gs)
    &&& forall|g: int| 0 <= g < gs.len() ==> group_ok(#[trigger] gs[g], ws, archived)
    &&& forall|g: int| 0 <= g < gs.len() ==> project_known(ps, (#[trigger] gs[g]).project_id)
    &&& forall|g: int, h: int|
        #![trigger gs[g], gs[h]]
        0 <= g < h < gs.len() ==> gs[g].project_id != gs[h].project_id
    &&& forall|i: int|
        0 <= i < ps.len() && scope_members(ws, (#[trigger] ps[i]).project_id, archived).len() > 0
            ==> exists|g: int| 0 <= g < gs.len() && (#[trigger] gs[g]).project_id == ps[i].project_id
}

fn clone_optional_text(value: &Option<String>) -> (r: Option<String>)
    ensures
        r == *value,
{
    match value {
        Some(text) => Some(text.clone()),
        None => None,
    }
}

fn snapshot_row(w: &WorkstreamSnapshotInput) -> (r: WorkstreamSnapshot)
    ensures
        r == snapshot_of(*w),
{
    WorkstreamSnapshot {
        project_id: w.project_id,
        location_id: w.location_id,
        workstream_id: w.workstream_id,
        provider: w.provider,
        lifecycle: w.lifecycle,
        archived: w.archived,
        last_activity_sequence: w.last_activity_sequence,
        last_activity_at_millis: w.last_activity_at_millis,
        revision: w.revision,
        runtime: w.runtime,
        attention: w.attention,
        native_name: clone_optional_text(&w.native_name),
    }
}

/// The group of one Project's active or archived rows, if it has any.
pub fn workstream_group(
    workstreams: &Vec<WorkstreamSnapshotInput>,
    project_id: ProjectId,
    archived: bool,
) -> (r: Option<ProjectWorkstreamGroup>)
    ensures
        r is None <==> scope_members(workstreams@, project_id, archived).len() == 0,
        r matches Some(g) ==> g.project_id == project_id && group_ok(g, workstreams@, archived),
{
    let ghost ws = workstreams@;
    let mut members: Vec<WorkstreamSnapshot> = Vec::new();
    let mut k: usize = 0;
    proof {
        assert(ws.subrange(0, 0) =~= Seq::<WorkstreamSnapshotInput>::empty());
    }
    while k < workstreams.len()
        invariant
            ws == workstreams@,
            k <= ws.len(),
            members@ == scope_members(ws.subrange(0, k as int), project_id, archived),
        decreases ws.len() - k,
    {
        let w = &workstreams[k];
        proof {
            assert(ws.subrange(0, k + 1).drop_last() =~= ws.subrange(0, k as int));
        }
        if w.project_id == project_id && w.archived == archived {
            members.push(snapshot_row(w));
        }
        k = k + 1;
    }
    proof {
        assert(ws.subrange(0, k as int) =~= ws);
    }
    if members.len() == 0 {
        return None;
    }
    let sorted = sort_by_key(members);
    let max_activity_sequence = sorted[0].last_activity_sequence;
    proof {
        reveal(group_ok);
    }
    Some(ProjectWorkstreamGroup { project_id, max_activity_sequence, workstreams: sorted })
}


proof fn lemma_groups_reordered(
    r: Seq<ProjectWorkstreamGroup>,
    v: Seq<ProjectWorkstreamGroup>,
    ps: Seq<ProjectSnapshotInput>,
    ws: Seq<WorkstreamSnapshotInput>,
    archived: bool,
)
    requires
        is_permutation(r, v),
        sorted_by_key(r),
        forall|g: int| 0 <= g < v.len() ==> group_ok(#[trigger] v[g], ws, archived),
        forall|g: int| 0 <= g < v.len() ==> project_known(ps, (#[trigger] v[g]).project_id),
        forall|g: int, h: int|
            #![trigger v[g], v[h]]
            0 <= g < v.len() && 0 <= h < v.len() && g != h ==> v[g].project_id != v[h].project_id,
        forall|i: int|
            0 <= i < ps.len() && scope_members(ws, (#[trigger] ps[i]).project_id, archived).len() > 0
                ==> exists|g: int| 0 <= g < v.len() && (#[trigger] v[g]).project_id == ps[i].project_id,
    ensures
        groups_ok(r, ps, ws, archived),
{
    let perm = choose|perm: Seq<int>| permutes(r, v, perm);
    assert forall|g: int| 0 <= g < r.len() implies group_ok(#[trigger] r[g], ws, archived)
        && project_known(ps, r[g].project_id) by {
        assert(r[g] == v[perm[g]]);
    }
    assert forall|g: int, h: int|
        #![trigger r[g], r[h]]
        0 <= g < h < r.len() implies r[g].project_id != r[h].project_id by {
        assert(perm[g] != perm[h]);
        assert(r[g] == v[perm[g]]);
        assert(r[h] == v[perm[h]]);
    }
    assert forall|i: int|
        0 <= i < ps.len() && scope_members(ws, (#[trigger] ps[i]).project_id, archived).len()
            > 0 implies exists|g: int| 0 <= g < r.len() && (#[trigger] r[g]).project_id
        == ps[i].project_id by {
        let g0 = choose|g: int| 0 <= g < v.len() && (#[trigger] v[g]).project_id == ps[i].project_id;
        assert(position_covered(perm, g0));
        let k = choose|k: int| 0 <= k < perm.len() && #[trigger] perm[k] == g0;
        assert(r[k] == v[g0]);
    }
}

/// What the unsorted groups of the first `i` Projects satisfy; `source`
/// names the Project each group came from.
#[verifier::opaque]
spec fn scope_groups_inv(
    groups: Seq<ProjectWorkstreamGroup>,
    source: Seq<int>,
    ps: Seq<ProjectSnapshotInput>,
    ws: Seq<WorkstreamSnapshotInput>,
    archived: bool,
    i: int,
) -> bool {
    &&& source.len() == groups.len()
    &&& forall|g: int| 0 <= g < source.len() ==> 0 <= #[trigger] source[g] && source[g] < i
    &&& forall|g: int|
        #![trigger groups[g]]
        0 <= g < groups.len() ==> groups[g].project_id == ps[source[g]].project_id
    &&& forall|g: int, h: int|
        #![trigger source[g], source[h]]
        0 <= g < h < source.len() ==> source[g] < source[h]
    &&& forall|g: int| 0 <= g < groups.len() ==> group_ok(#[trigger] groups[g], ws, archived)
    &&& forall|m: int|
        0 <= m < i && scope_members(ws, (#[trigger] ps[m]).project_id, archived).len() > 0
            ==> exists|g: int| 0 <= g < groups.len() && (#[trigger] groups[g]).project_id
            == ps[m].project_id
}

proof fn lemma_scope_groups_skip(
    groups: Seq<ProjectWorkstreamGroup>,
    source: Seq<int>,
    ps: Seq<ProjectSnapshotInput>,
    ws: Seq<WorkstreamSnapshotInput>,
    archived: bool,
    i: int,
)
    requires
        0 <= i < ps.len(),
        scope_groups_inv(groups, source, ps, ws, archived, i),
        scope_members(ws, ps[i].project_id, archived).len() == 0,
    ensures
        scope_groups_inv(groups, source, ps, ws, archived, i + 1),
{
    reveal(scope_groups_inv);
}

proof fn lemma_scope_groups_push(
    groups: Seq<ProjectWorkstreamGroup>,
    source: Seq<int>,
    ps: Seq<ProjectSnapshotInput>,
    ws: Seq<WorkstreamSnapshotInput>,
    archived: bool,
    i: int,
    group: ProjectWorkstreamGroup,
)
    requires
        0 <= i < ps.len(),
        scope_groups_inv(groups, source, ps, ws, archived, i),
        group.project_id == ps[i].project_id,
        group_ok(group, ws, archived),
    ensures
        scope_groups_inv(groups.push(group), source.push(i), ps, ws, archived, i + 1),
{
    reveal(scope_groups_inv);
    let after = groups.push(group);
    let src = source.push(i);
    assert forall|g: int| 0 <= g < src.len() implies 0 <= #[trigger] src[g] && src[g] < i + 1 by {
        if g < groups.len() {
            assert(src[g] == source[g]);
        }
    }
    assert forall|g: int|
        #![trigger after[g]]
        0 <= g < after.len() implies after[g].project_id == ps[src[g]].project_id by {
        if g < groups.len() {
            assert(after[g] == groups[g]);
            assert(src[g] == source[g]);
        }
    }
    assert forall|g: int, h: int|
        #![trigger src[g], src[h]]
        0 <= g < h < src.len() implies src[g] < src[h] by {
        if h == groups.len() {
            assert(after[g] == groups[g]);
        }
    }
    assert forall|g: int| 0 <= g < after.len() implies group_ok(#[trigger] after[g], ws, archived) by {
        if g < groups.len() {
            assert(after[g] == groups[g]);
        }
    }
    assert forall|m: int|
        0 <= m < i + 1 && scope_members(ws, (#[trigger] ps[m]).project_id, archived).len()
            > 0 implies exists|g: int|
        0 <= g < after.len() && (#[trigger] after[g]).project_id == ps[m].project_id by {
        if m < i {
            let g0 = choose|g: int|
                0 <= g < groups.len() && (#[trigger] groups[g]).project_id == ps[m].project_id;
            assert(after[g0] == groups[g0]);
        } else {
            assert(after[groups.len() as int].project_id == ps[m].project_id);
        }
    }
}

proof fn lemma_scope_groups_done(
    groups: Seq<ProjectWorkstreamGroup>,
    source: Seq<int>,
    ps: Seq<ProjectSnapshotInput>,
    ws: Seq<WorkstreamSnapshotInput>,
    archived: bool,
)
    requires
        distinct_project_ids(ps),
        scope_groups_inv(groups, source, ps, ws, archived, ps.len() as int),
    ensures
        forall|g: int| 0 <= g < groups.len() ==> group_ok(#[trigger] groups[g], ws, archived),
        forall|g: int| 0 <= g < groups.len() ==> project_known(ps, (#[trigger] groups[g]).project_id),
        forall|g: int, h: int|
            #![trigger groups[g], groups[h]]
            0 <= g < groups.len() && 0 <= h < groups.len() && g != h ==> groups[g].project_id
                != groups[h].project_id,
        forall|i: int|
            0 <= i < ps.len() && scope_members(ws, (#[trigger] ps[i]).project_id, archived).len() > 0
                ==> exists|g: int| 0 <= g < groups.len() && (#[trigger] groups[g]).project_id
                == ps[i].project_id,
{
    reveal(scope_groups_inv);
    assert forall|g: int| 0 <= g < groups.len() implies project_known(
        ps,
        (#[trigger] groups[g]).project_id,
    ) by {
        let sg = source[g];
        assert(ps[sg].project_id == groups[g].project_id);
    }
    assert forall|g: int, h: int|
        #![trigger groups[g], groups[h]]
        0 <= g < groups.len() && 0 <= h < groups.len() && g != h implies groups[g].project_id
        != groups[h].project_id by {
        let sg = source[g];
        let sh = source[h];
        assert(groups[g].project_id == ps[sg].project_id);
        assert(groups[h].project_id == ps[sh].project_id);
        if g < h {
            assert(sg < sh);
            assert(ps[sg].project_id != ps[sh].project_id);
        } else {
            assert(sh < sg);
            assert(ps[sh].project_id != ps[sg].project_id);
        }
    }
}

/// The groups of one scope for a valid Project inventory.
pub fn scope_groups(
    projects: &Vec<ProjectSnapshotInput>,
    workstreams: &Vec<WorkstreamSnapshotInput>,
    archived: bool,
) -> (r: Vec<ProjectWorkstreamGroup>)
    requires
        distinct_project_ids(projects@),
    ensures
        groups_ok(r@, projects@, workstreams@, archived),
{
    let ghost ps = projects@;
    let ghost ws = workstreams@;
    let mut groups: Vec<ProjectWorkstreamGroup> = Vec::new();
    let ghost mut source: Seq<int> = Seq::empty();
    let mut i: usize = 0;
    proof {
        reveal(scope_groups_inv);
    }
    while i < projects.len()
        invariant
            ps == projects@,
            ws == workstreams@,
            i <= ps.len(),
            scope_groups_inv(groups@, source, ps, ws, archived, i as int),
        decreases ps.len() - i,
    {
        let project_id = projects[i].project_id;
        match workstream_group(workstreams, project_id, archived) {
            Some(group) => {
                proof {
                    lemma_scope_groups_push(groups@, source, ps, ws, archived, i as int, group);
                    source = source.push(i as int);
                }
                groups.push(group);
            },
            None => {
                proof {
                    lemma_scope_groups_skip(groups@, source, ps, ws, archived, i as int);
                }
            },
        }
        i = i + 1;
    }
    proof {
        lemma_scope_groups_done(groups@, source, ps, ws, archived);
    }
    let ghost unsorted = groups@;
    let sorted = sort_by_key(groups);
    proof {
        lemma_groups_reordered(sorted@, unsorted, ps, ws, archived);
    }
    sorted
}


/// The number of locations of all Projects.
pub open spec fn location_count(ps: Seq<ProjectSnapshotInput>) -> nat
    decreases ps.len(),
{
    if ps.len() == 0 {
        0
    } else {
        location_count(ps.drop_last()) + ps.last().locations@.len()
    }
}

proof fn lemma_location_count_monotone(ps: Seq<ProjectSnapshotInput>, i: int)
    requires
        0 <= i <= ps.len(),
    ensures
        location_count(ps.subrange(0, i)) <= location_count(ps),
    decreases ps.len(),
{
    if i < ps.len() {
        let d = ps.drop_last();
        assert(ps.subrange(0, i) =~= d.subrange(0, i));
        lemma_location_count_monotone(d, i);
    } else {
        assert(ps.subrange(0, i) =~= ps);
    }
}

fn location_count_within(projects: &Vec<ProjectSnapshotInput>, limit: usize) -> (r: bool)
    ensures
        r == (location_count(projects@) <= limit),
{
    let ghost ps = projects@;
    let mut total: usize = 0;
    let mut i: usize = 0;
    proof {
        assert(ps.subrange(0, 0) =~= Seq::<ProjectSnapshotInput>::empty());
    }
    while i < projects.len()
        invariant
            ps == projects@,
            i <= ps.len(),
            total == location_count(ps.subrange(0, i as int)),
            total <= limit,
        decreases ps.len() - i,
    {
        let n = projects[i].locations.len();
        proof {
            assert(ps.subrange(0, i + 1).drop_last() =~= ps.subrange(0, i as int));
        }
        if n > limit - total {
            proof {
                lemma_location_count_monotone(ps, i + 1);
            }
            return false;
        }
        total = total + n;
        i = i + 1;
    }
    proof {
        assert(ps.subrange(0, i as int) =~= ps);
    }
    true
}

/// The first bound or display check the snapshot input fails, in the order
/// the projection checks them.
pub open spec fn snapshot_prefix_error(input: SnapshotInput, limits: SnapshotLimits) -> Option<
    ApplicationError,
> {
    if !text_ok(input.project_browser.root_label@) {
        Some(ApplicationError::InvalidSnapshotEntity { entity: SnapshotEntity::DisplayText })
    } else if !readiness_ok(input.observer_readiness) {
        Some(ApplicationError::InvalidSnapshotEntity { entity: SnapshotEntity::ObserverReadiness })
    } else if input.projects@.len() > limits.projects {
        Some(
            ApplicationError::SnapshotOverLimit {
                kind: SnapshotLimitKind::Projects,
                limit: limits.projects,
            },
        )
    } else if input.workstreams@.len() > limits.workstreams {
        Some(
            ApplicationError::SnapshotOverLimit {
                kind: SnapshotLimitKind::Workstreams,
                limit: limits.workstreams,
            },
        )
    } else if input.unresolved_operations@.len() > limits.operations {
        Some(
            ApplicationError::SnapshotOverLimit {
                kind: SnapshotLimitKind::Operations,
                limit: limits.operations,
            },
        )
    } else if input.provider_capabilities@.len() > limits.capabilities {
        Some(
            ApplicationError::SnapshotOverLimit {
                kind: SnapshotLimitKind::Capabilities,
                limit: limits.capabilities,
            },
        )
    } else if location_count(input.projects@) > limits.locations {
        Some(
            ApplicationError::SnapshotOverLimit {
                kind: SnapshotLimitKind::Locations,
                limit: limits.locations,
            },
        )
    } else {
        None
    }
}

/// A snapshot input the projection accepts.
pub open spec fn snapshot_input_ok(input: SnapshotInput, limits: SnapshotLimits) -> bool {
    &&& snapshot_prefix_error(input, limits) is None
    &&& projects_ok(input.projects@)
    &&& workstreams_ok(input.projects@, input.workstreams@)
    &&& operations_ok(input.workstreams@, input.unresolved_operations@)
    &&& capabilities_error(input.provider_capabilities@) is None
}

/// The refusal of a bounded input: the first refused Project, else the
/// first refused Workstream, else the first refused operation, else the
/// first refused capability.
pub open spec fn snapshot_refusal(input: SnapshotInput, e: ApplicationError) -> bool {
    let ps = input.projects@;
    let ws = input.workstreams@;
    match projects_refusal(ps, ps.len()) {
        Some(refused) => e == refused,
        None => {
            ||| workstreams_refusal(ps, ws, e)
            ||| workstreams_ok(ps, ws) && operations_refusal(ws, input.unresolved_operations@, e)
            ||| workstreams_ok(ps, ws) && operations_ok(ws, input.unresolved_operations@)
                && capabilities_error(input.provider_capabilities@) == Some(e)
        },
    }
}

proof fn lemma_workstreams_refusal_refutes(
    ps: Seq<ProjectSnapshotInput>,
    ws: Seq<WorkstreamSnapshotInput>,
    e: ApplicationError,
)
    requires
        workstreams_refusal(ps, ws, e),
    ensures
        !workstreams_ok(ps, ws),
{
    let i = choose|i: int|
        0 <= i < ws.len() && (forall|k: int|
            0 <= k < i ==> #[trigger] workstream_row_refusal(ps, ws, k) is None)
            && #[trigger] workstream_row_refusal(ps, ws, i) == Some(e);
    if workstreams_ok(ps, ws) {
        assert(workstream_ok(ps, ws[i]));
        if exists|j: int| 0 <= j < i && (#[trigger] ws[j]).workstream_id == ws[i].workstream_id {
            let j = choose|j: int| 0 <= j < i && (#[trigger] ws[j]).workstream_id == ws[i].workstream_id;
            assert(ws[j].workstream_id != ws[i].workstream_id);
        }
    }
}

proof fn lemma_operations_refusal_refutes(
    ws: Seq<WorkstreamSnapshotInput>,
    ops: Seq<OperationSnapshot>,
    e: ApplicationError,
)
    requires
        operations_refusal(ws, ops, e),
    ensures
        !operations_ok(ws, ops),
{
    let i = choose|i: int|
        0 <= i < ops.len() && (forall|k: int|
            0 <= k < i ==> #[trigger] operation_row_refusal(ws, ops, k) is None)
            && #[trigger] operation_row_refusal(ws, ops, i) == Some(e);
    if operations_ok(ws, ops) {
        assert(!phase_is_terminal(ops[i].phase) && fork_source_ok(ws, ops[i]));
        if exists|j: int| 0 <= j < i && (#[trigger] ops[j]).operation_id == ops[i].operation_id {
            let j = choose|j: int| 0 <= j < i && (#[trigger] ops[j]).operation_id == ops[i].operation_id;
            assert(ops[j].operation_id != ops[i].operation_id);
        }
    }
}

/// Validates a complete snapshot input against the projection bounds.
pub fn validate_snapshot_input(input: &SnapshotInput, limits: SnapshotLimits) -> (r: Result<
    (),
    ApplicationError,
>)
    ensures
        snapshot_prefix_error(*input, limits) matches Some(e) ==> r == Err::<(), ApplicationError>(e),
        r is Ok <==> snapshot_input_ok(*input, limits),
        snapshot_prefix_error(*input, limits) is None ==> (r matches Err(e)
            ==> snapshot_refusal(*input, e)),
{
    validate_text(input.project_browser.root_label.as_str(), SnapshotEntity::DisplayText)?;
    validate_observer_readiness(input.observer_readiness)?;
    check_limit(input.projects.len(), limits.projects, SnapshotLimitKind::Projects)?;
    check_limit(input.workstreams.len(), limits.workstreams, SnapshotLimitKind::Workstreams)?;
    check_limit(
        input.unresolved_operations.len(),
        limits.operations,
        SnapshotLimitKind::Operations,
    )?;
    check_limit(
        input.provider_capabilities.len(),
        limits.capabilities,
        SnapshotLimitKind::Capabilities,
    )?;
    if !location_count_within(&input.projects, limits.locations) {
        return Err(
            ApplicationError::SnapshotOverLimit {
                kind: SnapshotLimitKind::Locations,
                limit: limits.locations,
            },
        );
    }
    let index = match validate_projects(&input.projects) {
        Ok(index) => index,
        Err(e) => {
            proof {
                lemma_projects_evidence_refutes(input.projects@, e);
            }
            return Err(e);
        },
    };
    match validate_workstreams(&input.projects, &index, &input.workstreams) {
        Ok(()) => {},
        Err(e) => {
            proof {
                lemma_workstreams_refusal_refutes(input.projects@, input.workstreams@, e);
            }
            return Err(e);
        },
    }
    match validate_operations(&input.workstreams, &input.unresolved_operations) {
        Ok(()) => {},
        Err(e) => {
            proof {
                lemma_operations_refusal_refutes(input.workstreams@, input.unresolved_operations@, e);
            }
            return Err(e);
        },
    }
    validate_capabilities(&input.provider_capabilities)
}


/// `o` is the inventory row of `p`: its fields, with locations in identity order.
pub open spec fn project_row_of(o: ProjectSnapshot, p: ProjectSnapshotInput) -> bool {
    &&& o.project_id == p.project_id
    &&& o.display_name == p.display_name
    &&& o.revision == p.revision
    &&& o.label_location_id == p.label_location_id
    &&& o.repository_fingerprint == p.repository_fingerprint
    &&& o.origin_display == p.origin_display
    &&& sorted_by_key(o.locations@)
    &&& is_permutation(o.locations@, p.locations@)
}

/// `perm` pairs each row with the input Project it was made from, one to one.
pub open spec fn rows_match(
    rows: Seq<ProjectSnapshot>,
    ps: Seq<ProjectSnapshotInput>,
    perm: Seq<int>,
) -> bool {
    &&& perm.len() == rows.len()
    &&& rows.len() == ps.len()
    &&& forall|k: int|
        0 <= k < perm.len() ==> 0 <= #[trigger] perm[k] < ps.len() && project_row_of(
            rows[k],
            ps[perm[k]],
        )
    &&& forall|i: int, j: int| #![trigger perm[i], perm[j]] 0 <= i < j < perm.len() ==> perm[i] != perm[j]
    &&& forall|m: int| 0 <= m < ps.len() ==> #[trigger] position_covered(perm, m)
}

/// The inventory rows: one per input Project, in Project identity order.
pub open spec fn project_rows_ok(rows: Seq<ProjectSnapshot>, ps: Seq<ProjectSnapshotInput>) -> bool {
    &&& sorted_by_key(rows)
    &&& exists|perm: Seq<int>| rows_match(rows, ps, perm)
}

fn project_row(p: ProjectSnapshotInput) -> (r: ProjectSnapshot)
    ensures
        project_row_of(r, p),
{
    let ProjectSnapshotInput {
        project_id,
        display_name,
        revision,
        label_location_id,
        repository_fingerprint,
        origin_display,
        locations,
    } = p;
    let locations = sort_by_key(locations);
    ProjectSnapshot {
        project_id,
        display_name,
        revision,
        label_location_id,
        repository_fingerprint,
        origin_display,
        locations,
    }
}

/// The inventory rows of the Projects, in Project identity order.
pub fn project_rows(projects: Vec<ProjectSnapshotInput>) -> (r: Vec<ProjectSnapshot>)
    ensures
        project_rows_ok(r@, projects@),
{
    let ghost ps = projects@;
    let mut rest = projects;
    let mut rows: Vec<ProjectSnapshot> = Vec::new();
    while rest.len() > 0
        invariant
            rows@.len() + rest@.len() == ps.len(),
            rest@ == ps.subrange(rows@.len() as int, ps.len() as int),
            forall|k: int| 0 <= k < rows@.len() ==> project_row_of(#[trigger] rows@[k], ps[k]),
        decreases rest@.len(),
    {
        let p = rest.remove(0);
        let ghost before = rows@;
        rows.push(project_row(p));
        proof {
            assert forall|k: int| 0 <= k < rows@.len() implies project_row_of(
                #[trigger] rows@[k],
                ps[k],
            ) by {
                if k < before.len() {
                    assert(rows@[k] == before[k]);
                }
            }
        }
    }
    let ghost unsorted = rows@;
    let sorted = sort_by_key(rows);
    proof {
        let perm = choose|perm: Seq<int>| permutes(sorted@, unsorted, perm);
        assert forall|k: int| 0 <= k < perm.len() implies 0 <= #[trigger] perm[k] < ps.len()
            && project_row_of(sorted@[k], ps[perm[k]]) by {
            assert(sorted@[k] == unsorted[perm[k]]);
        }
        assert(rows_match(sorted@, ps, perm));
    }
    sorted
}

/// What an accepted projection holds: the identity and label of the host,
/// the inventory rows, both scopes' groups, the unresolved operations in
/// identity order, the readiness and browser evidence as given, and the
/// capability rows in canonical provider order.
pub open spec fn snapshot_assembled(
    snapshot: ApplicationSnapshot,
    host_id: HostId,
    hostname: Option<Seq<char>>,
    input: SnapshotInput,
) -> bool {
    &&& snapshot.host_id == host_id
    &&& snapshot.host_display@ == host_label(host_id, hostname)
    &&& project_rows_ok(snapshot.projects@, input.projects@)
    &&& groups_ok(snapshot.active_project_groups@, input.projects@, input.workstreams@, false)
    &&& groups_ok(snapshot.archived_project_groups@, input.projects@, input.workstreams@, true)
    &&& sorted_by_key(snapshot.unresolved_operations@)
    &&& is_permutation(snapshot.unresolved_operations@, input.unresolved_operations@)
    &&& snapshot.observer_readiness == input.observer_readiness
    &&& snapshot.project_browser == input.project_browser
    &&& sorted_by_key(snapshot.provider_capabilities@)
    &&& is_permutation(snapshot.provider_capabilities@, input.provider_capabilities@)
}

/// What building a snapshot from `input` gives: the first refusal of the
/// bounds and identities in order, else a refusal that `snapshot_refusal`
/// names, and a snapshot exactly when the input is valid, assembled from it.
pub open spec fn snapshot_built(
    host_id: HostId,
    hostname: Option<Seq<char>>,
    input: SnapshotInput,
    limits: SnapshotLimits,
    r: Result<ApplicationSnapshot, ApplicationError>,
) -> bool {
    &&& snapshot_prefix_error(input, limits) matches Some(e) ==> r == Err::<
        ApplicationSnapshot,
        ApplicationError,
    >(e)
    &&& r is Ok <==> snapshot_input_ok(input, limits)
    &&& snapshot_prefix_error(input, limits) is None ==> (r matches Err(e) ==> snapshot_refusal(input, e))
    &&& r matches Ok(snapshot) ==> snapshot_assembled(snapshot, host_id, hostname, input)
}

/// Builds one deterministic, bounded projection of a passive snapshot input.
pub fn build_snapshot(
    host_id: HostId,
    hostname: Option<&str>,
    input: SnapshotInput,
    limits: SnapshotLimits,
) -> (r: Result<ApplicationSnapshot, ApplicationError>)
    ensures
        snapshot_built(host_id, optional_text_view(hostname), input, limits, r),
{
    validate_snapshot_input(&input, limits)?;
    let ghost given = input;
    let active_project_groups = scope_groups(&input.projects, &input.workstreams, false);
    let archived_project_groups = scope_groups(&input.projects, &input.workstreams, true);
    let SnapshotInput {
        projects,
        workstreams,
        unresolved_operations,
        observer_readiness,
        project_browser,
        provider_capabilities,
    } = input;
    let projects = project_rows(projects);
    let unresolved_operations = sort_by_key(unresolved_operations);
    let provider_capabilities = sort_by_key(provider_capabilities);
    Ok(
        ApplicationSnapshot {
            host_id,
            host_display: derived_host_label(host_id, hostname),
            projects,
            active_project_groups,
            archived_project_groups,
            unresolved_operations,
            observer_readiness,
            project_browser,
            provider_capabilities,
        },
    )
}


proof fn lemma_scope_members_contains(ws: Seq<WorkstreamSnapshotInput>, i: int)
    requires
        0 <= i < ws.len(),
    ensures
        scope_members(ws, ws[i].project_id, ws[i].archived).contains(snapshot_of(ws[i])),
    decreases ws.len(),
{
    let p = ws[i].project_id;
    let a = ws[i].archived;
    let rest = scope_members(ws.drop_last(), p, a);
    if i == ws.len() - 1 {
        assert(scope_members(ws, p, a) == rest.push(snapshot_of(ws[i])));
        assert(scope_members(ws, p, a)[rest.len() as int] == snapshot_of(ws[i]));
    } else {
        assert(ws.drop_last()[i] == ws[i]);
        lemma_scope_members_contains(ws.drop_last(), i);
        let k = choose|k: int| 0 <= k < rest.len() && rest[k] == snapshot_of(ws[i]);
        assert(scope_members(ws, p, a)[k] == rest[k]);
    }
}

proof fn lemma_scope_members_from_rows(ws: Seq<WorkstreamSnapshotInput>, p: ProjectId, a: bool, k: int)
    requires
        0 <= k < scope_members(ws, p, a).len(),
    ensures
        exists|i: int|
            0 <= i < ws.len() && (#[trigger] ws[i]).project_id == p && ws[i].archived == a
                && scope_members(ws, p, a)[k] == snapshot_of(ws[i]),
    decreases ws.len(),
{
    let rest = scope_members(ws.drop_last(), p, a);
    let last = ws.len() - 1;
    if ws.last().project_id == p && ws.last().archived == a && k == rest.len() {
        assert(ws[last] == ws.last());
    } else {
        assert(scope_members(ws, p, a)[k] == rest[k]);
        lemma_scope_members_from_rows(ws.drop_last(), p, a, k);
        let i = choose|i: int|
            0 <= i < ws.drop_last().len() && (#[trigger] ws.drop_last()[i]).project_id == p
                && ws.drop_last()[i].archived == a && rest[k] == snapshot_of(ws.drop_last()[i]);
        assert(ws[i] == ws.drop_last()[i]);
    }
}

/// The groups of the scope a row belongs to.
pub open spec fn scope_groups_of(snapshot: ApplicationSnapshot, archived: bool) -> Seq<ProjectWorkstreamGroup> {
    if archived {
        snapshot.archived_project_groups@
    } else {
        snapshot.active_project_groups@
    }
}

/// An accepted projection neither drops nor invents Workstream rows: every
/// input row appears in its own Project's group of its own scope, and every
/// grouped row is the projection of an input row of that Project and scope.
pub proof fn lemma_scope_groups_hold_exactly_the_input_rows(
    snapshot: ApplicationSnapshot,
    host_id: HostId,
    hostname: Option<Seq<char>>,
    input: SnapshotInput,
    limits: SnapshotLimits,
)
    requires
        snapshot_input_ok(input, limits),
        snapshot_assembled(snapshot, host_id, hostname, input),
    ensures
        forall|i: int|
            0 <= i < input.workstreams@.len() ==> exists|g: int|
                0 <= g < scope_groups_of(snapshot, input.workstreams@[i].archived).len()
                    && (#[trigger] scope_groups_of(snapshot, input.workstreams@[i].archived)[g]).project_id
                    == (#[trigger] input.workstreams@[i]).project_id && scope_groups_of(
                    snapshot,
                    input.workstreams@[i].archived,
                )[g].workstreams@.contains(snapshot_of(input.workstreams@[i])),
        forall|a: bool, g: int, k: int|
            #![trigger scope_groups_of(snapshot, a)[g].workstreams@[k]]
            0 <= g < scope_groups_of(snapshot, a).len() && 0 <= k < scope_groups_of(
                snapshot,
                a,
            )[g].workstreams@.len() ==> exists|i: int|
                0 <= i < input.workstreams@.len() && (#[trigger] input.workstreams@[i]).project_id
                    == scope_groups_of(snapshot, a)[g].project_id && input.workstreams@[i].archived == a
                    && scope_groups_of(snapshot, a)[g].workstreams@[k] == snapshot_of(input.workstreams@[i]),
{
    let ps = input.projects@;
    let ws = input.workstreams@;
    reveal(group_ok);
    assert forall|i: int| 0 <= i < ws.len() implies exists|g: int|
        0 <= g < scope_groups_of(snapshot, ws[i].archived).len() && (#[trigger] scope_groups_of(
            snapshot,
            ws[i].archived,
        )[g]).project_id == (#[trigger] ws[i]).project_id && scope_groups_of(
            snapshot,
            ws[i].archived,
        )[g].workstreams@.contains(snapshot_of(ws[i])) by {
        let a = ws[i].archived;
        let gs = scope_groups_of(snapshot, a);
        assert(groups_ok(gs, ps, ws, a));
        assert(workstream_ok(ps, ws[i]));
        let j = choose|j: int| 0 <= j < ps.len() && (#[trigger] ps[j]).project_id == ws[i].project_id;
        lemma_scope_members_contains(ws, i);
        assert(scope_members(ws, ps[j].project_id, a).len() > 0);
        let g = choose|g: int| 0 <= g < gs.len() && (#[trigger] gs[g]).project_id == ps[j].project_id;
        assert(group_ok(gs[g], ws, a));
        let members = scope_members(ws, gs[g].project_id, a);
        lemma_permutation_covers(gs[g].workstreams@, members);
        let k = choose|k: int| 0 <= k < members.len() && members[k] == snapshot_of(ws[i]);
        assert(gs[g].workstreams@.contains(members[k]));
    }
    assert forall|a: bool, g: int, k: int|
        #![trigger scope_groups_of(snapshot, a)[g].workstreams@[k]]
        0 <= g < scope_groups_of(snapshot, a).len() && 0 <= k < scope_groups_of(
            snapshot,
            a,
        )[g].workstreams@.len() implies exists|i: int|
        0 <= i < ws.len() && (#[trigger] ws[i]).project_id == scope_groups_of(snapshot, a)[g].project_id
            && ws[i].archived == a && scope_groups_of(snapshot, a)[g].workstreams@[k] == snapshot_of(
            ws[i],
        ) by {
        let gs = scope_groups_of(snapshot, a);
        assert(groups_ok(gs, ps, ws, a));
        assert(group_ok(gs[g], ws, a));
        let members = scope_members(ws, gs[g].project_id, a);
        lemma_permutation_elements(gs[g].workstreams@, members);
        assert(members.contains(gs[g].workstreams@[k]));
        let m = choose|m: int| 0 <= m < members.len() && members[m] == gs[g].workstreams@[k];
        lemma_scope_members_from_rows(ws, gs[g].project_id, a, m);
    }
}

} // verus!
