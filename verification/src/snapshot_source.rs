//! What the host catalog hands the navigator snapshot, and how it becomes
//! the snapshot input: Projects with their locations, Workstreams attached to
//! the Project owning their location, and unresolved operations whose fork
//! source is a Workstream of the same provider.

use vstd::prelude::*;

use crate::actions::{ProviderBinding, RuntimeRecord};
use crate::application::{
    ApplicationError, AttentionSnapshot, LocationSnapshot, ObserverReadinessEvidence,
    OperationSnapshot, ProjectBrowserSnapshot, ProjectSnapshotInput, ProviderCapability,
    RuntimeSnapshot, SnapshotEntity, SnapshotInput, WorkstreamSnapshotInput,
};
use crate::domain::{OperationKind, ProviderKind, Revision, WorkstreamLifecycle};
use crate::facade::{constrain_codex_capability, constrained_capability};
use crate::ids::{LocationId, ProjectId, RuntimeId, WorkstreamId};
use crate::state::AttentionState;

verus! {

/// One location of a Project as the host catalog projects it.
#[derive(Clone, Debug, PartialEq, Eq)]
pub struct LocationProjection {
    pub location_id: LocationId,
    pub display_name: String,
    pub revision: Revision,
    pub repository_fingerprint: Option<String>,
    pub origin_display: Option<String>,
    pub is_label_source: bool,
}

/// One Project as the host catalog projects it.
#[derive(Clone, Debug, PartialEq, Eq)]
pub struct ProjectProjection {
    pub project_id: ProjectId,
    pub display_name: String,
    pub revision: Revision,
    pub label_location_id: LocationId,
    pub repository_fingerprint: Option<String>,
    pub locations: Vec<LocationProjection>,
}

/// One Workstream row of the host catalog with its current Runtime, provider
/// binding and attention.
#[derive(Clone, Debug, PartialEq, Eq)]
pub struct CatalogWorkstream {
    pub workstream_id: WorkstreamId,
    pub location_id: LocationId,
    pub provider: ProviderKind,
    pub lifecycle: WorkstreamLifecycle,
    pub archived_at_millis: Option<i64>,
    pub last_activity_sequence: i64,
    pub last_activity_at_millis: Option<i64>,
    pub revision: Revision,
    pub runtime: Option<RuntimeRecord>,
    pub binding: Option<ProviderBinding>,
    pub attention: Option<AttentionState>,
}

/// The snapshot location of a catalog location of a Project.
pub open spec fn location_input_of(project_id: ProjectId, l: LocationProjection) -> LocationSnapshot {
    LocationSnapshot {
        project_id,
        location_id: l.location_id,
        display_name: l.display_name,
        revision: l.revision,
        repository_fingerprint: l.repository_fingerprint,
        origin_display: l.origin_display,
        is_label_source: l.is_label_source,
    }
}

/// The snapshot input of a catalog Project: the same fields, no origin
/// display of its own, and each location in order under this Project.
pub open spec fn project_input_matches(input: ProjectSnapshotInput, p: ProjectProjection) -> bool {
    &&& input.project_id == p.project_id
    &&& input.display_name == p.display_name
    &&& input.revision == p.revision
    &&& input.label_location_id == p.label_location_id
    &&& input.repository_fingerprint == p.repository_fingerprint
    &&& input.origin_display is None
    &&& input.locations@.len() == p.locations@.len()
    &&& forall|a: int|
        0 <= a < p.locations@.len() ==> #[trigger] input.locations@[a] == location_input_of(
            p.project_id,
            p.locations@[a],
        )
}

fn project_input(p: ProjectProjection) -> (r: ProjectSnapshotInput)
    ensures
        project_input_matches(r, p),
{
    let ghost given = p;
    let ProjectProjection {
        project_id,
        display_name,
        revision,
        label_location_id,
        repository_fingerprint,
        locations,
    } = p;
    let mut rest = locations;
    let mut reversed: Vec<LocationSnapshot> = Vec::new();
    let ghost source = rest@;
    while rest.len() > 0
        invariant
            source == given.locations@,
            project_id == given.project_id,
            rest@.len() + reversed@.len() == source.len(),
            rest@ == source.subrange(0, rest@.len() as int),
            forall|k: int|
                0 <= k < reversed@.len() ==> #[trigger] reversed@[k] == location_input_of(
                    project_id,
                    source[source.len() - 1 - k],
                ),
        decreases rest@.len(),
    {
        let l = rest.pop().unwrap();
        reversed.push(
            LocationSnapshot {
                project_id,
                location_id: l.location_id,
                display_name: l.display_name,
                revision: l.revision,
                repository_fingerprint: l.repository_fingerprint,
                origin_display: l.origin_display,
                is_label_source: l.is_label_source,
            },
        );
    }
    let mut converted: Vec<LocationSnapshot> = Vec::new();
    while reversed.len() > 0
        invariant
            converted@.len() + reversed@.len() == source.len(),
            forall|k: int|
                0 <= k < reversed@.len() ==> #[trigger] reversed@[k] == location_input_of(
                    project_id,
                    source[source.len() - 1 - k],
                ),
            forall|k: int|
                0 <= k < converted@.len() ==> #[trigger] converted@[k] == location_input_of(
                    project_id,
                    source[k],
                ),
        decreases reversed@.len(),
    {
        let l = reversed.pop().unwrap();
        converted.push(l);
    }
    ProjectSnapshotInput {
        project_id,
        display_name,
        revision,
        label_location_id,
        repository_fingerprint,
        origin_display: None,
        locations: converted,
    }
}

/// Converts the catalog Projects, in order, into snapshot inputs.
pub fn project_inputs(projects: Vec<ProjectProjection>) -> (r: Vec<ProjectSnapshotInput>)
    ensures
        r@.len() == projects@.len(),
        forall|i: int| 0 <= i < r@.len() ==> project_input_matches(#[trigger] r@[i], projects@[i]),
{
    let ghost source = projects@;
    let mut rest = projects;
    let mut reversed: Vec<ProjectSnapshotInput> = Vec::new();
    while rest.len() > 0
        invariant
            rest@.len() + reversed@.len() == source.len(),
            rest@ == source.subrange(0, rest@.len() as int),
            forall|k: int|
                0 <= k < reversed@.len() ==> project_input_matches(
                    #[trigger] reversed@[k],
                    source[source.len() - 1 - k],
                ),
        decreases rest@.len(),
    {
        let p = rest.pop().unwrap();
        reversed.push(project_input(p));
    }
    let mut converted: Vec<ProjectSnapshotInput> = Vec::new();
    while reversed.len() > 0
        invariant
            converted@.len() + reversed@.len() == source.len(),
            forall|k: int|
                0 <= k < reversed@.len() ==> project_input_matches(
                    #[trigger] reversed@[k],
                    source[source.len() - 1 - k],
                ),
            forall|k: int|
                0 <= k < converted@.len() ==> project_input_matches(
                    #[trigger] converted@[k],
                    source[k],
                ),
        decreases reversed@.len(),
    {
        let p = reversed.pop().unwrap();
        converted.push(p);
    }
    converted
}

/// The Project that owns a location: the last Project, in order, listing a
/// location with that identity.
pub open spec fn owning_project(ps: Seq<ProjectSnapshotInput>, id: LocationId) -> Option<ProjectId>
    decreases ps.len(),
{
    if ps.len() == 0 {
        None
    } else if exists|a: int|
        0 <= a < ps.last().locations@.len() && (#[trigger] ps.last().locations@[a]).location_id
            == id {
        Some(ps.last().project_id)
    } else {
        owning_project(ps.drop_last(), id)
    }
}

fn lists_location(p: &ProjectSnapshotInput, id: LocationId) -> (r: bool)
    ensures
        r == exists|a: int|
            0 <= a < p.locations@.len() && (#[trigger] p.locations@[a]).location_id == id,
{
    let mut a: usize = 0;
    while a < p.locations.len()
        invariant
            a <= p.locations@.len(),
            forall|b: int| 0 <= b < a ==> (#[trigger] p.locations@[b]).location_id != id,
        decreases p.locations@.len() - a,
    {
        if p.locations[a].location_id == id {
            return true;
        }
        a = a + 1;
    }
    false
}

/// Finds the Project owning a location, as `owning_project` states.
pub fn find_owning_project(projects: &Vec<ProjectSnapshotInput>, id: LocationId) -> (r: Option<
    ProjectId,
>)
    ensures
        r == owning_project(projects@, id),
{
    let mut i: usize = projects.len();
    proof {
        assert(projects@.subrange(0, i as int) =~= projects@);
    }
    while i > 0
        invariant
            i <= projects@.len(),
            owning_project(projects@, id) == owning_project(projects@.subrange(0, i as int), id),
        decreases i,
    {
        let ghost prefix = projects@.subrange(0, i as int);
        proof {
            assert(prefix.drop_last() =~= projects@.subrange(0, i - 1));
            assert(prefix.last() == projects@[i - 1]);
        }
        if lists_location(&projects[i - 1], id) {
            return Some(projects[i - 1].project_id);
        }
        i = i - 1;
    }
    proof {
        assert(projects@.subrange(0, 0) =~= Seq::<ProjectSnapshotInput>::empty());
    }
    None
}

/// The name a Workstream shows: the binding's observed thread name, when it
/// is not empty.
pub open spec fn native_name_of(binding: Option<ProviderBinding>) -> Option<String> {
    match binding {
        Some(b) => match b.observed_thread_name {
            Some(name) => if name@.len() > 0 {
                Some(name)
            } else {
                None
            },
            None => None,
        },
        None => None,
    }
}

/// The attention a Workstream shows: its durable attention, or none seen at
/// the initial revision.
pub open spec fn attention_of(attention: Option<AttentionState>) -> AttentionSnapshot {
    match attention {
        Some(a) => AttentionSnapshot {
            result_unseen: a.result_unseen_since_revision is Some,
            recovery_unseen: a.recovery_unseen_since_revision is Some,
            revision: a.revision,
        },
        None => AttentionSnapshot {
            result_unseen: false,
            recovery_unseen: false,
            revision: Revision::spec_initial(),
        },
    }
}

/// The Runtime a Workstream shows, flagged degraded when its identity is
/// among those with a degraded-observer marker.
pub open spec fn runtime_input_of(
    runtime: Option<RuntimeRecord>,
    degraded: Seq<RuntimeId>,
) -> Option<RuntimeSnapshot> {
    match runtime {
        Some(r) => Some(
            RuntimeSnapshot {
                runtime_id: r.runtime_id,
                status: r.status,
                revision: r.revision,
                observer_degraded: degraded.contains(r.runtime_id),
            },
        ),
        None => None,
    }
}

/// The snapshot input of a catalog Workstream under its owning Project.
pub open spec fn workstream_input_of(
    w: CatalogWorkstream,
    project_id: ProjectId,
    degraded: Seq<RuntimeId>,
) -> WorkstreamSnapshotInput {
    WorkstreamSnapshotInput {
        project_id,
        location_id: w.location_id,
        workstream_id: w.workstream_id,
        provider: w.provider,
        lifecycle: w.lifecycle,
        archived: w.archived_at_millis is Some,
        last_activity_sequence: w.last_activity_sequence,
        last_activity_at_millis: w.last_activity_at_millis,
        revision: w.revision,
        runtime: runtime_input_of(w.runtime, degraded),
        attention: attention_of(w.attention),
        native_name: native_name_of(w.binding),
    }
}

/// Why a catalog Workstream cannot enter the snapshot: no Project owns its
/// location (`owner`), or its Runtime belongs to another provider.
pub open spec fn workstream_refusal(w: CatalogWorkstream, owner: Option<ProjectId>) -> Option<
    ApplicationError,
> {
    if owner is None {
        Some(ApplicationError::SnapshotAuthorityFailed)
    } else if w.runtime matches Some(r) && r.provider != w.provider {
        Some(ApplicationError::ProviderIdentityMismatch)
    } else {
        None
    }
}

fn contains_runtime(ids: &Vec<RuntimeId>, id: RuntimeId) -> (r: bool)
    ensures
        r == ids@.contains(id),
{
    let mut k: usize = 0;
    while k < ids.len()
        invariant
            k <= ids@.len(),
            forall|m: int| 0 <= m < k ==> ids@[m] != id,
        decreases ids@.len() - k,
    {
        if ids[k] == id {
            proof {
                assert(ids@[k as int] == id);
            }
            return true;
        }
        k = k + 1;
    }
    false
}

fn workstream_input(
    w: &CatalogWorkstream,
    project_id: ProjectId,
    degraded: &Vec<RuntimeId>,
) -> (r: WorkstreamSnapshotInput)
    ensures
        r == workstream_input_of(*w, project_id, degraded@),
{
    let runtime = match &w.runtime {
        Some(record) => Some(
            RuntimeSnapshot {
                runtime_id: record.runtime_id,
                status: record.status,
                revision: record.revision,
                observer_degraded: contains_runtime(degraded, record.runtime_id),
            },
        ),
        None => None,
    };
    let attention = match &w.attention {
        Some(state) => AttentionSnapshot::from_state(state),
        None => AttentionSnapshot {
            result_unseen: false,
            recovery_unseen: false,
            revision: Revision::initial(),
        },
    };
    let native_name = match &w.binding {
        Some(binding) => match &binding.observed_thread_name {
            Some(name) => if name.as_str().is_empty() {
                None
            } else {
                Some(name.clone())
            },
            None => None,
        },
        None => None,
    };
    WorkstreamSnapshotInput {
        project_id,
        location_id: w.location_id,
        workstream_id: w.workstream_id,
        provider: w.provider,
        lifecycle: w.lifecycle,
        archived: w.archived_at_millis.is_some(),
        last_activity_sequence: w.last_activity_sequence,
        last_activity_at_millis: w.last_activity_at_millis,
        revision: w.revision,
        runtime,
        attention,
        native_name,
    }
}

/// Every catalog Workstream before position `n` enters the snapshot.
pub open spec fn workstreams_accepted(
    ws: Seq<CatalogWorkstream>,
    projects: Seq<ProjectSnapshotInput>,
    n: int,
) -> bool {
    forall|k: int|
        0 <= k < n ==> #[trigger] workstream_refusal(ws[k], owning_project(projects, ws[k].location_id))
            is None
}

/// Converts the catalog Workstreams, in order; the first one that cannot
/// enter the snapshot refuses the whole snapshot.
pub fn workstream_inputs(
    workstreams: &Vec<CatalogWorkstream>,
    projects: &Vec<ProjectSnapshotInput>,
    degraded: &Vec<RuntimeId>,
) -> (r: Result<Vec<WorkstreamSnapshotInput>, ApplicationError>)
    ensures
        match r {
            Ok(v) => workstreams_accepted(workstreams@, projects@, workstreams@.len() as int)
                && v@.len() == workstreams@.len() && forall|k: int|
                0 <= k < v@.len() ==> #[trigger] v@[k] == workstream_input_of(
                    workstreams@[k],
                    owning_project(projects@, workstreams@[k].location_id)->0,
                    degraded@,
                ),
            Err(e) => exists|i: int|
                0 <= i < workstreams@.len() && workstreams_accepted(workstreams@, projects@, i)
                    && #[trigger] workstream_refusal(
                    workstreams@[i],
                    owning_project(projects@, workstreams@[i].location_id),
                ) == Some(e),
        },
{
    let mut out: Vec<WorkstreamSnapshotInput> = Vec::new();
    let mut i: usize = 0;
    while i < workstreams.len()
        invariant
            i <= workstreams@.len(),
            out@.len() == i,
            workstreams_accepted(workstreams@, projects@, i as int),
            forall|k: int|
                0 <= k < i ==> #[trigger] out@[k] == workstream_input_of(
                    workstreams@[k],
                    owning_project(projects@, workstreams@[k].location_id)->0,
                    degraded@,
                ),
        decreases workstreams@.len() - i,
    {
        let w = &workstreams[i];
        let project_id = match find_owning_project(projects, w.location_id) {
            Some(id) => id,
            None => {
                proof {
                    assert(workstream_refusal(
                        workstreams@[i as int],
                        owning_project(projects@, workstreams@[i as int].location_id),
                    ) == Some(
                        ApplicationError::SnapshotAuthorityFailed,
                    ));
                }
                return Err(ApplicationError::SnapshotAuthorityFailed);
            },
        };
        let mismatched = match &w.runtime {
            Some(record) => record.provider != w.provider,
            None => false,
        };
        if mismatched {
            proof {
                assert(workstream_refusal(
                        workstreams@[i as int],
                        owning_project(projects@, workstreams@[i as int].location_id),
                    ) == Some(
                    ApplicationError::ProviderIdentityMismatch,
                ));
            }
            return Err(ApplicationError::ProviderIdentityMismatch);
        }
        proof {
            assert(workstream_refusal(
                workstreams@[i as int],
                owning_project(projects@, workstreams@[i as int].location_id),
            ) is None);
        }
        out.push(workstream_input(w, project_id, degraded));
        i = i + 1;
    }
    Ok(out)
}

/// The Project that owns a location among the catalog Projects: the last
/// one, in order, listing a location with that identity.
pub open spec fn catalog_owner(ps: Seq<ProjectProjection>, id: LocationId) -> Option<ProjectId>
    decreases ps.len(),
{
    if ps.len() == 0 {
        None
    } else if exists|a: int|
        0 <= a < ps.last().locations@.len() && (#[trigger] ps.last().locations@[a]).location_id
            == id {
        Some(ps.last().project_id)
    } else {
        catalog_owner(ps.drop_last(), id)
    }
}

proof fn lemma_owner_preserved(
    inputs: Seq<ProjectSnapshotInput>,
    ps: Seq<ProjectProjection>,
    id: LocationId,
)
    requires
        inputs.len() == ps.len(),
        forall|i: int| 0 <= i < ps.len() ==> project_input_matches(#[trigger] inputs[i], ps[i]),
    ensures
        owning_project(inputs, id) == catalog_owner(ps, id),
    decreases ps.len(),
{
    if ps.len() > 0 {
        let n = ps.len() - 1;
        assert(project_input_matches(inputs[n], ps[n]));
        let li = inputs.last().locations@;
        let lp = ps.last().locations@;
        assert((exists|a: int| 0 <= a < li.len() && (#[trigger] li[a]).location_id == id) == (exists|
            a: int,
        | 0 <= a < lp.len() && (#[trigger] lp[a]).location_id == id)) by {
            if exists|a: int| 0 <= a < lp.len() && (#[trigger] lp[a]).location_id == id {
                let a = choose|a: int| 0 <= a < lp.len() && (#[trigger] lp[a]).location_id == id;
                assert(li[a] == location_input_of(ps[n].project_id, lp[a]));
            }
            if exists|a: int| 0 <= a < li.len() && (#[trigger] li[a]).location_id == id {
                let a = choose|a: int| 0 <= a < li.len() && (#[trigger] li[a]).location_id == id;
                assert(li[a] == location_input_of(ps[n].project_id, lp[a]));
            }
        }
        assert forall|i: int| 0 <= i < ps.drop_last().len() implies project_input_matches(
            #[trigger] inputs.drop_last()[i],
            ps.drop_last()[i],
        ) by {
            assert(project_input_matches(inputs[i], ps[i]));
        }
        lemma_owner_preserved(inputs.drop_last(), ps.drop_last(), id);
    }
}

/// The provider of the last catalog Workstream with the identity.
pub open spec fn workstream_provider(ws: Seq<CatalogWorkstream>, id: WorkstreamId) -> Option<
    ProviderKind,
>
    decreases ws.len(),
{
    if ws.len() == 0 {
        None
    } else if ws.last().workstream_id == id {
        Some(ws.last().provider)
    } else {
        workstream_provider(ws.drop_last(), id)
    }
}

fn find_workstream_provider(ws: &Vec<CatalogWorkstream>, id: WorkstreamId) -> (r: Option<
    ProviderKind,
>)
    ensures
        r == workstream_provider(ws@, id),
{
    let mut i: usize = ws.len();
    proof {
        assert(ws@.subrange(0, i as int) =~= ws@);
    }
    while i > 0
        invariant
            i <= ws@.len(),
            workstream_provider(ws@, id) == workstream_provider(ws@.subrange(0, i as int), id),
        decreases i,
    {
        let ghost prefix = ws@.subrange(0, i as int);
        proof {
            assert(prefix.drop_last() =~= ws@.subrange(0, i - 1));
            assert(prefix.last() == ws@[i - 1]);
        }
        if ws[i - 1].workstream_id == id {
            return Some(ws[i - 1].provider);
        }
        i = i - 1;
    }
    proof {
        assert(ws@.subrange(0, 0) =~= Seq::<CatalogWorkstream>::empty());
    }
    None
}

/// Why an unresolved operation cannot enter the snapshot: a fork must name
/// a source Workstream, known to the catalog, of the fork's provider.
pub open spec fn operation_refusal(op: OperationSnapshot, ws: Seq<CatalogWorkstream>) -> Option<
    ApplicationError,
> {
    if op.kind == OperationKind::Fork {
        match op.source_workstream_id {
            None => Some(ApplicationError::InvalidSnapshotEntity { entity: SnapshotEntity::Operation }),
            Some(source) => match workstream_provider(ws, source) {
                None => Some(ApplicationError::UnknownLocalIdentity),
                Some(provider) => if provider != op.provider {
                    Some(ApplicationError::ProviderIdentityMismatch)
                } else {
                    None
                },
            },
        }
    } else {
        None
    }
}

/// Every operation before position `n` enters the snapshot.
pub open spec fn operations_accepted(
    ops: Seq<OperationSnapshot>,
    ws: Seq<CatalogWorkstream>,
    n: int,
) -> bool {
    forall|k: int| 0 <= k < n ==> #[trigger] operation_refusal(ops[k], ws) is None
}

/// Checks the unresolved operations, in order, against the catalog
/// Workstreams; the first refused one refuses the snapshot.
pub fn operation_inputs(
    operations: &Vec<OperationSnapshot>,
    workstreams: &Vec<CatalogWorkstream>,
) -> (r: Result<Vec<OperationSnapshot>, ApplicationError>)
    ensures
        match r {
            Ok(v) => operations_accepted(operations@, workstreams@, operations@.len() as int) && v@
                == operations@,
            Err(e) => exists|i: int|
                0 <= i < operations@.len() && operations_accepted(operations@, workstreams@, i)
                    && #[trigger] operation_refusal(operations@[i], workstreams@) == Some(e),
        },
{
    let mut out: Vec<OperationSnapshot> = Vec::new();
    let mut i: usize = 0;
    while i < operations.len()
        invariant
            i <= operations@.len(),
            out@ == operations@.subrange(0, i as int),
            operations_accepted(operations@, workstreams@, i as int),
        decreases operations@.len() - i,
    {
        let op = operations[i];
        if op.kind == OperationKind::Fork {
            let source = match op.source_workstream_id {
                Some(source) => source,
                None => {
                    proof {
                        assert(operation_refusal(operations@[i as int], workstreams@) == Some(
                            ApplicationError::InvalidSnapshotEntity {
                                entity: SnapshotEntity::Operation,
                            },
                        ));
                    }
                    return Err(
                        ApplicationError::InvalidSnapshotEntity { entity: SnapshotEntity::Operation },
                    );
                },
            };
            match find_workstream_provider(workstreams, source) {
                None => {
                    proof {
                        assert(operation_refusal(operations@[i as int], workstreams@) == Some(
                            ApplicationError::UnknownLocalIdentity,
                        ));
                    }
                    return Err(ApplicationError::UnknownLocalIdentity);
                },
                Some(provider) => {
                    if provider != op.provider {
                        proof {
                            assert(operation_refusal(operations@[i as int], workstreams@) == Some(
                                ApplicationError::ProviderIdentityMismatch,
                            ));
                        }
                        return Err(ApplicationError::ProviderIdentityMismatch);
                    }
                },
            }
        }
        proof {
            assert(operation_refusal(operations@[i as int], workstreams@) is None);
        }
        out.push(op);
        proof {
            assert(out@ =~= operations@.subrange(0, i + 1));
        }
        i = i + 1;
    }
    proof {
        assert(operations@.subrange(0, i as int) =~= operations@);
    }
    Ok(out)
}

/// Assembles the snapshot input from what the catalog read: the Projects
/// with their locations, the Workstreams under the Project owning their
/// location, the unresolved operations, the observer readiness, the browser
/// root's label and revision, and the provider capabilities constrained by
/// observer readiness. The first refused Workstream, then the first refused
/// operation, refuses the snapshot.
pub fn assemble_snapshot_input(
    projects: Vec<ProjectProjection>,
    workstreams: &Vec<CatalogWorkstream>,
    degraded: &Vec<RuntimeId>,
    operations: &Vec<OperationSnapshot>,
    observer_readiness: ObserverReadinessEvidence,
    root_label: String,
    browser_revision: Revision,
    provider_capabilities: Vec<ProviderCapability>,
) -> (r: Result<SnapshotInput, ApplicationError>)
    ensures
        match r {
            Ok(s) => {
                &&& s.projects@.len() == projects@.len()
                &&& forall|i: int|
                    0 <= i < projects@.len() ==> project_input_matches(
                        #[trigger] s.projects@[i],
                        projects@[i],
                    )
                &&& forall|k: int|
                    0 <= k < workstreams@.len() ==> #[trigger] workstream_refusal(
                        workstreams@[k],
                        catalog_owner(projects@, workstreams@[k].location_id),
                    ) is None
                &&& s.workstreams@.len() == workstreams@.len()
                &&& forall|k: int|
                    0 <= k < workstreams@.len() ==> #[trigger] s.workstreams@[k]
                        == workstream_input_of(
                        workstreams@[k],
                        catalog_owner(projects@, workstreams@[k].location_id)->0,
                        degraded@,
                    )
                &&& operations_accepted(operations@, workstreams@, operations@.len() as int)
                &&& s.unresolved_operations@ == operations@
                &&& s.observer_readiness == observer_readiness
                &&& s.project_browser.root_label == root_label
                &&& s.project_browser.revision == browser_revision
                &&& s.provider_capabilities@.len() == provider_capabilities@.len()
                &&& forall|i: int|
                    0 <= i < provider_capabilities@.len() ==> #[trigger] s.provider_capabilities@[i]
                        == constrained_capability(
                        provider_capabilities@[i],
                        observer_readiness.readiness,
                    )
            },
            Err(e) => {
                ||| exists|i: int|
                    0 <= i < workstreams@.len() && (forall|k: int|
                        0 <= k < i ==> #[trigger] workstream_refusal(
                            workstreams@[k],
                            catalog_owner(projects@, workstreams@[k].location_id),
                        ) is None) && #[trigger] workstream_refusal(
                        workstreams@[i],
                        catalog_owner(projects@, workstreams@[i].location_id),
                    ) == Some(e)
                ||| (forall|k: int|
                    0 <= k < workstreams@.len() ==> #[trigger] workstream_refusal(
                        workstreams@[k],
                        catalog_owner(projects@, workstreams@[k].location_id),
                    ) is None) && exists|i: int|
                    0 <= i < operations@.len() && operations_accepted(operations@, workstreams@, i)
                        && #[trigger] operation_refusal(operations@[i], workstreams@) == Some(e)
            },
        },
{
    let ghost catalog = projects@;
    let inputs = project_inputs(projects);
    proof {
        assert forall|id: LocationId| owning_project(inputs@, id) == catalog_owner(catalog, id) by {
            lemma_owner_preserved(inputs@, catalog, id);
        }
    }
    let workstream_rows = match workstream_inputs(workstreams, &inputs, degraded) {
        Ok(rows) => rows,
        Err(e) => {
            proof {
                let i = choose|i: int|
                    0 <= i < workstreams@.len() && workstreams_accepted(workstreams@, inputs@, i)
                        && #[trigger] workstream_refusal(
                        workstreams@[i],
                        owning_project(inputs@, workstreams@[i].location_id),
                    ) == Some(e);
                assert(owning_project(inputs@, workstreams@[i].location_id) == catalog_owner(
                    catalog,
                    workstreams@[i].location_id,
                ));
                assert forall|k: int| 0 <= k < i implies #[trigger] workstream_refusal(
                    workstreams@[k],
                    catalog_owner(catalog, workstreams@[k].location_id),
                ) is None by {
                    assert(owning_project(inputs@, workstreams@[k].location_id) == catalog_owner(
                        catalog,
                        workstreams@[k].location_id,
                    ));
                    assert(workstream_refusal(
                        workstreams@[k],
                        owning_project(inputs@, workstreams@[k].location_id),
                    ) is None);
                }
                assert(workstream_refusal(
                    workstreams@[i],
                    catalog_owner(catalog, workstreams@[i].location_id),
                ) == Some(e));
            }
            return Err(e);
        },
    };
    proof {
        assert forall|k: int| 0 <= k < workstreams@.len() implies #[trigger] workstream_refusal(
            workstreams@[k],
            catalog_owner(catalog, workstreams@[k].location_id),
        ) is None by {
            assert(owning_project(inputs@, workstreams@[k].location_id) == catalog_owner(
                catalog,
                workstreams@[k].location_id,
            ));
            assert(workstream_refusal(
                workstreams@[k],
                owning_project(inputs@, workstreams@[k].location_id),
            ) is None);
        }
    }
    let unresolved_operations = match operation_inputs(operations, workstreams) {
        Ok(ops) => ops,
        Err(e) => {
            proof {
                let i = choose|i: int|
                    0 <= i < operations@.len() && operations_accepted(operations@, workstreams@, i)
                        && #[trigger] operation_refusal(operations@[i], workstreams@) == Some(e);
                assert(operation_refusal(operations@[i], workstreams@) == Some(e));
            }
            return Err(e);
        },
    };
    let provider_capabilities = constrain_codex_capability(
        provider_capabilities,
        observer_readiness.readiness,
    );
    Ok(
        SnapshotInput {
            projects: inputs,
            workstreams: workstream_rows,
            unresolved_operations,
            observer_readiness,
            project_browser: ProjectBrowserSnapshot { root_label, revision: browser_revision },
            provider_capabilities,
        },
    )
}

} // verus!
