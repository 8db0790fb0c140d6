//! Which Projects must not render their environments from changed or failed runtimes.
//!
//! A Project with recorded backing-resource demand is refused outright when its demand or its
//! PHP identity drifted from what was last applied. Otherwise each demand that is established
//! (it has active allocations, or its track has an environment context) must be backed by
//! ready allocations and a running runtime. Allocations of the track the current scope
//! reconciles are left to that scope's Resources phase. Projects without recorded demand
//! are tolerated until the Resources phase provisions them.
use vstd::prelude::*;
use vstd::string::*;

use crate::error::DaemonError;
use crate::text::{concat2, str_equal};

verus! {

/// The state of one allocation of a Managed Resource for a Project.
#[derive(PartialEq, Eq, Structural)]
pub enum ResourceAllocationStatus {
    Desired,
    Ready,
    Failed,
    Inactive,
}

/// One allocation of a Managed Resource for a Project.
pub struct AllocationRecord {
    pub allocation_name: String,
    pub status: ResourceAllocationStatus,
}

/// One recorded demand of a Project, with the Project's allocations of that resource.
pub struct DemandInput {
    pub resource_name: String,
    pub track: String,
    pub allocations: Vec<AllocationRecord>,
}

/// What is known of one linked Project.
pub struct ProjectDependencyInput {
    pub project_id: String,
    /// The serving mode, hostnames, tracks and allocation identities match the last applied
    /// state.
    pub demands_match_recorded: bool,
    /// The PHP track and extensions match the last applied state.
    pub php_identity_matches_applied: bool,
    pub demands: Vec<DemandInput>,
}

/// A Managed Resource track, with whether it holds a provisioned environment context.
pub struct TrackContext {
    pub resource_name: String,
    pub track: String,
    pub has_env_context: bool,
}

/// The observed status of a runtime.
#[derive(PartialEq, Eq, Structural)]
pub enum RuntimeObservedStatus {
    Running,
    Failed,
    Degraded,
    Stopped,
    Pending,
}

/// The last observation of a Managed Resource track's runtime.
pub struct ResourceObservation {
    pub resource_name: String,
    pub track: String,
    pub status: RuntimeObservedStatus,
    pub message: Option<String>,
}

/// Why a Project cannot apply its environment, as far as its dependencies go.
pub enum DependencyFailure {
    DemandsChanged,
    PhpIdentityChanged,
    UnreadyAllocation { resource: Seq<char>, allocation: Seq<char> },
    NoObservation { resource: Seq<char>, track: Seq<char> },
    NotRunning { resource: Seq<char>, track: Seq<char>, status: RuntimeObservedStatus, message: Option<Seq<char>> },
}

/// Whether the track of `demand` holds an environment context.
pub open spec fn has_env_context(tracks: Seq<TrackContext>, demand: DemandInput) -> bool {
    exists|i: int|
        0 <= i < tracks.len() && #[trigger] tracks[i].resource_name@ == demand.resource_name@
            && tracks[i].track@ == demand.track@ && tracks[i].has_env_context
}

/// Whether some allocation is not inactive.
pub open spec fn has_active_allocation(allocations: Seq<AllocationRecord>) -> bool {
    exists|i: int|
        0 <= i < allocations.len() && #[trigger] allocations[i].status
            != ResourceAllocationStatus::Inactive
}

/// The first allocation that is neither ready nor inactive.
pub open spec fn first_unready_allocation(allocations: Seq<AllocationRecord>) -> Option<AllocationRecord>
    decreases allocations.len(),
{
    if allocations.len() == 0 {
        None
    } else if allocations[0].status != ResourceAllocationStatus::Ready && allocations[0].status
        != ResourceAllocationStatus::Inactive {
        Some(allocations[0])
    } else {
        first_unready_allocation(allocations.drop_first())
    }
}

/// The first observation of the track of `demand`.
pub open spec fn observation_of(observations: Seq<ResourceObservation>, demand: DemandInput) -> Option<
    ResourceObservation,
>
    decreases observations.len(),
{
    if observations.len() == 0 {
        None
    } else if observations[0].resource_name@ == demand.resource_name@ && observations[0].track@
        == demand.track@ {
        Some(observations[0])
    } else {
        observation_of(observations.drop_first(), demand)
    }
}

/// What one demand says: `None` when it is fine, or not established.
pub open spec fn demand_failure(
    demand: DemandInput,
    tracks: Seq<TrackContext>,
    observations: Seq<ResourceObservation>,
    reconciled_resource: Seq<char>,
    reconciled_track: Seq<char>,
) -> Option<DependencyFailure> {
    if !has_active_allocation(demand.allocations@) && !has_env_context(tracks, demand) {
        None
    } else {
        let reconciled_here = demand.resource_name@ == reconciled_resource && demand.track@
            == reconciled_track;
        match (if reconciled_here {
            None
        } else {
            first_unready_allocation(demand.allocations@)
        }) {
            Some(allocation) => Some(
                DependencyFailure::UnreadyAllocation {
                    resource: demand.resource_name@,
                    allocation: allocation.allocation_name@,
                },
            ),
            None => match observation_of(observations, demand) {
                None => Some(
                    DependencyFailure::NoObservation {
                        resource: demand.resource_name@,
                        track: demand.track@,
                    },
                ),
                Some(observed) => if observed.status == RuntimeObservedStatus::Running {
                    None
                } else {
                    Some(
                        DependencyFailure::NotRunning {
                            resource: demand.resource_name@,
                            track: demand.track@,
                            status: observed.status,
                            message: match observed.message {
                                Some(m) => Some(m@),
                                None => None,
                            },
                        },
                    )
                },
            },
        }
    }
}

/// The first failing demand.
pub open spec fn first_demand_failure(
    demands: Seq<DemandInput>,
    tracks: Seq<TrackContext>,
    observations: Seq<ResourceObservation>,
    reconciled_resource: Seq<char>,
    reconciled_track: Seq<char>,
) -> Option<DependencyFailure>
    decreases demands.len(),
{
    if demands.len() == 0 {
        None
    } else {
        match demand_failure(demands[0], tracks, observations, reconciled_resource, reconciled_track) {
            Some(f) => Some(f),
            None => first_demand_failure(
                demands.drop_first(),
                tracks,
                observations,
                reconciled_resource,
                reconciled_track,
            ),
        }
    }
}

/// Why `project` cannot apply its environment, if it cannot.
pub open spec fn project_dependency_failure(
    project: ProjectDependencyInput,
    tracks: Seq<TrackContext>,
    observations: Seq<ResourceObservation>,
    reconciled_resource: Seq<char>,
    reconciled_track: Seq<char>,
) -> Option<DependencyFailure> {
    if project.demands@.len() == 0 {
        None
    } else if !project.demands_match_recorded {
        Some(DependencyFailure::DemandsChanged)
    } else if !project.php_identity_matches_applied {
        Some(DependencyFailure::PhpIdentityChanged)
    } else {
        first_demand_failure(project.demands@, tracks, observations, reconciled_resource, reconciled_track)
    }
}

/// The name a non-running status is reported under.
pub open spec fn status_name(status: RuntimeObservedStatus) -> Seq<char> {
    match status {
        RuntimeObservedStatus::Failed => "failed"@,
        RuntimeObservedStatus::Degraded => "degraded"@,
        RuntimeObservedStatus::Stopped => "stopped"@,
        RuntimeObservedStatus::Pending => "pending"@,
        RuntimeObservedStatus::Running => "running"@,
    }
}

/// The reason given for drifted demand.
pub open spec fn demands_changed_reason() -> Seq<char> {
    "serving mode, hostnames, resource tracks, or allocation identities differ from their last applied state"@
}

/// The reason given for a drifted PHP identity.
pub open spec fn php_changed_reason() -> Seq<char> {
    "PHP track or extensions differ from their last applied state"@
}

/// Whether `e` is the error reported for `failure` of Project `project_id`.
pub open spec fn reports_failure(e: DaemonError, project_id: Seq<char>, failure: DependencyFailure) -> bool {
    match failure {
        DependencyFailure::UnreadyAllocation { resource, allocation } => e matches DaemonError::MissingAllocationEnvContext {
            resource: r,
            allocation: a,
        } && r@ == resource && a@ == allocation,
        _ => e matches DaemonError::ProjectEnvDependenciesNotApplied { project_id: id, reason }
            && id@ == project_id && reason@ == match failure {
            DependencyFailure::DemandsChanged => demands_changed_reason(),
            DependencyFailure::PhpIdentityChanged => php_changed_reason(),
            DependencyFailure::NoObservation { resource, track } => "required resource "@ + resource
                + " track "@ + track + " has no observed state"@,
            DependencyFailure::NotRunning { resource, track, status, message } => "required resource "@
                + resource + " track "@ + track + " is "@ + status_name(status) + ": "@ + match message {
                Some(m) => m,
                None => "no diagnostic recorded"@,
            },
            DependencyFailure::UnreadyAllocation { .. } => Seq::empty(),
        },
    }
}

fn track_has_env_context(tracks: &Vec<TrackContext>, demand: &DemandInput) -> (found: bool)
    ensures
        found == has_env_context(tracks@, *demand),
{
    let mut i: usize = 0;
    while i < tracks.len()
        invariant
            i <= tracks@.len(),
            forall|j: int|
                0 <= j < i ==> !(#[trigger] tracks@[j].resource_name@ == demand.resource_name@
                    && tracks@[j].track@ == demand.track@ && tracks@[j].has_env_context),
        decreases tracks.len() - i,
    {
        if str_equal(tracks[i].resource_name.as_str(), demand.resource_name.as_str()) && str_equal(
            tracks[i].track.as_str(),
            demand.track.as_str(),
        ) && tracks[i].has_env_context {
            return true;
        }
        i = i + 1;
    }
    false
}

fn any_active_allocation(allocations: &Vec<AllocationRecord>) -> (found: bool)
    ensures
        found == has_active_allocation(allocations@),
{
    let mut i: usize = 0;
    while i < allocations.len()
        invariant
            i <= allocations@.len(),
            forall|j: int| 0 <= j < i ==> #[trigger] allocations@[j].status == ResourceAllocationStatus::Inactive,
        decreases allocations.len() - i,
    {
        if allocations[i].status != ResourceAllocationStatus::Inactive {
            return true;
        }
        i = i + 1;
    }
    false
}

fn find_unready_allocation(allocations: &Vec<AllocationRecord>) -> (found: Option<String>)
    ensures
        match first_unready_allocation(allocations@) {
            None => found is None,
            Some(a) => found == Some(a.allocation_name),
        },
{
    let mut i: usize = 0;
    proof {
        assert(allocations@.subrange(0, allocations@.len() as int) =~= allocations@);
    }
    while i < allocations.len()
        invariant
            i <= allocations@.len(),
            first_unready_allocation(allocations@) == first_unready_allocation(
                allocations@.subrange(i as int, allocations@.len() as int),
            ),
        decreases allocations.len() - i,
    {
        let ghost rest = allocations@.subrange(i as int, allocations@.len() as int);
        proof {
            assert(rest.drop_first() =~= allocations@.subrange(i + 1, allocations@.len() as int));
            assert(rest[0] == allocations@[i as int]);
        }
        let status = &allocations[i].status;
        if *status != ResourceAllocationStatus::Ready && *status != ResourceAllocationStatus::Inactive {
            return Some(allocations[i].allocation_name.clone());
        }
        i = i + 1;
    }
    None
}

fn find_observation(observations: &Vec<ResourceObservation>, demand: &DemandInput) -> (found: Option<usize>)
    ensures
        match observation_of(observations@, *demand) {
            None => found is None,
            Some(o) => found matches Some(i) && i < observations@.len() && observations@[i as int] == o,
        },
{
    let mut i: usize = 0;
    proof {
        assert(observations@.subrange(0, observations@.len() as int) =~= observations@);
    }
    while i < observations.len()
        invariant
            i <= observations@.len(),
            observation_of(observations@, *demand) == observation_of(
                observations@.subrange(i as int, observations@.len() as int),
                *demand,
            ),
        decreases observations.len() - i,
    {
        let ghost rest = observations@.subrange(i as int, observations@.len() as int);
        proof {
            assert(rest.drop_first() =~= observations@.subrange(i + 1, observations@.len() as int));
            assert(rest[0] == observations@[i as int]);
        }
        if str_equal(observations[i].resource_name.as_str(), demand.resource_name.as_str())
            && str_equal(observations[i].track.as_str(), demand.track.as_str()) {
            return Some(i);
        }
        i = i + 1;
    }
    None
}

fn not_applied(project_id: &String, reason: String) -> (e: DaemonError)
    ensures
        e == (DaemonError::ProjectEnvDependenciesNotApplied { project_id: *project_id, reason }),
{
    DaemonError::ProjectEnvDependenciesNotApplied { project_id: project_id.clone(), reason }
}

fn status_text(status: &RuntimeObservedStatus) -> (text: &'static str)
    ensures
        text@ == status_name(*status),
{
    match status {
        RuntimeObservedStatus::Failed => "failed",
        RuntimeObservedStatus::Degraded => "degraded",
        RuntimeObservedStatus::Stopped => "stopped",
        RuntimeObservedStatus::Pending => "pending",
        RuntimeObservedStatus::Running => "running",
    }
}

fn demand_error(
    project_id: &String,
    demand: &DemandInput,
    tracks: &Vec<TrackContext>,
    observations: &Vec<ResourceObservation>,
    reconciled_resource: &str,
    reconciled_track: &str,
) -> (e: Option<DaemonError>)
    ensures
        match demand_failure(*demand, tracks@, observations@, reconciled_resource@, reconciled_track@) {
            None => e is None,
            Some(f) => e matches Some(err) && reports_failure(err, project_id@, f),
        },
{
    if !any_active_allocation(&demand.allocations) && !track_has_env_context(tracks, demand) {
        return None;
    }
    let reconciled_here = str_equal(demand.resource_name.as_str(), reconciled_resource) && str_equal(
        demand.track.as_str(),
        reconciled_track,
    );
    if !reconciled_here {
        match find_unready_allocation(&demand.allocations) {
            Some(allocation) => {
                return Some(
                    DaemonError::MissingAllocationEnvContext {
                        resource: demand.resource_name.clone(),
                        allocation,
                    },
                );
            },
            None => {},
        }
    }
    match find_observation(observations, demand) {
        None => {
            let mut reason = concat2("required resource ", demand.resource_name.as_str());
            reason.append(" track ");
            reason.append(demand.track.as_str());
            reason.append(" has no observed state");
            Some(not_applied(project_id, reason))
        },
        Some(i) => {
            let observed = &observations[i];
            if observed.status == RuntimeObservedStatus::Running {
                return None;
            }
            let mut reason = concat2("required resource ", demand.resource_name.as_str());
            reason.append(" track ");
            reason.append(demand.track.as_str());
            reason.append(" is ");
            reason.append(status_text(&observed.status));
            reason.append(": ");
            match &observed.message {
                Some(m) => reason.append(m.as_str()),
                None => reason.append("no diagnostic recorded"),
            }
            Some(not_applied(project_id, reason))
        },
    }
}

fn project_error(
    project: &ProjectDependencyInput,
    tracks: &Vec<TrackContext>,
    observations: &Vec<ResourceObservation>,
    reconciled_resource: &str,
    reconciled_track: &str,
) -> (e: Option<DaemonError>)
    ensures
        match project_dependency_failure(
            *project,
            tracks@,
            observations@,
            reconciled_resource@,
            reconciled_track@,
        ) {
            None => e is None,
            Some(f) => e matches Some(err) && reports_failure(err, project.project_id@, f),
        },
{
    if project.demands.len() == 0 {
        return None;
    }
    if !project.demands_match_recorded {
        return Some(
            not_applied(
                &project.project_id,
                String::from_str(
                    "serving mode, hostnames, resource tracks, or allocation identities differ from their last applied state",
                ),
            ),
        );
    }
    if !project.php_identity_matches_applied {
        return Some(
            not_applied(
                &project.project_id,
                String::from_str("PHP track or extensions differ from their last applied state"),
            ),
        );
    }
    let demands = &project.demands;
    let mut i: usize = 0;
    proof {
        assert(demands@.subrange(0, demands@.len() as int) =~= demands@);
    }
    while i < demands.len()
        invariant
            i <= demands@.len(),
            demands@ == project.demands@,
            demands@.len() > 0,
            project.demands_match_recorded,
            project.php_identity_matches_applied,
            first_demand_failure(demands@, tracks@, observations@, reconciled_resource@, reconciled_track@)
                == first_demand_failure(
                demands@.subrange(i as int, demands@.len() as int),
                tracks@,
                observations@,
                reconciled_resource@,
                reconciled_track@,
            ),
        decreases demands.len() - i,
    {
        let ghost rest = demands@.subrange(i as int, demands@.len() as int);
        proof {
            assert(rest.drop_first() =~= demands@.subrange(i + 1, demands@.len() as int));
            assert(rest[0] == demands@[i as int]);
            assert(first_demand_failure(rest, tracks@, observations@, reconciled_resource@, reconciled_track@)
                == match demand_failure(demands@[i as int], tracks@, observations@, reconciled_resource@, reconciled_track@) {
                    Some(f) => Some(f),
                    None => first_demand_failure(
                        demands@.subrange(i + 1, demands@.len() as int),
                        tracks@,
                        observations@,
                        reconciled_resource@,
                        reconciled_track@,
                    ),
                });
        }
        let e = demand_error(
            &project.project_id,
            &demands[i],
            tracks,
            observations,
            reconciled_resource,
            reconciled_track,
        );
        if e.is_some() {
            return e;
        }
        i = i + 1;
    }
    None
}

/// The Projects that must not apply their environment now, each with the reason, in the
/// order the Projects are given. `reconciled_resource` and `reconciled_track` name the track
/// the current scope reconciles: its allocations are repaired by that scope's Resources phase.
pub fn unready_established_resource_projects(
    projects: &Vec<ProjectDependencyInput>,
    tracks: &Vec<TrackContext>,
    observations: &Vec<ResourceObservation>,
    reconciled_resource: &str,
    reconciled_track: &str,
) -> (failures: Vec<(String, DaemonError)>)
    ensures
        exists|failing: Seq<int>|
            #![trigger failing.len()]
            failing.len() == failures@.len() && (forall|k: int, l: int|
                0 <= k < l < failing.len() ==> failing[k] < failing[l]) && (forall|k: int|
                0 <= k < failing.len() ==> 0 <= #[trigger] failing[k] < projects@.len()) && (forall|
                k: int,
            |
                #![trigger failures@[k]]
                0 <= k < failing.len() ==> {
                    let p = projects@[failing[k]];
                    &&& failures@[k].0 == p.project_id
                    &&& project_dependency_failure(
                        p,
                        tracks@,
                        observations@,
                        reconciled_resource@,
                        reconciled_track@,
                    ) matches Some(f) && reports_failure(failures@[k].1, p.project_id@, f)
                }) && (forall|j: int|
                0 <= j < projects@.len() && project_dependency_failure(
                    #[trigger] projects@[j],
                    tracks@,
                    observations@,
                    reconciled_resource@,
                    reconciled_track@,
                ) is Some ==> exists|k: int| 0 <= k < failing.len() && failing[k] == j),
{
    let mut failures: Vec<(String, DaemonError)> = Vec::new();
    let ghost mut failing: Seq<int> = Seq::empty();
    let mut i: usize = 0;
    while i < projects.len()
        invariant
            i <= projects@.len(),
            failing.len() == failures@.len(),
            forall|k: int, l: int| 0 <= k < l < failing.len() ==> failing[k] < failing[l],
            forall|k: int| 0 <= k < failing.len() ==> 0 <= #[trigger] failing[k] < i,
            forall|k: int|
                #![trigger failures@[k]]
                0 <= k < failing.len() ==> {
                    let p = projects@[failing[k]];
                    &&& failures@[k].0 == p.project_id
                    &&& project_dependency_failure(
                        p,
                        tracks@,
                        observations@,
                        reconciled_resource@,
                        reconciled_track@,
                    ) matches Some(f) && reports_failure(failures@[k].1, p.project_id@, f)
                },
            forall|j: int|
                0 <= j < i && project_dependency_failure(
                    #[trigger] projects@[j],
                    tracks@,
                    observations@,
                    reconciled_resource@,
                    reconciled_track@,
                ) is Some ==> exists|k: int| 0 <= k < failing.len() && failing[k] == j,
        decreases projects.len() - i,
    {
        let project = &projects[i];
        let e = project_error(project, tracks, observations, reconciled_resource, reconciled_track);
        match e {
            Some(err) => {
                failures.push((project.project_id.clone(), err));
                proof {
                    let old_failing = failing;
                    failing = failing.push(i as int);
                    assert forall|j: int|
                        0 <= j < i + 1 && project_dependency_failure(
                            #[trigger] projects@[j],
                            tracks@,
                            observations@,
                            reconciled_resource@,
                            reconciled_track@,
                        ) is Some implies exists|k: int| 0 <= k < failing.len() && failing[k] == j by {
                        if j == i {
                            assert(failing[failing.len() - 1] == j);
                        } else {
                            let k = choose|k: int| 0 <= k < old_failing.len() && old_failing[k] == j;
                            assert(failing[k] == j);
                        }
                    }
                }
            },
            None => {},
        }
        i = i + 1;
    }
    failures
}

proof fn lemma_first_unready_is_at(allocations: Seq<AllocationRecord>, a: int)
    requires
        0 <= a < allocations.len(),
        allocations[a].status == ResourceAllocationStatus::Desired || allocations[a].status
            == ResourceAllocationStatus::Failed,
        forall|b: int|
            0 <= b < a ==> (#[trigger] allocations[b]).status == ResourceAllocationStatus::Ready
                || allocations[b].status == ResourceAllocationStatus::Inactive,
    ensures
        first_unready_allocation(allocations) == Some(allocations[a]),
    decreases a,
{
    if a > 0 {
        let rest = allocations.drop_first();
        assert forall|b: int| 0 <= b < a - 1 implies (#[trigger] rest[b]).status
            == ResourceAllocationStatus::Ready || rest[b].status == ResourceAllocationStatus::Inactive by {
            assert(rest[b] == allocations[b + 1]);
        }
        assert(allocations[0].status == ResourceAllocationStatus::Ready || allocations[0].status
            == ResourceAllocationStatus::Inactive);
        lemma_first_unready_is_at(rest, a - 1);
    }
}

/// A running shared runtime cannot vouch for a Project-specific allocation that is not ready:
/// when a Project's demand and PHP identity match what was applied and its first demand is on
/// a track other than the reconciled one, with an allocation that is still desired or failed
/// after only ready or inactive ones, the Project is refused with that allocation missing its
/// environment context, whatever the runtimes' observations and the tracks' contexts say.
pub proof fn lemma_unready_foreign_allocation_refuses(
    project: ProjectDependencyInput,
    tracks: Seq<TrackContext>,
    observations: Seq<ResourceObservation>,
    reconciled_resource: Seq<char>,
    reconciled_track: Seq<char>,
    a: int,
)
    requires
        project.demands@.len() > 0,
        project.demands_match_recorded,
        project.php_identity_matches_applied,
        !(project.demands@[0].resource_name@ == reconciled_resource && project.demands@[0].track@
            == reconciled_track),
        0 <= a < project.demands@[0].allocations@.len(),
        project.demands@[0].allocations@[a].status == ResourceAllocationStatus::Desired
            || project.demands@[0].allocations@[a].status == ResourceAllocationStatus::Failed,
        forall|b: int|
            0 <= b < a ==> (#[trigger] project.demands@[0].allocations@[b]).status
                == ResourceAllocationStatus::Ready || project.demands@[0].allocations@[b].status
                == ResourceAllocationStatus::Inactive,
    ensures
        project_dependency_failure(project, tracks, observations, reconciled_resource, reconciled_track)
            == Some(
            DependencyFailure::UnreadyAllocation {
                resource: project.demands@[0].resource_name@,
                allocation: project.demands@[0].allocations@[a].allocation_name@,
            },
        ),
        forall|e: DaemonError|
            #![trigger reports_failure(e, project.project_id@, DependencyFailure::UnreadyAllocation {
                resource: project.demands@[0].resource_name@,
                allocation: project.demands@[0].allocations@[a].allocation_name@,
            })]
            reports_failure(
                e,
                project.project_id@,
                DependencyFailure::UnreadyAllocation {
                    resource: project.demands@[0].resource_name@,
                    allocation: project.demands@[0].allocations@[a].allocation_name@,
                },
            ) ==> (e matches DaemonError::MissingAllocationEnvContext { resource, allocation } && resource@
                == project.demands@[0].resource_name@ && allocation@
                == project.demands@[0].allocations@[a].allocation_name@),
{
    let demand = project.demands@[0];
    lemma_first_unready_is_at(demand.allocations@, a);
    assert(has_active_allocation(demand.allocations@)) by {
        assert(demand.allocations@[a].status != ResourceAllocationStatus::Inactive);
    }
}

} // verus!
