//! Which records a Managed Resource reconciliation acts on: the runtimes to stop, the
//! allocations to provision, the ports to release, the tracks to install, and the error a
//! Project's resources end with.
use vstd::prelude::*;
use vstd::string::*;

use crate::desired::{
    find_adapter, lookup_adapter, record_key, track_key, CatalogAdapter,
    DemandedResourceTrack, DesiredState, ResourceTrackRecord,
};
use crate::error::{DaemonError, ManagedResourceProjectFailure};
use crate::install::combined_project_resource_error;
use crate::mailpit::ManagedResourcePortSpec;
use crate::prefetch::{take_project_prefetch_failures, PrefetchedInstalls, PrefetchedProjectInstall};
use crate::scope::{gateway_runtime_resource, is_gateway_runtime_resource};
use crate::text::str_equal;

verus! {

/// Whether the track `k` is among `demanded`.
pub open spec fn demands(demanded: Seq<DemandedResourceTrack>, k: (Seq<char>, Seq<char>)) -> bool {
    exists|j: int| 0 <= j < demanded.len() && track_key(#[trigger] demanded[j]) == k
}

fn is_demanded(demanded: &Vec<DemandedResourceTrack>, name: &str, track: &str) -> (found: bool)
    ensures
        found == demands(demanded@, (name@, track@)),
{
    let mut i: usize = 0;
    while i < demanded.len()
        invariant
            i <= demanded.len(),
            forall|j: int| 0 <= j < i ==> track_key(#[trigger] demanded@[j]) != (name@, track@),
        decreases demanded.len() - i,
    {
        if str_equal(demanded[i].resource_name.as_str(), name) && str_equal(demanded[i].track.as_str(), track) {
            proof {
                assert(track_key(demanded@[i as int]) == (name@, track@));
            }
            return true;
        }
        i = i + 1;
    }
    false
}

/// A record whose runtime is stopped: its resource has a catalog adapter, no Project uses
/// the track, and the track is not demanded.
pub open spec fn undemanded_runtime(
    r: ResourceTrackRecord,
    catalog: Seq<CatalogAdapter>,
    demanded: Seq<DemandedResourceTrack>,
) -> bool {
    &&& find_adapter(catalog, r.resource_name@) is Some
    &&& r.usage_count == 0
    &&& !demands(demanded, record_key(r))
}

/// The positions, in order, of the records whose runtimes are stopped as undemanded.
pub fn undemanded_catalog_tracks(
    records: &Vec<ResourceTrackRecord>,
    catalog: &Vec<CatalogAdapter>,
    demanded: &Vec<DemandedResourceTrack>,
) -> (stopped: Vec<usize>)
    ensures
        forall|k: int| 0 <= k < stopped@.len() ==> stopped@[k] < records@.len(),
        forall|a: int, b: int| 0 <= a < b < stopped@.len() ==> stopped@[a] < stopped@[b],
        forall|i: int|
            0 <= i < records@.len() ==> (stopped@.contains(i as usize) <==> undemanded_runtime(
                #[trigger] records@[i],
                catalog@,
                demanded@,
            )),
{
    let mut stopped: Vec<usize> = Vec::new();
    let mut i: usize = 0;
    while i < records.len()
        invariant
            i <= records.len(),
            forall|k: int| 0 <= k < stopped@.len() ==> stopped@[k] < i,
            forall|a: int, b: int| 0 <= a < b < stopped@.len() ==> stopped@[a] < stopped@[b],
            forall|p: int|
                0 <= p < i ==> (stopped@.contains(p as usize) <==> undemanded_runtime(
                    #[trigger] records@[p],
                    catalog@,
                    demanded@,
                )),
        decreases records.len() - i,
    {
        let r = &records[i];
        let ghost before = stopped@;
        let has_adapter = match lookup_adapter(catalog, r.resource_name.as_str()) {
            Some(_) => true,
            None => false,
        };
        if has_adapter && r.usage_count == 0 && !is_demanded(demanded, r.resource_name.as_str(), r.track.as_str()) {
            stopped.push(i);
        }
        proof {
            assert forall|p: int|
                0 <= p < i + 1 implies (stopped@.contains(p as usize) <==> undemanded_runtime(
                    #[trigger] records@[p],
                    catalog@,
                    demanded@,
                )) by {
                if stopped@.contains(p as usize) && p < i {
                    let k = choose|k: int| 0 <= k < stopped@.len() && stopped@[k] == p as usize;
                    if k < before.len() {
                        assert(before.contains(p as usize));
                    }
                }
                if before.contains(p as usize) {
                    let k = choose|k: int| 0 <= k < before.len() && before[k] == p as usize;
                    assert(stopped@[k] == p as usize);
                }
                if p == i && undemanded_runtime(records@[p], catalog@, demanded@) {
                    assert(stopped@[stopped@.len() - 1] == i);
                }
            }
        }
        i = i + 1;
    }
    stopped
}

/// Whether a gateway runtime track is wanted without its artifact.
pub open spec fn gateway_runtime_missing(records: Seq<ResourceTrackRecord>) -> bool {
    exists|i: int|
        0 <= i < records.len() && is_gateway_runtime_resource(#[trigger] records[i].resource_name@)
            && records[i].desired_state is Installed && !records[i].has_current_artifact
}

/// Whether a gateway runtime (Caddy, PHP or FrankenPHP) track is wanted but has no artifact,
/// so that a Project asking for PHP extensions needs the System resources repaired.
pub fn missing_gateway_runtime_resource(records: &Vec<ResourceTrackRecord>) -> (missing: bool)
    ensures
        missing == gateway_runtime_missing(records@),
{
    let mut i: usize = 0;
    while i < records.len()
        invariant
            i <= records.len(),
            forall|j: int|
                0 <= j < i ==> !(is_gateway_runtime_resource(#[trigger] records@[j].resource_name@)
                    && records@[j].desired_state is Installed && !records@[j].has_current_artifact),
        decreases records.len() - i,
    {
        let r = &records[i];
        if gateway_runtime_resource(r.resource_name.as_str()) && matches!(r.desired_state, DesiredState::Installed)
            && !r.has_current_artifact {
            return true;
        }
        i = i + 1;
    }
    false
}

/// The recorded tracks that a Project's resources install: those whose resource has a
/// runtime adapter, in their order.
pub fn declared_tracks_with_adapters(
    recorded: &Vec<DemandedResourceTrack>,
    catalog: &Vec<CatalogAdapter>,
) -> (declared: Vec<DemandedResourceTrack>)
    ensures
        track_views(declared@) == track_views(recorded@.filter(|t: DemandedResourceTrack| find_adapter(catalog@, t.resource_name@) is Some)),
{
    let ghost pred = |t: DemandedResourceTrack| find_adapter(catalog@, t.resource_name@) is Some;
    let mut declared: Vec<DemandedResourceTrack> = Vec::new();
    let mut i: usize = 0;
    proof {
        assert(recorded@.take(0) =~= Seq::<DemandedResourceTrack>::empty());
        reveal(Seq::filter);
        assert(recorded@.take(0).filter(pred) =~= Seq::<DemandedResourceTrack>::empty());
    }
    while i < recorded.len()
        invariant
            i <= recorded.len(),
            pred == (|t: DemandedResourceTrack| find_adapter(catalog@, t.resource_name@) is Some),
            track_views(declared@) == track_views(recorded@.take(i as int).filter(pred)),
        decreases recorded.len() - i,
    {
        let t = &recorded[i];
        let ghost before = declared@;
        proof {
            crate::desired::lemma_filter_step(recorded@, i as int, pred);
            assert(recorded@[i as int] == *t);
        }
        match lookup_adapter(catalog, t.resource_name.as_str()) {
            Some(_) => {
                declared.push(DemandedResourceTrack { resource_name: t.resource_name.clone(), track: t.track.clone() });
                proof {
                    let f = recorded@.take(i as int).filter(pred);
                    assert(track_views(declared@) =~= track_views(before).push(track_key(*t)));
                    assert(track_views(f.push(*t)) =~= track_views(f).push(track_key(*t)));
                }
            },
            None => {},
        }
        i = i + 1;
    }
    proof {
        assert(recorded@.take(recorded.len() as int) =~= recorded@);
    }
    declared
}

/// The keys of a list of tracks.
pub open spec fn track_views(s: Seq<DemandedResourceTrack>) -> Seq<(Seq<char>, Seq<char>)> {
    s.map_values(|t: DemandedResourceTrack| track_key(t))
}

/// One allocation of a resource for a Project, by its track and name.
pub struct AllocationEntry {
    pub track: String,
    pub allocation_name: String,
}

/// Whether `name` is among `planned`.
pub open spec fn planned_name(planned: Seq<String>, name: Seq<char>) -> bool {
    exists|j: int| 0 <= j < planned.len() && #[trigger] planned[j]@ == name
}

/// The positions, in order, of the allocations a track provisions for a Project: those of
/// the track whose name the Project's allocation plan for the resource lists; none when the
/// plan has no entry for the resource.
pub fn desired_allocations(
    planned: &Option<Vec<String>>,
    allocations: &Vec<AllocationEntry>,
    track: &str,
) -> (kept: Vec<usize>)
    ensures
        forall|k: int| 0 <= k < kept@.len() ==> kept@[k] < allocations@.len(),
        forall|a: int, b: int| 0 <= a < b < kept@.len() ==> kept@[a] < kept@[b],
        forall|i: int|
            0 <= i < allocations@.len() ==> (kept@.contains(i as usize) <==> match planned {
                None => false,
                Some(names) => (#[trigger] allocations@[i]).track@ == track@ && planned_name(
                    names@,
                    allocations@[i].allocation_name@,
                ),
            }),
{
    let mut kept: Vec<usize> = Vec::new();
    let names = match planned {
        None => {
            return kept;
        },
        Some(names) => names,
    };
    let mut i: usize = 0;
    while i < allocations.len()
        invariant
            i <= allocations.len(),
            *planned == Some(*names),
            forall|k: int| 0 <= k < kept@.len() ==> kept@[k] < i,
            forall|a: int, b: int| 0 <= a < b < kept@.len() ==> kept@[a] < kept@[b],
            forall|p: int|
                0 <= p < i ==> (kept@.contains(p as usize) <==> ((#[trigger] allocations@[p]).track@ == track@
                    && planned_name(names@, allocations@[p].allocation_name@))),
        decreases allocations.len() - i,
    {
        let a = &allocations[i];
        let ghost before = kept@;
        if str_equal(a.track.as_str(), track) && name_listed(names, a.allocation_name.as_str()) {
            kept.push(i);
        }
        proof {
            assert forall|p: int|
                0 <= p < i + 1 implies (kept@.contains(p as usize) <==> ((#[trigger] allocations@[p]).track@ == track@
                    && planned_name(names@, allocations@[p].allocation_name@))) by {
                if kept@.contains(p as usize) && p < i {
                    let k = choose|k: int| 0 <= k < kept@.len() && kept@[k] == p as usize;
                    if k < before.len() {
                        assert(before.contains(p as usize));
                    }
                }
                if before.contains(p as usize) {
                    let k = choose|k: int| 0 <= k < before.len() && before[k] == p as usize;
                    assert(kept@[k] == p as usize);
                }
                if p == i && allocations@[p].track@ == track@ && planned_name(names@, allocations@[p].allocation_name@) {
                    assert(kept@[kept@.len() - 1] == i);
                }
            }
        }
        i = i + 1;
    }
    kept
}

fn name_listed(names: &Vec<String>, name: &str) -> (listed: bool)
    ensures
        listed == planned_name(names@, name@),
{
    let mut i: usize = 0;
    while i < names.len()
        invariant
            i <= names.len(),
            forall|j: int| 0 <= j < i ==> (#[trigger] names@[j])@ != name@,
        decreases names.len() - i,
    {
        if str_equal(names[i].as_str(), name) {
            return true;
        }
        i = i + 1;
    }
    false
}

/// Who a port is assigned to.
pub enum PortOwner {
    Resource { name: String, track: String, port: String },
    /// A Project, the gateway or anything else.
    Other,
}

/// The positions, in order, of the ports assigned to the resource track `name` `track`.
pub fn resource_track_ports(owners: &Vec<PortOwner>, name: &str, track: &str) -> (released: Vec<usize>)
    ensures
        forall|k: int| 0 <= k < released@.len() ==> released@[k] < owners@.len(),
        forall|a: int, b: int| 0 <= a < b < released@.len() ==> released@[a] < released@[b],
        forall|i: int|
            0 <= i < owners@.len() ==> (released@.contains(i as usize) <==> match #[trigger] owners@[i] {
                PortOwner::Resource { name: n, track: t, .. } => n@ == name@ && t@ == track@,
                PortOwner::Other => false,
            }),
{
    let mut released: Vec<usize> = Vec::new();
    let mut i: usize = 0;
    while i < owners.len()
        invariant
            i <= owners.len(),
            forall|k: int| 0 <= k < released@.len() ==> released@[k] < i,
            forall|a: int, b: int| 0 <= a < b < released@.len() ==> released@[a] < released@[b],
            forall|p: int|
                0 <= p < i ==> (released@.contains(p as usize) <==> match #[trigger] owners@[p] {
                    PortOwner::Resource { name: n, track: t, .. } => n@ == name@ && t@ == track@,
                    PortOwner::Other => false,
                }),
        decreases owners.len() - i,
    {
        let ghost before = released@;
        let owned = match &owners[i] {
            PortOwner::Resource { name: n, track: t, .. } => str_equal(n.as_str(), name) && str_equal(t.as_str(), track),
            PortOwner::Other => false,
        };
        if owned {
            released.push(i);
        }
        proof {
            assert forall|p: int|
                0 <= p < i + 1 implies (released@.contains(p as usize) <==> match #[trigger] owners@[p] {
                    PortOwner::Resource { name: n, track: t, .. } => n@ == name@ && t@ == track@,
                    PortOwner::Other => false,
                }) by {
                if released@.contains(p as usize) && p < i {
                    let k = choose|k: int| 0 <= k < released@.len() && released@[k] == p as usize;
                    if k < before.len() {
                        assert(before.contains(p as usize));
                    }
                }
                if before.contains(p as usize) {
                    let k = choose|k: int| 0 <= k < before.len() && before[k] == p as usize;
                    assert(released@[k] == p as usize);
                }
                if p == i && owned {
                    assert(released@[released@.len() - 1] == i);
                }
            }
        }
        i = i + 1;
    }
    released
}

/// The port name no adapter may use, as it stands for the resource itself.
pub open spec fn reserved_port_name() -> Seq<char> {
    "default"@
}

/// The ports an adapter asks for may be assigned: none is named `default`; otherwise the
/// first such port is the error.
pub fn check_port_names(resource: &str, track: &str, specs: &Vec<ManagedResourcePortSpec>) -> (r: Result<(), DaemonError>)
    ensures
        r is Ok <==> (forall|i: int| 0 <= i < specs@.len() ==> (#[trigger] specs@[i]).name@ != reserved_port_name()),
        r is Err ==> exists|i: int|
            0 <= i < specs@.len() && (#[trigger] specs@[i]).name@ == reserved_port_name() && (forall|j: int|
                0 <= j < i ==> specs@[j].name@ != reserved_port_name()) && match r {
                Err(DaemonError::ManagedResourcePortNameReserved { resource: res, track: tr, port }) => res@
                    == resource@ && tr@ == track@ && port@ == reserved_port_name(),
                _ => false,
            },
{
    let mut i: usize = 0;
    while i < specs.len()
        invariant
            i <= specs.len(),
            forall|j: int| 0 <= j < i ==> (#[trigger] specs@[j]).name@ != reserved_port_name(),
        decreases specs.len() - i,
    {
        if str_equal(specs[i].name, "default") {
            return Err(
                DaemonError::ManagedResourcePortNameReserved {
                    resource: String::from_str(resource),
                    track: String::from_str(track),
                    port: String::from_str("default"),
                },
            );
        }
        i = i + 1;
    }
    Ok(())
}

/// `failure` is the failure of `track` with `error`.
pub open spec fn failure_of(failure: ManagedResourceProjectFailure, track: DemandedResourceTrack, error: DaemonError) -> bool {
    failure.resource_name == track.resource_name && failure.track == track.track && *failure.error == error
}

/// The error a Project's resources end with when the track at `failed` failed with
/// `error`: that failure, followed by the failed prefetches of the tracks after it, which are
/// taken out of `prefetched`; a lone failure is reported as itself.
pub fn project_resources_failure(
    tracks: &Vec<DemandedResourceTrack>,
    failed: usize,
    error: DaemonError,
    prefetched: &mut PrefetchedInstalls,
) -> (e: DaemonError)
    requires
        failed < tracks@.len(),
        old(prefetched).well_formed(),
    ensures
        final(prefetched).well_formed(),
        match e {
            DaemonError::ManagedResourceProjectFailed { failure } => failure_of(failure, tracks@[failed as int], error),
            DaemonError::ManagedResourceProjectFailures { failures } => {
                &&& 2 <= failures@.len() <= tracks@.len() - failed
                &&& failure_of(failures@[0], tracks@[failed as int], error)
                &&& forall|j: int|
                    1 <= j < failures@.len() ==> exists|i: int|
                        failed < i < tracks@.len() && (#[trigger] failures@[j]).resource_name@
                            == tracks@[i].resource_name@ && failures@[j].track@ == tracks@[i].track@
                            && old(prefetched).view().contains_key(track_key(tracks@[i])) && old(
                            prefetched,
                        ).view()[track_key(tracks@[i])] == PrefetchedProjectInstall::Failed(*failures@[j].error)
            },
            _ => false,
        },
{
    let mut later: Vec<DemandedResourceTrack> = Vec::new();
    let count: usize = tracks.len();
    let mut i: usize = failed + 1;
    while i < count
        invariant
            count == tracks.len(),
            failed < i <= tracks.len(),
            later@.len() == i - failed - 1,
            forall|k: int| 0 <= k < later@.len() ==> track_key(#[trigger] later@[k]) == track_key(tracks@[failed + 1 + k]),
        decreases tracks.len() - i,
    {
        later.push(DemandedResourceTrack { resource_name: tracks[i].resource_name.clone(), track: tracks[i].track.clone() });
        i = i + 1;
    }
    let ghost original = prefetched.view();
    let rest = take_project_prefetch_failures(&later, prefetched);
    let mut failures: Vec<ManagedResourceProjectFailure> = Vec::new();
    failures.push(
        ManagedResourceProjectFailure::new(tracks[failed].resource_name.clone(), tracks[failed].track.clone(), error),
    );
    let ghost rest_view = rest@;
    let mut rest = rest;
    failures.append(&mut rest);
    let ghost all = failures@;
    proof {
        assert forall|j: int|
            1 <= j < all.len() implies exists|i: int|
                failed < i < tracks@.len() && (#[trigger] all[j]).resource_name@ == tracks@[i].resource_name@
                    && all[j].track@ == tracks@[i].track@ && original.contains_key(track_key(tracks@[i]))
                    && original[track_key(tracks@[i])] == PrefetchedProjectInstall::Failed(*all[j].error) by {
            assert(all[j] == rest_view[j - 1]);
            let p = choose|p: int|
                0 <= p < later@.len() && (#[trigger] rest_view[j - 1]).resource_name@ == later@[p].resource_name@
                    && rest_view[j - 1].track@ == later@[p].track@ && original.contains_key(track_key(later@[p]))
                    && original[track_key(later@[p])] == PrefetchedProjectInstall::Failed(*rest_view[j - 1].error);
            assert(track_key(later@[p]) == track_key(tracks@[failed + 1 + p]));
        }
    }
    combined_project_resource_error(failures)
}

} // verus!
