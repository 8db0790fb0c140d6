//! How a Project's missing Managed Resource tracks are requested, prefetched and handed to
//! the track reconciliation.
//!
//! The tracks a Project declares are walked in order. An installed track needs nothing; a
//! track of a resource without a runtime adapter is passed over when its environment was
//! seeded and ends the walk otherwise; any other track asks its adapter for an install.
//! The first failure ends the walk. The requested installs are then resolved against one
//! artifact manifest, their downloads fetched together, and each track's outcome kept by
//! track until its reconciliation takes it.
use vstd::prelude::*;
use vstd::string::*;

use crate::desired::{
    find_adapter, lemma_filter_step, lemma_find_adapter_bounds, lookup_adapter, record_key, track_key, CatalogAdapter,
    DemandedResourceTrack, DesiredState, ResourceTrackRecord,
};
use crate::artifacts::runtime_adapter_mismatch;
use crate::error::{DaemonError, ManagedResourceProjectFailure};
use crate::text::{concat2, str_equal};

verus! {

/// The first record of the track `key`.
pub open spec fn find_record(records: Seq<ResourceTrackRecord>, key: (Seq<char>, Seq<char>)) -> Option<int>
    decreases records.len(),
{
    if records.len() == 0 {
        None
    } else {
        match find_record(records.drop_last(), key) {
            Some(i) => Some(i),
            None => if record_key(records.last()) == key {
                Some(records.len() - 1)
            } else {
                None
            },
        }
    }
}

proof fn lemma_find_record_prefix(records: Seq<ResourceTrackRecord>, n: int, key: (Seq<char>, Seq<char>))
    requires
        0 <= n <= records.len(),
        find_record(records.take(n), key) is Some,
    ensures
        find_record(records, key) == find_record(records.take(n), key),
    decreases records.len() - n,
{
    if n < records.len() {
        assert(records.take(n + 1).drop_last() =~= records.take(n));
        lemma_find_record_prefix(records, n + 1, key);
    } else {
        assert(records.take(n) =~= records);
    }
}

proof fn lemma_find_record_bounds(records: Seq<ResourceTrackRecord>, key: (Seq<char>, Seq<char>))
    ensures
        match find_record(records, key) {
            Some(i) => 0 <= i < records.len() && record_key(records[i]) == key,
            None => forall|j: int| 0 <= j < records.len() ==> record_key(#[trigger] records[j]) != key,
        },
    decreases records.len(),
{
    if records.len() > 0 {
        let prefix = records.drop_last();
        lemma_find_record_bounds(prefix, key);
        assert forall|j: int| 0 <= j < prefix.len() implies prefix[j] == records[j] by {}
    }
}

fn position_of_record(records: &Vec<ResourceTrackRecord>, name: &str, track: &str) -> (found: Option<usize>)
    ensures
        match found {
            Some(i) => find_record(records@, (name@, track@)) == Some(i as int),
            None => find_record(records@, (name@, track@)) is None,
        },
{
    let mut i: usize = 0;
    while i < records.len()
        invariant
            i <= records.len(),
            find_record(records@.take(i as int), (name@, track@)) is None,
        decreases records.len() - i,
    {
        proof {
            assert(records@.take(i + 1).drop_last() =~= records@.take(i as int));
        }
        if str_equal(records[i].resource_name.as_str(), name) && str_equal(records[i].track.as_str(), track) {
            proof {
                lemma_find_record_prefix(records@, i + 1, (name@, track@));
            }
            return Some(i);
        }
        i = i + 1;
    }
    proof {
        assert(records@.take(records.len() as int) =~= records@);
    }
    None
}

/// What the records say of a track: installed (the record's position), not installed, or
/// installed while meant to be removed.
pub enum TrackLookup {
    NotInstalled,
    Installed(int),
    Removed,
}

/// The record of the track `key`, if it is installed: its first record, when that record
/// has an artifact; a track with an artifact that is meant to be removed is an error.
pub open spec fn track_lookup(records: Seq<ResourceTrackRecord>, key: (Seq<char>, Seq<char>)) -> TrackLookup {
    match find_record(records, key) {
        None => TrackLookup::NotInstalled,
        Some(i) => if !records[i].has_current_artifact {
            TrackLookup::NotInstalled
        } else if records[i].desired_state is Removed {
            TrackLookup::Removed
        } else {
            TrackLookup::Installed(i)
        },
    }
}

/// The installed record of a track: `None` when it has no record or no artifact, and an
/// error when its artifact is still there while the track is meant to be removed.
pub fn installed_track(records: &Vec<ResourceTrackRecord>, name: &str, track: &str) -> (found: Result<
    Option<usize>,
    DaemonError,
>)
    ensures
        match track_lookup(records@, (name@, track@)) {
            TrackLookup::NotInstalled => found == Ok::<Option<usize>, DaemonError>(None),
            TrackLookup::Installed(i) => found == Ok::<Option<usize>, DaemonError>(Some(i as usize)),
            TrackLookup::Removed => match found {
                Err(DaemonError::ManagedResourceTrackRemoved { resource, track: t }) => resource@ == name@
                    && t@ == track@,
                _ => false,
            },
        },
{
    match position_of_record(records, name, track) {
        None => Ok(None),
        Some(i) => {
            proof {
                lemma_find_record_bounds(records@, (name@, track@));
            }
            if !records[i].has_current_artifact {
                Ok(None)
            } else if matches!(records[i].desired_state, DesiredState::Removed) {
                Err(
                    DaemonError::ManagedResourceTrackRemoved {
                        resource: String::from_str(name),
                        track: String::from_str(track),
                    },
                )
            } else {
                Ok(Some(i))
            }
        },
    }
}

/// Some record of the track `key` holds seeded environment context.
pub open spec fn has_seeded_env_context(records: Seq<ResourceTrackRecord>, key: (Seq<char>, Seq<char>)) -> bool {
    exists|i: int| 0 <= i < records.len() && record_key(#[trigger] records[i]) == key && records[i].has_env_context
}

/// Whether a resource without a runtime adapter already has environment context seeded for
/// its track, so that it needs no runtime here.
pub fn unsupported_resource_has_seeded_env_context(
    records: &Vec<ResourceTrackRecord>,
    name: &str,
    track: &str,
) -> (seeded: bool)
    ensures
        seeded == has_seeded_env_context(records@, (name@, track@)),
{
    let mut i: usize = 0;
    while i < records.len()
        invariant
            i <= records.len(),
            forall|j: int| 0 <= j < i ==> !(record_key(#[trigger] records@[j]) == (name@, track@) && records@[j].has_env_context),
        decreases records.len() - i,
    {
        let r = &records[i];
        if r.has_env_context && str_equal(r.resource_name.as_str(), name) && str_equal(r.track.as_str(), track) {
            proof {
                assert(record_key(records@[i as int]) == (name@, track@));
            }
            return true;
        }
        i = i + 1;
    }
    false
}

/// A request to prefetch the install of a Project's track.
pub enum ProjectInstallRequest {
    /// Resolve the track's artifact with the catalog's adapter at `adapter`.
    Resolve { key: DemandedResourceTrack, adapter: usize },
    /// The track cannot be installed.
    Failed { key: DemandedResourceTrack, error: DaemonError },
}

/// What the walk over a Project's tracks does at one track.
pub enum RequestStep {
    /// Nothing to install.
    Skip,
    /// End the walk without a request.
    Stop,
    /// Request an install with the catalog adapter at this position.
    Resolve(int),
    /// The track is installed while meant to be removed: fail and end the walk.
    FailRemoved,
    /// The adapter at this position cannot give its artifact adapter: fail and end the walk.
    FailAdapter(int),
}

/// What the walk does at the track `t`.
pub open spec fn request_step(
    t: DemandedResourceTrack,
    records: Seq<ResourceTrackRecord>,
    catalog: Seq<CatalogAdapter>,
) -> RequestStep {
    match track_lookup(records, track_key(t)) {
        TrackLookup::Installed(_) => RequestStep::Skip,
        TrackLookup::Removed => RequestStep::FailRemoved,
        TrackLookup::NotInstalled => match find_adapter(catalog, t.resource_name@) {
            None => if has_seeded_env_context(records, track_key(t)) {
                RequestStep::Skip
            } else {
                RequestStep::Stop
            },
            Some(i) => if catalog[i].artifact_adapter_error is Some {
                RequestStep::FailAdapter(i)
            } else {
                RequestStep::Resolve(i)
            },
        },
    }
}

/// A request, by its track's texts and what it asks.
pub enum RequestView {
    Resolve { key: (Seq<char>, Seq<char>), adapter: int },
    FailedRemoved { key: (Seq<char>, Seq<char>) },
    FailedAdapter { key: (Seq<char>, Seq<char>), adapter: int },
}

/// The requests of the walk over the first `n` tracks, and whether it ended there.
pub open spec fn walk_requests(
    tracks: Seq<DemandedResourceTrack>,
    records: Seq<ResourceTrackRecord>,
    catalog: Seq<CatalogAdapter>,
    n: nat,
) -> (Seq<RequestView>, bool)
    decreases n,
{
    if n == 0 {
        (Seq::empty(), false)
    } else {
        let (prev, ended) = walk_requests(tracks, records, catalog, (n - 1) as nat);
        if ended {
            (prev, true)
        } else {
            let t = tracks[n - 1];
            match request_step(t, records, catalog) {
                RequestStep::Skip => (prev, false),
                RequestStep::Stop => (prev, true),
                RequestStep::Resolve(i) => (prev.push(RequestView::Resolve { key: track_key(t), adapter: i }), false),
                RequestStep::FailRemoved => (prev.push(RequestView::FailedRemoved { key: track_key(t) }), true),
                RequestStep::FailAdapter(i) => (
                    prev.push(RequestView::FailedAdapter { key: track_key(t), adapter: i }),
                    true,
                ),
            }
        }
    }
}

/// `request` is the request `view` describes.
pub open spec fn request_matches(
    request: ProjectInstallRequest,
    view: RequestView,
    catalog: Seq<CatalogAdapter>,
) -> bool {
    match view {
        RequestView::Resolve { key, adapter } => match request {
            ProjectInstallRequest::Resolve { key: k, adapter: a } => track_key(k) == key && a == adapter,
            _ => false,
        },
        RequestView::FailedRemoved { key } => match request {
            ProjectInstallRequest::Failed { key: k, error } => track_key(k) == key && match error {
                DaemonError::ManagedResourceTrackRemoved { resource, track } => resource@ == key.0 && track@
                    == key.1,
                _ => false,
            },
            _ => false,
        },
        RequestView::FailedAdapter { key, adapter } => match request {
            ProjectInstallRequest::Failed { key: k, error } => track_key(k) == key && match (
                error,
                catalog[adapter].artifact_adapter_error,
            ) {
                (DaemonError::Other { message }, Some(text)) => message@ == text@,
                _ => false,
            },
            _ => false,
        },
    }
}

/// The install requests for a Project's tracks `tracks`, given the track records as read
/// from the state store. A failed read fails the first track. Otherwise the tracks are
/// walked in order as [`request_step`] says until the walk ends.
pub fn missing_project_install_requests(
    tracks: &Vec<DemandedResourceTrack>,
    records: Result<Vec<ResourceTrackRecord>, DaemonError>,
    catalog: &Vec<CatalogAdapter>,
) -> (requests: Vec<ProjectInstallRequest>)
    ensures
        match records {
            Err(e) => if tracks@.len() == 0 {
                requests@.len() == 0
            } else {
                requests@.len() == 1 && match requests@[0] {
                    ProjectInstallRequest::Failed { key, error } => track_key(key) == track_key(tracks@[0])
                        && error == e,
                    _ => false,
                }
            },
            Ok(records) => {
                let views = walk_requests(tracks@, records@, catalog@, tracks@.len()).0;
                &&& requests@.len() == views.len()
                &&& forall|k: int| 0 <= k < views.len() ==> request_matches(#[trigger] requests@[k], views[k], catalog@)
            },
        },
{
    let mut requests: Vec<ProjectInstallRequest> = Vec::new();
    let records = match records {
        Err(error) => {
            if tracks.len() > 0 {
                let key = DemandedResourceTrack {
                    resource_name: tracks[0].resource_name.clone(),
                    track: tracks[0].track.clone(),
                };
                requests.push(ProjectInstallRequest::Failed { key, error });
            }
            return requests;
        },
        Ok(records) => records,
    };
    let mut i: usize = 0;
    while i < tracks.len()
        invariant_except_break
            walk_requests(tracks@, records@, catalog@, i as nat).1 == false,
        invariant
            i <= tracks.len(),
            requests@.len() == walk_requests(tracks@, records@, catalog@, i as nat).0.len(),
            forall|k: int|
                0 <= k < requests@.len() ==> request_matches(
                    #[trigger] requests@[k],
                    walk_requests(tracks@, records@, catalog@, i as nat).0[k],
                    catalog@,
                ),
        ensures
            i < tracks.len() ==> walk_requests(tracks@, records@, catalog@, i as nat).1,
        decreases tracks.len() - i,
    {
        let t = &tracks[i];
        let ghost prev = requests@;
        proof {
            lemma_find_record_bounds(records@, track_key(*t));
            lemma_find_adapter_bounds(catalog@, t.resource_name@);
            assert(*t == tracks@[i as int]);
        }
        let key = DemandedResourceTrack { resource_name: t.resource_name.clone(), track: t.track.clone() };
        match installed_track(&records, t.resource_name.as_str(), t.track.as_str()) {
            Ok(Some(_)) => {
                i = i + 1;
                continue;
            },
            Ok(None) => {},
            Err(error) => {
                requests.push(ProjectInstallRequest::Failed { key, error });
                proof {
                    assert forall|k: int| 0 <= k < requests@.len() implies request_matches(
                        #[trigger] requests@[k],
                        walk_requests(tracks@, records@, catalog@, i as nat).0.push(
                            RequestView::FailedRemoved { key: track_key(*t) },
                        )[k],
                        catalog@,
                    ) by {
                        if k < prev.len() {
                            assert(requests@[k] == prev[k]);
                        }
                    }
                }
                i = i + 1;
                break;
            },
        }
        match lookup_adapter(catalog, t.resource_name.as_str()) {
            None => {
                if unsupported_resource_has_seeded_env_context(&records, t.resource_name.as_str(), t.track.as_str()) {
                    i = i + 1;
                    continue;
                }
                i = i + 1;
                break;
            },
            Some(index) => match &catalog[index].artifact_adapter_error {
                Some(text) => {
                    requests.push(ProjectInstallRequest::Failed { key, error: DaemonError::Other { message: text.clone() } });
                    proof {
                        assert forall|k: int| 0 <= k < requests@.len() implies request_matches(
                            #[trigger] requests@[k],
                            walk_requests(tracks@, records@, catalog@, i as nat).0.push(
                                RequestView::FailedAdapter { key: track_key(*t), adapter: index as int },
                            )[k],
                            catalog@,
                        ) by {
                            if k < prev.len() {
                                assert(requests@[k] == prev[k]);
                            }
                        }
                    }
                    i = i + 1;
                    break;
                },
                None => {
                    requests.push(ProjectInstallRequest::Resolve { key, adapter: index });
                    proof {
                        assert forall|k: int| 0 <= k < requests@.len() implies request_matches(
                            #[trigger] requests@[k],
                            walk_requests(tracks@, records@, catalog@, i as nat).0.push(
                                RequestView::Resolve { key: track_key(*t), adapter: index as int },
                            )[k],
                            catalog@,
                        ) by {
                            if k < prev.len() {
                                assert(requests@[k] == prev[k]);
                            }
                        }
                    }
                },
            },
        }
        i = i + 1;
    }
    proof {
        if i < tracks.len() {
            lemma_walk_ended_stays(tracks@, records@, catalog@, i as nat, tracks@.len());
        }
    }
    requests
}

proof fn lemma_walk_ended_stays(
    tracks: Seq<DemandedResourceTrack>,
    records: Seq<ResourceTrackRecord>,
    catalog: Seq<CatalogAdapter>,
    n: nat,
    m: nat,
)
    requires
        n <= m,
        walk_requests(tracks, records, catalog, n).1,
    ensures
        walk_requests(tracks, records, catalog, m) == walk_requests(tracks, records, catalog, n),
    decreases m - n,
{
    if n < m {
        lemma_walk_ended_stays(tracks, records, catalog, n, (m - 1) as nat);
    }
}

/// What a requested install became: ready to install with the catalog adapter at
/// `adapter`, the resolved artifact at `resolution` and, when it had to be downloaded, the
/// download at `download`; or failed.
pub enum PrefetchedProjectInstall {
    Ready { adapter: usize, resolution: usize, download: Option<usize> },
    Failed(DaemonError),
}

/// The prefetched installs, kept by track.
pub struct PrefetchedInstalls {
    entries: Vec<(DemandedResourceTrack, PrefetchedProjectInstall)>,
}

/// The install kept for each track of `entries`.
pub open spec fn prefetch_entries_view(entries: Seq<(DemandedResourceTrack, PrefetchedProjectInstall)>) -> Map<
    (Seq<char>, Seq<char>),
    PrefetchedProjectInstall,
> {
    Map::new(
        |k: (Seq<char>, Seq<char>)| exists|i: int| 0 <= i < entries.len() && #[trigger] track_key(entries[i].0) == k,
        |k: (Seq<char>, Seq<char>)|
            entries[choose|i: int| 0 <= i < entries.len() && #[trigger] track_key(entries[i].0) == k].1,
    )
}

/// No track occurs twice in `entries`.
pub open spec fn prefetch_keys_unique(entries: Seq<(DemandedResourceTrack, PrefetchedProjectInstall)>) -> bool {
    forall|i: int, j: int|
        0 <= i < j < entries.len() ==> track_key(#[trigger] entries[i].0) != track_key(#[trigger] entries[j].0)
}

/// The map that inserting `inserts` one after the other into an empty map gives.
pub open spec fn inserts_view(inserts: Seq<(DemandedResourceTrack, PrefetchedProjectInstall)>) -> Map<
    (Seq<char>, Seq<char>),
    PrefetchedProjectInstall,
>
    decreases inserts.len(),
{
    if inserts.len() == 0 {
        Map::empty()
    } else {
        inserts_view(inserts.drop_last()).insert(track_key(inserts.last().0), inserts.last().1)
    }
}

proof fn lemma_prefetch_view_at(entries: Seq<(DemandedResourceTrack, PrefetchedProjectInstall)>, i: int)
    requires
        prefetch_keys_unique(entries),
        0 <= i < entries.len(),
    ensures
        prefetch_entries_view(entries).contains_key(track_key(entries[i].0)),
        prefetch_entries_view(entries)[track_key(entries[i].0)] == entries[i].1,
{
    let k = track_key(entries[i].0);
    assert(prefetch_entries_view(entries).dom().contains(k));
    let j = choose|j: int| 0 <= j < entries.len() && #[trigger] track_key(entries[j].0) == k;
    if j < i {
        assert(track_key(entries[j].0) != track_key(entries[i].0));
    } else if j > i {
        assert(track_key(entries[i].0) != track_key(entries[j].0));
    }
}

impl PrefetchedInstalls {
    /// The install kept for each track.
    pub closed spec fn view(&self) -> Map<(Seq<char>, Seq<char>), PrefetchedProjectInstall> {
        prefetch_entries_view(self.entries@)
    }

    /// No track is kept twice.
    pub closed spec fn well_formed(&self) -> bool {
        prefetch_keys_unique(self.entries@)
    }

    /// Nothing kept.
    pub fn new() -> (installs: Self)
        ensures
            installs.well_formed(),
            installs.view() == Map::<(Seq<char>, Seq<char>), PrefetchedProjectInstall>::empty(),
    {
        let installs = PrefetchedInstalls { entries: Vec::new() };
        proof {
            assert(installs.view() =~= Map::<(Seq<char>, Seq<char>), PrefetchedProjectInstall>::empty());
        }
        installs
    }

    fn position(&self, name: &str, track: &str) -> (found: Option<usize>)
        ensures
            match found {
                Some(i) => i < self.entries@.len() && track_key(self.entries@[i as int].0) == (name@, track@),
                None => forall|i: int|
                    0 <= i < self.entries@.len() ==> track_key(#[trigger] self.entries@[i].0) != (name@, track@),
            },
    {
        let mut i: usize = 0;
        while i < self.entries.len()
            invariant
                i <= self.entries@.len(),
                forall|j: int| 0 <= j < i ==> track_key(#[trigger] self.entries@[j].0) != (name@, track@),
            decreases self.entries.len() - i,
        {
            if str_equal(self.entries[i].0.resource_name.as_str(), name) && str_equal(
                self.entries[i].0.track.as_str(),
                track,
            ) {
                return Some(i);
            }
            i = i + 1;
        }
        None
    }

    /// Keeps `install` for the track `key`, replacing what was kept for it.
    pub fn insert(&mut self, key: DemandedResourceTrack, install: PrefetchedProjectInstall)
        requires
            old(self).well_formed(),
        ensures
            final(self).well_formed(),
            final(self).view() == old(self).view().insert(track_key(key), install),
    {
        let ghost before = self.entries@;
        let ghost k = track_key(key);
        let found = self.position(key.resource_name.as_str(), key.track.as_str());
        match found {
            Some(i) => {
                self.entries.set(i, (key, install));
            },
            None => {
                self.entries.push((key, install));
            },
        }
        proof {
            let after = self.entries@;
            let p: int = match found {
                Some(i) => i as int,
                None => before.len() as int,
            };
            assert forall|a: int| 0 <= a < after.len() && a != p implies after[a] == before[a] by {}
            assert forall|a: int, b: int| 0 <= a < b < after.len() implies track_key(#[trigger] after[a].0)
                != track_key(#[trigger] after[b].0) by {
                if a != p && b != p {
                    assert(track_key(before[a].0) != track_key(before[b].0));
                }
            }
            lemma_prefetch_view_at(after, p);
            let va = prefetch_entries_view(after);
            let vb = prefetch_entries_view(before).insert(k, install);
            assert forall|x: (Seq<char>, Seq<char>)| #[trigger] va.contains_key(x) <==> vb.contains_key(x) by {
                if va.contains_key(x) && x != k {
                    let q = choose|q: int| 0 <= q < after.len() && #[trigger] track_key(after[q].0) == x;
                    assert(before[q] == after[q]);
                }
                if prefetch_entries_view(before).contains_key(x) && x != k {
                    let q = choose|q: int| 0 <= q < before.len() && #[trigger] track_key(before[q].0) == x;
                    assert(before[q] == after[q]);
                }
            }
            assert forall|x: (Seq<char>, Seq<char>)| va.contains_key(x) implies #[trigger] va[x] == vb[x] by {
                if x != k {
                    let q = choose|q: int| 0 <= q < after.len() && #[trigger] track_key(after[q].0) == x;
                    lemma_prefetch_view_at(after, q);
                    assert(before[q] == after[q]);
                    lemma_prefetch_view_at(before, q);
                }
            }
            assert(va =~= vb);
        }
    }

    /// Takes what is kept for the track of `name` and `track` out of the map.
    pub fn remove(&mut self, name: &str, track: &str) -> (taken: Option<PrefetchedProjectInstall>)
        requires
            old(self).well_formed(),
        ensures
            final(self).well_formed(),
            final(self).view() == old(self).view().remove((name@, track@)),
            match taken {
                Some(install) => old(self).view().contains_key((name@, track@)) && old(self).view()[(
                    name@,
                    track@,
                )] == install,
                None => !old(self).view().contains_key((name@, track@)),
            },
    {
        let ghost before = self.entries@;
        let ghost k = (name@, track@);
        match self.position(name, track) {
            None => {
                proof {
                    assert(prefetch_entries_view(before).remove(k) =~= prefetch_entries_view(before));
                }
                None
            },
            Some(i) => {
                proof {
                    lemma_prefetch_view_at(before, i as int);
                }
                let (_key, install) = self.entries.remove(i);
                proof {
                    let after = self.entries@;
                    assert forall|a: int| 0 <= a < after.len() implies after[a] == before[if a < i {
                        a
                    } else {
                        a + 1
                    }] by {}
                    assert forall|a: int, b: int| 0 <= a < b < after.len() implies track_key(#[trigger] after[a].0)
                        != track_key(#[trigger] after[b].0) by {
                        let oa = if a < i { a } else { a + 1 };
                        let ob = if b < i { b } else { b + 1 };
                        assert(track_key(before[oa].0) != track_key(before[ob].0));
                    }
                    let va = prefetch_entries_view(after);
                    let vb = prefetch_entries_view(before).remove(k);
                    assert forall|x: (Seq<char>, Seq<char>)| #[trigger] va.contains_key(x) <==> vb.contains_key(x) by {
                        if va.contains_key(x) {
                            let q = choose|q: int| 0 <= q < after.len() && #[trigger] track_key(after[q].0) == x;
                            let oq = if q < i { q } else { q + 1 };
                            assert(after[q] == before[oq]);
                            if x == k {
                                if oq < i {
                                    assert(track_key(before[oq].0) != track_key(before[i as int].0));
                                } else {
                                    assert(track_key(before[i as int].0) != track_key(before[oq].0));
                                }
                            }
                        }
                        if vb.contains_key(x) {
                            let q = choose|q: int| 0 <= q < before.len() && #[trigger] track_key(before[q].0) == x;
                            if q < i {
                                assert(after[q] == before[q]);
                            } else {
                                assert(after[q - 1] == before[q]);
                            }
                        }
                    }
                    assert forall|x: (Seq<char>, Seq<char>)| va.contains_key(x) implies #[trigger] va[x] == vb[x] by {
                        let q = choose|q: int| 0 <= q < after.len() && #[trigger] track_key(after[q].0) == x;
                        lemma_prefetch_view_at(after, q);
                        let oq = if q < i { q } else { q + 1 };
                        assert(after[q] == before[oq]);
                        lemma_prefetch_view_at(before, oq);
                    }
                    assert(va =~= vb);
                }
                Some(install)
            },
        }
    }

    /// Whether a failure is kept for the track of `name` and `track`.
    pub fn has_failure(&self, name: &str, track: &str) -> (failed: bool)
        requires
            self.well_formed(),
        ensures
            failed == (self.view().contains_key((name@, track@)) && self.view()[(name@, track@)] is Failed),
    {
        match self.position(name, track) {
            None => false,
            Some(i) => {
                proof {
                    lemma_prefetch_view_at(self.entries@, i as int);
                }
                matches!(self.entries[i].1, PrefetchedProjectInstall::Failed(_))
            },
        }
    }

    /// The map of inserting `inserts` in turn.
    pub fn from_inserts(inserts: Vec<(DemandedResourceTrack, PrefetchedProjectInstall)>) -> (installs: Self)
        ensures
            installs.well_formed(),
            installs.view() == inserts_view(inserts@),
    {
        let ghost all = inserts@;
        let mut installs = PrefetchedInstalls::new();
        let mut rest = inserts;
        let mut taken: usize = 0;
        proof {
            assert(all.take(0) =~= Seq::<(DemandedResourceTrack, PrefetchedProjectInstall)>::empty());
            assert(all.len() == rest.len());
        }
        while rest.len() > 0
            invariant
                taken <= all.len(),
                all.len() <= usize::MAX,
                rest@ == all.subrange(taken as int, all.len() as int),
                installs.well_formed(),
                installs.view() == inserts_view(all.take(taken as int)),
            decreases rest.len(),
        {
            let (key, install) = rest.remove(0);
            proof {
                assert((key, install) == all[taken as int]);
                assert(all.take(taken + 1).drop_last() =~= all.take(taken as int));
            }
            installs.insert(key, install);
            taken = taken + 1;
        }
        proof {
            assert(all.take(taken as int) =~= all);
        }
        installs
    }
}

/// What prefetching reads of a resolved install artifact.
pub struct ResolvedArtifact {
    pub resource_name: String,
    pub track: String,
    pub artifact_version: String,
    pub sha256: String,
    /// The artifact is not cached and has to be downloaded.
    pub download_required: bool,
}

/// What resolving one requested install gave: the resource its artifact adapter names, and
/// the artifact resolved against the manifest.
pub struct Resolution {
    pub adapter_resource_name: String,
    pub resolved: Result<ResolvedArtifact, DaemonError>,
}

/// One prefetched download, by its artifact's resource, version and digest, with its
/// failure rendered.
pub struct ArtifactDownloadResult {
    pub resource_name: String,
    pub artifact_version: String,
    pub sha256: String,
    pub result: Result<(), String>,
}

/// The requested track of a request.
pub open spec fn request_key(r: ProjectInstallRequest) -> DemandedResourceTrack {
    match r {
        ProjectInstallRequest::Resolve { key, .. } => key,
        ProjectInstallRequest::Failed { key, .. } => key,
    }
}

/// The predicate "a request to resolve".
pub open spec fn resolving() -> spec_fn(ProjectInstallRequest) -> bool {
    |r: ProjectInstallRequest| r is Resolve
}

/// The predicate "a failed request".
pub open spec fn failing_request() -> spec_fn(ProjectInstallRequest) -> bool {
    |r: ProjectInstallRequest| r is Failed
}

/// What one insert into the prefetched installs holds.
pub enum InsertView {
    /// This error.
    FailedWith { key: (Seq<char>, Seq<char>), error: DaemonError },
    /// The adapter resolved another resource than the track's.
    FailedMismatch { key: (Seq<char>, Seq<char>), adapter_name: Seq<char> },
    /// The artifact's download failed with this text.
    FailedDownload { key: (Seq<char>, Seq<char>), message: Seq<char> },
    /// The artifact's download is missing.
    FailedMissingDownload { key: (Seq<char>, Seq<char>), resource: Seq<char>, version: Seq<char> },
    /// Ready to install.
    Ready { key: (Seq<char>, Seq<char>), adapter: usize, resolution: usize, download: Option<usize> },
}

/// The reason given when an adapter resolved another resource than the track's.
pub open spec fn adapter_mismatch_reason(adapter_name: Seq<char>, name: Seq<char>) -> Seq<char> {
    "runtime adapter resolved `"@ + adapter_name + "` while reconciling `"@ + name + "`"@
}

/// `insert` is what `view` describes.
pub open spec fn insert_matches(insert: (DemandedResourceTrack, PrefetchedProjectInstall), view: InsertView) -> bool {
    match view {
        InsertView::FailedWith { key, error } => track_key(insert.0) == key && insert.1 == PrefetchedProjectInstall::Failed(error),
        InsertView::FailedMismatch { key, adapter_name } => track_key(insert.0) == key && match insert.1 {
            PrefetchedProjectInstall::Failed(DaemonError::UnexpectedProtocolResponse { reason }) => reason@
                == adapter_mismatch_reason(adapter_name, key.0),
            _ => false,
        },
        InsertView::FailedDownload { key, message } => track_key(insert.0) == key && match insert.1 {
            PrefetchedProjectInstall::Failed(DaemonError::ManagedResourceCommand { message: m }) => m@ == message,
            _ => false,
        },
        InsertView::FailedMissingDownload { key, resource, version } => track_key(insert.0) == key && match insert.1 {
            PrefetchedProjectInstall::Failed(DaemonError::MissingArtifactDownload { resource: r, artifact_version: v }) =>
                r@ == resource && v@ == version,
            _ => false,
        },
        InsertView::Ready { key, adapter, resolution, download } => track_key(insert.0) == key && insert.1
            == PrefetchedProjectInstall::Ready { adapter, resolution, download },
    }
}

/// The inserts for the failed requests, in their order.
pub open spec fn failed_request_inserts(requests: Seq<ProjectInstallRequest>) -> Seq<InsertView> {
    requests.filter(failing_request()).map_values(|r: ProjectInstallRequest| match r {
        ProjectInstallRequest::Failed { key, error } => InsertView::FailedWith { key: track_key(key), error },
        ProjectInstallRequest::Resolve { key, .. } => InsertView::FailedMismatch { key: track_key(key), adapter_name: Seq::empty() },
    })
}

/// The inserts for the first `n` resolve requests whose adapter resolved another resource or
/// whose resolution failed, in their order.
pub open spec fn resolution_failure_inserts(
    resolves: Seq<ProjectInstallRequest>,
    resolutions: Seq<Resolution>,
    n: nat,
) -> Seq<InsertView>
    decreases n,
{
    if n == 0 {
        Seq::empty()
    } else {
        let prev = resolution_failure_inserts(resolves, resolutions, (n - 1) as nat);
        let key = track_key(request_key(resolves[n - 1]));
        let resolution = resolutions[n - 1];
        if resolution.adapter_resource_name@ != key.0 {
            prev.push(InsertView::FailedMismatch { key, adapter_name: resolution.adapter_resource_name@ })
        } else {
            match resolution.resolved {
                Err(error) => prev.push(InsertView::FailedWith { key, error }),
                Ok(_) => prev,
            }
        }
    }
}

/// The first download of the artifact `artifact`.
pub open spec fn find_download(downloads: Seq<ArtifactDownloadResult>, artifact: ResolvedArtifact) -> Option<int>
    decreases downloads.len(),
{
    if downloads.len() == 0 {
        None
    } else {
        match find_download(downloads.drop_last(), artifact) {
            Some(i) => Some(i),
            None => {
                let d = downloads.last();
                if d.resource_name@ == artifact.resource_name@ && d.artifact_version@ == artifact.artifact_version@
                    && d.sha256@ == artifact.sha256@ {
                    Some(downloads.len() - 1)
                } else {
                    None
                }
            },
        }
    }
}

/// The insert for a resolved artifact: ready without a download when none is required;
/// otherwise ready with its download, or failed as its download failed or is missing.
pub open spec fn resolved_insert(
    key: (Seq<char>, Seq<char>),
    adapter: usize,
    resolution: usize,
    artifact: ResolvedArtifact,
    downloads: Seq<ArtifactDownloadResult>,
) -> InsertView {
    if !artifact.download_required {
        InsertView::Ready { key, adapter, resolution, download: None }
    } else {
        match find_download(downloads, artifact) {
            None => InsertView::FailedMissingDownload {
                key,
                resource: artifact.resource_name@,
                version: artifact.artifact_version@,
            },
            Some(i) => match downloads[i].result {
                Ok(()) => InsertView::Ready { key, adapter, resolution, download: Some(i as usize) },
                Err(message) => InsertView::FailedDownload { key, message: message@ },
            },
        }
    }
}

/// The inserts for the first `n` resolve requests whose artifact was resolved, in order.
pub open spec fn resolved_inserts(
    resolves: Seq<ProjectInstallRequest>,
    resolutions: Seq<Resolution>,
    downloads: Seq<ArtifactDownloadResult>,
    n: nat,
) -> Seq<InsertView>
    decreases n,
{
    if n == 0 {
        Seq::empty()
    } else {
        let prev = resolved_inserts(resolves, resolutions, downloads, (n - 1) as nat);
        let request = resolves[n - 1];
        let key = track_key(request_key(request));
        let resolution = resolutions[n - 1];
        let adapter = match request {
            ProjectInstallRequest::Resolve { adapter, .. } => adapter,
            _ => 0,
        };
        if resolution.adapter_resource_name@ != key.0 {
            prev
        } else {
            match resolution.resolved {
                Err(_) => prev,
                Ok(artifact) => prev.push(resolved_insert(key, adapter, (n - 1) as usize, artifact, downloads)),
            }
        }
    }
}

/// The inserts the prefetch makes, in order.
pub open spec fn prefetch_inserts(
    requests: Seq<ProjectInstallRequest>,
    manifest: Result<(), DaemonError>,
    resolutions: Seq<Resolution>,
    downloads: Seq<ArtifactDownloadResult>,
) -> Seq<InsertView> {
    let resolves = requests.filter(resolving());
    let failed = failed_request_inserts(requests);
    if resolves.len() == 0 {
        failed
    } else {
        match manifest {
            Err(error) => failed.push(InsertView::FailedWith { key: track_key(request_key(resolves[0])), error }),
            Ok(()) => failed + resolution_failure_inserts(resolves, resolutions, resolves.len()) + resolved_inserts(
                resolves,
                resolutions,
                downloads,
                resolves.len(),
            ),
        }
    }
}

/// The inserts of what the prefetch of `requests` gives: each failed request is kept as
/// failed; when there is something to resolve and the artifact manifest could not be had,
/// the first request to resolve fails with that error; otherwise each request to resolve
/// whose adapter names another resource, or whose resolution failed, is failed, and each
/// resolved one is ready or failed as its download went. `resolutions` holds what resolving
/// each request to resolve gave, in order; `downloads` the prefetched downloads.
pub fn project_prefetch_inserts(
    requests: Vec<ProjectInstallRequest>,
    manifest: Result<(), DaemonError>,
    resolutions: Vec<Resolution>,
    downloads: &Vec<ArtifactDownloadResult>,
) -> (inserts: Vec<(DemandedResourceTrack, PrefetchedProjectInstall)>)
    requires
        manifest is Ok ==> resolutions@.len() == requests@.filter(resolving()).len(),
    ensures
        inserts@.len() == prefetch_inserts(requests@, manifest, resolutions@, downloads@).len(),
        forall|k: int|
            0 <= k < inserts@.len() ==> insert_matches(
                #[trigger] inserts@[k],
                prefetch_inserts(requests@, manifest, resolutions@, downloads@)[k],
            ),
{
    let ghost all = requests@;
    let ghost resolves_view = all.filter(resolving());
    let mut inserts: Vec<(DemandedResourceTrack, PrefetchedProjectInstall)> = Vec::new();
    let mut resolves: Vec<ProjectInstallRequest> = Vec::new();
    let mut rest = requests;
    let mut taken: usize = 0;
    proof {
        assert(all.len() == rest.len());
        assert(all.take(0) =~= Seq::<ProjectInstallRequest>::empty());
        reveal(Seq::filter);
    }
    while rest.len() > 0
        invariant
            taken <= all.len(),
            all.len() <= usize::MAX,
            rest@ == all.subrange(taken as int, all.len() as int),
            resolves@ == all.take(taken as int).filter(resolving()),
            inserts@.len() == failed_request_inserts(all.take(taken as int)).len(),
            forall|k: int|
                0 <= k < inserts@.len() ==> insert_matches(
                    #[trigger] inserts@[k],
                    failed_request_inserts(all.take(taken as int))[k],
                ),
        decreases rest.len(),
    {
        let request = rest.remove(0);
        let ghost prev = inserts@;
        proof {
            assert(request == all[taken as int]);
            lemma_filter_step(all, taken as int, resolving());
            lemma_filter_step(all, taken as int, failing_request());
        }
        match request {
            ProjectInstallRequest::Failed { key, error } => {
                let ghost view = InsertView::FailedWith { key: track_key(key), error };
                inserts.push((key, PrefetchedProjectInstall::Failed(error)));
                proof {
                    let f = all.take(taken as int).filter(failing_request());
                    assert(f.push(all[taken as int]).map_values(|r: ProjectInstallRequest| match r {
                        ProjectInstallRequest::Failed { key, error } => InsertView::FailedWith { key: track_key(key), error },
                        ProjectInstallRequest::Resolve { key, .. } => InsertView::FailedMismatch { key: track_key(key), adapter_name: Seq::empty() },
                    }) =~= failed_request_inserts(all.take(taken as int)).push(view));
                    assert forall|k: int| 0 <= k < inserts@.len() implies insert_matches(
                        #[trigger] inserts@[k],
                        failed_request_inserts(all.take(taken + 1))[k],
                    ) by {
                        if k < prev.len() {
                            assert(inserts@[k] == prev[k]);
                        }
                    }
                }
            },
            ProjectInstallRequest::Resolve { key, adapter } => {
                resolves.push(ProjectInstallRequest::Resolve { key, adapter });
                proof {
                    assert(failed_request_inserts(all.take(taken + 1)) =~= failed_request_inserts(all.take(taken as int)));
                }
            },
        }
        taken = taken + 1;
    }
    proof {
        assert(all.take(taken as int) =~= all);
    }
    if resolves.len() == 0 {
        return inserts;
    }
    match manifest {
        Err(error) => {
            let first = resolves.remove(0);
            let key = match first {
                ProjectInstallRequest::Resolve { key, .. } => key,
                ProjectInstallRequest::Failed { key, .. } => key,
            };
            let ghost prev = inserts@;
            inserts.push((key, PrefetchedProjectInstall::Failed(error)));
            proof {
                assert forall|k: int| 0 <= k < inserts@.len() implies insert_matches(
                    #[trigger] inserts@[k],
                    prefetch_inserts(requests@, manifest, resolutions@, downloads@)[k],
                ) by {
                    if k < prev.len() {
                        assert(inserts@[k] == prev[k]);
                    }
                }
            }
            return inserts;
        },
        Ok(()) => {},
    }
    let ghost failed_part = inserts@;
    let ghost all_resolutions = resolutions@;
    let n = resolves.len();
    let mut failures: Vec<(DemandedResourceTrack, PrefetchedProjectInstall)> = Vec::new();
    let mut ready: Vec<(DemandedResourceTrack, PrefetchedProjectInstall)> = Vec::new();
    let mut pending = resolves;
    let mut outcomes = resolutions;
    let mut j: usize = 0;
    while j < n
        invariant
            resolves_view == all.filter(resolving()),
            n == resolves_view.len(),
            n == all_resolutions.len(),
            j <= n,
            pending@ == resolves_view.subrange(j as int, n as int),
            outcomes@ == all_resolutions.subrange(j as int, n as int),
            failures@.len() == resolution_failure_inserts(resolves_view, all_resolutions, j as nat).len(),
            forall|k: int|
                0 <= k < failures@.len() ==> insert_matches(
                    #[trigger] failures@[k],
                    resolution_failure_inserts(resolves_view, all_resolutions, j as nat)[k],
                ),
            ready@.len() == resolved_inserts(resolves_view, all_resolutions, downloads@, j as nat).len(),
            forall|k: int|
                0 <= k < ready@.len() ==> insert_matches(
                    #[trigger] ready@[k],
                    resolved_inserts(resolves_view, all_resolutions, downloads@, j as nat)[k],
                ),
        decreases n - j,
    {
        let request = pending.remove(0);
        let resolution = outcomes.remove(0);
        let ghost prev_failures = failures@;
        let ghost prev_ready = ready@;
        proof {
            assert(request == resolves_view[j as int]);
            assert(resolution == all_resolutions[j as int]);
            all.filter_lemma(resolving());
            assert(resolving()(resolves_view[j as int]));
        }
        let (key, adapter) = match request {
            ProjectInstallRequest::Resolve { key, adapter } => (key, adapter),
            ProjectInstallRequest::Failed { key, .. } => (key, 0),
        };
        let Resolution { adapter_resource_name, resolved } = resolution;
        if let Some(mismatch) = runtime_adapter_mismatch(adapter_resource_name.as_str(), key.resource_name.as_str()) {
            failures.push((key, PrefetchedProjectInstall::Failed(mismatch)));
        } else {
            match resolved {
                Err(error) => {
                    failures.push((key, PrefetchedProjectInstall::Failed(error)));
                },
                Ok(artifact) => {
                    let entry = resolved_install(key, adapter, j, &artifact, downloads);
                    ready.push(entry);
                },
            }
        }
        proof {
            assert forall|k: int| 0 <= k < failures@.len() implies insert_matches(
                #[trigger] failures@[k],
                resolution_failure_inserts(resolves_view, all_resolutions, (j + 1) as nat)[k],
            ) by {
                if k < prev_failures.len() {
                    assert(failures@[k] == prev_failures[k]);
                }
            }
            assert forall|k: int| 0 <= k < ready@.len() implies insert_matches(
                #[trigger] ready@[k],
                resolved_inserts(resolves_view, all_resolutions, downloads@, (j + 1) as nat)[k],
            ) by {
                if k < prev_ready.len() {
                    assert(ready@[k] == prev_ready[k]);
                }
            }
            assert(pending@ =~= resolves_view.subrange(j + 1, n as int));
            assert(outcomes@ =~= all_resolutions.subrange(j + 1, n as int));
        }
        j = j + 1;
    }
    let ghost failure_part = failures@;
    let ghost ready_part = ready@;
    inserts.append(&mut failures);
    inserts.append(&mut ready);
    proof {
        let views = prefetch_inserts(requests@, manifest, resolutions@, downloads@);
        assert(inserts@ =~= failed_part + failure_part + ready_part);
        assert forall|k: int| 0 <= k < inserts@.len() implies insert_matches(#[trigger] inserts@[k], views[k]) by {
            if k < failed_part.len() {
            } else if k < failed_part.len() + failure_part.len() {
                assert(inserts@[k] == failure_part[k - failed_part.len()]);
            } else {
                assert(inserts@[k] == ready_part[k - failed_part.len() - failure_part.len()]);
            }
        }
    }
    inserts
}

/// What a resolved artifact becomes once the downloads were fetched.
fn resolved_install(
    key: DemandedResourceTrack,
    adapter: usize,
    resolution: usize,
    artifact: &ResolvedArtifact,
    downloads: &Vec<ArtifactDownloadResult>,
) -> (entry: (DemandedResourceTrack, PrefetchedProjectInstall))
    ensures
        insert_matches(entry, resolved_insert(track_key(key), adapter, resolution, *artifact, downloads@)),
{
    if !artifact.download_required {
        return (key, PrefetchedProjectInstall::Ready { adapter, resolution, download: None });
    }
    let mut i: usize = 0;
    while i < downloads.len()
        invariant
            artifact.download_required,
            i <= downloads.len(),
            find_download(downloads@.take(i as int), *artifact) is None,
        decreases downloads.len() - i,
    {
        proof {
            assert(downloads@.take(i + 1).drop_last() =~= downloads@.take(i as int));
        }
        let d = &downloads[i];
        if str_equal(d.resource_name.as_str(), artifact.resource_name.as_str()) && str_equal(
            d.artifact_version.as_str(),
            artifact.artifact_version.as_str(),
        ) && str_equal(d.sha256.as_str(), artifact.sha256.as_str()) {
            proof {
                assert(downloads@.take(i + 1).last() == downloads@[i as int]);
                assert(find_download(downloads@.take(i + 1), *artifact) == Some(i as int));
                lemma_find_download_prefix(downloads@, i + 1, *artifact);
            }
            return match &d.result {
                Ok(()) => {
                    (key, PrefetchedProjectInstall::Ready { adapter, resolution, download: Some(i) })
                },
                Err(message) => (
                    key,
                    PrefetchedProjectInstall::Failed(
                        DaemonError::ManagedResourceCommand { message: message.clone() },
                    ),
                ),
            };
        }
        i = i + 1;
    }
    proof {
        assert(downloads@.take(downloads.len() as int) =~= downloads@);
    }
    (
        key,
        PrefetchedProjectInstall::Failed(
            DaemonError::MissingArtifactDownload {
                resource: artifact.resource_name.clone(),
                artifact_version: artifact.artifact_version.clone(),
            },
        ),
    )
}

pub(crate) proof fn lemma_find_download_prefix(downloads: Seq<ArtifactDownloadResult>, n: int, artifact: ResolvedArtifact)
    requires
        0 <= n <= downloads.len(),
        find_download(downloads.take(n), artifact) is Some,
    ensures
        find_download(downloads, artifact) == find_download(downloads.take(n), artifact),
    decreases downloads.len() - n,
{
    if n < downloads.len() {
        assert(downloads.take(n + 1).drop_last() =~= downloads.take(n));
        lemma_find_download_prefix(downloads, n + 1, artifact);
    } else {
        assert(downloads.take(n) =~= downloads);
    }
}

/// `prefetched` is what the prefetch of `requests` keeps: the inserts that the manifest's
/// result, the resolutions of the requests to resolve and the downloads give, in order.
pub open spec fn prefetched_from(
    prefetched: PrefetchedInstalls,
    requests: Seq<ProjectInstallRequest>,
    manifest: Result<(), DaemonError>,
    resolutions: Seq<Resolution>,
    downloads: Seq<ArtifactDownloadResult>,
) -> bool {
    &&& prefetched.well_formed()
    &&& exists|inserts: Seq<(DemandedResourceTrack, PrefetchedProjectInstall)>| {
        let views = prefetch_inserts(requests, manifest, resolutions, downloads);
        &&& inserts.len() == views.len()
        &&& (forall|k: int| 0 <= k < inserts.len() ==> insert_matches(#[trigger] inserts[k], views[k]))
        &&& prefetched.view() == #[trigger] inserts_view(inserts)
    }
}

/// Prefetches the installs of `requests`: the outcome of each requested track, kept by
/// track, as [`project_prefetch_inserts`] says, a later outcome for a track replacing an
/// earlier one.
pub fn prefetch_missing_project_installs_blocking(
    requests: Vec<ProjectInstallRequest>,
    manifest: Result<(), DaemonError>,
    resolutions: Vec<Resolution>,
    downloads: &Vec<ArtifactDownloadResult>,
) -> (prefetched: PrefetchedInstalls)
    requires
        manifest is Ok ==> resolutions@.len() == requests@.filter(resolving()).len(),
    ensures
        prefetched_from(prefetched, requests@, manifest, resolutions@, downloads@),
{
    let ghost views = prefetch_inserts(requests@, manifest, resolutions@, downloads@);
    let inserts = project_prefetch_inserts(requests, manifest, resolutions, downloads);
    let ghost inserted = inserts@;
    let prefetched = PrefetchedInstalls::from_inserts(inserts);
    proof {
        assert(inserted.len() == views.len());
        assert(forall|k: int| 0 <= k < inserted.len() ==> insert_matches(#[trigger] inserted[k], views[k]));
    }
    prefetched
}

/// Takes the failed prefetches of `tracks` out of `prefetched`, in the order of `tracks`, as
/// failures of those tracks; ready ones stay.
pub fn take_project_prefetch_failures(
    tracks: &Vec<DemandedResourceTrack>,
    prefetched: &mut PrefetchedInstalls,
) -> (failures: Vec<ManagedResourceProjectFailure>)
    requires
        old(prefetched).well_formed(),
    ensures
        final(prefetched).well_formed(),
        failures@.len() <= tracks@.len(),
        forall|k: (Seq<char>, Seq<char>)| #[trigger] final(prefetched).view().contains_key(k) ==> old(
            prefetched,
        ).view().contains_key(k) && final(prefetched).view()[k] == old(prefetched).view()[k],
        forall|k: (Seq<char>, Seq<char>)|
            #[trigger] old(prefetched).view().contains_key(k) && !final(prefetched).view().contains_key(k)
                ==> old(prefetched).view()[k] is Failed && exists|i: int|
                0 <= i < tracks@.len() && track_key(#[trigger] tracks@[i]) == k,
        forall|i: int|
            0 <= i < tracks@.len() ==> !(#[trigger] final(prefetched).view().contains_key(track_key(tracks@[i]))
                && final(prefetched).view()[track_key(tracks@[i])] is Failed),
        forall|j: int|
            0 <= j < failures@.len() ==> exists|i: int|
                0 <= i < tracks@.len() && (#[trigger] failures@[j]).resource_name@ == tracks@[i].resource_name@
                    && failures@[j].track@ == tracks@[i].track@ && old(prefetched).view().contains_key(
                    track_key(tracks@[i]),
                ) && old(prefetched).view()[track_key(tracks@[i])] == PrefetchedProjectInstall::Failed(
                    *failures@[j].error,
                ),
{
    let ghost original = prefetched.view();
    let mut failures: Vec<ManagedResourceProjectFailure> = Vec::new();
    let mut i: usize = 0;
    while i < tracks.len()
        invariant
            i <= tracks.len(),
            failures@.len() <= i,
            prefetched.well_formed(),
            forall|k: (Seq<char>, Seq<char>)| #[trigger] prefetched.view().contains_key(k) ==> original.contains_key(
                k,
            ) && prefetched.view()[k] == original[k],
            forall|k: (Seq<char>, Seq<char>)|
                #[trigger] original.contains_key(k) && !prefetched.view().contains_key(k) ==> original[k] is Failed
                    && exists|p: int| 0 <= p < i && track_key(#[trigger] tracks@[p]) == k,
            forall|p: int|
                0 <= p < i ==> !(#[trigger] prefetched.view().contains_key(track_key(tracks@[p]))
                    && prefetched.view()[track_key(tracks@[p])] is Failed),
            forall|j: int|
                0 <= j < failures@.len() ==> exists|p: int|
                    0 <= p < tracks@.len() && (#[trigger] failures@[j]).resource_name@ == tracks@[p].resource_name@
                        && failures@[j].track@ == tracks@[p].track@ && original.contains_key(track_key(tracks@[p]))
                        && original[track_key(tracks@[p])] == PrefetchedProjectInstall::Failed(*failures@[j].error),
        decreases tracks.len() - i,
    {
        let t = &tracks[i];
        let ghost key = track_key(*t);
        let ghost before = prefetched.view();
        let ghost prev = failures@;
        if prefetched.has_failure(t.resource_name.as_str(), t.track.as_str()) {
            let taken = prefetched.remove(t.resource_name.as_str(), t.track.as_str());
            match taken {
                Some(PrefetchedProjectInstall::Failed(error)) => {
                    failures.push(ManagedResourceProjectFailure::new(t.resource_name.clone(), t.track.clone(), error));
                    proof {
                        assert(track_key(tracks@[i as int]) == key);
                        let f = failures@[failures@.len() - 1];
                        assert(f.resource_name@ == tracks@[i as int].resource_name@);
                        assert forall|j: int| 0 <= j < failures@.len() implies exists|p: int|
                            0 <= p < tracks@.len() && (#[trigger] failures@[j]).resource_name@ == tracks@[p].resource_name@
                                && failures@[j].track@ == tracks@[p].track@ && original.contains_key(track_key(tracks@[p]))
                                && original[track_key(tracks@[p])] == PrefetchedProjectInstall::Failed(*failures@[j].error) by {
                            if j < prev.len() {
                                assert(failures@[j] == prev[j]);
                            } else {
                                assert(original.contains_key(track_key(tracks@[i as int])));
                            }
                        }
                    }
                },
                _ => {},
            }
            proof {
                assert forall|k: (Seq<char>, Seq<char>)|
                    #[trigger] original.contains_key(k) && !prefetched.view().contains_key(k) implies original[k] is Failed
                        && exists|p: int| 0 <= p < i + 1 && track_key(#[trigger] tracks@[p]) == k by {
                    if k == key {
                        assert(track_key(tracks@[i as int]) == k);
                    }
                }
            }
        }
        i = i + 1;
    }
    failures
}

/// Takes the prefetched install of the track of `name` and `track`: an error when none was
/// prefetched or its prefetch failed; otherwise the adapter, resolution and download to
/// install from.
pub fn take_prefetched_install(prefetched: &mut PrefetchedInstalls, name: &str, track: &str) -> (taken:
    Result<(usize, usize, Option<usize>), DaemonError>)
    requires
        old(prefetched).well_formed(),
    ensures
        final(prefetched).well_formed(),
        final(prefetched).view() == old(prefetched).view().remove((name@, track@)),
        !old(prefetched).view().contains_key((name@, track@)) ==> match taken {
            Err(DaemonError::UnexpectedProtocolResponse { reason }) => reason@ == "missing prefetched install for "@
                + name@ + " track "@ + track@,
            _ => false,
        },
        old(prefetched).view().contains_key((name@, track@)) ==> match old(prefetched).view()[(name@, track@)] {
            PrefetchedProjectInstall::Failed(error) => taken == Err::<(usize, usize, Option<usize>), DaemonError>(error),
            PrefetchedProjectInstall::Ready { adapter, resolution, download } => taken == Ok::<
                (usize, usize, Option<usize>),
                DaemonError,
            >((adapter, resolution, download)),
        },
{
    match prefetched.remove(name, track) {
        None => {
            let mut reason = concat2("missing prefetched install for ", name);
            reason.append(" track ");
            reason.append(track);
            Err(DaemonError::UnexpectedProtocolResponse { reason })
        },
        Some(PrefetchedProjectInstall::Failed(error)) => Err(error),
        Some(PrefetchedProjectInstall::Ready { adapter, resolution, download }) => Ok((adapter, resolution, download)),
    }
}

/// Taking a track's prefetched install after keeping one for it gives the one kept last, and
/// keeping or taking one track leaves every other track's install as it was.
pub proof fn lemma_prefetched_take_after_insert(
    before: PrefetchedInstalls,
    after: PrefetchedInstalls,
    key: (Seq<char>, Seq<char>),
    install: PrefetchedProjectInstall,
    other: (Seq<char>, Seq<char>),
)
    requires
        after.view() == before.view().insert(key, install),
    ensures
        after.view().contains_key(key) && after.view()[key] == install,
        after.view().remove(key).contains_key(other) == before.view().remove(key).contains_key(other),
        other != key ==> after.view().contains_key(other) == before.view().contains_key(other),
        other != key && before.view().contains_key(other) ==> after.view()[other] == before.view()[other],
{
}

} // verus!
