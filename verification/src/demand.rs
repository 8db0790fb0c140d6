//! The resource demand of the linked Projects, as a System reconciliation gathers it.
//!
//! Demand discovery reads each Project; what it found is summed up here: how many Projects
//! there are, how many fell back to their persisted state, and the resource tracks they
//! demand together, once each and in ascending (resource name, track) order.
use vstd::prelude::*;
use vstd::string::*;

use crate::desired::{insert_track, track_key, track_keys, tracks_ascending, DemandedResourceTrack};
use crate::text::{str_equal, string_views};

verus! {

/// What demand discovery found for one Project.
pub struct ProjectDemand {
    /// The resource tracks the Project demands.
    pub resource_tracks: Vec<DemandedResourceTrack>,
    /// Discovery fell back to the Project's persisted state.
    pub used_persisted_state: bool,
}

/// The demand of all linked Projects.
pub struct SystemProjectDemandReport {
    pub project_count: usize,
    pub fallback_count: usize,
    /// The tracks demanded by some Project, ascending, each once.
    pub resource_tracks: Vec<DemandedResourceTrack>,
}

/// Some Project among `demands` demands a track with key `k`.
pub open spec fn demanded_by(demands: Seq<ProjectDemand>, k: (Seq<char>, Seq<char>)) -> bool {
    exists|i: int, j: int|
        0 <= i < demands.len() && 0 <= j < demands[i].resource_tracks@.len() && #[trigger] track_key(
            demands[i].resource_tracks@[j],
        ) == k
}

/// Some list among `lists` holds a track with key `k`.
pub open spec fn listed_in(lists: Seq<Vec<DemandedResourceTrack>>, k: (Seq<char>, Seq<char>)) -> bool {
    exists|i: int, j: int|
        0 <= i < lists.len() && 0 <= j < lists[i]@.len() && #[trigger] track_key(lists[i]@[j]) == k
}

/// How many Projects among `demands` fell back to their persisted state.
pub open spec fn persisted_count(demands: Seq<ProjectDemand>) -> nat
    decreases demands.len(),
{
    if demands.len() == 0 {
        0
    } else {
        persisted_count(demands.drop_last()) + if demands.last().used_persisted_state {
            1nat
        } else {
            0nat
        }
    }
}

proof fn lemma_persisted_count_bounded(demands: Seq<ProjectDemand>)
    ensures
        persisted_count(demands) <= demands.len(),
    decreases demands.len(),
{
    if demands.len() > 0 {
        lemma_persisted_count_bounded(demands.drop_last());
    }
}

/// Some Project among `demands` demands at least one track.
pub open spec fn has_track_demand(demands: Seq<ProjectDemand>) -> bool {
    exists|i: int| 0 <= i < demands.len() && #[trigger] demands[i].resource_tracks@.len() > 0
}

proof fn lemma_demanded_by_push(prev: Seq<ProjectDemand>, d: ProjectDemand, k: (Seq<char>, Seq<char>))
    ensures
        demanded_by(prev.push(d), k) <==> (demanded_by(prev, k) || track_keys(d.resource_tracks@).contains(k)),
{
    let next = prev.push(d);
    if demanded_by(next, k) {
        let (a, b) = choose|a: int, b: int|
            0 <= a < next.len() && 0 <= b < next[a].resource_tracks@.len() && #[trigger] track_key(
                next[a].resource_tracks@[b],
            ) == k;
        if a < prev.len() {
            assert(track_key(prev[a].resource_tracks@[b]) == k);
        } else {
            assert(track_keys(d.resource_tracks@)[b] == k);
        }
    }
    if demanded_by(prev, k) {
        let (a, b) = choose|a: int, b: int|
            0 <= a < prev.len() && 0 <= b < prev[a].resource_tracks@.len() && #[trigger] track_key(
                prev[a].resource_tracks@[b],
            ) == k;
        assert(track_key(next[a].resource_tracks@[b]) == k);
    }
    if track_keys(d.resource_tracks@).contains(k) {
        let b = choose|b: int|
            0 <= b < track_keys(d.resource_tracks@).len() && track_keys(d.resource_tracks@)[b] == k;
        assert(track_key(next[prev.len() as int].resource_tracks@[b]) == k);
    }
}

/// Adds each of `tracks` to the ascending `set` whose key is not there yet.
pub(crate) fn add_tracks(set: &mut Vec<DemandedResourceTrack>, tracks: &Vec<DemandedResourceTrack>)
    requires
        tracks_ascending(old(set)@),
    ensures
        tracks_ascending(final(set)@),
        forall|k: (Seq<char>, Seq<char>)|
            #![trigger track_keys(final(set)@).contains(k)]
            track_keys(final(set)@).contains(k) <==> (track_keys(old(set)@).contains(k)
                || track_keys(tracks@).contains(k)),
{
    let ghost start = track_keys(set@);
    let mut j: usize = 0;
    while j < tracks.len()
        invariant
            j <= tracks.len(),
            tracks_ascending(set@),
            forall|k: (Seq<char>, Seq<char>)|
                track_keys(set@).contains(k) <==> (start.contains(k) || track_keys(
                    tracks@.take(j as int),
                ).contains(k)),
        decreases tracks.len() - j,
    {
        let t = &tracks[j];
        let copy = DemandedResourceTrack {
            resource_name: t.resource_name.clone(),
            track: t.track.clone(),
        };
        proof {
            assert(track_key(copy) == track_key(tracks@[j as int]));
        }
        let ghost mid = track_keys(set@);
        insert_track(set, copy);
        proof {
            assert(forall|k: (Seq<char>, Seq<char>)| track_keys(set@).contains(k) <==> (mid.contains(k) || k == track_key(copy)));
            assert(forall|k: (Seq<char>, Seq<char>)| mid.contains(k) <==> (start.contains(k) || track_keys(tracks@.take(j as int)).contains(k)));
            let prev = track_keys(tracks@.take(j as int));
            let next = track_keys(tracks@.take(j + 1));
            assert(next =~= prev.push(track_key(tracks@[j as int])));
            assert forall|k: (Seq<char>, Seq<char>)|
                track_keys(set@).contains(k) <==> (start.contains(k) || next.contains(k)) by {
                if next.contains(k) && !prev.contains(k) {
                    let p = choose|p: int| 0 <= p < next.len() && next[p] == k;
                    if p < prev.len() {
                        assert(prev[p] == k);
                    }
                }
                if prev.contains(k) {
                    let p = choose|p: int| 0 <= p < prev.len() && prev[p] == k;
                    assert(next[p] == k);
                }
                if k == track_key(tracks@[j as int]) {
                    assert(next[j as int] == k);
                }
            }
        }
        j = j + 1;
    }
    proof {
        assert(tracks@.take(tracks.len() as int) =~= tracks@);
    }
}

/// The sum of what discovery found for each linked Project: the number of Projects, how many
/// of them fell back to their persisted state, and the tracks any of them demands, ascending,
/// each once.
pub fn system_project_demand(demands: &Vec<ProjectDemand>) -> (report: SystemProjectDemandReport)
    ensures
        report.project_count == demands.len(),
        report.fallback_count == persisted_count(demands@),
        tracks_ascending(report.resource_tracks@),
        forall|k: (Seq<char>, Seq<char>)|
            track_keys(report.resource_tracks@).contains(k) <==> demanded_by(demands@, k),
{
    let mut resource_tracks: Vec<DemandedResourceTrack> = Vec::new();
    let mut fallback_count: usize = 0;
    let mut i: usize = 0;
    while i < demands.len()
        invariant
            i <= demands.len(),
            fallback_count == persisted_count(demands@.take(i as int)),
            tracks_ascending(resource_tracks@),
            forall|k: (Seq<char>, Seq<char>)|
                track_keys(resource_tracks@).contains(k) <==> demanded_by(demands@.take(i as int), k),
        decreases demands.len() - i,
    {
        let demand = &demands[i];
        proof {
            assert(demands@.take(i + 1).drop_last() =~= demands@.take(i as int));
            lemma_persisted_count_bounded(demands@.take(i as int));
        }
        if demand.used_persisted_state {
            fallback_count = fallback_count + 1;
        }
        let ghost mid = track_keys(resource_tracks@);
        add_tracks(&mut resource_tracks, &demand.resource_tracks);
        proof {
            let prev = demands@.take(i as int);
            let next = demands@.take(i + 1);
            assert(next =~= prev.push(*demand));
            assert forall|k: (Seq<char>, Seq<char>)|
                track_keys(resource_tracks@).contains(k) <==> demanded_by(next, k) by {
                lemma_demanded_by_push(prev, *demand, k);
                assert(track_keys(resource_tracks@).contains(k) <==> (mid.contains(k) || track_keys(demand.resource_tracks@).contains(k)));
                assert(mid.contains(k) <==> demanded_by(prev, k));
            }
        }
        i = i + 1;
    }
    proof {
        assert(demands@.take(demands.len() as int) =~= demands@);
    }
    SystemProjectDemandReport { project_count: demands.len(), fallback_count, resource_tracks }
}

/// The texts among `ids` that `known` does not hold, in order.
pub open spec fn unknown_ids(known: Seq<Seq<char>>, ids: Seq<Seq<char>>) -> Seq<Seq<char>>
    decreases ids.len(),
{
    if ids.len() == 0 {
        Seq::empty()
    } else if known.contains(ids.last()) {
        unknown_ids(known, ids.drop_last())
    } else {
        unknown_ids(known, ids.drop_last()).push(ids.last())
    }
}

fn contains_text(list: &Vec<String>, text: &str) -> (found: bool)
    ensures
        found == string_views(list@).contains(text@),
{
    let ghost views = string_views(list@);
    let mut i: usize = 0;
    while i < list.len()
        invariant
            i <= list.len(),
            views == string_views(list@),
            forall|j: int| 0 <= j < i ==> views[j] != text@,
        decreases list.len() - i,
    {
        if str_equal(list[i].as_str(), text) {
            proof {
                assert(views[i as int] == text@);
            }
            return true;
        }
        i = i + 1;
    }
    false
}

/// The Projects among `project_ids` that `known_ids` does not name, in order: the linked
/// Projects whose demand is still to be discovered, or that still have to be re-verified.
pub fn projects_without_demand(known_ids: &Vec<String>, project_ids: &Vec<String>) -> (ids: Vec<
    String,
>)
    ensures
        string_views(ids@) == unknown_ids(string_views(known_ids@), string_views(project_ids@)),
{
    let ghost known = string_views(known_ids@);
    let mut ids: Vec<String> = Vec::new();
    let mut i: usize = 0;
    while i < project_ids.len()
        invariant
            i <= project_ids.len(),
            known == string_views(known_ids@),
            string_views(ids@) == unknown_ids(known, string_views(project_ids@).take(i as int)),
        decreases project_ids.len() - i,
    {
        proof {
            let next = string_views(project_ids@).take(i + 1);
            assert(next.drop_last() =~= string_views(project_ids@).take(i as int));
            assert(next.last() == project_ids@[i as int]@);
        }
        if !contains_text(known_ids, project_ids[i].as_str()) {
            let ghost before = string_views(ids@);
            ids.push(project_ids[i].clone());
            proof {
                assert(string_views(ids@) =~= before.push(project_ids@[i as int]@));
            }
        }
        i = i + 1;
    }
    proof {
        assert(string_views(project_ids@).take(project_ids.len() as int) =~= string_views(
            project_ids@,
        ));
    }
    ids
}

/// Adds the demand of Projects linked while the Resources pass ran to the demanded tracks,
/// and says whether any of them demands a track, which calls for another Resources pass.
pub fn add_late_demand(resource_tracks: &mut Vec<DemandedResourceTrack>, late: &Vec<ProjectDemand>) -> (added:
    bool)
    requires
        tracks_ascending(old(resource_tracks)@),
    ensures
        added == has_track_demand(late@),
        tracks_ascending(final(resource_tracks)@),
        forall|k: (Seq<char>, Seq<char>)|
            track_keys(final(resource_tracks)@).contains(k) <==> (track_keys(
                old(resource_tracks)@,
            ).contains(k) || demanded_by(late@, k)),
{
    let mut tracks: Vec<DemandedResourceTrack> = Vec::new();
    std::mem::swap(&mut tracks, resource_tracks);
    let ghost start = track_keys(tracks@);
    let mut added = false;
    let mut i: usize = 0;
    while i < late.len()
        invariant
            i <= late.len(),
            added == has_track_demand(late@.take(i as int)),
            tracks_ascending(tracks@),
            forall|k: (Seq<char>, Seq<char>)|
                #![trigger track_keys(tracks@).contains(k)]
                track_keys(tracks@).contains(k) <==> (start.contains(k) || demanded_by(
                    late@.take(i as int),
                    k,
                )),
        decreases late.len() - i,
    {
        let demand = &late[i];
        let ghost prev = late@.take(i as int);
        let ghost next = late@.take(i + 1);
        proof {
            assert(next[i as int] == *demand);
            assert forall|a: int| 0 <= a < i implies next[a] == prev[a] by {}
        }
        if demand.resource_tracks.len() > 0 {
            added = true;
        }
        proof {
            if has_track_demand(prev) {
                let a = choose|a: int| 0 <= a < prev.len() && #[trigger] prev[a].resource_tracks@.len() > 0;
                assert(next[a] == prev[a]);
            }
            if has_track_demand(next) && !has_track_demand(prev) {
                let a = choose|a: int| 0 <= a < next.len() && #[trigger] next[a].resource_tracks@.len() > 0;
                if a < i {
                    assert(next[a] == prev[a]);
                }
            }
        }
        let ghost mid = track_keys(tracks@);
        add_tracks(&mut tracks, &demand.resource_tracks);
        proof {
            assert(next =~= prev.push(*demand));
            assert forall|k: (Seq<char>, Seq<char>)|
                track_keys(tracks@).contains(k) <==> (start.contains(k) || demanded_by(next, k)) by {
                lemma_demanded_by_push(prev, *demand, k);
                assert(track_keys(tracks@).contains(k) <==> (mid.contains(k) || track_keys(demand.resource_tracks@).contains(k)));
                assert(mid.contains(k) <==> (start.contains(k) || demanded_by(prev, k)));
            }
        }
        i = i + 1;
    }
    proof {
        assert(late@.take(late.len() as int) =~= late@);
    }
    *resource_tracks = tracks;
    added
}

} // verus!
