//! What a completed System or gateway reconciliation covered.
//!
//! A System reconciliation covers the System and the gateway, each Project that applied
//! successfully, in the order they applied, and the Managed Resource tracks those Projects
//! use, once each and in ascending (resource name, track) order.
use vstd::prelude::*;

use crate::demand::{add_tracks, listed_in};
use crate::desired::{track_key, track_keys, tracks_ascending, DemandedResourceTrack};
use crate::error::DaemonError;
use crate::jobs::{CompletedReconciliationJob, ReconciliationOutcome, SystemProjectReconciliationReport};
use crate::project::DiagnosticSubject;
use crate::resource_scope::project_coverage;

verus! {

/// The coverage of resource tracks, in the order given.
pub open spec fn resource_coverage(tracks: Seq<DemandedResourceTrack>) -> Seq<DiagnosticSubject> {
    tracks.map_values(
        |t: DemandedResourceTrack| DiagnosticSubject::Resource { name: t.resource_name, track: t.track },
    )
}

/// The tracks that some list among `lists` holds, in ascending order and once each.
pub open spec fn listed_tracks(lists: Seq<Vec<DemandedResourceTrack>>, tracks: Seq<DemandedResourceTrack>) -> bool {
    &&& tracks_ascending(tracks)
    &&& forall|k: (Seq<char>, Seq<char>)| track_keys(tracks).contains(k) <==> listed_in(lists, k)
}

/// The coverage of a completed System reconciliation whose Project pass gave `project_report`.
/// `project_resources[i]` holds the Managed Resource tracks that the `i`-th Project of the
/// report's successful Projects uses; failed Projects and their resources are not covered.
pub fn completed_system_reconciliation_coverage(
    project_report: &SystemProjectReconciliationReport,
    project_resources: &Vec<Vec<DemandedResourceTrack>>,
) -> (coverage: Vec<DiagnosticSubject>)
    ensures
        exists|tracks: Seq<DemandedResourceTrack>|
            #![trigger resource_coverage(tracks)]
            listed_tracks(project_resources@, tracks) && coverage@ == seq![
                DiagnosticSubject::SystemReconciliation,
                DiagnosticSubject::GatewayRuntime,
            ] + project_coverage(project_report.successful_project_ids@) + resource_coverage(tracks),
{
    let successful_project_ids = &project_report.successful_project_ids;
    let mut tracks: Vec<DemandedResourceTrack> = Vec::new();
    let mut i: usize = 0;
    while i < project_resources.len()
        invariant
            i <= project_resources.len(),
            tracks_ascending(tracks@),
            forall|k: (Seq<char>, Seq<char>)|
                #![trigger track_keys(tracks@).contains(k)]
                track_keys(tracks@).contains(k) <==> listed_in(project_resources@.take(i as int), k),
        decreases project_resources.len() - i,
    {
        let ghost mid = track_keys(tracks@);
        add_tracks(&mut tracks, &project_resources[i]);
        proof {
            let prev = project_resources@.take(i as int);
            let next = project_resources@.take(i + 1);
            let added = project_resources@[i as int];
            assert(next =~= prev.push(added));
            assert forall|k: (Seq<char>, Seq<char>)|
                track_keys(tracks@).contains(k) <==> listed_in(next, k) by {
                assert(track_keys(tracks@).contains(k) <==> (mid.contains(k) || track_keys(
                    added@,
                ).contains(k)));
                assert(mid.contains(k) <==> listed_in(prev, k));
                if listed_in(next, k) {
                    let (a, b) = choose|a: int, b: int|
                        0 <= a < next.len() && 0 <= b < next[a]@.len() && #[trigger] track_key(
                            next[a]@[b],
                        ) == k;
                    if a < i {
                        assert(track_key(prev[a]@[b]) == k);
                    } else {
                        assert(track_keys(added@)[b] == k);
                    }
                }
                if listed_in(prev, k) {
                    let (a, b) = choose|a: int, b: int|
                        0 <= a < prev.len() && 0 <= b < prev[a]@.len() && #[trigger] track_key(
                            prev[a]@[b],
                        ) == k;
                    assert(track_key(next[a]@[b]) == k);
                }
                if track_keys(added@).contains(k) {
                    let b = choose|b: int|
                        0 <= b < track_keys(added@).len() && track_keys(added@)[b] == k;
                    assert(track_key(next[i as int]@[b]) == k);
                }
            }
        }
        i = i + 1;
    }
    proof {
        assert(project_resources@.take(project_resources.len() as int) =~= project_resources@);
    }
    let mut coverage: Vec<DiagnosticSubject> = Vec::new();
    coverage.push(DiagnosticSubject::SystemReconciliation);
    coverage.push(DiagnosticSubject::GatewayRuntime);
    let ghost head = seq![DiagnosticSubject::SystemReconciliation, DiagnosticSubject::GatewayRuntime];
    let mut j: usize = 0;
    while j < successful_project_ids.len()
        invariant
            j <= successful_project_ids.len(),
            coverage@ == head + project_coverage(successful_project_ids@.take(j as int)),
        decreases successful_project_ids.len() - j,
    {
        coverage.push(DiagnosticSubject::Project { id: successful_project_ids[j].clone() });
        proof {
            assert(project_coverage(successful_project_ids@.take(j + 1)) =~= project_coverage(
                successful_project_ids@.take(j as int),
            ).push(DiagnosticSubject::Project { id: successful_project_ids@[j as int] }));
        }
        j = j + 1;
    }
    proof {
        assert(successful_project_ids@.take(successful_project_ids.len() as int)
            =~= successful_project_ids@);
    }
    let ghost projects = coverage@;
    let mut r: usize = 0;
    while r < tracks.len()
        invariant
            r <= tracks.len(),
            coverage@ == projects + resource_coverage(tracks@.take(r as int)),
        decreases tracks.len() - r,
    {
        coverage.push(
            DiagnosticSubject::Resource {
                name: tracks[r].resource_name.clone(),
                track: tracks[r].track.clone(),
            },
        );
        proof {
            assert(resource_coverage(tracks@.take(r + 1)) =~= resource_coverage(
                tracks@.take(r as int),
            ).push(
                DiagnosticSubject::Resource {
                    name: tracks@[r as int].resource_name,
                    track: tracks@[r as int].track,
                },
            ));
        }
        r = r + 1;
    }
    proof {
        assert(tracks@.take(tracks.len() as int) =~= tracks@);
        assert(listed_tracks(project_resources@, tracks@));
        assert(coverage@ == head + project_coverage(successful_project_ids@) + resource_coverage(
            tracks@,
        ));
    }
    coverage
}

/// The job result of a gateway reconciliation: its summary, covering the gateway runtime, or
/// its cancellation or failure as they came.
pub fn complete_gateway_reconciliation(result: Result<ReconciliationOutcome<String>, DaemonError>) -> (r:
    Result<ReconciliationOutcome<CompletedReconciliationJob<DiagnosticSubject>>, DaemonError>)
    ensures
        match result {
            Err(e) => r == Err::<
                ReconciliationOutcome<CompletedReconciliationJob<DiagnosticSubject>>,
                DaemonError,
            >(e),
            Ok(ReconciliationOutcome::Cancelled) => r is Ok && r->Ok_0 is Cancelled,
            Ok(ReconciliationOutcome::Completed(summary)) => r matches Ok(
                ReconciliationOutcome::Completed(done),
            ) && done.summary == summary && done.coverage@ == seq![DiagnosticSubject::GatewayRuntime],
        },
{
    match result {
        Err(e) => Err(e),
        Ok(ReconciliationOutcome::Cancelled) => Ok(ReconciliationOutcome::Cancelled),
        Ok(ReconciliationOutcome::Completed(summary)) => {
            let mut coverage = Vec::new();
            coverage.push(DiagnosticSubject::GatewayRuntime);
            Ok(ReconciliationOutcome::Completed(CompletedReconciliationJob { summary, coverage }))
        },
    }
}

} // verus!
