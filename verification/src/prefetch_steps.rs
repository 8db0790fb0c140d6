//! The order of the work that prefetches a Project's missing installs.
//!
//! The requests that already failed are kept as failed. Only when some request is to be
//! resolved is the artifact manifest fetched; when it cannot be had, nothing is resolved or
//! downloaded and the first request to resolve fails with its error. Otherwise the requests
//! to resolve are resolved, the artifacts they need are downloaded, each once, and the
//! prefetched installs are built from what came back.
use vstd::prelude::*;

use crate::artifacts::{key_views, keys_ascending, required_project_artifacts, resolved_requires, ArtifactKey};
use crate::desired::lemma_filter_step;
use crate::error::DaemonError;
use crate::prefetch::{
    prefetch_missing_project_installs_blocking, prefetched_from, resolving, ArtifactDownloadResult,
    PrefetchedInstalls, ProjectInstallRequest, Resolution,
};

verus! {

/// Where the prefetch of a Project's missing installs stands.
pub enum PrefetchState {
    Start { requests: Vec<ProjectInstallRequest> },
    /// Waiting for the artifact manifest.
    FetchingManifest { requests: Vec<ProjectInstallRequest> },
    /// Waiting for the resolutions of the requests to resolve.
    Resolving { requests: Vec<ProjectInstallRequest> },
    /// Waiting for the downloads of the artifacts needed.
    Downloading { requests: Vec<ProjectInstallRequest>, resolutions: Vec<Resolution> },
    Finished,
}

/// What the last piece of work gave.
pub enum PrefetchEvent {
    Began,
    ManifestFetched { result: Result<(), DaemonError> },
    /// What resolving each request to resolve gave, in the order of the requests.
    Resolved { resolutions: Vec<Resolution> },
    /// The downloads of the artifacts asked for.
    Downloaded { downloads: Vec<ArtifactDownloadResult> },
}

/// What to do next.
pub enum PrefetchAction {
    FetchManifest,
    /// Resolve each request to resolve against the manifest, in order.
    ResolveRequests,
    /// Download these artifacts.
    Download { keys: Vec<ArtifactKey> },
    /// The prefetch is over with these installs kept.
    Finish(PrefetchedInstalls),
}

/// Whether `event` answers the work `state` waits for.
pub open spec fn prefetch_event_fits(state: PrefetchState, event: PrefetchEvent) -> bool {
    match state {
        PrefetchState::Start { .. } => event is Began,
        PrefetchState::FetchingManifest { .. } => event is ManifestFetched,
        PrefetchState::Resolving { requests } => event matches PrefetchEvent::Resolved { resolutions }
            && resolutions@.len() == requests@.filter(resolving()).len(),
        PrefetchState::Downloading { requests, resolutions } => event is Downloaded && resolutions@.len()
            == requests@.filter(resolving()).len(),
        PrefetchState::Finished => false,
    }
}

/// `keys` are the downloads that the resolutions of `requests` need, ascending, each once.
pub open spec fn downloads_needed(
    requests: Seq<ProjectInstallRequest>,
    resolutions: Seq<Resolution>,
    keys: Seq<ArtifactKey>,
) -> bool {
    &&& keys_ascending(keys)
    &&& forall|k: (Seq<char>, Seq<char>, Seq<char>)|
        key_views(keys).contains(k) <==> exists|j: int|
            0 <= j < resolutions.len() && #[trigger] resolved_requires(
                requests.filter(resolving())[j],
                resolutions[j],
                k,
            )
}

/// The steps of the prefetch.
pub open spec fn prefetch_transition(
    state: PrefetchState,
    event: PrefetchEvent,
    next: PrefetchState,
    action: PrefetchAction,
) -> bool {
    match (state, event) {
        (PrefetchState::Start { requests }, PrefetchEvent::Began) => if requests@.filter(
            resolving(),
        ).len() == 0 {
            &&& next is Finished
            &&& action matches PrefetchAction::Finish(prefetched)
            &&& prefetched_from(prefetched, requests@, Ok(()), Seq::empty(), Seq::empty())
        } else {
            next == (PrefetchState::FetchingManifest { requests }) && action is FetchManifest
        },
        (PrefetchState::FetchingManifest { requests }, PrefetchEvent::ManifestFetched { result }) => match result {
            Err(e) => {
                &&& next is Finished
                &&& action matches PrefetchAction::Finish(prefetched)
                &&& prefetched_from(prefetched, requests@, Err(e), Seq::empty(), Seq::empty())
            },
            Ok(()) => next == (PrefetchState::Resolving { requests }) && action is ResolveRequests,
        },
        (PrefetchState::Resolving { requests }, PrefetchEvent::Resolved { resolutions }) => {
            &&& next == (PrefetchState::Downloading { requests, resolutions })
            &&& action matches PrefetchAction::Download { keys }
            &&& downloads_needed(requests@, resolutions@, keys@)
        },
        (
            PrefetchState::Downloading { requests, resolutions },
            PrefetchEvent::Downloaded { downloads },
        ) => {
            &&& next is Finished
            &&& action matches PrefetchAction::Finish(prefetched)
            &&& prefetched_from(prefetched, requests@, Ok(()), resolutions@, downloads@)
        },
        _ => false,
    }
}

fn has_resolve_request(requests: &Vec<ProjectInstallRequest>) -> (found: bool)
    ensures
        found == (requests@.filter(resolving()).len() > 0),
{
    let mut i: usize = 0;
    proof {
        reveal(Seq::filter);
        assert(requests@.take(0) =~= Seq::<ProjectInstallRequest>::empty());
        assert(requests@.take(0).filter(resolving()) =~= Seq::<ProjectInstallRequest>::empty());
    }
    while i < requests.len()
        invariant
            i <= requests.len(),
            requests@.take(i as int).filter(resolving()).len() == 0,
        decreases requests.len() - i,
    {
        proof {
            lemma_filter_step(requests@, i as int, resolving());
        }
        match &requests[i] {
            ProjectInstallRequest::Resolve { .. } => {
                proof {
                    assert(resolving()(requests@[i as int]));
                    assert(requests@.take(i + 1).filter(resolving()).len() == 1);
                    lemma_filter_prefix_len_le(requests@, i + 1, resolving());
                }
                return true;
            },
            ProjectInstallRequest::Failed { .. } => {},
        }
        i = i + 1;
    }
    proof {
        assert(requests@.take(requests.len() as int) =~= requests@);
    }
    false
}

proof fn lemma_filter_prefix_len_le<A>(s: Seq<A>, n: int, p: spec_fn(A) -> bool)
    requires
        0 <= n <= s.len(),
    ensures
        s.take(n).filter(p).len() <= s.filter(p).len(),
    decreases s.len() - n,
{
    if n == s.len() {
        assert(s.take(n) =~= s);
    } else {
        lemma_filter_step(s, n, p);
        lemma_filter_prefix_len_le(s, n + 1, p);
    }
}

/// The next step of the prefetch, after `event`.
pub fn prefetch_step(state: PrefetchState, event: PrefetchEvent) -> (step: (PrefetchState, PrefetchAction))
    requires
        prefetch_event_fits(state, event),
    ensures
        prefetch_transition(state, event, step.0, step.1),
{
    match (state, event) {
        (PrefetchState::Start { requests }, PrefetchEvent::Began) => {
            if has_resolve_request(&requests) {
                (PrefetchState::FetchingManifest { requests }, PrefetchAction::FetchManifest)
            } else {
                let ghost all = requests@;
                let prefetched = prefetch_missing_project_installs_blocking(
                    requests,
                    Ok(()),
                    Vec::new(),
                    &Vec::new(),
                );
                (PrefetchState::Finished, PrefetchAction::Finish(prefetched))
            }
        },
        (PrefetchState::FetchingManifest { requests }, PrefetchEvent::ManifestFetched { result }) => {
            match result {
                Err(e) => {
                    let prefetched = prefetch_missing_project_installs_blocking(
                        requests,
                        Err(e),
                        Vec::new(),
                        &Vec::new(),
                    );
                    (PrefetchState::Finished, PrefetchAction::Finish(prefetched))
                },
                Ok(()) => (PrefetchState::Resolving { requests }, PrefetchAction::ResolveRequests),
            }
        },
        (PrefetchState::Resolving { requests }, PrefetchEvent::Resolved { resolutions }) => {
            let keys = required_project_artifacts(&requests, &resolutions);
            (PrefetchState::Downloading { requests, resolutions }, PrefetchAction::Download { keys })
        },
        (
            PrefetchState::Downloading { requests, resolutions },
            PrefetchEvent::Downloaded { downloads },
        ) => {
            let prefetched = prefetch_missing_project_installs_blocking(
                requests,
                Ok(()),
                resolutions,
                &downloads,
            );
            (PrefetchState::Finished, PrefetchAction::Finish(prefetched))
        },
        _ => {
            proof {
                assert(false);
            }
            (PrefetchState::Finished, PrefetchAction::FetchManifest)
        },
    }
}

/// The manifest is fetched only when some request is to be resolved, and once it could not
/// be had nothing is resolved or downloaded: the prefetch ends at once.
pub proof fn lemma_no_work_without_manifest(
    state: PrefetchState,
    event: PrefetchEvent,
    next: PrefetchState,
    action: PrefetchAction,
)
    requires
        prefetch_event_fits(state, event),
        prefetch_transition(state, event, next, action),
    ensures
        action is FetchManifest ==> (state matches PrefetchState::Start { requests } && requests@.filter(
            resolving(),
        ).len() > 0),
        (event matches PrefetchEvent::ManifestFetched { result } && result is Err) ==> (action is Finish
            && next is Finished),
        action is ResolveRequests ==> (event matches PrefetchEvent::ManifestFetched { result } && result is Ok),
        action is Download ==> (state is Resolving),
{
}

} // verus!
