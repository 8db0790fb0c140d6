//! The artifacts a batch of installs has to download: each one once, by resource, version
//! and digest, in ascending order of those.
use vstd::prelude::*;
use vstd::string::*;

use crate::desired::track_key;
use crate::order::{lemma_text_lt_total, lemma_text_lt_transitive, str_lt, text_lt};
use crate::error::DaemonError;
use crate::prefetch::{
    find_download, lemma_find_download_prefix, request_key, resolving,
    ArtifactDownloadResult, ProjectInstallRequest, Resolution, ResolvedArtifact,
};
use crate::text::{concat2, concat3, str_equal};

verus! {

/// The key a download is fetched and found under.
pub struct ArtifactKey {
    pub resource_name: String,
    pub artifact_version: String,
    pub sha256: String,
}

/// A download key by its texts.
pub open spec fn key_view(k: ArtifactKey) -> (Seq<char>, Seq<char>, Seq<char>) {
    (k.resource_name@, k.artifact_version@, k.sha256@)
}

/// The download key of an artifact, by its texts.
pub open spec fn artifact_key_view(a: ResolvedArtifact) -> (Seq<char>, Seq<char>, Seq<char>) {
    (a.resource_name@, a.artifact_version@, a.sha256@)
}

/// The order of download keys: by resource, then version, then digest.
pub open spec fn triple_lt(a: (Seq<char>, Seq<char>, Seq<char>), b: (Seq<char>, Seq<char>, Seq<char>)) -> bool {
    ||| text_lt(a.0, b.0)
    ||| a.0 == b.0 && text_lt(a.1, b.1)
    ||| a.0 == b.0 && a.1 == b.1 && text_lt(a.2, b.2)
}

/// Download keys in strictly ascending order.
pub open spec fn keys_ascending(s: Seq<ArtifactKey>) -> bool {
    forall|i: int, j: int| 0 <= i < j < s.len() ==> triple_lt(key_view(#[trigger] s[i]), key_view(#[trigger] s[j]))
}

/// The key views of a list of download keys.
pub open spec fn key_views(s: Seq<ArtifactKey>) -> Seq<(Seq<char>, Seq<char>, Seq<char>)> {
    s.map_values(|k: ArtifactKey| key_view(k))
}

proof fn lemma_triple_lt_transitive(
    a: (Seq<char>, Seq<char>, Seq<char>),
    b: (Seq<char>, Seq<char>, Seq<char>),
    c: (Seq<char>, Seq<char>, Seq<char>),
)
    ensures
        triple_lt(a, b) && triple_lt(b, c) ==> triple_lt(a, c),
{
    lemma_text_lt_transitive(a.0, b.0, c.0);
    lemma_text_lt_transitive(a.1, b.1, c.1);
    lemma_text_lt_transitive(a.2, b.2, c.2);
}

proof fn lemma_triple_lt_total(a: (Seq<char>, Seq<char>, Seq<char>), b: (Seq<char>, Seq<char>, Seq<char>))
    ensures
        a != b ==> triple_lt(a, b) || triple_lt(b, a),
{
    lemma_text_lt_total(a.0, b.0);
    lemma_text_lt_total(a.1, b.1);
    lemma_text_lt_total(a.2, b.2);
}

fn triple_less(a: &ArtifactKey, b: &ArtifactKey) -> (lt: bool)
    ensures
        lt == triple_lt(key_view(*a), key_view(*b)),
{
    if str_lt(a.resource_name.as_str(), b.resource_name.as_str()) {
        return true;
    }
    if !str_equal(a.resource_name.as_str(), b.resource_name.as_str()) {
        return false;
    }
    if str_lt(a.artifact_version.as_str(), b.artifact_version.as_str()) {
        return true;
    }
    if !str_equal(a.artifact_version.as_str(), b.artifact_version.as_str()) {
        return false;
    }
    str_lt(a.sha256.as_str(), b.sha256.as_str())
}

/// Inserts `key` into the ascending `set` unless it is there already.
fn insert_key(set: &mut Vec<ArtifactKey>, key: ArtifactKey)
    requires
        keys_ascending(old(set)@),
    ensures
        keys_ascending(final(set)@),
        forall|k: (Seq<char>, Seq<char>, Seq<char>)|
            key_views(final(set)@).contains(k) <==> (key_views(old(set)@).contains(k) || k == key_view(key)),
{
    let ghost before = set@;
    let mut i: usize = 0;
    while i < set.len()
        invariant
            i <= set.len(),
            before == set@,
            keys_ascending(before),
            forall|j: int| 0 <= j < i ==> triple_lt(key_view(#[trigger] before[j]), key_view(key)),
        ensures
            i <= set.len(),
            before == set@,
            forall|j: int| 0 <= j < i ==> triple_lt(key_view(#[trigger] before[j]), key_view(key)),
            i < set.len() ==> !triple_lt(key_view(before[i as int]), key_view(key)),
        decreases set.len() - i,
    {
        if !triple_less(&set[i], &key) {
            break;
        }
        i = i + 1;
    }
    if i < set.len() && str_equal(set[i].resource_name.as_str(), key.resource_name.as_str()) && str_equal(
        set[i].artifact_version.as_str(),
        key.artifact_version.as_str(),
    ) && str_equal(set[i].sha256.as_str(), key.sha256.as_str()) {
        proof {
            assert(key_views(before)[i as int] == key_view(key));
            assert(key_views(before).contains(key_view(key)));
        }
        return;
    }
    proof {
        if i < set.len() {
            lemma_triple_lt_total(key_view(before[i as int]), key_view(key));
            assert forall|k: int| i <= k < before.len() implies triple_lt(key_view(key), key_view(#[trigger] before[k])) by {
                if k > i {
                    lemma_triple_lt_transitive(key_view(key), key_view(before[i as int]), key_view(before[k]));
                }
            }
        }
    }
    set.insert(i, key);
    proof {
        let after = set@;
        assert(after =~= before.insert(i as int, key));
        assert forall|a: int, b: int| 0 <= a < b < after.len() implies triple_lt(
            key_view(#[trigger] after[a]),
            key_view(#[trigger] after[b]),
        ) by {
            if b > i && a < i {
                lemma_triple_lt_transitive(key_view(before[a]), key_view(key), key_view(before[b - 1]));
            }
        }
        let ka = key_views(after);
        let kb = key_views(before);
        assert forall|k: (Seq<char>, Seq<char>, Seq<char>)| ka.contains(k) <==> (kb.contains(k) || k == key_view(key)) by {
            if ka.contains(k) {
                let p = choose|p: int| 0 <= p < ka.len() && ka[p] == k;
                if p < i {
                    assert(kb[p] == k);
                } else if p > i {
                    assert(kb[p - 1] == k);
                }
            }
            if kb.contains(k) {
                let p = choose|p: int| 0 <= p < kb.len() && kb[p] == k;
                if p < i {
                    assert(ka[p] == k);
                } else {
                    assert(ka[p + 1] == k);
                }
            }
            if k == key_view(key) {
                assert(ka[i as int] == k);
            }
        }
    }
}

/// Whether some artifact among `artifacts` has to be downloaded and has the key `k`.
pub open spec fn required_key(artifacts: Seq<ResolvedArtifact>, k: (Seq<char>, Seq<char>, Seq<char>)) -> bool {
    exists|i: int| 0 <= i < artifacts.len() && #[trigger] artifacts[i].download_required && artifact_key_view(artifacts[i]) == k
}

/// The downloads that `artifacts` need: the key of each artifact that has to be downloaded,
/// once, in ascending order.
pub fn unique_required_artifacts(artifacts: &Vec<ResolvedArtifact>) -> (keys: Vec<ArtifactKey>)
    ensures
        keys_ascending(keys@),
        forall|k: (Seq<char>, Seq<char>, Seq<char>)| key_views(keys@).contains(k) <==> required_key(artifacts@, k),
{
    let mut keys: Vec<ArtifactKey> = Vec::new();
    let mut i: usize = 0;
    while i < artifacts.len()
        invariant
            i <= artifacts.len(),
            keys_ascending(keys@),
            forall|k: (Seq<char>, Seq<char>, Seq<char>)|
                key_views(keys@).contains(k) <==> required_key(artifacts@.take(i as int), k),
        decreases artifacts.len() - i,
    {
        let a = &artifacts[i];
        let ghost before = key_views(keys@);
        if a.download_required {
            insert_key(
                &mut keys,
                ArtifactKey {
                    resource_name: a.resource_name.clone(),
                    artifact_version: a.artifact_version.clone(),
                    sha256: a.sha256.clone(),
                },
            );
        }
        proof {
            let next = artifacts@.take(i + 1);
            let prev = artifacts@.take(i as int);
            assert forall|k: (Seq<char>, Seq<char>, Seq<char>)|
                key_views(keys@).contains(k) <==> required_key(next, k) by {
                if required_key(next, k) {
                    let p = choose|p: int| 0 <= p < next.len() && #[trigger] next[p].download_required && artifact_key_view(next[p]) == k;
                    if p < i {
                        assert(prev[p] == next[p]);
                        assert(required_key(prev, k));
                    }
                }
                if required_key(prev, k) {
                    let p = choose|p: int| 0 <= p < prev.len() && #[trigger] prev[p].download_required && artifact_key_view(prev[p]) == k;
                    assert(next[p] == prev[p]);
                }
                if a.download_required && k == artifact_key_view(*a) {
                    assert(next[i as int] == *a);
                }
            }
        }
        i = i + 1;
    }
    proof {
        assert(artifacts@.take(artifacts.len() as int) =~= artifacts@);
    }
    keys
}

/// Whether the request to resolve `request` was resolved by `resolution` to an artifact
/// that has to be downloaded and has the key `k`.
pub open spec fn resolved_requires(
    request: ProjectInstallRequest,
    resolution: Resolution,
    k: (Seq<char>, Seq<char>, Seq<char>),
) -> bool {
    &&& resolution.adapter_resource_name@ == track_key(request_key(request)).0
    &&& match resolution.resolved {
        Ok(artifact) => artifact.download_required && artifact_key_view(artifact) == k,
        Err(_) => false,
    }
}

/// The downloads that a Project's prefetch needs: those of the artifacts resolved for the
/// requests to resolve whose adapter names the track's resource, each once, in ascending
/// order. `resolutions` holds what resolving each request to resolve gave, in order.
pub fn required_project_artifacts(requests: &Vec<ProjectInstallRequest>, resolutions: &Vec<Resolution>) -> (keys:
    Vec<ArtifactKey>)
    requires
        resolutions@.len() == requests@.filter(resolving()).len(),
    ensures
        keys_ascending(keys@),
        forall|k: (Seq<char>, Seq<char>, Seq<char>)|
            key_views(keys@).contains(k) <==> exists|j: int|
                0 <= j < resolutions@.len() && #[trigger] resolved_requires(
                    requests@.filter(resolving())[j],
                    resolutions@[j],
                    k,
                ),
{
    let ghost resolves = requests@.filter(resolving());
    let mut keys: Vec<ArtifactKey> = Vec::new();
    let mut resolve_index: usize = 0;
    let mut i: usize = 0;
    proof {
        assert(requests@.take(0) =~= Seq::<ProjectInstallRequest>::empty());
        reveal(Seq::filter);
        assert(requests@.take(0).filter(resolving()) =~= Seq::<ProjectInstallRequest>::empty());
    }
    while i < requests.len()
        invariant
            i <= requests.len(),
            resolves == requests@.filter(resolving()),
            resolutions@.len() == resolves.len(),
            resolve_index == requests@.take(i as int).filter(resolving()).len(),
            requests@.take(i as int).filter(resolving()) == resolves.take(resolve_index as int),
            keys_ascending(keys@),
            forall|k: (Seq<char>, Seq<char>, Seq<char>)|
                key_views(keys@).contains(k) <==> exists|j: int|
                    0 <= j < resolve_index && #[trigger] resolved_requires(resolves[j], resolutions@[j], k),
        decreases requests.len() - i,
    {
        proof {
            crate::desired::lemma_filter_step(requests@, i as int, resolving());
            lemma_filter_prefix_len(requests@, i + 1, resolving());
        }
        match &requests[i] {
            ProjectInstallRequest::Resolve { key, .. } => {
                proof {
                    assert(resolving()(requests@[i as int]));
                    let next = requests@.take(i + 1).filter(resolving());
                    assert(next == requests@.take(i as int).filter(resolving()).push(requests@[i as int]));
                    assert(next.len() == resolve_index + 1);
                    assert(next == resolves.take(resolve_index + 1));
                    assert(next[resolve_index as int] == requests@[i as int]);
                    assert(resolves[resolve_index as int] == requests@[i as int]);
                    assert(resolves.take(resolve_index + 1) =~= resolves.take(resolve_index as int).push(requests@[i as int]));
                }
                let resolution = &resolutions[resolve_index];
                let ghost before = key_views(keys@);
                if str_equal(resolution.adapter_resource_name.as_str(), key.resource_name.as_str()) {
                    match &resolution.resolved {
                        Ok(artifact) => {
                            if artifact.download_required {
                                insert_key(
                                    &mut keys,
                                    ArtifactKey {
                                        resource_name: artifact.resource_name.clone(),
                                        artifact_version: artifact.artifact_version.clone(),
                                        sha256: artifact.sha256.clone(),
                                    },
                                );
                            }
                        },
                        Err(_) => {},
                    }
                }
                proof {
                    assert forall|k: (Seq<char>, Seq<char>, Seq<char>)|
                        key_views(keys@).contains(k) <==> exists|j: int|
                            0 <= j < resolve_index + 1 && #[trigger] resolved_requires(resolves[j], resolutions@[j], k) by {
                        if resolved_requires(resolves[resolve_index as int], resolutions@[resolve_index as int], k) {
                            assert(0 <= resolve_index < resolve_index + 1);
                        }
                        if exists|j: int|
                            0 <= j < resolve_index + 1 && #[trigger] resolved_requires(resolves[j], resolutions@[j], k) {
                            let j = choose|j: int|
                                0 <= j < resolve_index + 1 && #[trigger] resolved_requires(resolves[j], resolutions@[j], k);
                            if j < resolve_index {
                                assert(exists|j: int|
                                    0 <= j < resolve_index && #[trigger] resolved_requires(resolves[j], resolutions@[j], k));
                            }
                        }
                    }
                }
                resolve_index = resolve_index + 1;
            },
            ProjectInstallRequest::Failed { .. } => {},
        }
        i = i + 1;
    }
    proof {
        assert(requests@.take(requests.len() as int) =~= requests@);
    }
    keys
}

proof fn lemma_filter_prefix_len<A>(s: Seq<A>, n: int, p: spec_fn(A) -> bool)
    requires
        0 <= n <= s.len(),
    ensures
        s.take(n).filter(p).len() <= s.filter(p).len(),
        s.take(n).filter(p) == s.filter(p).take(s.take(n).filter(p).len() as int),
    decreases s.len() - n,
{
    if n == s.len() {
        assert(s.take(n) =~= s);
    } else {
        lemma_filter_prefix_len(s, n + 1, p);
        crate::desired::lemma_filter_step(s, n, p);
        let next = s.take(n + 1).filter(p);
        let cur = s.take(n).filter(p);
        if p(s[n]) {
            assert(cur =~= next.take(cur.len() as int));
        }
    }
}

/// The reason given when a required download is not among the prefetched ones.
pub open spec fn missing_prefetch_reason(artifact: ResolvedArtifact) -> Seq<char> {
    "missing prefetched artifact for "@ + artifact.resource_name@ + " "@ + artifact.artifact_version@
}

/// What the prefetched downloads hold for `artifact`: nothing to use when it needs no
/// download; otherwise its download, or the error that it failed or is missing.
pub open spec fn prefetched_download_of(
    downloads: Seq<ArtifactDownloadResult>,
    artifact: ResolvedArtifact,
    r: Result<Option<usize>, DaemonError>,
) -> bool {
    if !artifact.download_required {
        r == Ok::<Option<usize>, DaemonError>(None)
    } else {
        match find_download(downloads, artifact) {
            None => match r {
                Err(DaemonError::UnexpectedProtocolResponse { reason }) => reason@ == missing_prefetch_reason(artifact),
                _ => false,
            },
            Some(i) => match downloads[i].result {
                Ok(()) => r == Ok::<Option<usize>, DaemonError>(Some(i as usize)),
                Err(message) => match r {
                    Err(DaemonError::ManagedResourceCommand { message: m }) => m@ == message@,
                    _ => false,
                },
            },
        }
    }
}

/// The prefetched download of `artifact`, as [`prefetched_download_of`] says.
pub fn prefetched_download(downloads: &Vec<ArtifactDownloadResult>, artifact: &ResolvedArtifact) -> (r: Result<
    Option<usize>,
    DaemonError,
>)
    ensures
        prefetched_download_of(downloads@, *artifact, r),
{
    if !artifact.download_required {
        return Ok(None);
    }
    let mut i: usize = 0;
    while i < downloads.len()
        invariant
            artifact.download_required,
            i <= downloads.len(),
            find_download(downloads@.take(i as int), *artifact) is None,
        decreases downloads.len() - i,
    {
        proof {
            assert(downloads@.take(i + 1).drop_last() =~= downloads@.take(i as int));
        }
        let d = &downloads[i];
        if str_equal(d.resource_name.as_str(), artifact.resource_name.as_str()) && str_equal(
            d.artifact_version.as_str(),
            artifact.artifact_version.as_str(),
        ) && str_equal(d.sha256.as_str(), artifact.sha256.as_str()) {
            proof {
                assert(downloads@.take(i + 1).last() == downloads@[i as int]);
                assert(find_download(downloads@.take(i + 1), *artifact) == Some(i as int));
                lemma_find_download_prefix(downloads@, i + 1, *artifact);
            }
            return match &d.result {
                Ok(()) => Ok(Some(i)),
                Err(message) => Err(DaemonError::ManagedResourceCommand { message: message.clone() }),
            };
        }
        i = i + 1;
    }
    proof {
        assert(downloads@.take(downloads.len() as int) =~= downloads@);
    }
    let mut reason = concat2("missing prefetched artifact for ", artifact.resource_name.as_str());
    reason.append(" ");
    reason.append(artifact.artifact_version.as_str());
    Err(DaemonError::UnexpectedProtocolResponse { reason })
}

/// What a default install resolved to.
pub enum ResolvedDesiredResourceInstallKind {
    PhpPair { php: ResolvedArtifact, frankenphp: ResolvedArtifact },
    Composer { artifact: ResolvedArtifact },
    Runtime { artifact: ResolvedArtifact },
}

/// `failure` is the labelled failure of `artifact`'s download, as `r` reports it.
pub open spec fn labelled_failure(label: Seq<char>, r: Result<Option<usize>, DaemonError>, failure: (String, DaemonError)) -> bool {
    failure.0@ == label && r == Err::<Option<usize>, DaemonError>(failure.1)
}

/// The download failures of a resolved default install: for a PHP pair, each of PHP and
/// FrankenPHP whose download failed, labelled by resource and track; otherwise the
/// install's own download failure under `label`.
pub fn resolved_download_failures(
    downloads: &Vec<ArtifactDownloadResult>,
    install: &ResolvedDesiredResourceInstallKind,
    label: &str,
) -> (failures: Vec<(String, DaemonError)>)
    ensures
        match *install {
            ResolvedDesiredResourceInstallKind::PhpPair { php, frankenphp } => exists|rp: Result<Option<usize>, DaemonError>, rf: Result<Option<usize>, DaemonError>| {
                &&& prefetched_download_of(downloads@, php, rp)
                &&& prefetched_download_of(downloads@, frankenphp, rf)
                &&& #[trigger] failures@.len() == (if rp is Err { 1int } else { 0int }) + (if rf is Err { 1int } else { 0int })
                &&& rp is Err ==> labelled_failure("php "@ + php.track@, rp, failures@[0])
                &&& rf is Err ==> labelled_failure(
                    "frankenphp "@ + frankenphp.track@,
                    rf,
                    failures@[failures@.len() - 1],
                )
            },
            ResolvedDesiredResourceInstallKind::Composer { artifact } => exists|r: Result<Option<usize>, DaemonError>| {
                &&& prefetched_download_of(downloads@, artifact, r)
                &&& #[trigger] failures@.len() == (if r is Err { 1int } else { 0int })
                &&& r is Err ==> labelled_failure(label@, r, failures@[0])
            },
            ResolvedDesiredResourceInstallKind::Runtime { artifact } => exists|r: Result<Option<usize>, DaemonError>| {
                &&& prefetched_download_of(downloads@, artifact, r)
                &&& #[trigger] failures@.len() == (if r is Err { 1int } else { 0int })
                &&& r is Err ==> labelled_failure(label@, r, failures@[0])
            },
        },
{
    let mut failures: Vec<(String, DaemonError)> = Vec::new();
    match install {
        ResolvedDesiredResourceInstallKind::PhpPair { php, frankenphp } => {
            let rp = prefetched_download(downloads, php);
            let ghost gp = rp;
            match rp {
                Err(error) => failures.push((concat2("php ", php.track.as_str()), error)),
                Ok(_) => {},
            }
            let rf = prefetched_download(downloads, frankenphp);
            let ghost gf = rf;
            match rf {
                Err(error) => failures.push((concat2("frankenphp ", frankenphp.track.as_str()), error)),
                Ok(_) => {},
            }
            proof {
                assert(prefetched_download_of(downloads@, *php, gp));
                assert(prefetched_download_of(downloads@, *frankenphp, gf));
            }
        },
        ResolvedDesiredResourceInstallKind::Composer { artifact } => {
            let r = prefetched_download(downloads, artifact);
            let ghost g = r;
            match r {
                Err(error) => failures.push((String::from_str(label), error)),
                Ok(_) => {},
            }
            proof {
                assert(prefetched_download_of(downloads@, *artifact, g));
            }
        },
        ResolvedDesiredResourceInstallKind::Runtime { artifact } => {
            let r = prefetched_download(downloads, artifact);
            let ghost g = r;
            match r {
                Err(error) => failures.push((String::from_str(label), error)),
                Ok(_) => {},
            }
            proof {
                assert(prefetched_download_of(downloads@, *artifact, g));
            }
        },
    }
    failures
}

/// The reason given when a runtime adapter resolves another resource than the track's.
pub fn runtime_adapter_mismatch(adapter_resource_name: &str, resource_name: &str) -> (mismatch: Option<DaemonError>)
    ensures
        adapter_resource_name@ == resource_name@ ==> mismatch is None,
        adapter_resource_name@ != resource_name@ ==> match mismatch {
            Some(DaemonError::UnexpectedProtocolResponse { reason }) => reason@ == crate::prefetch::adapter_mismatch_reason(
                adapter_resource_name@,
                resource_name@,
            ),
            _ => false,
        },
{
    if str_equal(adapter_resource_name, resource_name) {
        None
    } else {
        let mut reason = concat3("runtime adapter resolved `", adapter_resource_name, "` while reconciling `");
        reason.append(resource_name);
        reason.append("`");
        Some(DaemonError::UnexpectedProtocolResponse { reason })
    }
}

} // verus!
