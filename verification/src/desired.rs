//! Which default Managed Resource installs a System reconciliation plans, and in what order.
//!
//! The tracks that should be installed but are not are walked in ascending (resource name,
//! track) order: Caddy tracks are installed with the gateway's adapter, PHP and FrankenPHP
//! tracks as pairs, Composer only on its track `2`, and any other resource through the
//! runtime adapter the catalog registers for it.
use vstd::prelude::*;
use vstd::string::*;

use crate::error::DaemonError;
use crate::install::{install_failures_reported, finish_desired_resource_install_failures, DesiredResourceInstallFailure};
use crate::order::{
    insert_text, lemma_text_lt_asymmetric, lemma_text_lt_irreflexive, lemma_text_lt_total,
    lemma_text_lt_transitive, str_lt, text_lt, texts_ascending,
};
use crate::text::{concat2, concat3, str_equal, string_views};

verus! {

/// The state a Managed Resource track is meant to be in.
pub enum DesiredState {
    Installed,
    Removed,
}

/// A Managed Resource track as the state store records it.
pub struct ResourceTrackRecord {
    pub resource_name: String,
    pub track: String,
    pub desired_state: DesiredState,
    /// The track has a current artifact on disk.
    pub has_current_artifact: bool,
    /// The track has seeded environment context.
    pub has_env_context: bool,
    /// How many Projects use the track.
    pub usage_count: u64,
}

/// A resource track, by resource name and track.
pub struct DemandedResourceTrack {
    pub resource_name: String,
    pub track: String,
}

/// A runtime adapter that the catalog registers, with the failure its artifact adapter
/// reports, if any, already rendered.
pub struct CatalogAdapter {
    pub resource_name: String,
    pub artifact_adapter_error: Option<String>,
}

/// Where the artifact adapter of a runtime install comes from.
pub enum RuntimeAdapterSource {
    /// The gateway's own adapter.
    Caddy,
    /// The catalog's adapter at this position.
    Catalog { index: usize },
}

/// One default install.
pub enum DesiredResourceInstall {
    /// PHP and FrankenPHP of one track, installed together.
    PhpPair { track: String },
    /// Composer, on its track `2`.
    Composer,
    /// A runtime resource track.
    Runtime { adapter: RuntimeAdapterSource, resource_name: String, track: String },
}

/// The installs planned, and the tracks that could not be planned.
pub struct DesiredResourceInstallPlan {
    pub installs: Vec<DesiredResourceInstall>,
    pub failures: Vec<DesiredResourceInstallFailure>,
}

/// A track by its (resource name, track) texts.
pub open spec fn track_key(t: DemandedResourceTrack) -> (Seq<char>, Seq<char>) {
    (t.resource_name@, t.track@)
}

/// The keys of a list of tracks.
pub open spec fn track_keys(s: Seq<DemandedResourceTrack>) -> Seq<(Seq<char>, Seq<char>)> {
    s.map_values(|t: DemandedResourceTrack| track_key(t))
}

/// The order of track keys: by resource name, then by track.
pub open spec fn key_lt(a: (Seq<char>, Seq<char>), b: (Seq<char>, Seq<char>)) -> bool {
    text_lt(a.0, b.0) || (a.0 == b.0 && text_lt(a.1, b.1))
}

/// Tracks in strictly ascending key order: sorted, with no key twice.
pub open spec fn tracks_ascending(s: Seq<DemandedResourceTrack>) -> bool {
    forall|i: int, j: int|
        0 <= i < j < s.len() ==> key_lt(track_key(#[trigger] s[i]), track_key(#[trigger] s[j]))
}

proof fn lemma_key_lt_irreflexive(a: (Seq<char>, Seq<char>))
    ensures
        !key_lt(a, a),
{
    lemma_text_lt_irreflexive(a.0);
    lemma_text_lt_irreflexive(a.1);
}

proof fn lemma_key_lt_asymmetric(a: (Seq<char>, Seq<char>), b: (Seq<char>, Seq<char>))
    ensures
        key_lt(a, b) ==> !key_lt(b, a),
{
    lemma_text_lt_asymmetric(a.0, b.0);
    lemma_text_lt_asymmetric(a.1, b.1);
    lemma_text_lt_irreflexive(a.0);
}

proof fn lemma_key_lt_transitive(
    a: (Seq<char>, Seq<char>),
    b: (Seq<char>, Seq<char>),
    c: (Seq<char>, Seq<char>),
)
    ensures
        key_lt(a, b) && key_lt(b, c) ==> key_lt(a, c),
{
    lemma_text_lt_transitive(a.0, b.0, c.0);
    lemma_text_lt_transitive(a.1, b.1, c.1);
}

proof fn lemma_key_lt_total(a: (Seq<char>, Seq<char>), b: (Seq<char>, Seq<char>))
    ensures
        a != b ==> key_lt(a, b) || key_lt(b, a),
{
    lemma_text_lt_total(a.0, b.0);
    lemma_text_lt_total(a.1, b.1);
}

fn key_less(a: &DemandedResourceTrack, b: &DemandedResourceTrack) -> (lt: bool)
    ensures
        lt == key_lt(track_key(*a), track_key(*b)),
{
    if str_lt(a.resource_name.as_str(), b.resource_name.as_str()) {
        true
    } else if str_equal(a.resource_name.as_str(), b.resource_name.as_str()) {
        str_lt(a.track.as_str(), b.track.as_str())
    } else {
        false
    }
}

/// Inserts `track` into the ascending `set` unless its key is there already.
pub(crate) fn insert_track(set: &mut Vec<DemandedResourceTrack>, track: DemandedResourceTrack)
    requires
        tracks_ascending(old(set)@),
    ensures
        tracks_ascending(final(set)@),
        forall|k: (Seq<char>, Seq<char>)|
            track_keys(final(set)@).contains(k) <==> (track_keys(old(set)@).contains(k) || k
                == track_key(track)),
{
    let ghost before = set@;
    let mut i: usize = 0;
    while i < set.len()
        invariant
            i <= set.len(),
            before == set@,
            tracks_ascending(before),
            forall|j: int| 0 <= j < i ==> key_lt(track_key(#[trigger] before[j]), track_key(track)),
        ensures
            i <= set.len(),
            before == set@,
            forall|j: int| 0 <= j < i ==> key_lt(track_key(#[trigger] before[j]), track_key(track)),
            i < set.len() ==> !key_lt(track_key(before[i as int]), track_key(track)),
        decreases set.len() - i,
    {
        if !key_less(&set[i], &track) {
            break;
        }
        i = i + 1;
    }
    if i < set.len() && str_equal(set[i].resource_name.as_str(), track.resource_name.as_str())
        && str_equal(set[i].track.as_str(), track.track.as_str()) {
        proof {
            assert(track_keys(before)[i as int] == track_key(track));
            assert(track_keys(before).contains(track_key(track)));
        }
        return;
    }
    proof {
        if i < set.len() {
            lemma_key_lt_total(track_key(before[i as int]), track_key(track));
            assert forall|k: int| i <= k < before.len() implies key_lt(
                track_key(track),
                track_key(#[trigger] before[k]),
            ) by {
                if k > i {
                    lemma_key_lt_transitive(
                        track_key(track),
                        track_key(before[i as int]),
                        track_key(before[k]),
                    );
                }
            }
        }
    }
    set.insert(i, track);
    proof {
        let after = set@;
        assert(after =~= before.insert(i as int, track));
        assert forall|a: int, b: int| 0 <= a < b < after.len() implies key_lt(
            track_key(#[trigger] after[a]),
            track_key(#[trigger] after[b]),
        ) by {
            if b > i && a < i {
                lemma_key_lt_transitive(track_key(before[a]), track_key(track), track_key(before[b - 1]));
            }
        }
        let ka = track_keys(after);
        let kb = track_keys(before);
        assert forall|k: (Seq<char>, Seq<char>)| ka.contains(k) <==> (kb.contains(k) || k == track_key(track)) by {
            if ka.contains(k) {
                let p = choose|p: int| 0 <= p < ka.len() && ka[p] == k;
                if p < i {
                    assert(kb[p] == k);
                } else if p > i {
                    assert(kb[p - 1] == k);
                }
            }
            if kb.contains(k) {
                let p = choose|p: int| 0 <= p < kb.len() && kb[p] == k;
                if p < i {
                    assert(ka[p] == k);
                } else {
                    assert(ka[p + 1] == k);
                }
            }
            if k == track_key(track) {
                assert(ka[i as int] == k);
            }
        }
    }
}

/// A record wants its track installed and has its artifact.
pub open spec fn record_installed(r: ResourceTrackRecord) -> bool {
    r.desired_state is Installed && r.has_current_artifact
}

/// A record wants its track installed and lacks its artifact.
pub open spec fn record_missing(r: ResourceTrackRecord) -> bool {
    r.desired_state is Installed && !r.has_current_artifact
}

/// A record by its (resource name, track) texts.
pub open spec fn record_key(r: ResourceTrackRecord) -> (Seq<char>, Seq<char>) {
    (r.resource_name@, r.track@)
}

/// Whether the track `k` should be installed: recorded as wanted without an artifact, or
/// demanded and not recorded as installed.
pub open spec fn is_missing_track(
    records: Seq<ResourceTrackRecord>,
    demanded: Seq<DemandedResourceTrack>,
    k: (Seq<char>, Seq<char>),
) -> bool {
    ||| exists|i: int| 0 <= i < records.len() && #[trigger] record_missing(records[i]) && record_key(records[i]) == k
    ||| (exists|j: int| 0 <= j < demanded.len() && #[trigger] track_key(demanded[j]) == k) && !(exists|i: int|
        0 <= i < records.len() && #[trigger] record_installed(records[i]) && record_key(records[i]) == k)
}

fn is_recorded_installed(records: &Vec<ResourceTrackRecord>, t: &DemandedResourceTrack) -> (installed: bool)
    ensures
        installed == exists|i: int|
            0 <= i < records.len() && #[trigger] record_installed(records@[i]) && record_key(records@[i]) == track_key(*t),
{
    let mut i: usize = 0;
    while i < records.len()
        invariant
            i <= records.len(),
            forall|j: int| 0 <= j < i ==> !(#[trigger] record_installed(records@[j]) && record_key(records@[j]) == track_key(*t)),
        decreases records.len() - i,
    {
        let r = &records[i];
        if matches!(r.desired_state, DesiredState::Installed) && r.has_current_artifact && str_equal(r.resource_name.as_str(), t.resource_name.as_str())
            && str_equal(r.track.as_str(), t.track.as_str()) {
            proof {
                assert(record_installed(records@[i as int]) && record_key(records@[i as int]) == track_key(*t));
            }
            return true;
        }
        i = i + 1;
    }
    false
}

/// The tracks to install, in ascending order: those recorded as wanted without an artifact,
/// and the demanded ones that are not recorded as installed.
pub fn missing_resource_tracks(
    records: &Vec<ResourceTrackRecord>,
    demanded: &Vec<DemandedResourceTrack>,
) -> (missing: Vec<DemandedResourceTrack>)
    ensures
        tracks_ascending(missing@),
        forall|k: (Seq<char>, Seq<char>)|
            track_keys(missing@).contains(k) <==> is_missing_track(records@, demanded@, k),
{
    let mut missing: Vec<DemandedResourceTrack> = Vec::new();
    let mut i: usize = 0;
    while i < records.len()
        invariant
            i <= records.len(),
            tracks_ascending(missing@),
            forall|k: (Seq<char>, Seq<char>)|
                track_keys(missing@).contains(k) <==> exists|j: int|
                    0 <= j < i && #[trigger] record_missing(records@[j]) && record_key(records@[j]) == k,
        decreases records.len() - i,
    {
        let r = &records[i];
        if matches!(r.desired_state, DesiredState::Installed) && !r.has_current_artifact {
            let t = DemandedResourceTrack { resource_name: r.resource_name.clone(), track: r.track.clone() };
            let ghost old_keys = track_keys(missing@);
            insert_track(&mut missing, t);
            proof {
                assert forall|k: (Seq<char>, Seq<char>)|
                    track_keys(missing@).contains(k) <==> exists|j: int|
                        0 <= j < i + 1 && #[trigger] record_missing(records@[j]) && record_key(records@[j]) == k by {
                    if k == record_key(records@[i as int]) {
                        assert(record_missing(records@[i as int]));
                    }
                    if exists|j: int| 0 <= j < i + 1 && #[trigger] record_missing(records@[j]) && record_key(records@[j]) == k {
                        let j = choose|j: int| 0 <= j < i + 1 && #[trigger] record_missing(records@[j]) && record_key(records@[j]) == k;
                        if j < i {
                            assert(old_keys.contains(k));
                        }
                    }
                }
            }
        } else {
            proof {
                assert forall|k: (Seq<char>, Seq<char>)|
                    track_keys(missing@).contains(k) <==> exists|j: int|
                        0 <= j < i + 1 && #[trigger] record_missing(records@[j]) && record_key(records@[j]) == k by {
                    if exists|j: int| 0 <= j < i + 1 && #[trigger] record_missing(records@[j]) && record_key(records@[j]) == k {
                        let j = choose|j: int| 0 <= j < i + 1 && #[trigger] record_missing(records@[j]) && record_key(records@[j]) == k;
                        assert(j < i);
                    }
                }
            }
        }
        i = i + 1;
    }
    let mut d: usize = 0;
    while d < demanded.len()
        invariant
            d <= demanded.len(),
            i == records.len(),
            tracks_ascending(missing@),
            forall|k: (Seq<char>, Seq<char>)|
                track_keys(missing@).contains(k) <==> ((exists|j: int|
                    0 <= j < records.len() && #[trigger] record_missing(records@[j]) && record_key(records@[j]) == k)
                    || ((exists|j: int| 0 <= j < d && #[trigger] track_key(demanded@[j]) == k) && !(exists|j: int|
                    0 <= j < records.len() && #[trigger] record_installed(records@[j]) && record_key(records@[j]) == k))),
        decreases demanded.len() - d,
    {
        let t = &demanded[d];
        let installed = is_recorded_installed(records, t);
        let ghost old_keys = track_keys(missing@);
        if !installed {
            let copy = DemandedResourceTrack { resource_name: t.resource_name.clone(), track: t.track.clone() };
            insert_track(&mut missing, copy);
        }
        proof {
            assert forall|k: (Seq<char>, Seq<char>)|
                track_keys(missing@).contains(k) <==> ((exists|j: int|
                    0 <= j < records.len() && #[trigger] record_missing(records@[j]) && record_key(records@[j]) == k)
                    || ((exists|j: int| 0 <= j < d + 1 && #[trigger] track_key(demanded@[j]) == k) && !(exists|j: int|
                    0 <= j < records.len() && #[trigger] record_installed(records@[j]) && record_key(records@[j]) == k))) by {
                if k == track_key(demanded@[d as int]) {
                    assert(track_key(demanded@[d as int]) == k);
                }
                if exists|j: int| 0 <= j < d + 1 && #[trigger] track_key(demanded@[j]) == k {
                    let j = choose|j: int| 0 <= j < d + 1 && #[trigger] track_key(demanded@[j]) == k;
                    if j < d {
                        assert(exists|j: int| 0 <= j < d && #[trigger] track_key(demanded@[j]) == k);
                    }
                }
            }
        }
        d = d + 1;
    }
    missing
}

/// The catalog position of the first adapter registered for `name`.
pub open spec fn find_adapter(catalog: Seq<CatalogAdapter>, name: Seq<char>) -> Option<int>
    decreases catalog.len(),
{
    if catalog.len() == 0 {
        None
    } else {
        match find_adapter(catalog.drop_last(), name) {
            Some(i) => Some(i),
            None => if catalog.last().resource_name@ == name {
                Some(catalog.len() - 1)
            } else {
                None
            },
        }
    }
}

pub(crate) proof fn lemma_find_adapter_bounds(catalog: Seq<CatalogAdapter>, name: Seq<char>)
    ensures
        match find_adapter(catalog, name) {
            Some(i) => 0 <= i < catalog.len() && catalog[i].resource_name@ == name,
            None => forall|j: int| 0 <= j < catalog.len() ==> catalog[j].resource_name@ != name,
        },
    decreases catalog.len(),
{
    if catalog.len() > 0 {
        let prefix = catalog.drop_last();
        lemma_find_adapter_bounds(prefix, name);
        assert forall|j: int| 0 <= j < prefix.len() implies prefix[j] == catalog[j] by {}
        if find_adapter(prefix, name) is None && catalog.last().resource_name@ != name {
            assert forall|j: int| 0 <= j < catalog.len() implies catalog[j].resource_name@ != name by {
                if j < prefix.len() {
                    assert(prefix[j] == catalog[j]);
                }
            }
        }
    }
}

/// The position of the first catalog adapter registered for `name`.
pub fn lookup_adapter(catalog: &Vec<CatalogAdapter>, name: &str) -> (found: Option<usize>)
    ensures
        match found {
            Some(i) => find_adapter(catalog@, name@) == Some(i as int),
            None => find_adapter(catalog@, name@) is None,
        },
{
    let mut i: usize = 0;
    while i < catalog.len()
        invariant
            i <= catalog.len(),
            find_adapter(catalog@.take(i as int), name@) is None,
        decreases catalog.len() - i,
    {
        proof {
            assert(catalog@.take(i + 1).drop_last() =~= catalog@.take(i as int));
        }
        if str_equal(catalog[i].resource_name.as_str(), name) {
            proof {
                lemma_find_adapter_prefix(catalog@, i + 1, name@);
            }
            return Some(i);
        }
        i = i + 1;
    }
    proof {
        assert(catalog@.take(catalog.len() as int) =~= catalog@);
    }
    None
}

proof fn lemma_find_adapter_prefix(catalog: Seq<CatalogAdapter>, n: int, name: Seq<char>)
    requires
        0 <= n <= catalog.len(),
        find_adapter(catalog.take(n), name) is Some,
    ensures
        find_adapter(catalog, name) == find_adapter(catalog.take(n), name),
    decreases catalog.len() - n,
{
    if n < catalog.len() {
        assert(catalog.take(n + 1).drop_last() =~= catalog.take(n));
        lemma_find_adapter_prefix(catalog, n + 1, name);
    } else {
        assert(catalog.take(n) =~= catalog);
    }
}

/// PHP and FrankenPHP tracks are installed as pairs.
pub open spec fn is_php_name(name: Seq<char>) -> bool {
    name == "php"@ || name == "frankenphp"@
}

/// A resource installed through a runtime adapter of the catalog.
pub open spec fn is_runtime_name(name: Seq<char>) -> bool {
    name != "caddy"@ && !is_php_name(name) && name != "composer"@
}

/// The reason given for a Composer track other than `2`.
pub open spec fn composer_track_reason(track: Seq<char>) -> Seq<char> {
    "Composer setup default expected track `2`, got `"@ + track + "`"@
}

/// A missing track that cannot be planned: Composer on a track other than `2`, or a runtime
/// resource without a catalog adapter or whose artifact adapter fails.
pub open spec fn fails_in_plan(t: DemandedResourceTrack, catalog: Seq<CatalogAdapter>) -> bool {
    ||| t.resource_name@ == "composer"@ && t.track@ != "2"@
    ||| is_runtime_name(t.resource_name@) && match find_adapter(catalog, t.resource_name@) {
        None => true,
        Some(i) => catalog[i].artifact_adapter_error is Some,
    }
}

/// A missing runtime track whose catalog adapter is available.
pub open spec fn runtime_in_plan(t: DemandedResourceTrack, catalog: Seq<CatalogAdapter>) -> bool {
    is_runtime_name(t.resource_name@) && match find_adapter(catalog, t.resource_name@) {
        None => false,
        Some(i) => catalog[i].artifact_adapter_error is None,
    }
}

/// The predicate of [`fails_in_plan`].
pub open spec fn failing(catalog: Seq<CatalogAdapter>) -> spec_fn(DemandedResourceTrack) -> bool {
    |t: DemandedResourceTrack| fails_in_plan(t, catalog)
}

/// The predicate of [`runtime_in_plan`].
pub open spec fn runtime_installable(catalog: Seq<CatalogAdapter>) -> spec_fn(DemandedResourceTrack) -> bool {
    |t: DemandedResourceTrack| runtime_in_plan(t, catalog)
}

/// The predicate "a Caddy track".
pub open spec fn caddy_track() -> spec_fn(DemandedResourceTrack) -> bool {
    |t: DemandedResourceTrack| t.resource_name@ == "caddy"@
}

/// `f` is the failure recorded for the unplannable track `t`.
pub open spec fn planned_failure(
    t: DemandedResourceTrack,
    catalog: Seq<CatalogAdapter>,
    f: DesiredResourceInstallFailure,
) -> bool {
    if t.resource_name@ == "composer"@ {
        &&& f.label@ == "composer "@ + t.track@
        &&& match f.error {
            DaemonError::UnexpectedProtocolResponse { reason } => reason@ == composer_track_reason(t.track@),
            _ => false,
        }
    } else {
        &&& f.label@ == t.resource_name@ + " "@ + t.track@
        &&& match find_adapter(catalog, t.resource_name@) {
            None => match f.error {
                DaemonError::UnsupportedManagedResourceRuntime { resource } => resource@ == t.resource_name@,
                _ => false,
            },
            Some(i) => match catalog[i].artifact_adapter_error {
                Some(text) => match f.error {
                    DaemonError::Other { message } => message@ == text@,
                    _ => false,
                },
                None => false,
            },
        }
    }
}

/// `install` is the runtime install planned for the track `t`.
pub open spec fn planned_runtime(
    t: DemandedResourceTrack,
    catalog: Seq<CatalogAdapter>,
    install: DesiredResourceInstall,
) -> bool {
    match install {
        DesiredResourceInstall::Runtime { adapter, resource_name, track } => {
            &&& resource_name@ == t.resource_name@
            &&& track@ == t.track@
            &&& match adapter {
                RuntimeAdapterSource::Catalog { index } => find_adapter(catalog, t.resource_name@) == Some(index as int),
                RuntimeAdapterSource::Caddy => false,
            }
        },
        _ => false,
    }
}

/// Whether some track among `missing` is PHP or FrankenPHP on `track`.
pub open spec fn php_track_missing(missing: Seq<DemandedResourceTrack>, track: Seq<char>) -> bool {
    exists|j: int| 0 <= j < missing.len() && is_php_name(#[trigger] missing[j].resource_name@) && missing[j].track@ == track
}

/// Whether Composer's track `2` is among `missing`.
pub open spec fn composer_missing(missing: Seq<DemandedResourceTrack>) -> bool {
    exists|j: int| 0 <= j < missing.len() && #[trigger] missing[j].resource_name@ == "composer"@ && missing[j].track@ == "2"@
}

/// The failures recorded for `missing`: one per unplannable track, in their order, each
/// numbered by its position.
pub open spec fn plan_failures_match(
    failures: Seq<DesiredResourceInstallFailure>,
    missing: Seq<DemandedResourceTrack>,
    catalog: Seq<CatalogAdapter>,
) -> bool {
    let failing_tracks = missing.filter(failing(catalog));
    &&& failures.len() == failing_tracks.len()
    &&& forall|k: int| 0 <= k < failures.len() ==> {
        &&& planned_failure(failing_tracks[k], catalog, #[trigger] failures[k])
        &&& failures[k].order == k
    }
}

/// The installs planned for `missing`: the Caddy tracks in order, then one PHP pair per
/// PHP or FrankenPHP track in ascending track order, then Composer when its track `2` is
/// missing, then the runtime tracks whose adapter is available, in order.
pub open spec fn plan_installs_match(
    installs: Seq<DesiredResourceInstall>,
    missing: Seq<DemandedResourceTrack>,
    catalog: Seq<CatalogAdapter>,
) -> bool {
    let caddy = missing.filter(caddy_track());
    let runtime = missing.filter(runtime_installable(catalog));
    let composer: int = if composer_missing(missing) { 1 } else { 0 };
    let php = installs.len() - caddy.len() - composer - runtime.len();
    &&& php >= 0
    &&& forall|k: int| 0 <= k < caddy.len() ==> caddy_install(#[trigger] installs[k], caddy[k].track@)
    &&& forall|k: int| caddy.len() <= k < caddy.len() + php ==> #[trigger] installs[k] is PhpPair
    &&& texts_ascending(php_pair_tracks(installs.subrange(caddy.len() as int, caddy.len() + php)))
    &&& forall|t: Seq<char>|
        php_pair_tracks(installs.subrange(caddy.len() as int, caddy.len() + php)).contains(t) <==> php_track_missing(missing, t)
    &&& composer == 1 ==> installs[caddy.len() + php] is Composer
    &&& forall|k: int| 0 <= k < runtime.len() ==> planned_runtime(
        runtime[k],
        catalog,
        #[trigger] installs[caddy.len() + php + composer + k],
    )
}

/// `install` installs the Caddy track `track` with the gateway's adapter.
pub open spec fn caddy_install(install: DesiredResourceInstall, track: Seq<char>) -> bool {
    match install {
        DesiredResourceInstall::Runtime { adapter, resource_name, track: t } => {
            &&& adapter is Caddy
            &&& resource_name@ == "caddy"@
            &&& t@ == track
        },
        _ => false,
    }
}

/// The tracks of a run of PHP pair installs.
pub open spec fn php_pair_tracks(installs: Seq<DesiredResourceInstall>) -> Seq<Seq<char>> {
    installs.map_values(|i: DesiredResourceInstall| match i {
        DesiredResourceInstall::PhpPair { track } => track@,
        _ => Seq::empty(),
    })
}

/// The tracks of a list of tracks.
pub open spec fn track_texts(s: Seq<DemandedResourceTrack>) -> Seq<Seq<char>> {
    s.map_values(|t: DemandedResourceTrack| t.track@)
}

proof fn lemma_resource_names_differ()
    ensures
        "caddy"@ != "php"@,
        "caddy"@ != "frankenphp"@,
        "caddy"@ != "composer"@,
        "php"@ != "composer"@,
        "frankenphp"@ != "composer"@,
{
    reveal_strlit("caddy");
    reveal_strlit("php");
    reveal_strlit("frankenphp");
    reveal_strlit("composer");
    assert("caddy"@[0] != "php"@[0]);
    assert("caddy"@[0] != "frankenphp"@[0]);
    assert("caddy"@[1] != "composer"@[1]);
    assert("php"@[0] != "composer"@[0]);
    assert("frankenphp"@[0] != "composer"@[0]);
}

pub(crate) proof fn lemma_filter_step<A>(s: Seq<A>, i: int, p: spec_fn(A) -> bool)
    requires
        0 <= i < s.len(),
    ensures
        s.take(i + 1).filter(p) == if p(s[i]) {
            s.take(i).filter(p).push(s[i])
        } else {
            s.take(i).filter(p)
        },
{
    reveal(Seq::filter);
    assert(s.take(i + 1).drop_last() =~= s.take(i));
    assert(s.take(i + 1).last() == s[i]);
}

proof fn lemma_php_step(m: Seq<DemandedResourceTrack>, i: int, t: Seq<char>)
    requires
        0 <= i < m.len(),
    ensures
        php_track_missing(m.take(i + 1), t) == (php_track_missing(m.take(i), t) || (is_php_name(
            m[i].resource_name@,
        ) && m[i].track@ == t)),
{
    let next = m.take(i + 1);
    let prev = m.take(i);
    if php_track_missing(next, t) {
        let j = choose|j: int| 0 <= j < next.len() && is_php_name(#[trigger] next[j].resource_name@) && next[j].track@ == t;
        if j < i {
            assert(prev[j] == next[j]);
            assert(is_php_name(prev[j].resource_name@));
        }
    }
    if php_track_missing(prev, t) {
        let j = choose|j: int| 0 <= j < prev.len() && is_php_name(#[trigger] prev[j].resource_name@) && prev[j].track@ == t;
        assert(next[j] == prev[j]);
        assert(is_php_name(next[j].resource_name@));
    }
    if is_php_name(m[i].resource_name@) && m[i].track@ == t {
        assert(next[i] == m[i]);
        assert(is_php_name(next[i].resource_name@));
    }
}

proof fn lemma_composer_step(m: Seq<DemandedResourceTrack>, i: int)
    requires
        0 <= i < m.len(),
    ensures
        composer_missing(m.take(i + 1)) == (composer_missing(m.take(i)) || (m[i].resource_name@
            == "composer"@ && m[i].track@ == "2"@)),
{
    let next = m.take(i + 1);
    let prev = m.take(i);
    if composer_missing(next) {
        let j = choose|j: int| 0 <= j < next.len() && #[trigger] next[j].resource_name@ == "composer"@ && next[j].track@ == "2"@;
        if j < i {
            assert(prev[j] == next[j]);
            assert(prev[j].resource_name@ == "composer"@ && prev[j].track@ == "2"@);
            assert(composer_missing(prev));
        } else {
            assert(next[j] == m[i]);
        }
    }
    if composer_missing(prev) {
        let j = choose|j: int| 0 <= j < prev.len() && #[trigger] prev[j].resource_name@ == "composer"@ && prev[j].track@ == "2"@;
        assert(next[j] == prev[j]);
        assert(next[j].resource_name@ == "composer"@ && next[j].track@ == "2"@);
        assert(composer_missing(next));
    }
    if m[i].resource_name@ == "composer"@ && m[i].track@ == "2"@ {
        assert(next[i] == m[i]);
        assert(next[i].resource_name@ == "composer"@ && next[i].track@ == "2"@);
        assert(composer_missing(next));
    }
}

/// Plans the default installs for the missing tracks `missing`, walked in their order.
/// `caddy_adapter` is what building the gateway's artifact adapter gave; it is needed, and
/// its failure fails the plan, only when a Caddy track is missing.
pub fn desired_resource_install_plan(
    missing: &Vec<DemandedResourceTrack>,
    catalog: &Vec<CatalogAdapter>,
    caddy_adapter: Result<(), DaemonError>,
) -> (plan: Result<DesiredResourceInstallPlan, DaemonError>)
    ensures
        match plan {
            Ok(plan) => {
                &&& !(missing@.filter(caddy_track()).len() > 0 && caddy_adapter is Err)
                &&& plan_installs_match(plan.installs@, missing@, catalog@)
                &&& plan_failures_match(plan.failures@, missing@, catalog@)
            },
            Err(e) => missing@.filter(caddy_track()).len() > 0 && caddy_adapter == Err::<
                (),
                DaemonError,
            >(e),
        },
{
    let ghost m = missing@;
    let ghost cat = catalog@;
    let mut caddy_tracks: Vec<String> = Vec::new();
    let mut php_tracks: Vec<String> = Vec::new();
    let mut composer = false;
    let mut runtime: Vec<DesiredResourceInstall> = Vec::new();
    let mut failures: Vec<DesiredResourceInstallFailure> = Vec::new();
    let mut i: usize = 0;
    proof {
        assert(m.take(0) =~= Seq::<DemandedResourceTrack>::empty());
        reveal(Seq::filter);
        assert(string_views(caddy_tracks@) =~= track_texts(m.take(0).filter(caddy_track())));
    }
    while i < missing.len()
        invariant
            i <= missing.len(),
            m == missing@,
            cat == catalog@,
            string_views(caddy_tracks@) == track_texts(m.take(i as int).filter(caddy_track())),
            texts_ascending(string_views(php_tracks@)),
            forall|t: Seq<char>|
                string_views(php_tracks@).contains(t) <==> php_track_missing(m.take(i as int), t),
            composer == composer_missing(m.take(i as int)),
            runtime@.len() == m.take(i as int).filter(runtime_installable(cat)).len(),
            forall|k: int|
                0 <= k < runtime@.len() ==> planned_runtime(
                    m.take(i as int).filter(runtime_installable(cat))[k],
                    cat,
                    #[trigger] runtime@[k],
                ),
            plan_failures_match(failures@, m.take(i as int), cat),
        decreases missing.len() - i,
    {
        let t = &missing[i];
        let name = t.resource_name.as_str();
        let track = t.track.as_str();
        let ghost old_caddy = caddy_tracks@;
        let ghost old_php = string_views(php_tracks@);
        let ghost old_runtime = runtime@;
        let ghost old_failures = failures@;
        proof {
            lemma_resource_names_differ();
            assert(*t == m[i as int]);
            lemma_filter_step(m, i as int, caddy_track());
            lemma_filter_step(m, i as int, runtime_installable(cat));
            lemma_filter_step(m, i as int, failing(cat));
            lemma_composer_step(m, i as int);
            lemma_find_adapter_bounds(cat, name@);
        }
        if str_equal(name, "caddy") {
            caddy_tracks.push(t.track.clone());
            proof {
                assert(caddy_track()(m[i as int]));
                let f = m.take(i as int).filter(caddy_track());
                assert(string_views(caddy_tracks@) =~= string_views(old_caddy).push(t.track@));
                assert(track_texts(f.push(m[i as int])) =~= track_texts(f).push(m[i as int].track@));
                assert(string_views(caddy_tracks@) =~= track_texts(m.take(i + 1).filter(caddy_track())));
                assert(string_views(php_tracks@) == old_php);
            }
        } else if str_equal(name, "php") || str_equal(name, "frankenphp") {
            insert_text(&mut php_tracks, t.track.clone());
            proof {
                assert(string_views(caddy_tracks@) =~= string_views(old_caddy));
                assert(!caddy_track()(m[i as int]));
            }
        } else if str_equal(name, "composer") {
            if str_equal(track, "2") {
                composer = true;
            } else {
                let reason = concat3("Composer setup default expected track `2`, got `", track, "`");
                let label = concat2("composer ", track);
                let failure = DesiredResourceInstallFailure::new(
                    failures.len(),
                    label,
                    DaemonError::UnexpectedProtocolResponse { reason },
                );
                failures.push(failure);
            }
            proof {
                assert(string_views(caddy_tracks@) =~= string_views(old_caddy));
                assert(!caddy_track()(m[i as int]));
                assert(string_views(php_tracks@) == old_php);
            }
        } else {
            let label = concat3(name, " ", track);
            match lookup_adapter(catalog, name) {
                None => {
                    let failure = DesiredResourceInstallFailure::new(
                        failures.len(),
                        label,
                        DaemonError::UnsupportedManagedResourceRuntime { resource: t.resource_name.clone() },
                    );
                    failures.push(failure);
                },
                Some(index) => match &catalog[index].artifact_adapter_error {
                    Some(text) => {
                        let failure = DesiredResourceInstallFailure::new(
                            failures.len(),
                            label,
                            DaemonError::Other { message: text.clone() },
                        );
                        failures.push(failure);
                    },
                    None => {
                        runtime.push(
                            DesiredResourceInstall::Runtime {
                                adapter: RuntimeAdapterSource::Catalog { index },
                                resource_name: t.resource_name.clone(),
                                track: t.track.clone(),
                            },
                        );
                    },
                },
            }
            proof {
                assert(string_views(caddy_tracks@) =~= string_views(old_caddy));
                assert(!caddy_track()(m[i as int]));
                assert(string_views(php_tracks@) == old_php);
            }
        }
        proof {
            assert forall|x: Seq<char>|
                string_views(php_tracks@).contains(x) <==> php_track_missing(m.take(i + 1), x) by {
                lemma_php_step(m, i as int, x);
            }
            let failing_next = m.take(i + 1).filter(failing(cat));
            assert forall|k: int| 0 <= k < failures@.len() implies {
                &&& planned_failure(failing_next[k], cat, #[trigger] failures@[k])
                &&& failures@[k].order == k
            } by {
                if k < old_failures.len() {
                    assert(failures@[k] == old_failures[k]);
                }
            }
            assert forall|k: int| 0 <= k < runtime@.len() implies planned_runtime(
                m.take(i + 1).filter(runtime_installable(cat))[k],
                cat,
                #[trigger] runtime@[k],
            ) by {
                if k < old_runtime.len() {
                    assert(runtime@[k] == old_runtime[k]);
                }
            }
        }
        i = i + 1;
    }
    proof {
        assert(m.take(m.len() as int) =~= m);
    }
    let mut installs: Vec<DesiredResourceInstall> = Vec::new();
    if caddy_tracks.len() > 0 {
        match caddy_adapter {
            Err(e) => {
                return Err(e);
            },
            Ok(()) => {},
        }
        let mut j: usize = 0;
        while j < caddy_tracks.len()
            invariant
                j <= caddy_tracks.len(),
                installs@.len() == j,
                forall|k: int| 0 <= k < j ==> caddy_install(#[trigger] installs@[k], caddy_tracks@[k]@),
            decreases caddy_tracks.len() - j,
        {
            installs.push(
                DesiredResourceInstall::Runtime {
                    adapter: RuntimeAdapterSource::Caddy,
                    resource_name: String::from_str("caddy"),
                    track: caddy_tracks[j].clone(),
                },
            );
            j = j + 1;
        }
    }
    let ghost caddy_count = installs@.len();
    let ghost caddy_part = installs@;
    let mut j: usize = 0;
    while j < php_tracks.len()
        invariant
            j <= php_tracks.len(),
            installs@.len() == caddy_count + j,
            installs@.subrange(0, caddy_count as int) == caddy_part,
            forall|k: int| caddy_count <= k < caddy_count + j ==> #[trigger] installs@[k] is PhpPair,
            php_pair_tracks(installs@.subrange(caddy_count as int, caddy_count + j)) == string_views(php_tracks@).take(j as int),
        decreases php_tracks.len() - j,
    {
        installs.push(DesiredResourceInstall::PhpPair { track: php_tracks[j].clone() });
        proof {
            assert(installs@.subrange(0, caddy_count as int) =~= caddy_part);
            assert(php_pair_tracks(installs@.subrange(caddy_count as int, caddy_count + j + 1)) =~= string_views(php_tracks@).take(j + 1));
        }
        j = j + 1;
    }
    proof {
        assert(string_views(php_tracks@).take(php_tracks.len() as int) =~= string_views(php_tracks@));
    }
    let ghost php_part = installs@;
    if composer {
        installs.push(DesiredResourceInstall::Composer);
    }
    let ghost before_runtime = installs@;
    installs.append(&mut runtime);
    proof {
        let caddy = m.filter(caddy_track());
        assert(caddy_count == caddy.len());
        assert forall|k: int| 0 <= k < caddy.len() implies caddy_install(#[trigger] installs@[k], caddy[k].track@) by {
            assert(installs@[k] == before_runtime[k]);
            assert(before_runtime[k] == php_part[k]);
            assert(php_part.subrange(0, caddy_count as int)[k] == php_part[k]);
            assert(caddy_part[k] == installs@[k]);
            assert(string_views(caddy_tracks@)[k] == track_texts(caddy)[k]);
            assert(caddy_install(caddy_part[k], caddy_tracks@[k]@));
        }
        assert(installs@.subrange(caddy_count as int, caddy_count + php_tracks.len()) =~= php_part.subrange(
            caddy_count as int,
            caddy_count + php_tracks.len(),
        ));
    }
    Ok(DesiredResourceInstallPlan { installs, failures })
}

/// The result of planning for the missing tracks `missing`: the gateway adapter's failure
/// when a Caddy track is missing and it failed, otherwise the plan.
pub open spec fn plan_result_match(
    plan: Result<DesiredResourceInstallPlan, DaemonError>,
    missing: Seq<DemandedResourceTrack>,
    catalog: Seq<CatalogAdapter>,
    caddy_adapter: Result<(), DaemonError>,
) -> bool {
    match plan {
        Ok(plan) => {
            &&& !(missing.filter(caddy_track()).len() > 0 && caddy_adapter is Err)
            &&& plan_installs_match(plan.installs@, missing, catalog)
            &&& plan_failures_match(plan.failures@, missing, catalog)
        },
        Err(e) => missing.filter(caddy_track()).len() > 0 && caddy_adapter == Err::<(), DaemonError>(e),
    }
}

/// `missing` lists, in ascending order, exactly the tracks that should be installed.
pub open spec fn lists_missing_tracks(
    missing: Seq<DemandedResourceTrack>,
    records: Seq<ResourceTrackRecord>,
    demanded: Seq<DemandedResourceTrack>,
) -> bool {
    &&& tracks_ascending(missing)
    &&& forall|k: (Seq<char>, Seq<char>)| track_keys(missing).contains(k) <==> is_missing_track(records, demanded, k)
}

/// Plans the default installs of a System reconciliation: the tracks recorded as wanted
/// without an artifact and the demanded tracks not recorded as installed, walked in
/// ascending order.
pub fn missing_desired_resource_installs_with_demands(
    records: &Vec<ResourceTrackRecord>,
    demanded: &Vec<DemandedResourceTrack>,
    catalog: &Vec<CatalogAdapter>,
    caddy_adapter: Result<(), DaemonError>,
) -> (plan: Result<DesiredResourceInstallPlan, DaemonError>)
    ensures
        exists|missing: Seq<DemandedResourceTrack>|
            lists_missing_tracks(missing, records@, demanded@) && plan_result_match(plan, missing, catalog@, caddy_adapter),
{
    let missing = missing_resource_tracks(records, demanded);
    let plan = desired_resource_install_plan(&missing, catalog, caddy_adapter);
    proof {
        assert(lists_missing_tracks(missing@, records@, demanded@));
        assert(plan_result_match(plan, missing@, catalog@, caddy_adapter));
    }
    plan
}

/// The ascending list of a set of tracks is unique: two ascending lists that hold the same
/// tracks hold them in the same order.
pub proof fn lemma_ascending_tracks_unique(a: Seq<DemandedResourceTrack>, b: Seq<DemandedResourceTrack>)
    requires
        tracks_ascending(a),
        tracks_ascending(b),
        forall|k: (Seq<char>, Seq<char>)| track_keys(a).contains(k) <==> track_keys(b).contains(k),
    ensures
        track_keys(a) == track_keys(b),
    decreases a.len() + b.len(),
{
    let ka = track_keys(a);
    let kb = track_keys(b);
    if a.len() == 0 || b.len() == 0 {
        if a.len() > 0 {
            assert(ka.contains(ka[0]));
        }
        if b.len() > 0 {
            assert(kb.contains(kb[0]));
        }
        assert(ka =~= kb);
    } else {
        assert(ka.contains(ka[0]));
        assert(kb.contains(kb[0]));
        let j = choose|j: int| 0 <= j < kb.len() && kb[j] == ka[0];
        let i = choose|i: int| 0 <= i < ka.len() && ka[i] == kb[0];
        if j > 0 && i > 0 {
            assert(key_lt(track_key(b[0]), track_key(b[j])));
            assert(key_lt(track_key(a[0]), track_key(a[i])));
            lemma_key_lt_asymmetric(ka[0], kb[0]);
        } else if j > 0 {
            assert(key_lt(track_key(b[0]), track_key(b[j])));
            lemma_key_lt_irreflexive(ka[0]);
        } else if i > 0 {
            assert(key_lt(track_key(a[0]), track_key(a[i])));
            lemma_key_lt_irreflexive(kb[0]);
        }
        assert(ka[0] == kb[0]);
        let ra = a.drop_first();
        let rb = b.drop_first();
        assert(track_keys(ra) =~= ka.drop_first());
        assert(track_keys(rb) =~= kb.drop_first());
        assert forall|k: (Seq<char>, Seq<char>)| track_keys(ra).contains(k) <==> track_keys(rb).contains(k) by {
            if track_keys(ra).contains(k) {
                let p = choose|p: int| 0 <= p < track_keys(ra).len() && #[trigger] track_keys(ra)[p] == k;
                assert(track_keys(ra)[p] == ka[p + 1]);
                assert(key_lt(track_key(a[0]), track_key(a[p + 1])));
                lemma_key_lt_irreflexive(k);
                assert(ka.contains(k));
                let q = choose|q: int| 0 <= q < kb.len() && kb[q] == k;
                assert(q != 0);
                assert(kb.drop_first()[q - 1] == k);
            }
            if track_keys(rb).contains(k) {
                let p = choose|p: int| 0 <= p < track_keys(rb).len() && #[trigger] track_keys(rb)[p] == k;
                assert(track_keys(rb)[p] == kb[p + 1]);
                assert(key_lt(track_key(b[0]), track_key(b[p + 1])));
                lemma_key_lt_irreflexive(k);
                assert(kb.contains(k));
                let q = choose|q: int| 0 <= q < ka.len() && ka[q] == k;
                assert(q != 0);
                assert(ka.drop_first()[q - 1] == k);
            }
        }
        assert forall|x: int, y: int| 0 <= x < y < ra.len() implies key_lt(track_key(#[trigger] ra[x]), track_key(#[trigger] ra[y])) by {
            assert(ra[x] == a[x + 1] && ra[y] == a[y + 1]);
        }
        assert forall|x: int, y: int| 0 <= x < y < rb.len() implies key_lt(track_key(#[trigger] rb[x]), track_key(#[trigger] rb[y])) by {
            assert(rb[x] == b[x + 1] && rb[y] == b[y + 1]);
        }
        lemma_ascending_tracks_unique(ra, rb);
        assert(ka =~= seq![ka[0]] + ka.drop_first());
        assert(kb =~= seq![kb[0]] + kb.drop_first());
    }
}

impl DesiredResourceInstall {
    /// How failures of this install are labelled.
    pub fn label(&self) -> (label: String)
        ensures
            label@ == install_label(*self),
    {
        match self {
            DesiredResourceInstall::PhpPair { track } => concat2("php/frankenphp ", track.as_str()),
            DesiredResourceInstall::Composer => String::from_str("composer 2"),
            DesiredResourceInstall::Runtime { resource_name, track, .. } => concat3(
                resource_name.as_str(),
                " ",
                track.as_str(),
            ),
        }
    }
}

/// The label of an install: `php/frankenphp <track>`, `composer 2`, or `<resource> <track>`.
pub open spec fn install_label(install: DesiredResourceInstall) -> Seq<char> {
    match install {
        DesiredResourceInstall::PhpPair { track } => "php/frankenphp "@ + track@,
        DesiredResourceInstall::Composer => "composer 2"@,
        DesiredResourceInstall::Runtime { resource_name, track, .. } => resource_name@ + " "@ + track@,
    }
}

/// What became of one planned install once the artifact manifest was had.
pub enum InstallAttempt {
    /// Its artifacts could not be resolved against the manifest.
    ResolveFailed { error: DaemonError },
    /// Some of its prefetched downloads failed, each with the label it is reported under.
    DownloadsFailed { failures: Vec<(String, DaemonError)> },
    /// Installing it failed.
    InstallFailed { error: DaemonError },
    /// It was installed.
    Installed,
}

/// A failure by its position, label text and error.
pub open spec fn failure_view(f: DesiredResourceInstallFailure) -> (usize, Seq<char>, DaemonError) {
    (f.order, f.label@, f.error)
}

/// The views of a list of failures.
pub open spec fn failure_views(failures: Seq<DesiredResourceInstallFailure>) -> Seq<(usize, Seq<char>, DaemonError)> {
    failures.map_values(|f: DesiredResourceInstallFailure| failure_view(f))
}

/// The failures of the first `n` installs whose artifacts could not be resolved, the install
/// at index `i` numbered `first + i`.
pub open spec fn resolve_failure_views(
    first: usize,
    installs: Seq<DesiredResourceInstall>,
    attempts: Seq<InstallAttempt>,
    n: nat,
) -> Seq<(usize, Seq<char>, DaemonError)>
    decreases n,
{
    if n == 0 {
        Seq::empty()
    } else {
        let prev = resolve_failure_views(first, installs, attempts, (n - 1) as nat);
        match attempts[n - 1] {
            InstallAttempt::ResolveFailed { error } => prev.push(
                ((first + n - 1) as usize, install_label(installs[n - 1]), error),
            ),
            _ => prev,
        }
    }
}

/// The download and install failures of the first `n` installs, the install at index `i`
/// numbered `first + i`.
pub open spec fn later_failure_views(
    first: usize,
    installs: Seq<DesiredResourceInstall>,
    attempts: Seq<InstallAttempt>,
    n: nat,
) -> Seq<(usize, Seq<char>, DaemonError)>
    decreases n,
{
    if n == 0 {
        Seq::empty()
    } else {
        let prev = later_failure_views(first, installs, attempts, (n - 1) as nat);
        let order = (first + n - 1) as usize;
        match attempts[n - 1] {
            InstallAttempt::DownloadsFailed { failures } => prev + failures@.map_values(
                |f: (String, DaemonError)| (order, f.0@, f.1),
            ),
            InstallAttempt::InstallFailed { error } => prev.push((order, install_label(installs[n - 1]), error)),
            _ => prev,
        }
    }
}

/// `r` is what the default installs of `plan` report, given what fetching the artifact
/// manifest gave and, once it was had, what became of each planned install in turn.
pub open spec fn desired_outcome(
    plan: DesiredResourceInstallPlan,
    manifest: Result<(), DaemonError>,
    attempts: Seq<InstallAttempt>,
    r: Result<(), DaemonError>,
) -> bool {
    &&& (plan.installs@.len() == 0 ==> install_failures_reported(r, plan.failures@))
    &&& (plan.installs@.len() > 0 && plan.failures@.len() == 0 && manifest is Err ==> r == manifest)
    &&& (plan.installs@.len() > 0 && plan.failures@.len() > 0 ==> match manifest {
            Err(e) => exists|f: DesiredResourceInstallFailure|
                failure_view(f) == (plan.failures@.len() as usize, "artifact manifest"@, e)
                    && #[trigger] install_failures_reported(r, plan.failures@.push(f)),
            Ok(_) => true,
        })
    &&& (plan.installs@.len() > 0 && manifest is Ok ==> exists|all: Seq<DesiredResourceInstallFailure>|
            failure_views(all) == failure_views(plan.failures@) + resolve_failure_views(
                plan.failures@.len() as usize,
                plan.installs@,
                attempts,
                plan.installs@.len(),
            ) + later_failure_views(
                plan.failures@.len() as usize,
                plan.installs@,
                attempts,
                plan.installs@.len(),
            ) && #[trigger] install_failures_reported(r, all))
}

/// What the default installs of `plan` report, given what fetching the artifact manifest
/// gave and, once it was had, what became of each planned install in turn.
///
/// With nothing to install, the plan's failures are reported. A manifest failure is the
/// result when nothing else failed, and otherwise joins the plan's failures as the
/// `artifact manifest` failure. Once the manifest was had, the failures are recorded in the
/// order the work meets them: the plan's, then each install whose artifacts could not be
/// resolved, then each download failure and install failure, every install's failures
/// numbered by its position after the plan's failures; then they are reported.
pub fn desired_installs_outcome(
    plan: DesiredResourceInstallPlan,
    manifest: Result<(), DaemonError>,
    attempts: Vec<InstallAttempt>,
) -> (r: Result<(), DaemonError>)
    requires
        plan.failures@.len() + plan.installs@.len() <= usize::MAX,
        manifest is Ok && plan.installs@.len() > 0 ==> attempts@.len() == plan.installs@.len(),
    ensures
        desired_outcome(plan, manifest, attempts@, r),
{
    let DesiredResourceInstallPlan { installs, failures } = plan;
    let mut failures = failures;
    if installs.len() == 0 {
        return finish_desired_resource_install_failures(failures);
    }
    match manifest {
        Err(error) => {
            if failures.len() == 0 {
                return Err(error);
            }
            let failure = DesiredResourceInstallFailure::new(
                failures.len(),
                String::from_str("artifact manifest"),
                error,
            );
            let ghost f = failure;
            failures.push(failure);
            let r = finish_desired_resource_install_failures(failures);
            proof {
                assert(install_failures_reported(r, plan.failures@.push(f)));
            }
            return r;
        },
        Ok(()) => {},
    }
    let first = failures.len();
    let n = installs.len();
    let ghost all_attempts = attempts@;
    let mut rest = attempts;
    let mut resolve_failures: Vec<DesiredResourceInstallFailure> = Vec::new();
    let mut later_failures: Vec<DesiredResourceInstallFailure> = Vec::new();
    let mut idx: usize = 0;
    while idx < n
        invariant
            n == installs@.len(),
            n == all_attempts.len(),
            first + n <= usize::MAX,
            idx <= n,
            rest@ == all_attempts.subrange(idx as int, n as int),
            failure_views(resolve_failures@) == resolve_failure_views(first, installs@, all_attempts, idx as nat),
            failure_views(later_failures@) == later_failure_views(first, installs@, all_attempts, idx as nat),
        decreases n - idx,
    {
        let attempt = rest.remove(0);
        let order = first + idx;
        let ghost resolve_before = resolve_failures@;
        let ghost later_before = later_failures@;
        proof {
            assert(attempt == all_attempts[idx as int]);
        }
        match attempt {
            InstallAttempt::ResolveFailed { error } => {
                let label = installs[idx].label();
                resolve_failures.push(DesiredResourceInstallFailure::new(order, label, error));
                proof {
                    assert(failure_views(resolve_failures@) =~= failure_views(resolve_before).push(
                        (order, install_label(installs@[idx as int]), error),
                    ));
                }
            },
            InstallAttempt::DownloadsFailed { failures: download_failures } => {
                let ghost downloads = download_failures@;
                proof {
                    assert(downloads.len() == download_failures.len());
                }
                let mut remaining = download_failures;
                let mut taken: usize = 0;
                while remaining.len() > 0
                    invariant
                        taken <= downloads.len(),
                        downloads.len() <= usize::MAX,
                        remaining@ == downloads.subrange(taken as int, downloads.len() as int),
                        failure_views(later_failures@) == failure_views(later_before) + downloads.take(
                            taken as int,
                        ).map_values(|f: (String, DaemonError)| (order, f.0@, f.1)),
                    decreases remaining.len(),
                {
                    let (label, error) = remaining.remove(0);
                    let ghost current = later_failures@;
                    proof {
                        assert((label, error) == downloads[taken as int]);
                    }
                    later_failures.push(DesiredResourceInstallFailure::new(order, label, error));
                    proof {
                        assert(downloads.take(taken + 1) =~= downloads.take(taken as int).push(downloads[taken as int]));
                        assert(failure_views(later_failures@) =~= failure_views(current).push((order, label@, error)));
                        assert(downloads.take(taken + 1).map_values(|f: (String, DaemonError)| (order, f.0@, f.1))
                            =~= downloads.take(taken as int).map_values(|f: (String, DaemonError)| (order, f.0@, f.1)).push(
                            (order, label@, error),
                        ));
                    }
                    taken = taken + 1;
                }
                proof {
                    assert(downloads.take(taken as int) =~= downloads);
                }
            },
            InstallAttempt::InstallFailed { error } => {
                let label = installs[idx].label();
                later_failures.push(DesiredResourceInstallFailure::new(order, label, error));
                proof {
                    assert(failure_views(later_failures@) =~= failure_views(later_before).push(
                        (order, install_label(installs@[idx as int]), error),
                    ));
                }
            },
            InstallAttempt::Installed => {},
        }
        proof {
            assert(rest@ =~= all_attempts.subrange(idx + 1, n as int));
        }
        idx = idx + 1;
    }
    let ghost plan_part = failures@;
    let ghost resolve_part = resolve_failures@;
    let ghost later_part = later_failures@;
    failures.append(&mut resolve_failures);
    failures.append(&mut later_failures);
    proof {
        assert(failures@ == plan_part + resolve_part + later_part);
        assert(failure_views(failures@) =~= failure_views(plan_part) + failure_views(resolve_part) + failure_views(later_part));
    }
    let all = failures;
    let ghost all_view = all@;
    let r = finish_desired_resource_install_failures(all);
    proof {
        assert(install_failures_reported(r, all_view));
    }
    r
}

/// Where the default installs of a plan stand.
pub enum DesiredInstallState {
    Start { plan: DesiredResourceInstallPlan },
    /// Waiting for the artifact manifest.
    FetchingManifest { plan: DesiredResourceInstallPlan },
    /// Waiting for what became of each planned install.
    Installing { plan: DesiredResourceInstallPlan },
    Finished,
}

/// What the last piece of work gave.
pub enum DesiredInstallEvent {
    Began,
    ManifestFetched { result: Result<(), DaemonError> },
    /// What became of each planned install, in the plan's order.
    Attempted { attempts: Vec<InstallAttempt> },
}

/// What to do next.
pub enum DesiredInstallAction {
    FetchManifest,
    /// Resolve, prefetch and install each planned install against the manifest.
    InstallEach,
    /// The default installs are over with this result.
    Finish(Result<(), DaemonError>),
}

/// Whether `event` answers the work `state` waits for.
pub open spec fn desired_event_fits(state: DesiredInstallState, event: DesiredInstallEvent) -> bool {
    match state {
        DesiredInstallState::Start { plan } => event is Began && plan.failures@.len()
            + plan.installs@.len() <= usize::MAX,
        DesiredInstallState::FetchingManifest { plan } => event is ManifestFetched
            && plan.failures@.len() + plan.installs@.len() <= usize::MAX,
        DesiredInstallState::Installing { plan } => event matches DesiredInstallEvent::Attempted {
            attempts,
        } && attempts@.len() == plan.installs@.len() && plan.failures@.len() + plan.installs@.len()
            <= usize::MAX,
        DesiredInstallState::Finished => false,
    }
}

/// The steps of the default installs.
pub open spec fn desired_transition(
    state: DesiredInstallState,
    event: DesiredInstallEvent,
    next: DesiredInstallState,
    action: DesiredInstallAction,
) -> bool {
    match (state, event) {
        (DesiredInstallState::Start { plan }, DesiredInstallEvent::Began) => if plan.installs@.len() == 0 {
            next is Finished && (action matches DesiredInstallAction::Finish(r) && install_failures_reported(
                r,
                plan.failures@,
            ))
        } else {
            next == (DesiredInstallState::FetchingManifest { plan }) && action is FetchManifest
        },
        (DesiredInstallState::FetchingManifest { plan }, DesiredInstallEvent::ManifestFetched { result }) =>
            match result {
            Err(e) => next is Finished && (action matches DesiredInstallAction::Finish(r) && desired_outcome(
                plan,
                Err(e),
                Seq::empty(),
                r,
            )),
            Ok(()) => next == (DesiredInstallState::Installing { plan }) && action is InstallEach,
        },
        (DesiredInstallState::Installing { plan }, DesiredInstallEvent::Attempted { attempts }) => next is Finished
            && (action matches DesiredInstallAction::Finish(r) && desired_outcome(plan, Ok(()), attempts@, r)),
        _ => false,
    }
}

/// The next step of the default installs, after `event`. The manifest is fetched only when
/// something is to be installed, and nothing is installed once it could not be had.
pub fn desired_install_step(state: DesiredInstallState, event: DesiredInstallEvent) -> (step: (
    DesiredInstallState,
    DesiredInstallAction,
))
    requires
        desired_event_fits(state, event),
    ensures
        desired_transition(state, event, step.0, step.1),
{
    match (state, event) {
        (DesiredInstallState::Start { plan }, DesiredInstallEvent::Began) => {
            if plan.installs.len() == 0 {
                let r = finish_desired_resource_install_failures(plan.failures);
                (DesiredInstallState::Finished, DesiredInstallAction::Finish(r))
            } else {
                (DesiredInstallState::FetchingManifest { plan }, DesiredInstallAction::FetchManifest)
            }
        },
        (DesiredInstallState::FetchingManifest { plan }, DesiredInstallEvent::ManifestFetched { result }) => {
            match result {
                Err(e) => {
                    let r = desired_installs_outcome(plan, Err(e), Vec::new());
                    (DesiredInstallState::Finished, DesiredInstallAction::Finish(r))
                },
                Ok(()) => (DesiredInstallState::Installing { plan }, DesiredInstallAction::InstallEach),
            }
        },
        (DesiredInstallState::Installing { plan }, DesiredInstallEvent::Attempted { attempts }) => {
            let r = desired_installs_outcome(plan, Ok(()), attempts);
            (DesiredInstallState::Finished, DesiredInstallAction::Finish(r))
        },
        _ => {
            proof {
                assert(false);
            }
            (DesiredInstallState::Finished, DesiredInstallAction::FetchManifest)
        },
    }
}

/// The artifact manifest is fetched only when something is to be installed, and once it
/// could not be had nothing is installed: the default installs end at once.
pub proof fn lemma_no_install_without_manifest(
    state: DesiredInstallState,
    event: DesiredInstallEvent,
    next: DesiredInstallState,
    action: DesiredInstallAction,
)
    requires
        desired_event_fits(state, event),
        desired_transition(state, event, next, action),
    ensures
        action is FetchManifest ==> (state matches DesiredInstallState::Start { plan } && plan.installs@.len() > 0),
        (event matches DesiredInstallEvent::ManifestFetched { result } && result is Err) ==> (action is Finish
            && next is Finished),
        action is InstallEach ==> (event matches DesiredInstallEvent::ManifestFetched { result } && result is Ok),
{
}

} // verus!
