//! What the daemon makes of the artifact tooling's progress reports: download progress for
//! the foreground client, timed records of manifest, download and install operations, and
//! the failures of default installs kept by label.
use vstd::prelude::*;
use vstd::string::*;

use crate::phases::PhaseOutcome;
use crate::stream::ReconciliationPhase;
use crate::text::{concat2, str_equal};

verus! {

/// What the daemon reads of a manifest artifact.
pub struct ArtifactInfo {
    pub resource_name: String,
    pub track: String,
    pub artifact_version: String,
    pub size: u64,
}

/// An operation of the artifact tooling.
pub enum ResourceOperation {
    Manifest,
    Download(ArtifactInfo),
    Install(ArtifactInfo),
}

/// How an operation of the artifact tooling ended.
pub enum ResourceOperationOutcome {
    Succeeded,
    Failed,
    Skipped,
    /// The latest manifest could not be had and a cached one was used.
    Fallback { reason: String },
}

/// A download progress report of the artifact tooling.
pub enum DownloadProgressEvent {
    Started { artifact: ArtifactInfo },
    Advanced { artifact: ArtifactInfo, downloaded_bytes: u64 },
    Finished { artifact: ArtifactInfo, downloaded_bytes: u64 },
}

/// The download progress sent to a foreground client.
pub struct DownloadProgress {
    pub resource: String,
    pub track: String,
    pub artifact_version: String,
    pub downloaded_bytes: u64,
    pub total_bytes: u64,
}

/// The timed record of one finished operation.
pub struct OperationCompletion {
    pub phase: ReconciliationPhase,
    pub subject: String,
    pub outcome: PhaseOutcome,
    pub counts: Vec<(String, u64)>,
    pub fields: Vec<(String, String)>,
}

/// What a finished operation leaves in the phase log.
pub enum OperationRecord {
    /// Nothing: there is no phase log.
    Nothing,
    /// A cached-manifest fallback noted as a plain diagnostic.
    ManifestFallback { reason: String },
    /// A timed record of the operation.
    Completed(OperationCompletion),
}

/// The phase an operation is timed under.
pub open spec fn operation_phase(operation: ResourceOperation) -> ReconciliationPhase {
    match operation {
        ResourceOperation::Manifest => ReconciliationPhase::Manifest,
        ResourceOperation::Download(_) => ReconciliationPhase::Download,
        ResourceOperation::Install(_) => ReconciliationPhase::Install,
    }
}

/// The phase an operation is timed under: manifest, download or install.
pub fn resource_operation_phase(operation: &ResourceOperation) -> (phase: ReconciliationPhase)
    ensures
        phase == operation_phase(*operation),
{
    match operation {
        ResourceOperation::Manifest => ReconciliationPhase::Manifest,
        ResourceOperation::Download(_) => ReconciliationPhase::Download,
        ResourceOperation::Install(_) => ReconciliationPhase::Install,
    }
}

/// An artifact as a record subject: `<resource>:<track>:<version>`.
pub open spec fn artifact_subject_text(artifact: ArtifactInfo) -> Seq<char> {
    artifact.resource_name@ + ":"@ + artifact.track@ + ":"@ + artifact.artifact_version@
}

/// The record subject of an artifact.
pub fn artifact_subject(artifact: &ArtifactInfo) -> (subject: String)
    ensures
        subject@ == artifact_subject_text(*artifact),
{
    let mut subject = concat2(artifact.resource_name.as_str(), ":");
    subject.append(artifact.track.as_str());
    subject.append(":");
    subject.append(artifact.artifact_version.as_str());
    subject
}

/// The download progress a report is sent as, when there is a foreground client: the
/// artifact's resource, track and version, the bytes so far (none when it started), and the
/// artifact's size.
pub fn download_progress_report(has_client: bool, event: DownloadProgressEvent) -> (sent: Option<
    DownloadProgress,
>)
    ensures
        !has_client ==> sent is None,
        has_client ==> match event {
            DownloadProgressEvent::Started { artifact } => sent == Some(
                DownloadProgress {
                    resource: artifact.resource_name,
                    track: artifact.track,
                    artifact_version: artifact.artifact_version,
                    downloaded_bytes: 0,
                    total_bytes: artifact.size,
                },
            ),
            DownloadProgressEvent::Advanced { artifact, downloaded_bytes } => sent == Some(
                DownloadProgress {
                    resource: artifact.resource_name,
                    track: artifact.track,
                    artifact_version: artifact.artifact_version,
                    downloaded_bytes,
                    total_bytes: artifact.size,
                },
            ),
            DownloadProgressEvent::Finished { artifact, downloaded_bytes } => sent == Some(
                DownloadProgress {
                    resource: artifact.resource_name,
                    track: artifact.track,
                    artifact_version: artifact.artifact_version,
                    downloaded_bytes,
                    total_bytes: artifact.size,
                },
            ),
        },
{
    if !has_client {
        return None;
    }
    let (artifact, downloaded_bytes) = match event {
        DownloadProgressEvent::Started { artifact } => (artifact, 0u64),
        DownloadProgressEvent::Advanced { artifact, downloaded_bytes } => (artifact, downloaded_bytes),
        DownloadProgressEvent::Finished { artifact, downloaded_bytes } => (artifact, downloaded_bytes),
    };
    let total_bytes = artifact.size;
    Some(
        DownloadProgress {
            resource: artifact.resource_name,
            track: artifact.track,
            artifact_version: artifact.artifact_version,
            downloaded_bytes,
            total_bytes,
        },
    )
}

/// The subject of an operation's record: `artifact_manifest`, or the artifact.
pub open spec fn operation_subject(operation: ResourceOperation) -> Seq<char> {
    match operation {
        ResourceOperation::Manifest => "artifact_manifest"@,
        ResourceOperation::Download(artifact) => artifact_subject_text(artifact),
        ResourceOperation::Install(artifact) => artifact_subject_text(artifact),
    }
}

/// The counts of an operation's record: one manifest; one artifact and its bytes for a
/// download; one artifact for an install.
pub open spec fn operation_counts(operation: ResourceOperation) -> Seq<(Seq<char>, u64)> {
    match operation {
        ResourceOperation::Manifest => seq![("manifest_count"@, 1u64)],
        ResourceOperation::Download(artifact) => seq![
            ("artifact_count"@, 1u64),
            ("artifact_bytes"@, artifact.size),
        ],
        ResourceOperation::Install(_) => seq![("artifact_count"@, 1u64)],
    }
}

/// The outcome of an operation's record.
pub open spec fn record_outcome(outcome: ResourceOperationOutcome) -> PhaseOutcome {
    match outcome {
        ResourceOperationOutcome::Succeeded => PhaseOutcome::Succeeded,
        ResourceOperationOutcome::Failed => PhaseOutcome::Failed,
        ResourceOperationOutcome::Skipped => PhaseOutcome::Skipped,
        ResourceOperationOutcome::Fallback { .. } => PhaseOutcome::Fallback,
    }
}

/// The fields of an operation's record: the manifest's source when a manifest was fetched
/// (`latest`) or fell back (`cached`, with the reason); none otherwise.
pub open spec fn record_fields(operation: ResourceOperation, outcome: ResourceOperationOutcome) -> Seq<
    (Seq<char>, Seq<char>),
> {
    match outcome {
        ResourceOperationOutcome::Succeeded => if operation is Manifest {
            seq![("manifest_source"@, "latest"@)]
        } else {
            Seq::empty()
        },
        ResourceOperationOutcome::Fallback { reason } => seq![
            ("manifest_source"@, "cached"@),
            ("fallback_reason"@, reason@),
        ],
        _ => Seq::empty(),
    }
}

/// The texts of a list of counts.
pub open spec fn count_views(counts: Seq<(String, u64)>) -> Seq<(Seq<char>, u64)> {
    counts.map_values(|c: (String, u64)| (c.0@, c.1))
}

/// The texts of a list of fields.
pub open spec fn field_views(fields: Seq<(String, String)>) -> Seq<(Seq<char>, Seq<char>)> {
    fields.map_values(|f: (String, String)| (f.0@, f.1@))
}

fn field(name: &str, value: &str) -> (f: (String, String))
    ensures
        f.0@ == name@,
        f.1@ == value@,
{
    (String::from_str(name), String::from_str(value))
}

/// What a finished operation leaves in the phase log. Without a phase log, nothing. While
/// operation records are suppressed, only a manifest that fell back to a cached copy is noted,
/// as a plain diagnostic with its reason. Otherwise the operation is recorded under its phase
/// with its subject, outcome, counts and fields.
pub fn operation_finished_record(
    has_phase_log: bool,
    suppress_operation_phases: bool,
    operation: ResourceOperation,
    outcome: ResourceOperationOutcome,
) -> (record: OperationRecord)
    ensures
        !has_phase_log ==> record is Nothing,
        has_phase_log && suppress_operation_phases ==> match (operation, outcome) {
            (ResourceOperation::Manifest, ResourceOperationOutcome::Fallback { reason }) => record
                == OperationRecord::ManifestFallback { reason },
            _ => record is Nothing,
        },
        has_phase_log && !suppress_operation_phases ==> match record {
            OperationRecord::Completed(c) => {
                &&& c.phase == operation_phase(operation)
                &&& c.subject@ == operation_subject(operation)
                &&& c.outcome == record_outcome(outcome)
                &&& count_views(c.counts@) == operation_counts(operation)
                &&& field_views(c.fields@) == record_fields(operation, outcome)
            },
            _ => false,
        },
{
    if !has_phase_log {
        return OperationRecord::Nothing;
    }
    if suppress_operation_phases {
        return match (operation, outcome) {
            (ResourceOperation::Manifest, ResourceOperationOutcome::Fallback { reason }) =>
                OperationRecord::ManifestFallback { reason },
            _ => OperationRecord::Nothing,
        };
    }
    let phase = resource_operation_phase(&operation);
    let manifest_operation = match &operation {
        ResourceOperation::Manifest => true,
        _ => false,
    };
    let mut counts: Vec<(String, u64)> = Vec::new();
    let subject = match &operation {
        ResourceOperation::Manifest => {
            counts.push((String::from_str("manifest_count"), 1));
            String::from_str("artifact_manifest")
        },
        ResourceOperation::Download(artifact) => {
            counts.push((String::from_str("artifact_count"), 1));
            counts.push((String::from_str("artifact_bytes"), artifact.size));
            artifact_subject(artifact)
        },
        ResourceOperation::Install(artifact) => {
            counts.push((String::from_str("artifact_count"), 1));
            artifact_subject(artifact)
        },
    };
    let mut fields: Vec<(String, String)> = Vec::new();
    let record_outcome = match &outcome {
        ResourceOperationOutcome::Succeeded => {
            if manifest_operation {
                fields.push(field("manifest_source", "latest"));
            }
            PhaseOutcome::Succeeded
        },
        ResourceOperationOutcome::Failed => PhaseOutcome::Failed,
        ResourceOperationOutcome::Skipped => PhaseOutcome::Skipped,
        ResourceOperationOutcome::Fallback { reason } => {
            fields.push(field("manifest_source", "cached"));
            fields.push(field("fallback_reason", reason.as_str()));
            PhaseOutcome::Fallback
        },
    };
    proof {
        assert(count_views(counts@) =~= operation_counts(operation));
        assert(field_views(fields@) =~= record_fields(operation, outcome));
    }
    OperationRecord::Completed(
        OperationCompletion { phase, subject, outcome: record_outcome, counts, fields },
    )
}

/// Whether a retry of the Resources phase keeps the cached manifest snapshot: a cached
/// failure is dropped so the retry fetches again; a cached success, or none, is kept.
pub fn retry_keeps_manifest_snapshot(cached: Option<bool>) -> (keeps: bool)
    ensures
        keeps == (cached != Some(false)),
{
    match cached {
        Some(false) => false,
        _ => true,
    }
}

/// The failures of default installs, kept by install label.
pub struct InstallFailures {
    entries: Vec<(String, String)>,
}

/// The failure text kept for each label of `entries`.
pub open spec fn entries_view(entries: Seq<(String, String)>) -> Map<Seq<char>, Seq<char>> {
    Map::new(
        |label: Seq<char>| exists|i: int| 0 <= i < entries.len() && #[trigger] entries[i].0@ == label,
        |label: Seq<char>| entries[choose|i: int| 0 <= i < entries.len() && #[trigger] entries[i].0@ == label].1@,
    )
}

/// No label occurs twice in `entries`.
pub open spec fn unique_labels(entries: Seq<(String, String)>) -> bool {
    forall|i: int, j: int| 0 <= i < j < entries.len() ==> #[trigger] entries[i].0@ != #[trigger] entries[j].0@
}

/// `entry` is one of `before`'s entries.
pub open spec fn kept_from(before: Seq<(String, String)>, entry: (String, String)) -> bool {
    exists|j: int| 0 <= j < before.len() && before[j] == entry
}

proof fn lemma_entries_view_at(entries: Seq<(String, String)>, i: int)
    requires
        unique_labels(entries),
        0 <= i < entries.len(),
    ensures
        entries_view(entries).contains_key(entries[i].0@),
        entries_view(entries)[entries[i].0@] == entries[i].1@,
{
    let label = entries[i].0@;
    assert(entries_view(entries).dom().contains(label));
    let j = choose|j: int| 0 <= j < entries.len() && #[trigger] entries[j].0@ == label;
    if j < i {
        assert(entries[j].0@ != entries[i].0@);
    } else if j > i {
        assert(entries[i].0@ != entries[j].0@);
    }
}

proof fn lemma_entries_view_replaced(
    before: Seq<(String, String)>,
    after: Seq<(String, String)>,
    label: Seq<char>,
    text: Seq<char>,
)
    requires
        unique_labels(before),
        unique_labels(after),
        forall|k: Seq<char>|
            k != label ==> (entries_view(before).contains_key(k) <==> entries_view(after).contains_key(k)),
        forall|i: int| 0 <= i < after.len() && after[i].0@ != label ==> kept_from(before, #[trigger] after[i]),
        exists|i: int| 0 <= i < after.len() && #[trigger] after[i].0@ == label && after[i].1@ == text,
    ensures
        entries_view(after) == entries_view(before).insert(label, text),
{
    let va = entries_view(after);
    let vb = entries_view(before).insert(label, text);
    let i = choose|i: int| 0 <= i < after.len() && #[trigger] after[i].0@ == label && after[i].1@ == text;
    lemma_entries_view_at(after, i);
    assert forall|k: Seq<char>| #[trigger] va.contains_key(k) <==> vb.contains_key(k) by {}
    assert forall|k: Seq<char>| va.contains_key(k) implies #[trigger] va[k] == vb[k] by {
        if k != label {
            let p = choose|p: int| 0 <= p < after.len() && #[trigger] after[p].0@ == k;
            lemma_entries_view_at(after, p);
            let q = choose|q: int| 0 <= q < before.len() && before[q] == after[p];
            lemma_entries_view_at(before, q);
        }
    }
    assert(va =~= vb);
}

proof fn lemma_entries_view_removed(before: Seq<(String, String)>, after: Seq<(String, String)>, label: Seq<char>)
    requires
        unique_labels(before),
        unique_labels(after),
        forall|i: int| 0 <= i < after.len() ==> #[trigger] after[i].0@ != label,
        forall|k: Seq<char>|
            k != label ==> (entries_view(before).contains_key(k) <==> entries_view(after).contains_key(k)),
        forall|i: int| 0 <= i < after.len() ==> kept_from(before, #[trigger] after[i]),
    ensures
        entries_view(after) == entries_view(before).remove(label),
{
    let va = entries_view(after);
    let vb = entries_view(before).remove(label);
    assert forall|k: Seq<char>| #[trigger] va.contains_key(k) <==> vb.contains_key(k) by {
        if k == label && va.contains_key(k) {
            let p = choose|p: int| 0 <= p < after.len() && #[trigger] after[p].0@ == k;
        }
    }
    assert forall|k: Seq<char>| va.contains_key(k) implies #[trigger] va[k] == vb[k] by {
        let p = choose|p: int| 0 <= p < after.len() && #[trigger] after[p].0@ == k;
        lemma_entries_view_at(after, p);
        let q = choose|q: int| 0 <= q < before.len() && before[q] == after[p];
        lemma_entries_view_at(before, q);
    }
    assert(va =~= vb);
}

impl InstallFailures {
    /// The failure text kept for each label.
    pub closed spec fn view(&self) -> Map<Seq<char>, Seq<char>> {
        entries_view(self.entries@)
    }

    /// No label is kept twice.
    pub closed spec fn well_formed(&self) -> bool {
        unique_labels(self.entries@)
    }

    /// No failures kept.
    pub fn new() -> (failures: Self)
        ensures
            failures.well_formed(),
            failures.view() == Map::<Seq<char>, Seq<char>>::empty(),
    {
        let failures = InstallFailures { entries: Vec::new() };
        proof {
            assert(failures.view() =~= Map::<Seq<char>, Seq<char>>::empty());
        }
        failures
    }

    fn position(&self, label: &str) -> (found: Option<usize>)
        ensures
            match found {
                Some(i) => i < self.entries@.len() && self.entries@[i as int].0@ == label@,
                None => forall|i: int| 0 <= i < self.entries@.len() ==> #[trigger] self.entries@[i].0@ != label@,
            },
    {
        let mut i: usize = 0;
        while i < self.entries.len()
            invariant
                i <= self.entries@.len(),
                forall|j: int| 0 <= j < i ==> #[trigger] self.entries@[j].0@ != label@,
            decreases self.entries.len() - i,
        {
            if str_equal(self.entries[i].0.as_str(), label) {
                return Some(i);
            }
            i = i + 1;
        }
        None
    }

    /// The failure kept for `label`, if any.
    pub fn install_failure(&self, label: &str) -> (failure: Option<String>)
        requires
            self.well_formed(),
        ensures
            match failure {
                Some(text) => self.view().contains_key(label@) && self.view()[label@] == text@,
                None => !self.view().contains_key(label@),
            },
    {
        match self.position(label) {
            Some(i) => {
                proof {
                    lemma_entries_view_at(self.entries@, i as int);
                }
                Some(self.entries[i].1.clone())
            },
            None => None,
        }
    }

    /// Keeps `failure` for `label`, or forgets the label's failure when there is none.
    pub fn set_install_failure(&mut self, label: String, failure: Option<String>)
        requires
            old(self).well_formed(),
        ensures
            final(self).well_formed(),
            final(self).view() == match failure {
                Some(text) => old(self).view().insert(label@, text@),
                None => old(self).view().remove(label@),
            },
    {
        let ghost before = self.entries@;
        let ghost key = label@;
        let found = self.position(label.as_str());
        match failure {
            Some(text) => {
                let ghost value = text@;
                match found {
                    Some(i) => {
                        self.entries.set(i, (label, text));
                        proof {
                            let after = self.entries@;
                            assert forall|a: int, b: int| 0 <= a < b < after.len() implies #[trigger] after[a].0@
                                != #[trigger] after[b].0@ by {
                                assert(before[a].0@ != before[b].0@);
                            }
                            assert forall|k: Seq<char>| k != key implies (entries_view(before).contains_key(k)
                                <==> entries_view(after).contains_key(k)) by {
                                if entries_view(before).contains_key(k) {
                                    let p = choose|p: int| 0 <= p < before.len() && #[trigger] before[p].0@ == k;
                                    assert(after[p] == before[p]);
                                }
                                if entries_view(after).contains_key(k) {
                                    let p = choose|p: int| 0 <= p < after.len() && #[trigger] after[p].0@ == k;
                                    assert(after[p] == before[p]);
                                }
                            }
                            assert forall|p: int| 0 <= p < after.len() && after[p].0@ != key implies kept_from(
                                before,
                                #[trigger] after[p],
                            ) by {
                                assert(before[p] == after[p]);
                            }
                            assert(after[i as int].0@ == key && after[i as int].1@ == value);
                            lemma_entries_view_replaced(before, after, key, value);
                        }
                    },
                    None => {
                        self.entries.push((label, text));
                        proof {
                            let after = self.entries@;
                            assert forall|k: Seq<char>| k != key implies (entries_view(before).contains_key(k)
                                <==> entries_view(after).contains_key(k)) by {
                                if entries_view(before).contains_key(k) {
                                    let p = choose|p: int| 0 <= p < before.len() && #[trigger] before[p].0@ == k;
                                    assert(after[p] == before[p]);
                                }
                                if entries_view(after).contains_key(k) {
                                    let p = choose|p: int| 0 <= p < after.len() && #[trigger] after[p].0@ == k;
                                    assert(after[p] == before[p]);
                                }
                            }
                            assert forall|p: int| 0 <= p < after.len() && after[p].0@ != key implies kept_from(
                                before,
                                #[trigger] after[p],
                            ) by {
                                assert(before[p] == after[p]);
                            }
                            let last = before.len() as int;
                            assert(after[last].0@ == key && after[last].1@ == value);
                            lemma_entries_view_replaced(before, after, key, value);
                        }
                    },
                }
            },
            None => match found {
                Some(i) => {
                    self.entries.remove(i);
                    proof {
                        let after = self.entries@;
                        assert forall|a: int| 0 <= a < after.len() implies after[a] == before[if a < i {
                            a
                        } else {
                            a + 1
                        }] by {}
                        assert forall|a: int, b: int| 0 <= a < b < after.len() implies #[trigger] after[a].0@
                            != #[trigger] after[b].0@ by {
                            let oa = if a < i { a } else { a + 1 };
                            let ob = if b < i { b } else { b + 1 };
                            assert(before[oa].0@ != before[ob].0@);
                        }
                        assert forall|a: int| 0 <= a < after.len() implies #[trigger] after[a].0@ != key by {
                            let oa = if a < i { a } else { a + 1 };
                            if oa < i {
                                assert(before[oa].0@ != before[i as int].0@);
                            } else {
                                assert(before[i as int].0@ != before[oa].0@);
                            }
                        }
                        assert forall|k: Seq<char>| k != key implies (entries_view(before).contains_key(k)
                            <==> entries_view(after).contains_key(k)) by {
                            if entries_view(before).contains_key(k) {
                                let p = choose|p: int| 0 <= p < before.len() && #[trigger] before[p].0@ == k;
                                if p < i {
                                    assert(after[p] == before[p]);
                                } else {
                                    assert(after[p - 1] == before[p]);
                                }
                            }
                            if entries_view(after).contains_key(k) {
                                let p = choose|p: int| 0 <= p < after.len() && #[trigger] after[p].0@ == k;
                            }
                        }
                        assert forall|p: int| 0 <= p < after.len() implies kept_from(before, #[trigger] after[p]) by {
                            let op = if p < i { p } else { p + 1 };
                            assert(before[op] == after[p]);
                        }
                        lemma_entries_view_removed(before, after, key);
                    }
                },
                None => {
                    proof {
                        assert(entries_view(before).remove(key) =~= entries_view(before));
                    }
                },
            },
        }
    }
}

/// Reading a label's failure after setting it gives what was set (none after a clear), and
/// setting one label leaves every other label's failure as it was.
pub proof fn lemma_install_failure_read_after_write(
    before: InstallFailures,
    after: InstallFailures,
    label: Seq<char>,
    failure: Option<Seq<char>>,
    other: Seq<char>,
)
    requires
        after.view() == match failure {
            Some(text) => before.view().insert(label, text),
            None => before.view().remove(label),
        },
    ensures
        match failure {
            Some(text) => after.view().contains_key(label) && after.view()[label] == text,
            None => !after.view().contains_key(label),
        },
        other != label ==> after.view().contains_key(other) == before.view().contains_key(other),
        other != label && before.view().contains_key(other) ==> after.view()[other] == before.view()[other],
{
}

} // verus!
