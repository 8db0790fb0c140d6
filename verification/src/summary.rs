//! The summaries a finished reconciliation reports.
use vstd::prelude::*;
use vstd::string::*;

use crate::error::{error_message, DaemonError};
use crate::jobs::SystemProjectReconciliationReport;
use crate::text::{concat2, decimal, decimal_string, join_strings, joined, str_equal, string_views};

verus! {

/// The gateway summary reported when Caddy is not installed; it adds nothing to a Project summary.
pub const CADDY_NOT_INSTALLED: &'static str = "Caddy is not installed; gateway runtimes were not reconciled";

/// The texts of `failures`.
pub open spec fn error_messages(failures: Seq<DaemonError>) -> Seq<Seq<char>> {
    failures.map_values(|e: DaemonError| error_message(e))
}

/// What a pass over `total` linked Projects reports, if it covered any Project.
pub open spec fn project_summary_text_of(
    total: usize,
    succeeded: usize,
    summaries: Seq<String>,
    failures: Seq<DaemonError>,
) -> Option<Seq<char>> {
    if total == 0 {
        None
    } else if failures.len() > 0 {
        Some(
            "Project env reconciled for "@ + decimal(succeeded as nat) + " of "@ + decimal(
                total as nat,
            ) + " Projects; failures: "@ + joined(error_messages(failures), ", "@),
        )
    } else if summaries.len() == 1 {
        Some(summaries[0]@)
    } else {
        Some("Project env reconciled for "@ + decimal(succeeded as nat) + " Projects"@)
    }
}

/// What a pass over the linked Projects reports, if it covered any Project.
pub open spec fn project_summary_text(report: SystemProjectReconciliationReport) -> Option<Seq<char>> {
    project_summary_text_of(report.total, report.succeeded, report.summaries@, report.failures@)
}

/// Renders the texts of a list of errors.
pub fn error_message_list(failures: &Vec<DaemonError>) -> (messages: Vec<String>)
    ensures
        string_views(messages@) == error_messages(failures@),
{
    let mut messages: Vec<String> = Vec::new();
    let mut i: usize = 0;
    while i < failures.len()
        invariant
            i <= failures.len(),
            messages@.len() == i,
            forall|j: int| 0 <= j < i ==> #[trigger] messages@[j]@ == error_message(failures@[j]),
        decreases failures.len() - i,
    {
        let m = failures[i].message();
        messages.push(m);
        i = i + 1;
    }
    proof {
        assert(string_views(messages@) =~= error_messages(failures@));
    }
    messages
}

/// The Project part of a System summary: `None` when no Project was linked.
pub fn system_project_summary(report: &SystemProjectReconciliationReport) -> (summary: Option<String>)
    ensures
        match project_summary_text(*report) {
            None => summary is None,
            Some(text) => summary matches Some(s) && s@ == text,
        },
{
    if report.total == 0 {
        return None;
    }
    if report.failures.len() > 0 {
        let mut s = String::from_str("Project env reconciled for ");
        let succeeded = decimal_string(report.succeeded as u64);
        s.append(succeeded.as_str());
        s.append(" of ");
        let total = decimal_string(report.total as u64);
        s.append(total.as_str());
        s.append(" Projects; failures: ");
        let messages = error_message_list(&report.failures);
        let failures = join_strings(&messages, ", ");
        s.append(failures.as_str());
        return Some(s);
    }
    if report.summaries.len() == 1 {
        return Some(report.summaries[0].clone());
    }
    let mut s = String::from_str("Project env reconciled for ");
    let succeeded = decimal_string(report.succeeded as u64);
    s.append(succeeded.as_str());
    s.append(" Projects");
    Some(s)
}

/// The summary of a System reconciliation from its Project report and gateway summary.
pub open spec fn system_summary_text(report: SystemProjectReconciliationReport, gateway: Seq<char>) -> Seq<
    char,
> {
    match project_summary_text(report) {
        None => gateway,
        Some(project) => if gateway == CADDY_NOT_INSTALLED@ {
            project
        } else {
            project + "; "@ + gateway
        },
    }
}

/// The summary of a System reconciliation: the Project summary, followed by the gateway
/// summary unless Caddy is not installed.
pub fn system_reconciliation_summary(
    project_report: &SystemProjectReconciliationReport,
    gateway_summary: &str,
) -> (summary: String)
    ensures
        summary@ == system_summary_text(*project_report, gateway_summary@),
{
    let project_summary = system_project_summary(project_report);
    match project_summary {
        None => String::from_str(gateway_summary),
        Some(project_summary) => {
            if str_equal(gateway_summary, CADDY_NOT_INSTALLED) {
                project_summary
            } else {
                let mut s = project_summary;
                s.append("; ");
                s.append(gateway_summary);
                s
            }
        },
    }
}

/// The summary of a Managed Resource track reconciliation, given what its Project pass
/// reports.
pub open spec fn managed_resource_summary_text_of(
    resource_name: Seq<char>,
    track: Seq<char>,
    project_summary: Option<Seq<char>>,
) -> Seq<char> {
    let head = "Managed Resource "@ + resource_name + " track "@ + track + " reconciled"@;
    match project_summary {
        None => head,
        Some(project) => head + "; "@ + project,
    }
}

/// The summary of a Managed Resource track reconciliation.
pub open spec fn managed_resource_summary_text(
    resource_name: Seq<char>,
    track: Seq<char>,
    report: SystemProjectReconciliationReport,
) -> Seq<char> {
    managed_resource_summary_text_of(resource_name, track, project_summary_text(report))
}

/// The summary of a Managed Resource track reconciliation, followed by its Project summary.
pub fn managed_resource_reconciliation_summary(
    resource_name: &str,
    track: &str,
    project_report: &SystemProjectReconciliationReport,
) -> (summary: String)
    ensures
        summary@ == managed_resource_summary_text(resource_name@, track@, *project_report),
{
    let mut s = concat2("Managed Resource ", resource_name);
    s.append(" track ");
    s.append(track);
    s.append(" reconciled");
    match system_project_summary(project_report) {
        None => s,
        Some(project_summary) => {
            s.append("; ");
            s.append(project_summary.as_str());
            s
        },
    }
}

} // verus!
