//! Reconciliation scopes and what is said when one starts.
use vstd::prelude::*;
use vstd::string::*;

use crate::text::{concat2, str_equal};

verus! {

/// What a reconciliation covers.
pub enum ReconciliationScope {
    /// Everything: resources, linked Projects and the gateway.
    System,
    /// One linked Project.
    Project { id: String },
    /// One Managed Resource track.
    Resource { name: String, track: String },
}

/// The resources whose runtimes the gateway reconciles.
pub open spec fn is_gateway_runtime_resource(resource_name: Seq<char>) -> bool {
    resource_name == "caddy"@ || resource_name == "php"@ || resource_name == "frankenphp"@
}

/// Whether `resource_name` is a gateway runtime: `caddy`, `php` or `frankenphp`.
pub fn gateway_runtime_resource(resource_name: &str) -> (gateway: bool)
    ensures
        gateway == is_gateway_runtime_resource(resource_name@),
{
    str_equal(resource_name, "caddy") || str_equal(resource_name, "php") || str_equal(
        resource_name,
        "frankenphp",
    )
}

/// The progress message that opens a reconciliation of the given effective scope.
pub open spec fn started_message_text(effective_scope: ReconciliationScope) -> Seq<char> {
    match effective_scope {
        ReconciliationScope::Project { .. } => "Project env reconciliation started"@,
        ReconciliationScope::System => "System reconciliation started"@,
        ReconciliationScope::Resource { name, .. } => if is_gateway_runtime_resource(name@) {
            "Gateway runtime reconciliation started"@
        } else {
            "Managed Resource runtime reconciliation started"@
        },
    }
}

/// The progress message that opens a reconciliation; `effective_scope` is the scope in the
/// form it is actually reconciled in.
pub fn reconciliation_started_message(effective_scope: &ReconciliationScope) -> (message:
    &'static str)
    ensures
        message@ == started_message_text(*effective_scope),
{
    match effective_scope {
        ReconciliationScope::Project { .. } => "Project env reconciliation started",
        ReconciliationScope::System => "System reconciliation started",
        ReconciliationScope::Resource { name, .. } => {
            if gateway_runtime_resource(name.as_str()) {
                "Gateway runtime reconciliation started"
            } else {
                "Managed Resource runtime reconciliation started"
            }
        },
    }
}

/// The text a scope is recorded under: `system`, `project:<id>` or `resource:<name>:<track>`.
pub open spec fn scope_text(scope: ReconciliationScope) -> Seq<char> {
    match scope {
        ReconciliationScope::System => "system"@,
        ReconciliationScope::Project { id } => "project:"@ + id@,
        ReconciliationScope::Resource { name, track } => "resource:"@ + name@ + ":"@ + track@,
    }
}

impl ReconciliationScope {
    /// The text this scope is recorded under.
    pub fn text(&self) -> (text: String)
        ensures
            text@ == scope_text(*self),
    {
        match self {
            ReconciliationScope::System => String::from_str("system"),
            ReconciliationScope::Project { id } => concat2("project:", id.as_str()),
            ReconciliationScope::Resource { name, track } => {
                let mut s = concat2("resource:", name.as_str());
                s.append(":");
                s.append(track.as_str());
                s
            },
        }
    }
}

} // verus!
