//! The Mailpit runtime adapter: its ports, process, readiness and resource environment.
use vstd::prelude::*;
use vstd::string::*;

use crate::config::{number_field_views, pretty_json_object, runtime_config_text, text_field_views};
use crate::error::DaemonError;
use crate::runtime::{
    assigned_port, is_port_missing, join_path, joined_path, required_port, ManagedResourceReadiness,
    ManagedResourceRuntimeContext, ProcessSpec, ReadinessCheck,
};
use crate::text::{concat2, concat3, decimal, decimal_string};

verus! {

/// A port a runtime adapter asks for, with the port it prefers.
pub struct ManagedResourcePortSpec {
    pub name: &'static str,
    pub preferred_port: u16,
}

/// Where the records of one runtime live.
pub struct RuntimeRecordPaths {
    pub config_path: String,
    pub log_path: String,
    pub pid_path: String,
    pub metadata_path: String,
}

/// The Mailpit runtime adapter.
pub struct MailpitRuntimeAdapter;

/// `host:port` on the resource host.
pub open spec fn host_port(port: u16) -> Seq<char> {
    "127.0.0.1:"@ + decimal(port as nat)
}

fn host_port_string(port: u16) -> (s: String)
    ensures
        s@ == host_port(port),
{
    let p = decimal_string(port as u64);
    concat2("127.0.0.1:", p.as_str())
}

/// The result of looking up both Mailpit ports: the SMTP port is required first.
pub open spec fn mailpit_ports(context: ManagedResourceRuntimeContext) -> Option<(u16, u16)> {
    match (assigned_port(context.ports@, "smtp"@), assigned_port(context.ports@, "dashboard"@)) {
        (Some(smtp), Some(dashboard)) => Some((smtp, dashboard)),
        _ => None,
    }
}

/// The error reported when a Mailpit port is missing: the SMTP port is looked up first.
pub open spec fn mailpit_port_error(context: ManagedResourceRuntimeContext, e: DaemonError) -> bool {
    if assigned_port(context.ports@, "smtp"@) is None {
        is_port_missing(e, context, "smtp"@)
    } else {
        is_port_missing(e, context, "dashboard"@)
    }
}

fn required_ports(context: &ManagedResourceRuntimeContext) -> (r: Result<(u16, u16), DaemonError>)
    ensures
        match mailpit_ports(*context) {
            Some(ports) => r == Ok::<(u16, u16), DaemonError>(ports),
            None => r matches Err(e) && mailpit_port_error(*context, e),
        },
{
    let smtp = required_port(context, "smtp");
    let smtp = match smtp {
        Ok(port) => port,
        Err(e) => return Err(e),
    };
    let dashboard = required_port(context, "dashboard");
    match dashboard {
        Ok(port) => Ok((smtp, port)),
        Err(e) => Err(e),
    }
}

impl MailpitRuntimeAdapter {
    /// The resource name Mailpit is installed under.
    pub const NAME: &'static str = "mailpit";

    /// The adapter.
    pub fn new() -> (adapter: Self) {
        MailpitRuntimeAdapter
    }

    /// The resource name of the runtime.
    pub fn resource_name(&self) -> (name: &'static str)
        ensures
            name@ == "mailpit"@,
    {
        "mailpit"
    }

    /// Mailpit asks for an SMTP port, preferably 1025, and a dashboard port, preferably 8025.
    pub fn port_specs(&self) -> (specs: Vec<ManagedResourcePortSpec>)
        ensures
            specs@.len() == 2,
            specs@[0].name@ == "smtp"@,
            specs@[0].preferred_port == 1025,
            specs@[1].name@ == "dashboard"@,
            specs@[1].preferred_port == 8025,
    {
        let mut specs = Vec::new();
        specs.push(ManagedResourcePortSpec { name: "smtp", preferred_port: 1025 });
        specs.push(ManagedResourcePortSpec { name: "dashboard", preferred_port: 8025 });
        specs
    }

    /// Mailpit is ready once its dashboard answers HTTP on `/`.
    pub fn readiness<F>(&self, context: &ManagedResourceRuntimeContext) -> (r: Result<
        ManagedResourceReadiness<F>,
        DaemonError,
    >)
        ensures
            match assigned_port(context.ports@, "dashboard"@) {
                Some(port) => r matches Ok(ManagedResourceReadiness::TcpHttp(
                    ReadinessCheck::Http { host, port: p, path },
                )) && host@ == "127.0.0.1"@ && p == port && path@ == "/"@,
                None => r matches Err(e) && is_port_missing(e, *context, "dashboard"@),
            },
    {
        let port = required_port(context, "dashboard");
        match port {
            Ok(port) => Ok(
                ManagedResourceReadiness::TcpHttp(
                    ReadinessCheck::Http {
                        host: String::from_str("127.0.0.1"),
                        port,
                        path: String::from_str("/"),
                    },
                ),
            ),
            Err(e) => Err(e),
        }
    }

    /// The environment Mailpit offers to Projects, by key: `dashboard_url`, `smtp_host` and
    /// `smtp_port`.
    pub fn resource_env(&self, context: &ManagedResourceRuntimeContext) -> (r: Result<
        Vec<(String, String)>,
        DaemonError,
    >)
        ensures
            match mailpit_ports(*context) {
                Some((smtp, dashboard)) => r matches Ok(env) && env@.len() == 3
                    && env@[0].0@ == "dashboard_url"@ && env@[0].1@ == "http://"@ + host_port(
                    dashboard,
                ) && env@[1].0@ == "smtp_host"@ && env@[1].1@ == "127.0.0.1"@ && env@[2].0@
                    == "smtp_port"@ && env@[2].1@ == decimal(smtp as nat),
                None => r matches Err(e) && mailpit_port_error(*context, e),
            },
    {
        let ports = required_ports(context);
        let (smtp, dashboard) = match ports {
            Ok(ports) => ports,
            Err(e) => return Err(e),
        };
        let dashboard_address = host_port_string(dashboard);
        let mut env = Vec::new();
        env.push(
            (String::from_str("dashboard_url"), concat2("http://", dashboard_address.as_str())),
        );
        env.push((String::from_str("smtp_host"), String::from_str("127.0.0.1")));
        env.push((String::from_str("smtp_port"), decimal_string(smtp as u64)));
        Ok(env)
    }

    /// The process that runs Mailpit for the track of `context`, listening for SMTP and for
    /// its dashboard on the resource host, with its database at `database_path`.
    pub fn process_spec_with_database(
        &self,
        context: &ManagedResourceRuntimeContext,
        command: String,
        paths: RuntimeRecordPaths,
        database_path: String,
    ) -> (r: Result<ProcessSpec, DaemonError>)
        ensures
            match mailpit_ports(*context) {
                Some((smtp, dashboard)) => r matches Ok(spec) && spec.name@ == context.resource_name@
                    + "-"@ + context.track@ && spec.command == command && spec.arguments@.len() == 7
                    && spec.arguments@[0]@ == "--smtp"@ && spec.arguments@[1]@ == host_port(smtp)
                    && spec.arguments@[2]@ == "--listen"@ && spec.arguments@[3]@ == host_port(
                    dashboard,
                ) && spec.arguments@[4]@ == "--database"@ && spec.arguments@[5]
                    == database_path && spec.arguments@[6]@ == "--disable-version-check"@
                    && spec.config_path == paths.config_path && spec.log_path == paths.log_path
                    && spec.pid_path == paths.pid_path && spec.metadata_path == paths.metadata_path
                    && spec.resource_name == context.resource_name && spec.track == context.track,
                None => r matches Err(e) && mailpit_port_error(*context, e),
            },
    {
        let ports = required_ports(context);
        let (smtp, dashboard) = match ports {
            Ok(ports) => ports,
            Err(e) => return Err(e),
        };
        let mut arguments = Vec::new();
        arguments.push(String::from_str("--smtp"));
        arguments.push(host_port_string(smtp));
        arguments.push(String::from_str("--listen"));
        arguments.push(host_port_string(dashboard));
        arguments.push(String::from_str("--database"));
        arguments.push(database_path);
        arguments.push(String::from_str("--disable-version-check"));
        Ok(
            ProcessSpec {
                name: concat3(context.resource_name.as_str(), "-", context.track.as_str()),
                command,
                arguments,
                config_path: paths.config_path,
                log_path: paths.log_path,
                pid_path: paths.pid_path,
                metadata_path: paths.metadata_path,
                resource_name: context.resource_name.clone(),
                track: context.track.clone(),
            },
        )
    }

    /// The process that runs Mailpit for the track of `context`: as
    /// [`Self::process_spec_with_database`], with the database `mailpit.db` in the track's
    /// data directory.
    pub fn build_process_spec(
        &self,
        context: &ManagedResourceRuntimeContext,
        command: String,
        paths: RuntimeRecordPaths,
    ) -> (r: Result<ProcessSpec, DaemonError>)
        ensures
            match mailpit_ports(*context) {
                Some((smtp, dashboard)) => r matches Ok(spec) && spec.name@ == context.resource_name@
                    + "-"@ + context.track@ && spec.command == command && spec.arguments@.len() == 7
                    && spec.arguments@[0]@ == "--smtp"@ && spec.arguments@[1]@ == host_port(smtp)
                    && spec.arguments@[2]@ == "--listen"@ && spec.arguments@[3]@ == host_port(
                    dashboard,
                ) && spec.arguments@[4]@ == "--database"@ && spec.arguments@[5]@ == joined_path(
                    context.data_dir@,
                    "mailpit.db"@,
                ) && spec.arguments@[6]@ == "--disable-version-check"@
                    && spec.config_path == paths.config_path && spec.log_path == paths.log_path
                    && spec.pid_path == paths.pid_path && spec.metadata_path == paths.metadata_path
                    && spec.resource_name == context.resource_name && spec.track == context.track,
                None => r matches Err(e) && mailpit_port_error(*context, e),
            },
    {
        let database_path = join_path(context.data_dir.as_str(), "mailpit.db");
        self.process_spec_with_database(context, command, paths, database_path)
    }
}

impl MailpitRuntimeAdapter {
    /// The config written beside the runtime: its resource, track, SMTP and dashboard
    /// addresses, and data directory.
    pub fn runtime_config(&self, context: &ManagedResourceRuntimeContext) -> (r: Result<String, DaemonError>)
        ensures
            match mailpit_ports(*context) {
                Some((smtp, dashboard)) => r matches Ok(text) && text@ == pretty_json_object(
                        seq![
                            ("resource"@, context.resource_name@),
                            ("track"@, context.track@),
                            ("smtp"@, host_port(smtp)),
                            ("listen"@, host_port(dashboard)),
                            ("data_dir"@, context.data_dir@),
                        ],
                        Seq::empty(),
                    ),
                None => r matches Err(e) && mailpit_port_error(*context, e),
            },
    {
        let (smtp, dashboard) = match required_ports(context) {
            Ok(ports) => ports,
            Err(e) => return Err(e),
        };
        let mut text_fields: Vec<(String, String)> = Vec::new();
        text_fields.push((String::from_str("resource"), context.resource_name.clone()));
        text_fields.push((String::from_str("track"), context.track.clone()));
        text_fields.push((String::from_str("smtp"), host_port_string(smtp)));
        text_fields.push((String::from_str("listen"), host_port_string(dashboard)));
        text_fields.push((String::from_str("data_dir"), context.data_dir.clone()));
        let number_fields: Vec<(String, u64)> = Vec::new();
        proof {
            assert(text_field_views(text_fields@) =~= seq![
                ("resource"@, context.resource_name@),
                ("track"@, context.track@),
                ("smtp"@, host_port(smtp)),
                ("listen"@, host_port(dashboard)),
                ("data_dir"@, context.data_dir@),
            ]);
            assert(number_field_views(number_fields@) =~= Seq::<(Seq<char>, u64)>::empty());
        }
        runtime_config_text(&text_fields, &number_fields)
    }
}

} // verus!
