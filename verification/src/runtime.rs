//! Managed Resource runtimes: their process specs, contexts and readiness checks.
use vstd::prelude::*;
use vstd::string::*;

use crate::error::DaemonError;
use crate::text::{concat3, str_equal};

verus! {

/// The text of `base` with `path` adjoined, as `camino::Utf8Path::join` forms it.
pub uninterp spec fn joined_path(base: Seq<char>, path: Seq<char>) -> Seq<char>;

/// Adjoins `path` to `base` with `camino::Utf8Path::join` (which adjoins as std's
/// `PathBuf::push` does) and gives the text of the result. The text is named [`joined_path`]
/// of the two texts; how the separator is placed is left to camino and std.
#[verifier::external_body]
pub(crate) fn join_path(base: &str, path: &str) -> (joined: String)
    ensures
        joined@ == joined_path(base@, path@),
{
    camino::Utf8Path::new(base).join(path).into_string()
}

/// The loopback host every Managed Resource runtime listens on.
pub const RESOURCE_HOST: &'static str = "127.0.0.1";

/// How a runtime is probed for readiness over the network.
pub enum ReadinessCheck {
    Tcp { host: String, port: u16 },
    Http { host: String, port: u16, path: String },
}

/// A readiness check run by the runtime adapter itself; `check` starts one probe.
pub struct AsyncManagedResourceReadiness<F> {
    pub name: String,
    pub check: F,
}

/// How a Managed Resource runtime is known to be ready.
pub enum ManagedResourceReadiness<F> {
    TcpHttp(ReadinessCheck),
    Async(AsyncManagedResourceReadiness<F>),
}

impl<F> ManagedResourceReadiness<F> {
    /// A readiness check named `name` that runs `check` until it passes.
    pub fn async_check(name: String, check: F) -> (readiness: Self)
        ensures
            readiness == (ManagedResourceReadiness::Async(
                AsyncManagedResourceReadiness { name, check },
            )),
    {
        ManagedResourceReadiness::Async(AsyncManagedResourceReadiness { name, check })
    }

    /// A network readiness check.
    pub fn from_check(check: ReadinessCheck) -> (readiness: Self)
        ensures
            readiness == ManagedResourceReadiness::<F>::TcpHttp(check),
    {
        ManagedResourceReadiness::TcpHttp(check)
    }
}

/// How a supervised runtime process is started and where its records live.
pub struct ProcessSpec {
    pub name: String,
    pub command: String,
    pub arguments: Vec<String>,
    pub config_path: String,
    pub log_path: String,
    pub pid_path: String,
    pub metadata_path: String,
    pub resource_name: String,
    pub track: String,
}

/// What a runtime adapter knows of the track it starts.
pub struct ManagedResourceRuntimeContext {
    pub resource_name: String,
    pub track: String,
    pub artifact_path: String,
    pub data_dir: String,
    /// The ports assigned to the track, by port name; no name occurs twice.
    pub ports: Vec<(String, u16)>,
    /// The track's environment context, by key; no key occurs twice.
    pub env: Vec<(String, String)>,
}

/// The environment value kept under `key`, if any.
pub open spec fn env_value(env: Seq<(String, String)>, key: Seq<char>) -> Option<Seq<char>>
    decreases env.len(),
{
    if env.len() == 0 {
        None
    } else if env[0].0@ == key {
        Some(env[0].1@)
    } else {
        env_value(env.drop_first(), key)
    }
}

/// The environment value kept under `key` in `env`, if any.
pub fn env_get(env: &Vec<(String, String)>, key: &str) -> (value: Option<String>)
    ensures
        match env_value(env@, key@) {
            Some(v) => value matches Some(s) && s@ == v,
            None => value is None,
        },
{
    let mut i: usize = 0;
    proof {
        assert(env@.subrange(0, env@.len() as int) =~= env@);
    }
    while i < env.len()
        invariant
            i <= env@.len(),
            env_value(env@, key@) == env_value(env@.subrange(i as int, env@.len() as int), key@),
        decreases env.len() - i,
    {
        let ghost rest = env@.subrange(i as int, env@.len() as int);
        proof {
            assert(rest.drop_first() =~= env@.subrange(i + 1, env@.len() as int));
            assert(rest[0] == env@[i as int]);
        }
        if str_equal(env[i].0.as_str(), key) {
            return Some(env[i].1.clone());
        }
        i = i + 1;
    }
    None
}

/// The port assigned under `name`, if any.
pub open spec fn assigned_port(ports: Seq<(String, u16)>, name: Seq<char>) -> Option<u16>
    decreases ports.len(),
{
    if ports.len() == 0 {
        None
    } else if ports[0].0@ == name {
        Some(ports[0].1)
    } else {
        assigned_port(ports.drop_first(), name)
    }
}

/// Whether `e` reports that `context` has no port named `port_name`.
pub open spec fn is_port_missing(e: DaemonError, context: ManagedResourceRuntimeContext, port_name: Seq<char>) -> bool {
    e matches DaemonError::ManagedResourcePortMissing { resource, track, port } && resource
        == context.resource_name && track == context.track && port@ == port_name
}

/// The port assigned to the track under `port_name`, or the error that it is missing.
pub fn required_port(context: &ManagedResourceRuntimeContext, port_name: &str) -> (r: Result<
    u16,
    DaemonError,
>)
    ensures
        match assigned_port(context.ports@, port_name@) {
            Some(port) => r == Ok::<u16, DaemonError>(port),
            None => r matches Err(e) && is_port_missing(e, *context, port_name@),
        },
{
    let mut i: usize = 0;
    proof {
        assert(context.ports@.subrange(0, context.ports@.len() as int) =~= context.ports@);
    }
    while i < context.ports.len()
        invariant
            i <= context.ports@.len(),
            assigned_port(context.ports@, port_name@) == assigned_port(
                context.ports@.subrange(i as int, context.ports@.len() as int),
                port_name@,
            ),
        decreases context.ports.len() - i,
    {
        let ghost rest = context.ports@.subrange(i as int, context.ports@.len() as int);
        proof {
            assert(rest.drop_first() =~= context.ports@.subrange(i + 1, context.ports@.len() as int));
            assert(rest[0] == context.ports@[i as int]);
        }
        if str_equal(context.ports[i].0.as_str(), port_name) {
            return Ok(context.ports[i].1);
        }
        i = i + 1;
    }
    Err(
        DaemonError::ManagedResourcePortMissing {
            resource: context.resource_name.clone(),
            track: context.track.clone(),
            port: String::from_str(port_name),
        },
    )
}

/// The reason given when a started runtime exits before it was seen ready.
pub open spec fn exited_before_readiness_reason(runtime_name: Seq<char>) -> Seq<char> {
    "runtime `"@ + runtime_name + "` exited before readiness was verified"@
}

/// The error of a runtime that exited before its readiness was verified.
pub fn runtime_exited_before_readiness_error(runtime_name: &str) -> (e: DaemonError)
    ensures
        e matches DaemonError::UnexpectedProtocolResponse { reason } && reason@
            == exited_before_readiness_reason(runtime_name@),
{
    DaemonError::UnexpectedProtocolResponse {
        reason: concat3("runtime `", runtime_name, "` exited before readiness was verified"),
    }
}

/// Removes the pid, metadata and config records of a runtime that was started and then
/// abandoned, in that order, stopping at the first removal that fails. `delete_optional_file`
/// removes one file and treats a missing file as removed.
pub fn cleanup_started_runtime_files<D>(spec: &ProcessSpec, delete_optional_file: D) -> (r: Result<
    (),
    DaemonError,
>) where D: Fn(&String) -> Result<(), DaemonError>
    requires
        forall|path: &String| #[trigger] delete_optional_file.requires((path,)),
    ensures
        r is Ok ==> {
            &&& delete_optional_file.ensures((&spec.pid_path,), Ok(()))
            &&& delete_optional_file.ensures((&spec.metadata_path,), Ok(()))
            &&& delete_optional_file.ensures((&spec.config_path,), Ok(()))
        },
        r is Err ==> (delete_optional_file.ensures((&spec.pid_path,), r) || (
        delete_optional_file.ensures((&spec.pid_path,), Ok(()))
            && delete_optional_file.ensures((&spec.metadata_path,), r)) || (
        delete_optional_file.ensures((&spec.pid_path,), Ok(()))
            && delete_optional_file.ensures((&spec.metadata_path,), Ok(()))
            && delete_optional_file.ensures((&spec.config_path,), r))),
{
    let pid = delete_optional_file(&spec.pid_path);
    if pid.is_err() {
        return pid;
    }
    assert(pid->Ok_0 == ());
    let metadata = delete_optional_file(&spec.metadata_path);
    if metadata.is_err() {
        return metadata;
    }
    assert(metadata->Ok_0 == ());
    let config = delete_optional_file(&spec.config_path);
    if config.is_ok() {
        assert(config->Ok_0 == ());
    }
    config
}

} // verus!
