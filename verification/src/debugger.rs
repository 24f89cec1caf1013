//! Debug sessions: what the editor asks for, and what the debug adapters are
//! given.

pub mod mono;
pub mod ncdbg;

use vstd::prelude::*;
use crate::env::{env_map, env_view, last_of_its_name, law_collected_holds_last_assignments, names_unique};

verus! {

/// A process id that is either an integer or a string holding a number.
#[derive(Clone, Debug, PartialEq, Eq)]
pub enum ProcessId {
    Int(i32),
    String(String),
}

/// Whether a debug session launches a new process or attaches to a running one.
#[derive(Clone, Copy, Debug, PartialEq, Eq, Structural)]
pub enum RequestKind {
    Launch,
    Attach,
}

/// A request to launch a program under the debugger.
#[derive(Clone, Debug, PartialEq, Eq)]
pub struct LaunchRequest {
    pub program: String,
    pub cwd: Option<String>,
    pub args: Vec<String>,
    pub envs: Vec<(String, String)>,
}

/// A request to attach the debugger to a running process.
#[derive(Clone, Copy, Debug, PartialEq, Eq)]
pub struct AttachRequest {
    pub process_id: Option<u32>,
}

/// What a new debug session is asked to do.
#[derive(Clone, Debug, PartialEq, Eq)]
pub enum DebugRequest {
    Launch(LaunchRequest),
    Attach(AttachRequest),
}

/// The adapter-independent description of a debug session that the editor
/// builds from its new-session dialog.
#[derive(Clone, Debug, PartialEq, Eq)]
pub struct DebugConfig {
    pub label: String,
    pub adapter: String,
    pub request: DebugRequest,
    pub stop_on_entry: Option<bool>,
}

/// A debug scenario: a labelled session for an adapter, with the adapter's
/// own configuration (which the editor stores as JSON).
#[derive(Clone, Debug, PartialEq, Eq)]
pub struct DebugScenario<C> {
    pub label: String,
    pub adapter: String,
    pub config: C,
}

/// How to start a debug adapter and the debug session in it.
#[derive(Debug, PartialEq, Eq)]
pub struct DebugAdapterBinary {
    pub command: Option<String>,
    pub arguments: Vec<String>,
    pub envs: Vec<(String, String)>,
    pub cwd: Option<String>,
    /// The adapter configuration, JSON-encoded, as the session received it.
    pub configuration: String,
    pub request: RequestKind,
}

/// `b` starts `command` with `arguments` for a session of the given
/// configuration: each variable of `env` once, at the value of its last
/// assignment, in the configured working directory or else the worktree's
/// root.
pub open spec fn starts_adapter(
    b: DebugAdapterBinary,
    command: String,
    arguments: Seq<String>,
    env: Vec<(String, String)>,
    cwd: Option<String>,
    root_path: String,
    configuration: String,
    request: RequestKind,
) -> bool {
    &&& b.command == Some(command)
    &&& b.arguments@ == arguments
    &&& names_unique(env_view(b.envs@))
    &&& env_map(env_view(b.envs@)) == env_map(env_view(env@))
    &&& b.cwd == Some(
        match cwd {
            Some(c) => c,
            None => root_path,
        },
    )
    &&& b.configuration == configuration
    &&& b.request == request
}

/// A started adapter runs the command with the arguments, carries the
/// session's raw configuration and its kind of request whatever the
/// arguments are, works in the configured directory or else the worktree's
/// root, and is given each variable of the configuration once, at the value
/// of its last assignment, and no variable the configuration does not set.
pub proof fn law_started_adapter(
    b: DebugAdapterBinary,
    command: String,
    arguments: Seq<String>,
    env: Vec<(String, String)>,
    cwd: Option<String>,
    root_path: String,
    configuration: String,
    request: RequestKind,
)
    requires
        starts_adapter(b, command, arguments, env, cwd, root_path, configuration, request),
    ensures
        b.request == request,
        b.command == Some(command),
        b.arguments@ == arguments,
        b.configuration == configuration,
        cwd matches Some(c) ==> b.cwd == Some(c),
        cwd is None ==> b.cwd == Some(root_path),
        names_unique(env_view(b.envs@)),
        forall|j: int| #[trigger] last_of_its_name(env_view(env@), j) ==> exists|i: int|
            0 <= i < b.envs@.len() && env_view(b.envs@)[i] == env_view(env@)[j],
        forall|i: int| 0 <= i < b.envs@.len() ==> exists|j: int|
            0 <= j < env@.len() && env_view(env@)[j].0 == #[trigger] env_view(b.envs@)[i].0,
{
    law_collected_holds_last_assignments(env_view(b.envs@), env_view(env@));
}

/// The kind of request that a `request` value names: `launch` or `attach`.
pub open spec fn kind_named(request: Seq<char>) -> Option<RequestKind> {
    if request == "launch"@ {
        Some(RequestKind::Launch)
    } else if request == "attach"@ {
        Some(RequestKind::Attach)
    } else {
        None
    }
}

/// The error for a `request` value that names no kind of request.
pub open spec fn invalid_request_message(request: Seq<char>) -> Seq<char> {
    "Invalid 'request' value: '"@ + request + "'. Expected 'launch' or 'attach'"@
}

/// The kind of a session configuration's `request` value, where the value is
/// known to be there.
pub open spec fn configured_kind(request: Seq<char>) -> Result<RequestKind, Seq<char>> {
    match kind_named(request) {
        Some(kind) => Ok(kind),
        None => Err(invalid_request_message(request)),
    }
}

/// The kind of request of a configuration whose `request` field may be
/// missing or not a string (`None`).
pub open spec fn kind_of_field(request: Option<Seq<char>>) -> Result<RequestKind, Seq<char>> {
    match request {
        Some(r) => match kind_named(r) {
            Some(kind) => Ok(kind),
            None => Err("Invalid request"@),
        },
        None => Err("Invalid request"@),
    }
}

/// A kind result by the text of its error.
pub open spec fn kind_result(r: Result<RequestKind, String>) -> Result<RequestKind, Seq<char>> {
    match r {
        Ok(k) => Ok(k),
        Err(e) => Err(e@),
    }
}

/// An optional text by its characters.
pub open spec fn str_option(o: Option<&str>) -> Option<Seq<char>> {
    match o {
        Some(s) => Some(s@),
        None => None,
    }
}

/// Both ways of reading a `request` value agree on which kind it names: a
/// value is accepted by one exactly when it is accepted by the other, as the
/// same kind.
pub proof fn law_request_readings_agree(request: Seq<char>)
    ensures
        configured_kind(request) is Ok <==> kind_of_field(Some(request)) is Ok,
        configured_kind(request) is Ok ==> configured_kind(request) == kind_of_field(Some(request)),
{
}

/// The kind of request that a session configuration's `request` value names,
/// or the error that quotes the value.
pub fn request_of(request: &str) -> (r: Result<RequestKind, String>)
    ensures
        kind_result(r) == configured_kind(request@),
{
    if crate::text::same_text(request, "launch") {
        Ok(RequestKind::Launch)
    } else if crate::text::same_text(request, "attach") {
        Ok(RequestKind::Attach)
    } else {
        Err(String::from_str("Invalid 'request' value: '").concat(request).concat(
            "'. Expected 'launch' or 'attach'",
        ))
    }
}

/// The kind of request of a configuration, from its `request` field (`None`
/// where the field is missing or not a string). The kind is never guessed:
/// anything but `launch` and `attach` is an error.
pub fn kind_of_request_field(request: Option<&str>) -> (r: Result<RequestKind, String>)
    ensures
        kind_result(r) == kind_of_field(str_option(request)),
{
    match request {
        Some(r) => {
            if crate::text::same_text(r, "launch") {
                return Ok(RequestKind::Launch);
            } else if crate::text::same_text(r, "attach") {
                return Ok(RequestKind::Attach);
            }
        },
        None => {},
    }
    Err(String::from_str("Invalid request"))
}

} // verus!
