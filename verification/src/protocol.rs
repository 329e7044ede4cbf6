//! What a call may do before it reaches a worker and how it ends: the
//! module's description, routing, timeouts, the launch of a worker and the
//! mapping of completions to responses.

use crate::error::{AppError, Status};
use crate::json::{json_doc, JsonDoc};
use crate::paths::{
    bare_name, is_safe_path, path_is_absolute, resolve_cwd_path, resolve_exec_path, resolved,
    resolved_exec, safe_path, stays_within,
};
use crate::strmap::StrMap;
use crate::text::{same_text, text_of, texts};
use crate::wire::WorkerError;
use serde_json::Value;
use vstd::prelude::*;

verus! {

/// The timeout of a call, in milliseconds, where neither the method nor the
/// worker sets one.
pub const DEFAULT_TIMEOUT_MS: u64 = 15000;

/// The name under which the bridge serves its own routes; no module may
/// bear it.
pub open spec fn reserved_module() -> Seq<char> {
    "system"@
}

/// How a module's worker is launched.
#[derive(Clone, Debug)]
pub struct WorkerSpec {
    /// The executable and its arguments.
    pub cmd: Vec<String>,
    /// The working directory; the module's directory where there is none.
    pub cwd: Option<String>,
    /// Variables added to the worker's environment.
    pub env: Option<StrMap<String>>,
    /// The timeout of calls whose method sets none.
    pub timeout_ms: Option<u64>,
    /// Read from the description and not used.
    pub idle_timeout_ms: Option<u64>,
}

/// What a module says of one of its methods.
#[derive(Clone, Debug)]
pub struct MethodSpec {
    /// The timeout of calls of this method.
    pub timeout_ms: Option<u64>,
}

/// A module's description.
#[derive(Clone, Debug)]
pub struct BridgeConfig {
    /// Read from the description and not used.
    pub protocol: Option<String>,
    pub worker: WorkerSpec,
    /// The methods that may be called, by name.
    pub methods: StrMap<MethodSpec>,
}

/// What was found where a module's description should be.
pub enum ModuleLookup {
    /// The module has no directory.
    NoDirectory,
    /// The directory holds no description.
    NoConfig,
    /// The description could not be read.
    Unreadable,
    /// The description is not a valid one.
    Invalid,
    /// The description.
    Loaded(BridgeConfig),
}

/// A call that may go to a worker.
#[derive(Clone, Debug)]
pub struct CallPlan {
    /// How long to wait for the reply, in milliseconds.
    pub timeout_ms: u64,
}

/// A worker that may be started.
#[derive(Clone, Debug)]
pub struct LaunchPlan {
    pub program: String,
    pub args: Vec<String>,
    pub cwd: String,
}

/// How the wait for a reply ended.
pub enum Completion {
    /// The worker answered, with a result or with a failure of its own.
    Answered(Result<Value, WorkerError>),
    /// The worker's output ended while the call was pending.
    Closed,
    /// The slot of the call was given up without an answer.
    Abandoned,
    /// The deadline passed first.
    TimedOut,
}

/// What is left to do in the bridge's state once a call has ended.
#[derive(Clone, Copy, Debug, PartialEq, Eq, Structural)]
pub enum Cleanup {
    /// Nothing: the call was consumed by its answer.
    Nothing,
    /// Take the worker out of the table, so that the next call starts one.
    Evict,
    /// Take the call out of the pending calls; the worker stays.
    Deregister,
}

/// The timeout in force: the method's, else the worker's, else the default.
pub open spec fn timeout_for(method: Option<u64>, worker: Option<u64>) -> u64 {
    match method {
        Some(ms) => ms,
        None => match worker {
            Some(ms) => ms,
            None => DEFAULT_TIMEOUT_MS,
        },
    }
}

/// What becomes of a call to `func` of `module`, given what was found of
/// the module: the timeout to call with, or the failure to report. The
/// reserved name is refused whatever was found.
pub open spec fn call_plan(module: Seq<char>, func: Seq<char>, lookup: ModuleLookup) -> Result<
    u64,
    (Status, Seq<char>),
> {
    if module == reserved_module() {
        Err((Status::NotFound, "Function not found"@))
    } else {
        match lookup {
            ModuleLookup::NoDirectory => Err((Status::NotFound, "Module not found"@)),
            ModuleLookup::NoConfig => Err((Status::NotFound, "Bridge config not found"@)),
            ModuleLookup::Unreadable => Err(
                (Status::Internal, "Failed to read bridge config"@),
            ),
            ModuleLookup::Invalid => Err((Status::BadRequest, "Invalid bridge config"@)),
            ModuleLookup::Loaded(cfg) => if !cfg.methods@.contains_key(func) {
                Err((Status::NotFound, "Function not found"@))
            } else if cfg.worker.cmd@.len() == 0 {
                Err((Status::BadRequest, "Invalid worker command"@))
            } else {
                Ok(timeout_for(cfg.methods@[func].timeout_ms, cfg.worker.timeout_ms))
            },
        }
    }
}

/// The model of a planned call.
pub open spec fn plan_model(r: Result<CallPlan, AppError>) -> Result<u64, (Status, Seq<char>)> {
    match r {
        Ok(plan) => Ok(plan.timeout_ms),
        Err(e) => Err(e@),
    }
}

/// Where a worker runs: the working directory that its description names,
/// resolved against the module's directory, or the module's directory
/// where it names none.
pub open spec fn launch_dir(module_dir: Seq<char>, cwd: Option<Seq<char>>) -> Seq<char> {
    match cwd {
        Some(c) => resolved(module_dir, c),
        None => module_dir,
    }
}

/// What becomes of the launch of a worker: the program, its arguments and
/// its working directory, or the failure to report. The validator judges
/// the executable and the working directory as the description names
/// them; only what it allows is resolved.
pub open spec fn launch_plan(
    module_dir: Seq<char>,
    cmd: Seq<Seq<char>>,
    cwd: Option<Seq<char>>,
    local_exists: bool,
) -> Result<(Seq<char>, Seq<Seq<char>>, Seq<char>), (Status, Seq<char>)> {
    if cmd.len() == 0 {
        Err((Status::BadRequest, "Invalid worker command"@))
    } else if !safe_path(module_dir, cmd[0]) {
        Err(
            (
                Status::Forbidden,
                "Executable path must be within module directory or absolute system path"@,
            ),
        )
    } else if cwd matches Some(c) && !safe_path(module_dir, c) {
        Err((Status::Forbidden, "Working directory must be within module directory"@))
    } else {
        Ok(
            (
                resolved_exec(module_dir, cmd[0], local_exists),
                cmd.skip(1),
                launch_dir(module_dir, cwd),
            ),
        )
    }
}

/// The model of a planned launch.
pub open spec fn launch_model(r: Result<LaunchPlan, AppError>) -> Result<
    (Seq<char>, Seq<Seq<char>>, Seq<char>),
    (Status, Seq<char>),
> {
    match r {
        Ok(plan) => Ok((plan.program@, texts(plan.args@), plan.cwd@)),
        Err(e) => Err(e@),
    }
}

/// The response that a completion stands for and the cleanup it asks for.
pub open spec fn conclusion(c: Completion) -> (Result<JsonDoc, (Status, Seq<char>)>, Cleanup) {
    match c {
        Completion::Answered(Ok(v)) => (Ok(json_doc(v)), Cleanup::Nothing),
        Completion::Answered(Err(e)) => (Err((Status::Internal, e.message@)), Cleanup::Nothing),
        Completion::Closed => (Err((Status::Internal, "Worker closed"@)), Cleanup::Evict),
        Completion::Abandoned => (
            Err((Status::Internal, "Worker response failed"@)),
            Cleanup::Evict,
        ),
        Completion::TimedOut => (Err((Status::Timeout, "Worker timeout"@)), Cleanup::Deregister),
    }
}

/// The model of a response.
pub open spec fn response_model(r: Result<Value, AppError>) -> Result<
    JsonDoc,
    (Status, Seq<char>),
> {
    match r {
        Ok(v) => Ok(json_doc(v)),
        Err(e) => Err(e@),
    }
}

/// Whether `module` is the reserved name.
pub fn is_reserved_module(module: &str) -> (r: bool)
    ensures
        r == (module@ == reserved_module()),
{
    same_text(module, "system")
}

/// The timeout in force for a call.
pub fn effective_timeout(method: Option<u64>, worker: Option<u64>) -> (r: u64)
    ensures
        r == timeout_for(method, worker),
{
    match method {
        Some(ms) => ms,
        None => match worker {
            Some(ms) => ms,
            None => DEFAULT_TIMEOUT_MS,
        },
    }
}

/// Decides what becomes of a call before any worker is touched.
pub fn plan_call(module: &str, func: &str, lookup: &ModuleLookup) -> (r: Result<
    CallPlan,
    AppError,
>)
    ensures
        plan_model(r) == call_plan(module@, func@, *lookup),
{
    if is_reserved_module(module) {
        return Err(AppError::new(Status::NotFound, "Function not found"));
    }
    match lookup {
        ModuleLookup::NoDirectory => Err(AppError::new(Status::NotFound, "Module not found")),
        ModuleLookup::NoConfig => Err(
            AppError::new(Status::NotFound, "Bridge config not found"),
        ),
        ModuleLookup::Unreadable => Err(
            AppError::new(Status::Internal, "Failed to read bridge config"),
        ),
        ModuleLookup::Invalid => Err(AppError::new(Status::BadRequest, "Invalid bridge config")),
        ModuleLookup::Loaded(cfg) => match cfg.methods.get(func) {
            None => Err(AppError::new(Status::NotFound, "Function not found")),
            Some(method) => if cfg.worker.cmd.len() == 0 {
                Err(AppError::new(Status::BadRequest, "Invalid worker command"))
            } else {
                Ok(
                    CallPlan {
                        timeout_ms: effective_timeout(method.timeout_ms, cfg.worker.timeout_ms),
                    },
                )
            },
        },
    }
}

/// Copies the arguments of a command: everything after the executable.
fn arguments(cmd: &Vec<String>) -> (r: Vec<String>)
    requires
        cmd@.len() > 0,
    ensures
        texts(r@) == texts(cmd@).skip(1),
{
    let mut args: Vec<String> = Vec::new();
    let mut i: usize = 1;
    while i < cmd.len()
        invariant
            1 <= i <= cmd@.len(),
            args@.len() == i - 1,
            forall|j: int| 0 <= j < args@.len() ==> args@[j]@ == cmd@[j + 1]@,
        decreases cmd@.len() - i,
    {
        args.push(cmd[i].clone());
        i = i + 1;
    }
    assert(texts(args@) =~= texts(cmd@).skip(1));
    args
}

/// Decides whether and how a module's worker may be started.
/// `local_exists` says whether the executable, taken as a file in the
/// module's directory, exists.
pub fn plan_launch(module_dir: &str, spec: &WorkerSpec, local_exists: bool) -> (r: Result<
    LaunchPlan,
    AppError,
>)
    ensures
        launch_model(r) == launch_plan(
            module_dir@,
            texts(spec.cmd@),
            text_of(spec.cwd),
            local_exists,
        ),
{
    if spec.cmd.len() == 0 {
        return Err(AppError::new(Status::BadRequest, "Invalid worker command"));
    }
    let exec = spec.cmd[0].as_str();
    assert(texts(spec.cmd@)[0] == spec.cmd@[0]@);
    if !is_safe_path(module_dir, exec) {
        return Err(
            AppError::new(
                Status::Forbidden,
                "Executable path must be within module directory or absolute system path",
            ),
        );
    }
    let cwd = match &spec.cwd {
        Some(c) => {
            if !is_safe_path(module_dir, c.as_str()) {
                return Err(
                    AppError::new(
                        Status::Forbidden,
                        "Working directory must be within module directory",
                    ),
                );
            }
            resolve_cwd_path(module_dir, c.as_str())
        },
        None => module_dir.to_owned(),
    };
    let program = resolve_exec_path(module_dir, exec, local_exists);
    Ok(LaunchPlan { program, args: arguments(&spec.cmd), cwd })
}

/// An executable that is named by a relative path with a separator and
/// leaves the module's directory is refused, whether or not a file of that
/// name exists and whatever the working directory.
pub proof fn lemma_escaping_executable_is_forbidden(
    module_dir: Seq<char>,
    cmd: Seq<Seq<char>>,
    cwd: Option<Seq<char>>,
    local_exists: bool,
)
    requires
        cmd.len() > 0,
        !bare_name(cmd[0]),
        !path_is_absolute(cmd[0]),
        !stays_within(module_dir, cmd[0]),
    ensures
        launch_plan(module_dir, cmd, cwd, local_exists) matches Err(e) && e.0 == Status::Forbidden,
{
}

/// A working directory that is named by a relative path with a separator
/// and leaves the module's directory is refused, whatever the executable.
pub proof fn lemma_escaping_directory_is_forbidden(
    module_dir: Seq<char>,
    cmd: Seq<Seq<char>>,
    dir: Seq<char>,
    local_exists: bool,
)
    requires
        cmd.len() > 0,
        !bare_name(dir),
        !path_is_absolute(dir),
        !stays_within(module_dir, dir),
    ensures
        launch_plan(module_dir, cmd, Some(dir), local_exists) matches Err(e) && e.0
            == Status::Forbidden,
{
}

/// The failure that stands for a worker whose output ended.
pub fn worker_closed() -> (r: WorkerError)
    ensures
        r.code@ == "worker_closed"@,
        r.message@ == "Worker closed"@,
{
    WorkerError { code: "worker_closed".to_owned(), message: "Worker closed".to_owned() }
}

/// Maps the end of a call to its response and says what cleanup is left.
pub fn conclude(completion: Completion) -> (r: (Result<Value, AppError>, Cleanup))
    ensures
        (response_model(r.0), r.1) == conclusion(completion),
{
    match completion {
        Completion::Answered(Ok(value)) => (Ok(value), Cleanup::Nothing),
        Completion::Answered(Err(e)) => (
            Err(AppError { status: Status::Internal, message: e.message }),
            Cleanup::Nothing,
        ),
        Completion::Closed => (
            Err(AppError::new(Status::Internal, "Worker closed")),
            Cleanup::Evict,
        ),
        Completion::Abandoned => (
            Err(AppError::new(Status::Internal, "Worker response failed")),
            Cleanup::Evict,
        ),
        Completion::TimedOut => (
            Err(AppError::new(Status::Timeout, "Worker timeout")),
            Cleanup::Deregister,
        ),
    }
}

} // verus!
