//! The lifecycle of the one container that runs a provisioning script:
//! `WriteScript -> Create -> Start -> Stream -> Wait -> Remove -> DeleteScript
//! -> Finished`, with the removal of the container and of the script file
//! reached on every path that made them, and their own errors ignored.

use vstd::prelude::*;
use crate::generator::GenEvent;
use crate::text::{has_prefix, join, owned, starts_with, trim, trimmed};

verus! {

/// The directory inside the container where the output directory is mounted
/// and the script runs.
pub const WORK_DIR: &'static str = "/work";

/// The name of the script file in the output directory.
pub const SCRIPT_FILE: &'static str = "generate.sh";

/// The script's path inside the container.
pub const SCRIPT_IN_CONTAINER: &'static str = "/work/generate.sh";

/// The platform that images are pulled and containers created for.
pub const PLATFORM: &'static str = "linux/amd64";

/// The memory ceiling of the container: 8 GiB.
pub const MEMORY_LIMIT: i64 = 8589934592;

/// The CPU scheduling period, in microseconds.
pub const CPU_PERIOD: i64 = 100000;

/// The CPU time allowed per period: two CPUs.
pub const CPU_QUOTA: i64 = 200000;

/// The exit code reported when waiting observed none.
pub const NO_EXIT_CODE: i64 = -1;

/// How containers of this tool are named, before a unique suffix.
pub const CONTAINER_PREFIX: &'static str = "symgen-";

/// What a container run is made of.
pub struct ExecutionSpec {
    pub image: String,
    pub script: String,
    pub memory_limit: i64,
    pub cpu_period: i64,
    pub cpu_quota: i64,
}

impl ExecutionSpec {
    /// A run of `script` in `image`, with the standard resource limits.
    pub fn new(image: String, script: String) -> (r: ExecutionSpec)
        ensures
            r.image == image,
            r.script == script,
            r.memory_limit == MEMORY_LIMIT,
            r.cpu_period == CPU_PERIOD,
            r.cpu_quota == CPU_QUOTA,
    {
        ExecutionSpec {
            image,
            script,
            memory_limit: MEMORY_LIMIT,
            cpu_period: CPU_PERIOD,
            cpu_quota: CPU_QUOTA,
        }
    }
}

/// The name of a container, from a unique suffix.
pub fn container_name(suffix: &str) -> (r: String)
    ensures
        r@ == CONTAINER_PREFIX@ + suffix@,
{
    join(CONTAINER_PREFIX, suffix)
}

/// Why a container run failed.
pub enum EngineFailure {
    ScriptWrite(String),
    Create(String),
    Start(String),
    Wait(String),
}

/// How a container run ended.
pub enum RunResult {
    Exit(i64),
    Failed(EngineFailure),
}

/// Where a container run stands. Each phase but `Finished` names the outside
/// step that the caller performs next and reports as an event.
pub enum EnginePhase {
    /// Write the script into the output directory and make it executable.
    WriteScript,
    /// Create the container with the mount and the resource limits.
    Create,
    /// Start the container.
    Start,
    /// Relay the log lines until the stream ends; a stream error ends it too.
    Stream,
    /// Wait for the exit code.
    Wait,
    /// Remove the container by force; its outcome is ignored.
    Remove(RunResult),
    /// Delete the script file; its outcome is ignored.
    DeleteScript(RunResult),
    Finished(RunResult),
}

/// What an outside step of a container run reports.
pub enum EngineEvent {
    Succeeded,
    Failed(String),
    LogsEnded,
    WaitReturned(Option<i64>),
}

/// The exit code that a wait observed, or the sentinel.
pub open spec fn observed_code(w: Option<i64>) -> i64 {
    match w {
        Some(c) => c,
        None => NO_EXIT_CODE,
    }
}

/// The phase that follows `phase` on `event`. An event that the phase does
/// not await leaves it unchanged.
pub open spec fn engine_advance_spec(phase: EnginePhase, event: EngineEvent) -> EnginePhase {
    match phase {
        EnginePhase::WriteScript => match event {
            EngineEvent::Succeeded => EnginePhase::Create,
            EngineEvent::Failed(m) => EnginePhase::Finished(
                RunResult::Failed(EngineFailure::ScriptWrite(m)),
            ),
            _ => phase,
        },
        EnginePhase::Create => match event {
            EngineEvent::Succeeded => EnginePhase::Start,
            EngineEvent::Failed(m) => EnginePhase::DeleteScript(
                RunResult::Failed(EngineFailure::Create(m)),
            ),
            _ => phase,
        },
        EnginePhase::Start => match event {
            EngineEvent::Succeeded => EnginePhase::Stream,
            EngineEvent::Failed(m) => EnginePhase::Remove(
                RunResult::Failed(EngineFailure::Start(m)),
            ),
            _ => phase,
        },
        EnginePhase::Stream => match event {
            EngineEvent::LogsEnded => EnginePhase::Wait,
            _ => phase,
        },
        EnginePhase::Wait => match event {
            EngineEvent::WaitReturned(w) => EnginePhase::Remove(RunResult::Exit(observed_code(w))),
            EngineEvent::Failed(m) => EnginePhase::Remove(RunResult::Failed(EngineFailure::Wait(m))),
            _ => phase,
        },
        EnginePhase::Remove(r) => match event {
            EngineEvent::Succeeded | EngineEvent::Failed(_) => EnginePhase::DeleteScript(r),
            _ => EnginePhase::Remove(r),
        },
        EnginePhase::DeleteScript(r) => match event {
            EngineEvent::Succeeded | EngineEvent::Failed(_) => EnginePhase::Finished(r),
            _ => EnginePhase::DeleteScript(r),
        },
        EnginePhase::Finished(_) => phase,
    }
}

/// The phase in which every container run starts.
pub fn engine_start() -> (r: EnginePhase)
    ensures
        r == EnginePhase::WriteScript,
{
    EnginePhase::WriteScript
}

/// Takes a container run one step further on what the last outside step
/// reported.
pub fn engine_advance(phase: EnginePhase, event: EngineEvent) -> (r: EnginePhase)
    ensures
        r == engine_advance_spec(phase, event),
{
    match phase {
        EnginePhase::WriteScript => match event {
            EngineEvent::Succeeded => EnginePhase::Create,
            EngineEvent::Failed(m) => EnginePhase::Finished(
                RunResult::Failed(EngineFailure::ScriptWrite(m)),
            ),
            _ => EnginePhase::WriteScript,
        },
        EnginePhase::Create => match event {
            EngineEvent::Succeeded => EnginePhase::Start,
            EngineEvent::Failed(m) => EnginePhase::DeleteScript(
                RunResult::Failed(EngineFailure::Create(m)),
            ),
            _ => EnginePhase::Create,
        },
        EnginePhase::Start => match event {
            EngineEvent::Succeeded => EnginePhase::Stream,
            EngineEvent::Failed(m) => EnginePhase::Remove(
                RunResult::Failed(EngineFailure::Start(m)),
            ),
            _ => EnginePhase::Start,
        },
        EnginePhase::Stream => match event {
            EngineEvent::LogsEnded => EnginePhase::Wait,
            _ => EnginePhase::Stream,
        },
        EnginePhase::Wait => match event {
            EngineEvent::WaitReturned(w) => {
                let code = match w {
                    Some(c) => c,
                    None => NO_EXIT_CODE,
                };
                EnginePhase::Remove(RunResult::Exit(code))
            },
            EngineEvent::Failed(m) => EnginePhase::Remove(RunResult::Failed(EngineFailure::Wait(m))),
            _ => EnginePhase::Wait,
        },
        EnginePhase::Remove(r) => match event {
            EngineEvent::Succeeded | EngineEvent::Failed(_) => EnginePhase::DeleteScript(r),
            _ => EnginePhase::Remove(r),
        },
        EnginePhase::DeleteScript(r) => match event {
            EngineEvent::Succeeded | EngineEvent::Failed(_) => EnginePhase::Finished(r),
            _ => EnginePhase::DeleteScript(r),
        },
        EnginePhase::Finished(r) => EnginePhase::Finished(r),
    }
}

/// The phases in which a container exists and has not been removed.
pub open spec fn holds_container(p: EnginePhase) -> bool {
    p is Start || p is Stream || p is Wait
}

/// The phases in which the script file exists and has not been deleted.
pub open spec fn holds_script(p: EnginePhase) -> bool {
    holds_container(p) || p is Create || p is Remove
}

/// A created container is never left behind: from a phase that holds one,
/// every step keeps it or goes on to its removal. Likewise a written script
/// file is kept until the step that deletes it.
pub proof fn lemma_cleanup_on_every_path(p: EnginePhase, e: EngineEvent)
    ensures
        holds_container(p) ==> holds_container(engine_advance_spec(p, e))
            || engine_advance_spec(p, e) is Remove,
        holds_script(p) ==> holds_script(engine_advance_spec(p, e)) || engine_advance_spec(
            p,
            e,
        ) is DeleteScript,
{
}

impl RunResult {
    /// What a finished container run reports to the generation.
    pub fn into_event(self) -> (r: GenEvent)
        ensures
            match self {
                RunResult::Exit(c) => r == GenEvent::Exited(c),
                RunResult::Failed(f) => r matches GenEvent::RunFailed(m) && m@ == failure_text(f),
            },
    {
        match self {
            RunResult::Exit(c) => GenEvent::Exited(c),
            RunResult::Failed(f) => GenEvent::RunFailed(f.describe()),
        }
    }
}

/// The sentence that describes a failure.
pub open spec fn failure_text(f: EngineFailure) -> Seq<char> {
    match f {
        EngineFailure::ScriptWrite(m) => "Failed to write script: "@ + m@,
        EngineFailure::Create(m) => "Failed to create container: "@ + m@,
        EngineFailure::Start(m) => "Failed to start container: "@ + m@,
        EngineFailure::Wait(m) => "Failed to wait for container: "@ + m@,
    }
}

impl EngineFailure {
    /// A sentence on the failure, with the outside message.
    pub fn describe(self) -> (r: String)
        ensures
            r@ == failure_text(self),
    {
        match self {
            EngineFailure::ScriptWrite(m) => join("Failed to write script: ", m.as_str()),
            EngineFailure::Create(m) => join("Failed to create container: ", m.as_str()),
            EngineFailure::Start(m) => join("Failed to start container: ", m.as_str()),
            EngineFailure::Wait(m) => join("Failed to wait for container: ", m.as_str()),
        }
    }
}

/// A log line that marks progress: it begins with `>>>` or `===`.
pub open spec fn is_progress_marker(line: Seq<char>) -> bool {
    has_prefix(line, ">>>"@) || has_prefix(line, "==="@)
}

/// Whether a trimmed log line marks progress.
pub fn marks_progress(trimmed: &str) -> (r: bool)
    ensures
        r == is_progress_marker(trimmed@),
{
    starts_with(trimmed, ">>>") || starts_with(trimmed, "===")
}

/// The progress message that a log line carries: the trimmed line, where it
/// marks progress.
pub fn progress_message(line: &str) -> (r: Option<String>)
    ensures
        relayed_as(r, trimmed(line@)),
{
    let t = trim(line);
    if marks_progress(t) {
        Some(owned(t))
    } else {
        None
    }
}

/// `r` is the trimmed line `t` where `t` marks progress, and nothing
/// otherwise.
pub open spec fn relayed_as(r: Option<String>, t: Seq<char>) -> bool {
    match r {
        Some(s) => is_progress_marker(t) && s@ == t,
        None => !is_progress_marker(t),
    }
}

} // verus!
