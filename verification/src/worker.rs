//! The speech worker: where its files are found, how it is started, and the
//! event that tells where it listens.
use vstd::prelude::*;
use crate::text::{str_equal, owned};

verus! {

/// Where the project files (`asr/server.py`) were found.
#[derive(Debug, Clone, Copy, PartialEq, Eq, Structural)]
pub enum ProjectRoot {
    /// `VIETNOTE_PROJECT_ROOT`.
    FromEnvironment,
    /// The source tree the app was built from.
    Development,
    /// The app's resource directory.
    Resources,
    /// The `_up_` directory inside the resources.
    ResourcesUp,
}

pub open spec fn missing_server_message() -> Seq<char> {
    "Không tìm thấy asr/server.py trong tài nguyên ứng dụng"@
}

/// The first place, in order of preference, that holds the worker's files.
pub fn project_root_source(env_has_server: bool, dev_has_server: bool, resources_have_server: bool, up_has_server: bool) -> (r: Result<ProjectRoot, String>)
    ensures
        env_has_server ==> r == Ok::<ProjectRoot, String>(ProjectRoot::FromEnvironment),
        !env_has_server && dev_has_server ==> r == Ok::<ProjectRoot, String>(ProjectRoot::Development),
        !env_has_server && !dev_has_server && resources_have_server ==> r == Ok::<ProjectRoot, String>(ProjectRoot::Resources),
        !env_has_server && !dev_has_server && !resources_have_server && up_has_server ==> r == Ok::<ProjectRoot, String>(ProjectRoot::ResourcesUp),
        !env_has_server && !dev_has_server && !resources_have_server && !up_has_server ==> (r matches Err(e) && e@ == missing_server_message()),
{
    if env_has_server {
        Ok(ProjectRoot::FromEnvironment)
    } else if dev_has_server {
        Ok(ProjectRoot::Development)
    } else if resources_have_server {
        Ok(ProjectRoot::Resources)
    } else if up_has_server {
        Ok(ProjectRoot::ResourcesUp)
    } else {
        Err(owned("Không tìm thấy asr/server.py trong tài nguyên ứng dụng"))
    }
}

/// The program that runs the worker.
#[derive(Debug, Clone, Copy, PartialEq, Eq, Structural)]
pub enum WorkerProgram {
    /// The packaged worker executable; it takes no arguments.
    Packaged,
    /// The Python of the project's virtual environment (the default Python).
    BundledPython,
    /// The Python named by `VIETNOTE_PYTHON` (overrides the default).
    EnvironmentPython,
}

pub open spec fn missing_worker_message() -> Seq<char> {
    "Thiếu bộ xử lý âm thanh đi kèm ứng dụng"@
}

/// The packaged worker first; then the Python that `VIETNOTE_PYTHON` names,
/// when it exists, which overrides the project's own; then the Python of the
/// project's virtual environment.
pub fn worker_program(packaged_exists: bool, bundled_python_exists: bool, env_python_exists: bool) -> (r: Result<WorkerProgram, String>)
    ensures
        packaged_exists ==> r == Ok::<WorkerProgram, String>(WorkerProgram::Packaged),
        !packaged_exists && env_python_exists ==> r == Ok::<WorkerProgram, String>(WorkerProgram::EnvironmentPython),
        !packaged_exists && !env_python_exists && bundled_python_exists ==> r == Ok::<WorkerProgram, String>(WorkerProgram::BundledPython),
        !packaged_exists && !bundled_python_exists && !env_python_exists ==> (r matches Err(e) && e@ == missing_worker_message()),
{
    if packaged_exists {
        Ok(WorkerProgram::Packaged)
    } else if env_python_exists {
        Ok(WorkerProgram::EnvironmentPython)
    } else if bundled_python_exists {
        Ok(WorkerProgram::BundledPython)
    } else {
        Err(owned("Thiếu bộ xử lý âm thanh đi kèm ứng dụng"))
    }
}

/// Where the worker's model cache lives: inside the project when it has a
/// virtual environment (a development checkout), else in the app's data.
#[derive(Debug, Clone, Copy, PartialEq, Eq, Structural)]
pub enum WorkerCache {
    /// `.cache/huggingface` in the project.
    Project,
    /// `cache/huggingface` in the app's data directory.
    AppData,
}

pub fn worker_cache_location(venv_exists: bool) -> (r: WorkerCache)
    ensures
        r == (if venv_exists { WorkerCache::Project } else { WorkerCache::AppData }),
{
    if venv_exists { WorkerCache::Project } else { WorkerCache::AppData }
}

/// A worker process is started only when none is running; a running one is
/// kept.
pub fn worker_start_needed(running: bool) -> (r: bool)
    ensures
        r == !running,
{
    !running
}

/// The arguments the worker program takes: a Python runs `asr/server.py`
/// unbuffered.
pub fn worker_arguments(program: WorkerProgram) -> (r: Vec<&'static str>)
    ensures
        program == WorkerProgram::Packaged ==> r@.len() == 0,
        program != WorkerProgram::Packaged ==> (r@.len() == 2 && r@[0]@ == "-u"@ && r@[1]@ == "asr/server.py"@),
{
    let mut args: Vec<&'static str> = Vec::new();
    match program {
        WorkerProgram::Packaged => {},
        _ => {
            args.push("-u");
            args.push("asr/server.py");
        },
    }
    args
}

/// The worker's "ready" event names the port it listens on; the port is
/// read as the low 16 bits of the number sent.
pub fn worker_ready_port(event_type: Option<&str>, port: Option<u64>) -> (r: Option<u16>)
    ensures
        r == worker_ready_port_spec(event_type, port),
{
    match (event_type, port) {
        (Some(t), Some(p)) => {
            if str_equal(t, "ready") {
                let low = (p & 0xffff) as u16;
                assert(p & 0xffff == p % 65536) by (bit_vector);
                Some(low)
            } else {
                None
            }
        },
        _ => None,
    }
}

/// What the reader of the worker's output does with a line (every line is
/// kept in the worker log first). Each start of the worker opens a new
/// session; a reader whose session is no longer the current one stops.
/// Otherwise it reads on, keeping the worker's diagnostics in the log, and
/// connects once, at the first "ready" event.
#[derive(Debug, Clone, Copy, PartialEq, Eq, Structural)]
pub enum WorkerLineStep {
    /// A newer session took over: stop reading.
    Stop,
    /// Nothing to act on: read on.
    Skip,
    /// Connect to the worker on this port, then read on.
    Connect(u16),
}

/// The step for one line of worker output, given the reader's session, the
/// current session, whether it has connected already, and the line's `type`
/// and `port` fields (when the line is a JSON object that has them).
pub fn worker_output_step(session: usize, current: usize, connected: bool, event_type: Option<&str>, port: Option<u64>) -> (r: WorkerLineStep)
    ensures
        session != current ==> r == WorkerLineStep::Stop,
        session == current && connected ==> r == WorkerLineStep::Skip,
        session == current && !connected ==> match worker_ready_port_spec(event_type, port) {
            Some(p) => r == WorkerLineStep::Connect(p),
            None => r == WorkerLineStep::Skip,
        },
{
    if session != current {
        return WorkerLineStep::Stop;
    }
    if connected {
        return WorkerLineStep::Skip;
    }
    match worker_ready_port(event_type, port) {
        Some(p) => WorkerLineStep::Connect(p),
        None => WorkerLineStep::Skip,
    }
}

/// The port named by a worker event, as `worker_ready_port` reads it.
pub open spec fn worker_ready_port_spec(event_type: Option<&str>, port: Option<u64>) -> Option<u16> {
    match (event_type, port) {
        (Some(t), Some(p)) => if t@ == "ready"@ { Some((p % 65536) as u16) } else { None },
        _ => None,
    }
}

/// Whether a reader still speaks for the worker: only while its session is
/// the current one may it forward messages, hold the connection, or report
/// the connection closed.
pub fn worker_session_current(session: usize, current: usize) -> (r: bool)
    ensures
        r == (session == current),
{
    session == current
}

} // verus!
