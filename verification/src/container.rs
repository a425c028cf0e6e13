//! The isolation bootstrap pipeline, as two verified state machines.
//!
//! The parent controller and the child jail bootstrap both interleave
//! decisions with irreversible kernel effects (cgroup files, namespace
//! creation, root change, mounting, process handover).  Each machine owns
//! the decisions: given its current state it names the single next effect
//! to perform (`parent_action` / `child_action`), and given the outcome of
//! that effect it moves to its next state (`parent_step` / `child_step`).
//! A thin unverified driver performs the effects and reports the outcomes;
//! everything about ordering, paths, argument vectors and error
//! classification is decided — and verified — here.

use vstd::prelude::*;
use vstd::string::StringExecFns;

use crate::cgroups;
use crate::decimal::decimal_seq;
use crate::errors::IsolateError;

verus! {

/// What the caller asked to run inside the container.
pub struct IsolationRequest {
    /// The target command, looked up inside the jail.
    pub command: String,
    /// The target command's arguments, in order.
    pub arguments: Vec<String>,
}

/// The overall result of one orchestration.
pub struct RunReport {
    /// The child's exit status, or the first fatal error of the pipeline.
    pub outcome: Result<i32, IsolateError>,
    /// A resource-cleanup failure observed after the primary outcome was
    /// already decided; reported separately so it never masks it.
    pub cleanup: Option<IsolateError>,
}

/// One irreversible outside effect the parent driver must perform next.
pub enum Action {
    /// Report whether the directory at `path` exists.
    CheckGroupDir { path: String },
    /// Create the directory at `path`.
    CreateGroupDir { path: String },
    /// Write `contents` into the control file at `path`.
    WriteControlFile { path: String, contents: String },
    /// Move the current process into the named fresh isolation domains.
    CreateNamespaces { hostname_domain: bool, process_ids: bool, mount_view: bool },
    /// Spawn a new instance of `program` with the argument vector `argv`,
    /// standard streams inherited, and keep a handle on it.
    SpawnChild { program: String, argv: Vec<String> },
    /// Block until the spawned child terminates.
    WaitChild,
    /// Remove the directory at `path`.
    RemoveGroupDir { path: String },
}

/// The outcome of one performed effect, reported back by the driver.
pub enum Event {
    /// Reply to `CheckGroupDir`: whether the directory exists.
    DirChecked { exists: bool },
    /// The requested effect succeeded.
    Succeeded,
    /// The requested effect failed, with the system's complaint.
    Failed { detail: String },
    /// Reply to `WaitChild`: the child terminated with this exit status.
    ChildExited { status: i32 },
}

/// Where the parent controller stands in its pipeline.
///
/// The setup phases run in this order: check for the group directory,
/// create it if absent, write the process ceiling, enrol the parent, then
/// create the namespaces, spawn the re-invocation and wait for it.  Both
/// cleanup phases carry the already-decided primary outcome, so that a
/// cleanup failure can only ever be reported beside it, never in place of
/// it.
pub enum Phase {
    /// Ask whether the group directory already exists.
    CheckDir,
    /// Create the group directory.
    CreateDir,
    /// Write the process-count ceiling into the limit file.
    WriteLimit,
    /// Enrol the parent process in the membership file.
    WriteProcs,
    /// Request the fresh hostname, process-id and mount namespaces.
    Unshare,
    /// Spawn the child re-invocation, born inside the new namespaces.
    Spawn,
    /// Wait for the child to terminate.
    Wait,
    /// Cleanup: ask whether the group directory still exists.
    CheckDirCleanup { pending: Result<i32, IsolateError> },
    /// Cleanup: remove the group directory.
    RemoveDir { pending: Result<i32, IsolateError> },
    /// Terminal: the orchestration is over.
    Done { report: RunReport },
}

/// The full state of the parent controller.
pub struct ParentState {
    /// Current phase of the pipeline.
    pub phase: Phase,
    /// The parent's own process id, enrolled in the group.
    pub pid: u64,
    /// What to run inside the container.
    pub request: IsolationRequest,
}

/// Initial parent state for a request.
pub open spec fn run_start_spec(pid: u64, command: String, arguments: Vec<String>) -> ParentState {
    ParentState {
        phase: Phase::CheckDir,
        pid,
        request: IsolationRequest { command, arguments },
    }
}

/// Starts the parent controller: the first action will be the resource
/// limiter's existence check, so that resource setup strictly precedes
/// namespace creation and the spawn.
pub fn run_start(pid: u64, command: String, arguments: Vec<String>) -> (s: ParentState)
    ensures
        s == run_start_spec(pid, command, arguments),
{
    ParentState {
        phase: Phase::CheckDir,
        pid,
        request: IsolationRequest { command, arguments },
    }
}

/// The parent transition relation, on phases.
///
/// A setup failure aborts at once: nothing was spawned and no namespace
/// exists yet, so the error is propagated without cleanup.  From namespace
/// creation onwards every failure — and every child exit — still passes
/// through the cleanup phases, so the group is torn down best-effort before
/// the pipeline reports.  An event that does not answer the phase's action
/// leaves the phase unchanged.
pub open spec fn parent_phase_step(phase: Phase, ev: Event) -> Phase {
    match (phase, ev) {
        (Phase::CheckDir, Event::DirChecked { exists }) => if exists {
            Phase::WriteLimit
        } else {
            Phase::CreateDir
        },
        (Phase::CreateDir, Event::Succeeded) => Phase::WriteLimit,
        (Phase::CreateDir, Event::Failed { detail }) => Phase::Done {
            report: RunReport {
                outcome: Err(IsolateError::ResourceSetupError { detail }),
                cleanup: None,
            },
        },
        (Phase::WriteLimit, Event::Succeeded) => Phase::WriteProcs,
        (Phase::WriteLimit, Event::Failed { detail }) => Phase::Done {
            report: RunReport {
                outcome: Err(IsolateError::ResourceSetupError { detail }),
                cleanup: None,
            },
        },
        (Phase::WriteProcs, Event::Succeeded) => Phase::Unshare,
        (Phase::WriteProcs, Event::Failed { detail }) => Phase::Done {
            report: RunReport {
                outcome: Err(IsolateError::ResourceSetupError { detail }),
                cleanup: None,
            },
        },
        (Phase::Unshare, Event::Succeeded) => Phase::Spawn,
        (Phase::Unshare, Event::Failed { detail }) => Phase::CheckDirCleanup {
            pending: Err(IsolateError::NamespaceCreationError { detail }),
        },
        (Phase::Spawn, Event::Succeeded) => Phase::Wait,
        (Phase::Spawn, Event::Failed { detail }) => Phase::CheckDirCleanup {
            pending: Err(IsolateError::ChildWaitError { detail }),
        },
        (Phase::Wait, Event::ChildExited { status }) => Phase::CheckDirCleanup {
            pending: Ok(status),
        },
        (Phase::Wait, Event::Failed { detail }) => Phase::CheckDirCleanup {
            pending: Err(IsolateError::ChildWaitError { detail }),
        },
        (Phase::CheckDirCleanup { pending }, Event::DirChecked { exists }) => if exists {
            Phase::RemoveDir { pending }
        } else {
            Phase::Done { report: RunReport { outcome: pending, cleanup: None } }
        },
        (Phase::RemoveDir { pending }, Event::Succeeded) => Phase::Done {
            report: RunReport { outcome: pending, cleanup: None },
        },
        (Phase::RemoveDir { pending }, Event::Failed { detail }) => Phase::Done {
            report: RunReport {
                outcome: pending,
                cleanup: Some(IsolateError::ResourceCleanupError { detail }),
            },
        },
        (p, _) => p,
    }
}

/// The parent transition relation, on full states: only the phase moves.
pub open spec fn parent_step_spec(s: ParentState, ev: Event) -> ParentState {
    ParentState { phase: parent_phase_step(s.phase, ev), ..s }
}

/// Advances the parent controller by the outcome of its last action.
pub fn parent_step(s: ParentState, ev: Event) -> (r: ParentState)
    ensures
        r == parent_step_spec(s, ev),
{
    let ParentState { phase, pid, request } = s;
    let next: Phase = match (phase, ev) {
        (Phase::CheckDir, Event::DirChecked { exists }) => if exists {
            Phase::WriteLimit
        } else {
            Phase::CreateDir
        },
        (Phase::CreateDir, Event::Succeeded) => Phase::WriteLimit,
        (Phase::CreateDir, Event::Failed { detail }) => Phase::Done {
            report: RunReport {
                outcome: Err(IsolateError::ResourceSetupError { detail }),
                cleanup: None,
            },
        },
        (Phase::WriteLimit, Event::Succeeded) => Phase::WriteProcs,
        (Phase::WriteLimit, Event::Failed { detail }) => Phase::Done {
            report: RunReport {
                outcome: Err(IsolateError::ResourceSetupError { detail }),
                cleanup: None,
            },
        },
        (Phase::WriteProcs, Event::Succeeded) => Phase::Unshare,
        (Phase::WriteProcs, Event::Failed { detail }) => Phase::Done {
            report: RunReport {
                outcome: Err(IsolateError::ResourceSetupError { detail }),
                cleanup: None,
            },
        },
        (Phase::Unshare, Event::Succeeded) => Phase::Spawn,
        (Phase::Unshare, Event::Failed { detail }) => Phase::CheckDirCleanup {
            pending: Err(IsolateError::NamespaceCreationError { detail }),
        },
        (Phase::Spawn, Event::Succeeded) => Phase::Wait,
        (Phase::Spawn, Event::Failed { detail }) => Phase::CheckDirCleanup {
            pending: Err(IsolateError::ChildWaitError { detail }),
        },
        (Phase::Wait, Event::ChildExited { status }) => Phase::CheckDirCleanup {
            pending: Ok(status),
        },
        (Phase::Wait, Event::Failed { detail }) => Phase::CheckDirCleanup {
            pending: Err(IsolateError::ChildWaitError { detail }),
        },
        (Phase::CheckDirCleanup { pending }, Event::DirChecked { exists }) => if exists {
            Phase::RemoveDir { pending }
        } else {
            Phase::Done { report: RunReport { outcome: pending, cleanup: None } }
        },
        (Phase::RemoveDir { pending }, Event::Succeeded) => Phase::Done {
            report: RunReport { outcome: pending, cleanup: None },
        },
        (Phase::RemoveDir { pending }, Event::Failed { detail }) => Phase::Done {
            report: RunReport {
                outcome: pending,
                cleanup: Some(IsolateError::ResourceCleanupError { detail }),
            },
        },
        (p, _) => p,
    };
    ParentState { phase: next, pid, request }
}

/// The argument vector the parent hands its re-invocation: the internal
/// child-mode marker, then the target command, then the target arguments.
pub open spec fn child_argv_seq(command: Seq<char>, arguments: Seq<Seq<char>>) -> Seq<
    Seq<char>,
> {
    seq!["child"@, command] + arguments
}

/// Builds the re-invocation argument vector for a request.
pub fn child_argv(command: &String, arguments: &Vec<String>) -> (v: Vec<String>)
    ensures
        v.deep_view() == child_argv_seq(command@, arguments.deep_view()),
{
    let mut v: Vec<String> = Vec::new();
    v.push(String::from_str("child"));
    v.push(command.clone());
    let n = arguments.len();
    let mut i: usize = 0;
    while i < n
        invariant
            n == arguments.len(),
            i <= n,
            v.deep_view() =~= child_argv_seq(command@, arguments.deep_view().take(i as int)),
        decreases n - i,
    {
        let ghost prev = v.deep_view();
        let x = arguments[i].clone();
        proof {
            assert(x.deep_view() == arguments.deep_view()[i as int]);
        }
        v.push(x);
        proof {
            assert(v.deep_view() =~= prev.push(arguments.deep_view()[i as int]));
            assert(child_argv_seq(command@, arguments.deep_view().take(i + 1))
                =~= child_argv_seq(command@, arguments.deep_view().take(i as int)).push(
                arguments.deep_view()[i as int],
            ));
        }
        i = i + 1;
    }
    proof {
        assert(arguments.deep_view().take(n as int) =~= arguments.deep_view());
        assert(v.deep_view() =~= child_argv_seq(command@, arguments.deep_view()));
    }
    v
}

/// Program the parent respawns: its own executable image.
pub open spec fn self_program_seq() -> Seq<char> {
    "/proc/self/exe"@
}

/// What `parent_action` must emit in each phase: the resource-limiter
/// effects use the group's fixed paths and decimal contents, the namespace
/// request names all three isolation domains, and the spawn re-invokes this
/// very program with the child-mode argument vector for the request.
pub open spec fn parent_action_spec(s: ParentState, a: Option<Action>) -> bool {
    match s.phase {
        Phase::CheckDir => a matches Some(Action::CheckGroupDir { path })
            && path@ == cgroups::group_dir_seq(),
        Phase::CreateDir => a matches Some(Action::CreateGroupDir { path })
            && path@ == cgroups::group_dir_seq(),
        Phase::WriteLimit => a matches Some(Action::WriteControlFile { path, contents })
            && path@ == cgroups::limit_file_seq()
            && contents@ == decimal_seq(cgroups::PROCESS_LIMIT as nat),
        Phase::WriteProcs => a matches Some(Action::WriteControlFile { path, contents })
            && path@ == cgroups::procs_file_seq()
            && contents@ == decimal_seq(s.pid as nat),
        Phase::Unshare => a matches Some(Action::CreateNamespaces {
            hostname_domain,
            process_ids,
            mount_view,
        }) && hostname_domain && process_ids && mount_view,
        Phase::Spawn => a matches Some(Action::SpawnChild { program, argv })
            && program@ == self_program_seq()
            && argv.deep_view() == child_argv_seq(
            s.request.command@,
            s.request.arguments.deep_view(),
        ),
        Phase::Wait => a matches Some(Action::WaitChild),
        Phase::CheckDirCleanup { .. } => a matches Some(Action::CheckGroupDir { path })
            && path@ == cgroups::group_dir_seq(),
        Phase::RemoveDir { .. } => a matches Some(Action::RemoveGroupDir { path })
            && path@ == cgroups::group_dir_seq(),
        Phase::Done { .. } => a is None,
    }
}

/// Names the next effect the driver must perform, or nothing once done.
pub fn parent_action(s: &ParentState) -> (a: Option<Action>)
    ensures
        parent_action_spec(*s, a),
{
    match &s.phase {
        Phase::CheckDir => Some(Action::CheckGroupDir { path: cgroups::group_dir_path() }),
        Phase::CreateDir => Some(Action::CreateGroupDir { path: cgroups::group_dir_path() }),
        Phase::WriteLimit => Some(
            Action::WriteControlFile {
                path: cgroups::limit_file_path(),
                contents: cgroups::limit_file_contents(),
            },
        ),
        Phase::WriteProcs => Some(
            Action::WriteControlFile {
                path: cgroups::procs_file_path(),
                contents: cgroups::procs_file_contents(s.pid),
            },
        ),
        Phase::Unshare => Some(
            Action::CreateNamespaces {
                hostname_domain: true,
                process_ids: true,
                mount_view: true,
            },
        ),
        Phase::Spawn => Some(
            Action::SpawnChild {
                program: String::from_str("/proc/self/exe"),
                argv: child_argv(&s.request.command, &s.request.arguments),
            },
        ),
        Phase::Wait => Some(Action::WaitChild),
        Phase::CheckDirCleanup { .. } => Some(
            Action::CheckGroupDir { path: cgroups::group_dir_path() },
        ),
        Phase::RemoveDir { .. } => Some(
            Action::RemoveGroupDir { path: cgroups::group_dir_path() },
        ),
        Phase::Done { .. } => None,
    }
}

} // verus!
