//! The jail bootstrap: the child controller's verified state machine.
//!
//! Running inside the fresh namespaces, the child sets the container
//! hostname, changes its filesystem root to the prepared jail directory and
//! its working directory to the new root, mounts the process-information
//! pseudo-filesystem, and finally replaces its own process image with the
//! target command.  The order is load-bearing: the hostname write is safe
//! only inside a private hostname namespace, the working-directory change
//! must follow the root change or the jail is defeated, the mount must
//! follow the root change or it would be hidden by it, and the handover
//! must come last because nothing in this process runs after it succeeds.

use vstd::prelude::*;
use vstd::string::StringExecFns;

use crate::container::IsolationRequest;
use crate::errors::IsolateError;

verus! {

/// One irreversible outside effect the child driver must perform next.
pub enum JailAction {
    /// Set the hostname of the (private) hostname namespace.
    SetHostname { name: String },
    /// Change the process's filesystem root to the directory at `path`.
    ChangeRoot { path: String },
    /// Change the current working directory to `path`.
    ChangeWorkdir { path: String },
    /// Mount the filesystem type `fstype` from `source` at `target`, with
    /// no special mount flags.
    MountFilesystem { source: String, target: String, fstype: String },
    /// Replace the process image with `program`, handing it `argv` as its
    /// full argument vector (argument zero included).  Does not return on
    /// success.
    Execute { program: String, argv: Vec<String> },
}

/// The outcome of one performed jail effect.
pub enum JailEvent {
    /// The requested effect succeeded.
    Succeeded,
    /// The requested effect failed, with the system's complaint.
    Failed { detail: String },
}

/// Where the jail bootstrap stands.
///
/// There is no success terminal: a successful handover replaces the process
/// image, so the machine can only ever terminate in `Failed`.
pub enum JailPhase {
    /// Set the container hostname.
    SetHostname,
    /// Enter the jail root.
    EnterRoot,
    /// Move the working directory to the new root.
    EnterWorkdir,
    /// Mount `/proc` inside the new root.
    MountProc,
    /// Hand the process over to the target command.
    Execute,
    /// Terminal: a step failed and the child must exit non-zero.
    Failed { error: IsolateError },
}

/// The full state of the jail bootstrap.
pub struct ChildState {
    /// Current phase of the bootstrap.
    pub phase: JailPhase,
    /// What to hand the process over to.
    pub request: IsolationRequest,
}

/// Initial child state for a request.
pub open spec fn child_start_spec(command: String, arguments: Vec<String>) -> ChildState {
    ChildState {
        phase: JailPhase::SetHostname,
        request: IsolationRequest { command, arguments },
    }
}

/// Starts the jail bootstrap.  It depends only on the command and
/// arguments handed to it: nothing here assumes that the parent controller
/// spawned this process.
pub fn child_start(command: String, arguments: Vec<String>) -> (s: ChildState)
    ensures
        s == child_start_spec(command, arguments),
{
    ChildState {
        phase: JailPhase::SetHostname,
        request: IsolationRequest { command, arguments },
    }
}

/// The child transition relation, on phases.
///
/// Each step's failure is classified by the step: the hostname write, the
/// two jail-entry moves (root and working directory), the mount, and the
/// handover.  A failure is terminal and absorbs every later event; an event
/// that does not answer the phase's action leaves the phase unchanged.
pub open spec fn child_phase_step(phase: JailPhase, ev: JailEvent) -> JailPhase {
    match (phase, ev) {
        (JailPhase::SetHostname, JailEvent::Succeeded) => JailPhase::EnterRoot,
        (JailPhase::SetHostname, JailEvent::Failed { detail }) => JailPhase::Failed {
            error: IsolateError::HostnameError { detail },
        },
        (JailPhase::EnterRoot, JailEvent::Succeeded) => JailPhase::EnterWorkdir,
        (JailPhase::EnterRoot, JailEvent::Failed { detail }) => JailPhase::Failed {
            error: IsolateError::JailEntryError { detail },
        },
        (JailPhase::EnterWorkdir, JailEvent::Succeeded) => JailPhase::MountProc,
        (JailPhase::EnterWorkdir, JailEvent::Failed { detail }) => JailPhase::Failed {
            error: IsolateError::JailEntryError { detail },
        },
        (JailPhase::MountProc, JailEvent::Succeeded) => JailPhase::Execute,
        (JailPhase::MountProc, JailEvent::Failed { detail }) => JailPhase::Failed {
            error: IsolateError::MountError { detail },
        },
        (JailPhase::Execute, JailEvent::Failed { detail }) => JailPhase::Failed {
            error: IsolateError::ExecError { detail },
        },
        (p, _) => p,
    }
}

/// The child transition relation, on full states: only the phase moves.
pub open spec fn child_step_spec(s: ChildState, ev: JailEvent) -> ChildState {
    ChildState { phase: child_phase_step(s.phase, ev), ..s }
}

/// Advances the jail bootstrap by the outcome of its last action.
pub fn child_step(s: ChildState, ev: JailEvent) -> (r: ChildState)
    ensures
        r == child_step_spec(s, ev),
{
    let ChildState { phase, request } = s;
    let next: JailPhase = match (phase, ev) {
        (JailPhase::SetHostname, JailEvent::Succeeded) => JailPhase::EnterRoot,
        (JailPhase::SetHostname, JailEvent::Failed { detail }) => JailPhase::Failed {
            error: IsolateError::HostnameError { detail },
        },
        (JailPhase::EnterRoot, JailEvent::Succeeded) => JailPhase::EnterWorkdir,
        (JailPhase::EnterRoot, JailEvent::Failed { detail }) => JailPhase::Failed {
            error: IsolateError::JailEntryError { detail },
        },
        (JailPhase::EnterWorkdir, JailEvent::Succeeded) => JailPhase::MountProc,
        (JailPhase::EnterWorkdir, JailEvent::Failed { detail }) => JailPhase::Failed {
            error: IsolateError::JailEntryError { detail },
        },
        (JailPhase::MountProc, JailEvent::Succeeded) => JailPhase::Execute,
        (JailPhase::MountProc, JailEvent::Failed { detail }) => JailPhase::Failed {
            error: IsolateError::MountError { detail },
        },
        (JailPhase::Execute, JailEvent::Failed { detail }) => JailPhase::Failed {
            error: IsolateError::ExecError { detail },
        },
        (p, _) => p,
    };
    ChildState { phase: next, request }
}

/// Hostname given to the container.
pub open spec fn container_hostname_seq() -> Seq<char> {
    "carapace-container"@
}

/// The prepared directory that becomes the container's root, relative to
/// the launcher's working directory.  It must pre-exist with everything
/// the target command needs; the bootstrap fails loudly if it is absent.
pub open spec fn jail_root_seq() -> Seq<char> {
    "rootfs"@
}

/// The argument vector the target command receives: the command's own name
/// as argument zero, then the requested arguments.
pub open spec fn handover_argv_seq(command: Seq<char>, arguments: Seq<Seq<char>>) -> Seq<
    Seq<char>,
> {
    seq![command] + arguments
}

/// Builds the handover argument vector for a request.
pub fn handover_argv(command: &String, arguments: &Vec<String>) -> (v: Vec<String>)
    ensures
        v.deep_view() == handover_argv_seq(command@, arguments.deep_view()),
{
    let mut v: Vec<String> = Vec::new();
    v.push(command.clone());
    let n = arguments.len();
    let mut i: usize = 0;
    while i < n
        invariant
            n == arguments.len(),
            i <= n,
            v.deep_view() =~= handover_argv_seq(
                command@,
                arguments.deep_view().take(i as int),
            ),
        decreases n - i,
    {
        let ghost prev = v.deep_view();
        let x = arguments[i].clone();
        proof {
            assert(x.deep_view() == arguments.deep_view()[i as int]);
        }
        v.push(x);
        proof {
            assert(v.deep_view() =~= prev.push(arguments.deep_view()[i as int]));
            assert(handover_argv_seq(command@, arguments.deep_view().take(i + 1))
                =~= handover_argv_seq(command@, arguments.deep_view().take(i as int)).push(
                arguments.deep_view()[i as int],
            ));
        }
        i = i + 1;
    }
    proof {
        assert(arguments.deep_view().take(n as int) =~= arguments.deep_view());
        assert(v.deep_view() =~= handover_argv_seq(command@, arguments.deep_view()));
    }
    v
}

/// What `child_action` must emit in each phase: the fixed hostname, the
/// fixed jail root, the root of the new filesystem view as working
/// directory, the `/proc` mount, and the handover to the requested command
/// with itself as argument zero.
pub open spec fn child_action_spec(s: ChildState, a: Option<JailAction>) -> bool {
    match s.phase {
        JailPhase::SetHostname => a matches Some(JailAction::SetHostname { name })
            && name@ == container_hostname_seq(),
        JailPhase::EnterRoot => a matches Some(JailAction::ChangeRoot { path })
            && path@ == jail_root_seq(),
        JailPhase::EnterWorkdir => a matches Some(JailAction::ChangeWorkdir { path })
            && path@ == "/"@,
        JailPhase::MountProc => a matches Some(JailAction::MountFilesystem {
            source,
            target,
            fstype,
        }) && source@ == "proc"@ && target@ == "/proc"@ && fstype@ == "proc"@,
        JailPhase::Execute => a matches Some(JailAction::Execute { program, argv })
            && program@ == s.request.command@
            && argv.deep_view() == handover_argv_seq(
            s.request.command@,
            s.request.arguments.deep_view(),
        ),
        JailPhase::Failed { .. } => a is None,
    }
}

/// Names the next effect the child driver must perform, or nothing once
/// the bootstrap has failed (the driver then exits non-zero).
pub fn child_action(s: &ChildState) -> (a: Option<JailAction>)
    ensures
        child_action_spec(*s, a),
{
    match &s.phase {
        JailPhase::SetHostname => Some(
            JailAction::SetHostname { name: String::from_str("carapace-container") },
        ),
        JailPhase::EnterRoot => Some(JailAction::ChangeRoot { path: String::from_str("rootfs") }),
        JailPhase::EnterWorkdir => Some(
            JailAction::ChangeWorkdir { path: String::from_str("/") },
        ),
        JailPhase::MountProc => Some(
            JailAction::MountFilesystem {
                source: String::from_str("proc"),
                target: String::from_str("/proc"),
                fstype: String::from_str("proc"),
            },
        ),
        JailPhase::Execute => Some(
            JailAction::Execute {
                program: s.request.command.clone(),
                argv: handover_argv(&s.request.command, &s.request.arguments),
            },
        ),
        JailPhase::Failed { .. } => None,
    }
}

} // verus!
