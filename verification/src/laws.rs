//! The guarantees of the isolation pipeline, proved of the machines.
//!
//! The kernel-side halves of these guarantees (that a cgroup really bounds
//! processes, that a namespace really hides the hostname) are kernel
//! behaviour and live outside this crate.  What is proved here is the
//! control-plane's entire contribution to them: the orderings, the values
//! written, the classification of every failure, and the teardown that
//! follows every run.

use vstd::prelude::*;

use crate::container::Event;
use crate::container::ParentState;
use crate::container::Phase;
use crate::container::RunReport;
use crate::container::parent_step_spec;
use crate::container::run_start_spec;
use crate::errors::IsolateError;
use crate::jail::ChildState;
use crate::jail::JailEvent;
use crate::jail::JailPhase;
use crate::jail::child_start_spec;
use crate::jail::child_step_spec;

verus! {

/// With a valid jail root containing a working target, every kernel effect
/// succeeds, and the orchestration terminates with the child's own exit
/// status, unmodified, with no cleanup complaint — after removing the
/// resource-control group it created.
pub proof fn lemma_run_propagates_status(
    pid: u64,
    command: String,
    arguments: Vec<String>,
    status: i32,
)
    ensures
        ({
            let s0 = run_start_spec(pid, command, arguments);
            let s1 = parent_step_spec(s0, (Event::DirChecked { exists: false }));
            let s2 = parent_step_spec(s1, Event::Succeeded);
            let s3 = parent_step_spec(s2, Event::Succeeded);
            let s4 = parent_step_spec(s3, Event::Succeeded);
            let s5 = parent_step_spec(s4, Event::Succeeded);
            let s6 = parent_step_spec(s5, Event::Succeeded);
            let s7 = parent_step_spec(s6, (Event::ChildExited { status }));
            let s8 = parent_step_spec(s7, (Event::DirChecked { exists: true }));
            let s9 = parent_step_spec(s8, Event::Succeeded);
            &&& s0.phase is CheckDir
            &&& s1.phase is CreateDir
            &&& s2.phase is WriteLimit
            &&& s3.phase is WriteProcs
            &&& s4.phase is Unshare
            &&& s5.phase is Spawn
            &&& s6.phase is Wait
            &&& s7.phase is CheckDirCleanup
            &&& s8.phase is RemoveDir
            &&& s9.phase matches Phase::Done { report } && report == (RunReport {
                outcome: Ok::<i32, IsolateError>(status),
                cleanup: None,
            })
        }),
{
}

/// Resource setup is idempotent: a group directory left over from an
/// earlier run is reused — the existence check skips creation and goes
/// straight to (re)writing the ceiling.
pub proof fn lemma_existing_group_dir_is_reused(pid: u64, command: String, arguments: Vec<String>)
    ensures
        parent_step_spec(
            run_start_spec(pid, command, arguments),
            (Event::DirChecked { exists: true }),
        ).phase is WriteLimit,
{
}

/// Every observed child exit — zero or not — carries the status into the
/// cleanup phases unmodified: the pipeline never reports before attempting
/// to tear the resource-control group down.
pub proof fn lemma_wait_always_cleans(s: ParentState, status: i32)
    requires
        s.phase is Wait,
    ensures
        parent_step_spec(s, (Event::ChildExited { status })).phase == (Phase::CheckDirCleanup {
            pending: Ok::<i32, IsolateError>(status),
        }),
{
}

/// A finished orchestration stays finished: no later event changes the
/// report.
pub proof fn lemma_parent_done_absorbing(s: ParentState, ev: Event)
    requires
        s.phase is Done,
    ensures
        parent_step_spec(s, ev) == s,
{
}

/// The pipeline reports only from a terminal transition: it enters `Done`
/// either from a setup failure — aborting before any namespace or child
/// exists — or out of the cleanup phases.  In particular a child exit,
/// however bad, never reaches the report without passing cleanup first.
pub proof fn lemma_done_only_after_cleanup_or_setup_abort(s: ParentState, ev: Event)
    requires
        !(s.phase is Done),
        parent_step_spec(s, ev).phase is Done,
    ensures
        ((s.phase is CreateDir || s.phase is WriteLimit || s.phase is WriteProcs) && ev is Failed)
            || (s.phase is CheckDirCleanup && ev is DirChecked) || s.phase is RemoveDir,
{
}

/// The child re-invocation is spawned only once namespace creation has
/// succeeded: no transition enters the spawn phase from anywhere else, so
/// the child is always born inside the fresh hostname, process-id and
/// mount namespaces.
pub proof fn lemma_spawn_only_after_namespaces(s: ParentState, ev: Event)
    requires
        !(s.phase is Spawn),
        parent_step_spec(s, ev).phase is Spawn,
    ensures
        s.phase is Unshare,
        ev is Succeeded,
{
}

/// Namespaces are requested only once the resource limiter is fully set
/// up: the only way into the namespace phase is a successful membership
/// write.
pub proof fn lemma_namespaces_only_after_limits(s: ParentState, ev: Event)
    requires
        !(s.phase is Unshare),
        parent_step_spec(s, ev).phase is Unshare,
    ensures
        s.phase is WriteProcs,
        ev is Succeeded,
{
}

/// The membership write happens only once the process ceiling was written:
/// together with the two lemmas above, the ceiling is in force before the
/// container process can exist.
pub proof fn lemma_membership_only_after_ceiling(s: ParentState, ev: Event)
    requires
        !(s.phase is WriteProcs),
        parent_step_spec(s, ev).phase is WriteProcs,
    ensures
        s.phase is WriteLimit,
        ev is Succeeded,
{
}

/// Abstract model of the one piece of filesystem state the parent owns:
/// whether the resource-control group directory exists after an event
/// answered the given phase's action.
pub open spec fn dir_after(dir: bool, phase: Phase, ev: Event) -> bool {
    match (phase, ev) {
        (Phase::CreateDir, Event::Succeeded) => true,
        (Phase::RemoveDir { .. }, Event::Succeeded) => false,
        (_, _) => dir,
    }
}

/// An event truthfully answers the phase's action against the modelled
/// directory state.
pub open spec fn event_consistent(dir: bool, phase: Phase, ev: Event) -> bool {
    match (phase, ev) {
        (Phase::CheckDir, Event::DirChecked { exists }) => exists == dir,
        (Phase::CheckDirCleanup { .. }, Event::DirChecked { exists }) => exists == dir,
        (_, _) => true,
    }
}

/// Whether the orchestration got past resource setup (a setup failure
/// aborts at once, by design, without touching anything further).
pub open spec fn setup_completed(r: RunReport) -> bool {
    !(r.outcome matches Err(IsolateError::ResourceSetupError { .. }))
}

/// The directory invariant the parent maintains: once setup is past its
/// existence check the directory exists, all the way through the cleanup
/// phases; and a finished run whose cleanup did not fail has left no
/// directory behind (unless it aborted during setup itself).
pub open spec fn dir_inv(s: ParentState, dir: bool) -> bool {
    match s.phase {
        Phase::CheckDir => true,
        Phase::CreateDir => !dir,
        Phase::WriteLimit => dir,
        Phase::WriteProcs => dir,
        Phase::Unshare => dir,
        Phase::Spawn => dir,
        Phase::Wait => dir,
        Phase::CheckDirCleanup { .. } => dir,
        Phase::RemoveDir { .. } => dir,
        Phase::Done { report } => setup_completed(report) && report.cleanup is None ==> !dir,
    }
}

/// One parent step preserves the directory invariant.
pub proof fn lemma_dir_inv_step(s: ParentState, dir: bool, ev: Event)
    requires
        dir_inv(s, dir),
        event_consistent(dir, s.phase, ev),
    ensures
        dir_inv(parent_step_spec(s, ev), dir_after(dir, s.phase, ev)),
{
}

/// The parent state after a whole sequence of events.
pub open spec fn parent_run(s: ParentState, evs: Seq<Event>) -> ParentState
    decreases evs.len(),
{
    if evs.len() == 0 {
        s
    } else {
        parent_run(parent_step_spec(s, evs[0]), evs.skip(1))
    }
}

/// The modelled directory state after a whole sequence of events.
pub open spec fn dir_run(dir: bool, s: ParentState, evs: Seq<Event>) -> bool
    decreases evs.len(),
{
    if evs.len() == 0 {
        dir
    } else {
        dir_run(dir_after(dir, s.phase, evs[0]), parent_step_spec(s, evs[0]), evs.skip(1))
    }
}

/// Every event of the sequence truthfully answers the phase it meets.
pub open spec fn trace_consistent(dir: bool, s: ParentState, evs: Seq<Event>) -> bool
    decreases evs.len(),
{
    evs.len() == 0 || (event_consistent(dir, s.phase, evs[0]) && trace_consistent(
        dir_after(dir, s.phase, evs[0]),
        parent_step_spec(s, evs[0]),
        evs.skip(1),
    ))
}

/// The directory invariant holds after any consistent sequence of events.
pub proof fn lemma_dir_inv_run(s: ParentState, dir: bool, evs: Seq<Event>)
    requires
        dir_inv(s, dir),
        trace_consistent(dir, s, evs),
    ensures
        dir_inv(parent_run(s, evs), dir_run(dir, s, evs)),
    decreases evs.len(),
{
    if evs.len() != 0 {
        lemma_dir_inv_step(s, dir, evs[0]);
        lemma_dir_inv_run(
            parent_step_spec(s, evs[0]),
            dir_after(dir, s.phase, evs[0]),
            evs.skip(1),
        );
    }
}

/// No resource-group leak: after any finished orchestration that got past
/// resource setup and whose cleanup reported no failure — in particular
/// after every successful run and after every run whose child failed or
/// exited non-zero — the resource-control group directory does not exist,
/// whether or not it existed at the start.
pub proof fn lemma_no_group_leak(
    pid: u64,
    command: String,
    arguments: Vec<String>,
    dir: bool,
    evs: Seq<Event>,
)
    requires
        trace_consistent(dir, run_start_spec(pid, command, arguments), evs),
        ({
            let fin = parent_run(run_start_spec(pid, command, arguments), evs);
            &&& fin.phase is Done
            &&& setup_completed(fin.phase->report)
            &&& fin.phase->report.cleanup is None
        }),
    ensures
        !dir_run(dir, run_start_spec(pid, command, arguments), evs),
{
    lemma_dir_inv_run(run_start_spec(pid, command, arguments), dir, evs);
}

/// The jail bootstrap on its own — however the process was started —
/// passes through hostname, root change, working-directory change and
/// `/proc` mount, in that order, and reaches the handover phase with the
/// request untouched.
pub proof fn lemma_child_reaches_handover(command: String, arguments: Vec<String>)
    ensures
        ({
            let s0 = child_start_spec(command, arguments);
            let s1 = child_step_spec(s0, JailEvent::Succeeded);
            let s2 = child_step_spec(s1, JailEvent::Succeeded);
            let s3 = child_step_spec(s2, JailEvent::Succeeded);
            let s4 = child_step_spec(s3, JailEvent::Succeeded);
            &&& s0.phase is SetHostname
            &&& s1.phase is EnterRoot
            &&& s2.phase is EnterWorkdir
            &&& s3.phase is MountProc
            &&& s4.phase is Execute
            &&& s4.request.command == command
            &&& s4.request.arguments == arguments
        }),
{
}

/// A missing jail root stops the bootstrap with a jail-entry error, and
/// with that exact classification: the root change is the second step, and
/// its failure is terminal, so neither the mount nor the handover is ever
/// reached.
pub proof fn lemma_missing_root_is_jail_entry_error(
    command: String,
    arguments: Vec<String>,
    detail: String,
)
    ensures
        ({
            let s0 = child_start_spec(command, arguments);
            let s1 = child_step_spec(s0, JailEvent::Succeeded);
            let s2 = child_step_spec(s1, (JailEvent::Failed { detail }));
            &&& s1.phase is EnterRoot
            &&& s2.phase matches JailPhase::Failed { error } && error == (
            IsolateError::JailEntryError { detail })
        }),
{
}

/// A failed bootstrap stays failed: no later event revives it, so the
/// child driver's only move after a failure is to exit non-zero.
pub proof fn lemma_child_failure_absorbing(s: ChildState, ev: JailEvent)
    requires
        s.phase is Failed,
    ensures
        child_step_spec(s, ev) == s,
{
}

/// The handover is attempted only once `/proc` is mounted; the mount only
/// once the working directory moved to the new root; and that only once
/// the root change itself succeeded.  Ordering mistakes that would
/// silently break the jail are thus ruled out.
pub proof fn lemma_jail_steps_in_order(s: ChildState, ev: JailEvent)
    ensures
        !(s.phase is Execute) && child_step_spec(s, ev).phase is Execute ==> s.phase
            is MountProc && ev is Succeeded,
        !(s.phase is MountProc) && child_step_spec(s, ev).phase is MountProc ==> s.phase
            is EnterWorkdir && ev is Succeeded,
        !(s.phase is EnterWorkdir) && child_step_spec(s, ev).phase is EnterWorkdir ==> s.phase
            is EnterRoot && ev is Succeeded,
{
}

} // verus!
