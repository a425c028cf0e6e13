//! The invocation surface and the re-exec protocol.
//!
//! The program is one binary invoked in two modes: `run`, the operation a
//! caller asks for, and `child`, the internal re-invocation the parent
//! controller constructs so that the jail bootstrap is born inside the
//! fresh namespaces.  The mode, the target command and its arguments are
//! transmitted purely through the argument vector — no shared memory, pipe
//! or socket — so this module defines that vector's meaning and proves the
//! handoff lossless.

use vstd::prelude::*;
use vstd::string::StringExecFns;

use crate::container::ParentState;
use crate::container::run_start;
use crate::container::run_start_spec;
use crate::jail::ChildState;
use crate::jail::child_start;
use crate::jail::child_start_spec;

verus! {

/// The two recognised operations.
pub enum Commands {
    /// Launch `cmd` with `args` inside a fresh container and wait for it.
    Run { cmd: String, args: Vec<String> },
    /// Internal-only: act as the jail bootstrap for `cmd` with `args`.
    /// Intended solely as the re-exec target; invoking it directly skips
    /// namespace and resource-group setup and is unsupported.
    Child { cmd: String, args: Vec<String> },
}

/// A parsed invocation.
pub struct Cli {
    /// The requested operation.
    pub command: Commands,
}

/// Which controller an invocation starts, with its initial state.
pub enum Controller {
    /// The parent controller, orchestrating the whole pipeline.
    Parent(ParentState),
    /// The jail bootstrap, inside the already-created namespaces.
    Child(ChildState),
}

/// Decides which controller to run: `run` starts the parent (which needs
/// its own process id for group enrolment), `child` starts the bootstrap.
pub fn dispatch(cli: Cli, pid: u64) -> (d: Controller)
    ensures
        (cli.command matches Commands::Run { cmd, args } ==> d == Controller::Parent(
            run_start_spec(pid, cmd, args),
        )),
        (cli.command matches Commands::Child { cmd, args } ==> d == Controller::Child(
            child_start_spec(cmd, args),
        )),
{
    match cli.command {
        Commands::Run { cmd, args } => Controller::Parent(run_start(pid, cmd, args)),
        Commands::Child { cmd, args } => Controller::Child(child_start(cmd, args)),
    }
}

/// Clones the elements of `argv` from position `from` on.
pub fn clone_tail(argv: &Vec<String>, from: usize) -> (v: Vec<String>)
    requires
        from <= argv.len(),
    ensures
        v.deep_view() == argv.deep_view().skip(from as int),
{
    let mut v: Vec<String> = Vec::new();
    let n = argv.len();
    let mut i: usize = from;
    while i < n
        invariant
            from <= i <= n,
            n == argv.len(),
            v.deep_view() =~= argv.deep_view().subrange(from as int, i as int),
        decreases n - i,
    {
        let ghost prev = v.deep_view();
        let x = argv[i].clone();
        proof {
            assert(x.deep_view() == argv.deep_view()[i as int]);
        }
        v.push(x);
        proof {
            assert(v.deep_view() =~= prev.push(argv.deep_view()[i as int]));
            assert(argv.deep_view().subrange(from as int, i + 1) =~= argv.deep_view().subrange(
                from as int,
                i as int,
            ).push(argv.deep_view()[i as int]));
        }
        i = i + 1;
    }
    proof {
        assert(argv.deep_view().subrange(from as int, n as int) =~= argv.deep_view().skip(
            from as int,
        ));
    }
    v
}

/// Parses a raw argument vector (after the program name) into the
/// operation it encodes: a recognised mode marker, then the target
/// command, then the target arguments.  Anything else is rejected.
pub fn parse_command(argv: &Vec<String>) -> (c: Option<Commands>)
    ensures
        argv.deep_view().len() >= 2 && argv.deep_view()[0] == "run"@ ==> (c matches Some(
            Commands::Run { cmd, args },
        ) && cmd@ == argv.deep_view()[1] && args.deep_view() == argv.deep_view().skip(2)),
        argv.deep_view().len() >= 2 && argv.deep_view()[0] == "child"@ ==> (c matches Some(
            Commands::Child { cmd, args },
        ) && cmd@ == argv.deep_view()[1] && args.deep_view() == argv.deep_view().skip(2)),
        argv.deep_view().len() < 2 ==> c is None,
        argv.deep_view().len() >= 2 && argv.deep_view()[0] != "run"@ && argv.deep_view()[0]
            != "child"@ ==> c is None,
{
    proof {
        reveal_strlit("run");
        reveal_strlit("child");
    }
    if argv.len() < 2 {
        return None;
    }
    proof {
        assert(argv.deep_view()[0] == argv@[0]@);
        assert(argv.deep_view()[1] == argv@[1]@);
        assert("run"@.len() == 3 && "child"@.len() == 5);
    }
    let run_word = String::from_str("run");
    let child_word = String::from_str("child");
    let is_run = argv[0].eq(&run_word);
    let is_child = argv[0].eq(&child_word);
    if is_run {
        let cmd = argv[1].clone();
        let args = clone_tail(argv, 2);
        Some(Commands::Run { cmd, args })
    } else if is_child {
        let cmd = argv[1].clone();
        let args = clone_tail(argv, 2);
        Some(Commands::Child { cmd, args })
    } else {
        None
    }
}

} // verus!
