use carapace::cli::dispatch;
use carapace::cli::Cli;
use carapace::cli::Commands;
use carapace::cli::Controller;
use carapace::container::parent_action;
use carapace::container::parent_step;
use carapace::container::run_start;
use carapace::container::Action;
use carapace::container::Event;
use carapace::container::ParentState;
use carapace::container::Phase;
use carapace::errors::IsolateError;
use carapace::jail::child_action;
use carapace::jail::child_start;
use carapace::jail::child_step;
use carapace::jail::ChildState;
use carapace::jail::JailAction;
use carapace::jail::JailEvent;
use carapace::jail::JailPhase;

fn echo_request() -> ParentState {
    run_start(
        4242,
        String::from("/bin/echo"),
        vec![String::from("hello")],
    )
}

/// Drives the parent through resource setup (directory absent, every write
/// accepted) up to the namespace request.
fn through_setup(mut s: ParentState) -> ParentState {
    match parent_action(&s) {
        Some(Action::CheckGroupDir { path }) => {
            assert_eq!(path, "/sys/fs/cgroup/carapace-container")
        }
        _ => panic!("expected the existence check first"),
    }
    s = parent_step(s, Event::DirChecked { exists: false });
    match parent_action(&s) {
        Some(Action::CreateGroupDir { path }) => {
            assert_eq!(path, "/sys/fs/cgroup/carapace-container")
        }
        _ => panic!("expected the directory creation"),
    }
    s = parent_step(s, Event::Succeeded);
    match parent_action(&s) {
        Some(Action::WriteControlFile { path, contents }) => {
            assert_eq!(path, "/sys/fs/cgroup/carapace-container/pids.max");
            assert_eq!(contents, "5");
        }
        _ => panic!("expected the ceiling write"),
    }
    s = parent_step(s, Event::Succeeded);
    match parent_action(&s) {
        Some(Action::WriteControlFile { path, contents }) => {
            assert_eq!(path, "/sys/fs/cgroup/carapace-container/cgroup.procs");
            assert_eq!(contents, "4242");
        }
        _ => panic!("expected the membership write"),
    }
    parent_step(s, Event::Succeeded)
}

#[test]
fn run_echo_full_success() {
    let mut s = through_setup(echo_request());
    match parent_action(&s) {
        Some(Action::CreateNamespaces { hostname_domain, process_ids, mount_view }) => {
            assert!(hostname_domain && process_ids && mount_view);
        }
        _ => panic!("expected the namespace request"),
    }
    s = parent_step(s, Event::Succeeded);
    match parent_action(&s) {
        Some(Action::SpawnChild { program, argv }) => {
            assert_eq!(program, "/proc/self/exe");
            assert_eq!(
                argv,
                vec![
                    String::from("child"),
                    String::from("/bin/echo"),
                    String::from("hello"),
                ]
            );
        }
        _ => panic!("expected the re-invocation spawn"),
    }
    s = parent_step(s, Event::Succeeded);
    assert!(matches!(parent_action(&s), Some(Action::WaitChild)));
    s = parent_step(s, Event::ChildExited { status: 0 });
    assert!(matches!(parent_action(&s), Some(Action::CheckGroupDir { .. })));
    s = parent_step(s, Event::DirChecked { exists: true });
    match parent_action(&s) {
        Some(Action::RemoveGroupDir { path }) => {
            assert_eq!(path, "/sys/fs/cgroup/carapace-container")
        }
        _ => panic!("expected the group removal"),
    }
    s = parent_step(s, Event::Succeeded);
    assert!(parent_action(&s).is_none());
    match s.phase {
        Phase::Done { report } => {
            assert_eq!(report.outcome.unwrap(), 0);
            assert!(report.cleanup.is_none());
        }
        _ => panic!("expected the pipeline to be done"),
    }
}

#[test]
fn failing_child_still_cleans_up() {
    let mut s = through_setup(echo_request());
    s = parent_step(s, Event::Succeeded); // namespaces created
    s = parent_step(s, Event::Succeeded); // child spawned
    s = parent_step(s, Event::ChildExited { status: 1 });
    assert!(matches!(parent_action(&s), Some(Action::CheckGroupDir { .. })));
    s = parent_step(s, Event::DirChecked { exists: true });
    assert!(matches!(parent_action(&s), Some(Action::RemoveGroupDir { .. })));
    s = parent_step(s, Event::Succeeded);
    match s.phase {
        Phase::Done { report } => {
            assert_eq!(report.outcome.unwrap(), 1);
            assert!(report.cleanup.is_none());
        }
        _ => panic!("expected the pipeline to be done"),
    }
}

#[test]
fn existing_group_dir_is_reused() {
    let s = echo_request();
    let s = parent_step(s, Event::DirChecked { exists: true });
    match parent_action(&s) {
        Some(Action::WriteControlFile { path, contents }) => {
            assert_eq!(path, "/sys/fs/cgroup/carapace-container/pids.max");
            assert_eq!(contents, "5");
        }
        _ => panic!("a pre-existing directory must be reused, not recreated"),
    }
}

#[test]
fn setup_failure_aborts_at_once() {
    let mut s = echo_request();
    s = parent_step(s, Event::DirChecked { exists: false });
    s = parent_step(
        s,
        Event::Failed { detail: String::from("Permission denied") },
    );
    assert!(parent_action(&s).is_none());
    match s.phase {
        Phase::Done { report } => {
            match report.outcome {
                Err(IsolateError::ResourceSetupError { detail }) => {
                    assert_eq!(detail, "Permission denied")
                }
                _ => panic!("expected a resource setup error"),
            }
            assert!(report.cleanup.is_none());
        }
        _ => panic!("expected the pipeline to be done"),
    }
}

#[test]
fn namespace_failure_still_cleans_up() {
    let mut s = through_setup(echo_request());
    s = parent_step(
        s,
        Event::Failed { detail: String::from("Operation not permitted") },
    );
    assert!(matches!(parent_action(&s), Some(Action::CheckGroupDir { .. })));
    s = parent_step(s, Event::DirChecked { exists: true });
    s = parent_step(s, Event::Succeeded);
    match s.phase {
        Phase::Done { report } => {
            assert!(matches!(
                report.outcome,
                Err(IsolateError::NamespaceCreationError { .. })
            ));
            assert!(report.cleanup.is_none());
        }
        _ => panic!("expected the pipeline to be done"),
    }
}

#[test]
fn spawn_failure_reports_and_cleanup_failure_does_not_mask() {
    let mut s = through_setup(echo_request());
    s = parent_step(s, Event::Succeeded); // namespaces created
    s = parent_step(
        s,
        Event::Failed { detail: String::from("No such file or directory") },
    );
    s = parent_step(s, Event::DirChecked { exists: true });
    s = parent_step(
        s,
        Event::Failed { detail: String::from("Device or resource busy") },
    );
    match s.phase {
        Phase::Done { report } => {
            match report.outcome {
                Err(IsolateError::ChildWaitError { detail }) => {
                    assert_eq!(detail, "No such file or directory")
                }
                _ => panic!("expected a child wait error"),
            }
            match report.cleanup {
                Some(IsolateError::ResourceCleanupError { detail }) => {
                    assert_eq!(detail, "Device or resource busy")
                }
                _ => panic!("expected the cleanup failure beside the outcome"),
            }
        }
        _ => panic!("expected the pipeline to be done"),
    }
}

#[test]
fn mismatched_event_changes_nothing() {
    let s = echo_request();
    let s = parent_step(s, Event::ChildExited { status: 7 });
    assert!(matches!(s.phase, Phase::CheckDir));
    assert!(matches!(parent_action(&s), Some(Action::CheckGroupDir { .. })));
}

fn true_child() -> ChildState {
    child_start(String::from("/bin/true"), vec![])
}

#[test]
fn child_bootstrap_order_and_handover() {
    let mut s = true_child();
    match child_action(&s) {
        Some(JailAction::SetHostname { name }) => assert_eq!(name, "carapace-container"),
        _ => panic!("expected the hostname step first"),
    }
    s = child_step(s, JailEvent::Succeeded);
    match child_action(&s) {
        Some(JailAction::ChangeRoot { path }) => assert_eq!(path, "rootfs"),
        _ => panic!("expected the root change"),
    }
    s = child_step(s, JailEvent::Succeeded);
    match child_action(&s) {
        Some(JailAction::ChangeWorkdir { path }) => assert_eq!(path, "/"),
        _ => panic!("expected the working-directory change"),
    }
    s = child_step(s, JailEvent::Succeeded);
    match child_action(&s) {
        Some(JailAction::MountFilesystem { source, target, fstype }) => {
            assert_eq!(source, "proc");
            assert_eq!(target, "/proc");
            assert_eq!(fstype, "proc");
        }
        _ => panic!("expected the /proc mount"),
    }
    s = child_step(s, JailEvent::Succeeded);
    match child_action(&s) {
        Some(JailAction::Execute { program, argv }) => {
            assert_eq!(program, "/bin/true");
            assert_eq!(argv, vec![String::from("/bin/true")]);
        }
        _ => panic!("expected the handover"),
    }
}

#[test]
fn child_handover_argv_keeps_argument_order() {
    let mut s = child_start(
        String::from("/bin/echo"),
        vec![String::from("hello"), String::from("world")],
    );
    for _ in 0..4 {
        s = child_step(s, JailEvent::Succeeded);
    }
    match child_action(&s) {
        Some(JailAction::Execute { program, argv }) => {
            assert_eq!(program, "/bin/echo");
            assert_eq!(
                argv,
                vec![
                    String::from("/bin/echo"),
                    String::from("hello"),
                    String::from("world"),
                ]
            );
        }
        _ => panic!("expected the handover"),
    }
}

#[test]
fn missing_jail_root_is_a_jail_entry_error() {
    let mut s = true_child();
    s = child_step(s, JailEvent::Succeeded); // hostname set
    s = child_step(
        s,
        JailEvent::Failed { detail: String::from("No such file or directory") },
    );
    assert!(child_action(&s).is_none());
    match s.phase {
        JailPhase::Failed { error } => match error {
            IsolateError::JailEntryError { detail } => {
                assert_eq!(detail, "No such file or directory")
            }
            _ => panic!("expected a jail entry error"),
        },
        _ => panic!("expected the bootstrap to have failed"),
    }
}

#[test]
fn each_child_step_failure_is_classified_by_its_step() {
    let s = child_step(
        true_child(),
        JailEvent::Failed { detail: String::from("x") },
    );
    assert!(matches!(
        s.phase,
        JailPhase::Failed { error: IsolateError::HostnameError { .. } }
    ));

    let mut s = true_child();
    for _ in 0..2 {
        s = child_step(s, JailEvent::Succeeded);
    }
    let s = child_step(s, JailEvent::Failed { detail: String::from("x") });
    assert!(matches!(
        s.phase,
        JailPhase::Failed { error: IsolateError::JailEntryError { .. } }
    ));

    let mut s = true_child();
    for _ in 0..3 {
        s = child_step(s, JailEvent::Succeeded);
    }
    let s = child_step(s, JailEvent::Failed { detail: String::from("x") });
    assert!(matches!(
        s.phase,
        JailPhase::Failed { error: IsolateError::MountError { .. } }
    ));

    let mut s = true_child();
    for _ in 0..4 {
        s = child_step(s, JailEvent::Succeeded);
    }
    let s = child_step(s, JailEvent::Failed { detail: String::from("x") });
    assert!(matches!(
        s.phase,
        JailPhase::Failed { error: IsolateError::ExecError { .. } }
    ));
}

#[test]
fn child_failure_is_terminal() {
    let mut s = child_step(
        true_child(),
        JailEvent::Failed { detail: String::from("x") },
    );
    s = child_step(s, JailEvent::Succeeded);
    assert!(matches!(s.phase, JailPhase::Failed { .. }));
    assert!(child_action(&s).is_none());
}

#[test]
fn dispatch_picks_the_controller() {
    let cli = Cli {
        command: Commands::Run { cmd: String::from("/bin/sh"), args: vec![] },
    };
    match dispatch(cli, 99) {
        Controller::Parent(s) => {
            assert!(matches!(s.phase, Phase::CheckDir));
            assert_eq!(s.pid, 99);
            assert_eq!(s.request.command, "/bin/sh");
        }
        _ => panic!("run must start the parent controller"),
    }
    let cli = Cli {
        command: Commands::Child { cmd: String::from("/bin/sh"), args: vec![] },
    };
    match dispatch(cli, 99) {
        Controller::Child(s) => {
            assert!(matches!(s.phase, JailPhase::SetHostname));
            assert_eq!(s.request.command, "/bin/sh");
        }
        _ => panic!("child must start the jail bootstrap"),
    }
}

#[test]
fn reexec_argv_round_trips_through_the_parser() {
    let mut s = through_setup(echo_request());
    s = parent_step(s, Event::Succeeded); // namespaces created
    match parent_action(&s) {
        Some(Action::SpawnChild { argv, .. }) => {
            match carapace::cli::parse_command(&argv) {
                Some(Commands::Child { cmd, args }) => {
                    assert_eq!(cmd, "/bin/echo");
                    assert_eq!(args, vec![String::from("hello")]);
                }
                _ => panic!("the spawned argument vector must parse as child mode"),
            }
        }
        _ => panic!("expected the re-invocation spawn"),
    }
}
