use make_shell::build;
use make_shell::session::{Command, Event, Failure, Outcome, Session, SessionState};

fn five_binding_plan() -> make_shell::plan::InstallInstructions {
    let text = r#"
dir = "/tmp/env5"
family = "zsh"
descr = "five"
hooks = "echo hooks"
env_var_dirs = [
  { name = "D1", path = "/tmp/env5/d1" },
  { name = "D2", path = "/tmp/env5/d2" },
  { name = "D3", path = "/tmp/env5/d3" },
  { name = "D4", path = "/tmp/env5/d4" },
  { name = "D5", path = "/tmp/env5/d5" },
]
files = []
"#;
    build(text).expect("valid")
}

fn expect_provision(c: &Command, name: &str) {
    match c {
        Command::Provision(make_shell::plan::ProvisionAction::EnsureDir { name: n, .. }) => {
            assert_eq!(n, name)
        }
        other => panic!("expected a provisioning command, got {:?}", other),
    }
}

#[test]
fn example_scenario_session() {
    let text = r#"
dir = "/tmp/envA"
family = "posix-shell"
descr = "envA"
hooks = "echo setup"
env_var_dirs = [ { name = "PROJ_HOME", path = "/tmp/envA/work" } ]
files = []
"#;
    let plan = build(text).expect("valid");
    let (mut s, c0) = Session::start(plan);
    expect_provision(&c0, "PROJ_HOME");
    // the directory did not pre-exist: this run created it
    let c1 = s.step(Event::Performed { created: true });
    assert_eq!(
        c1,
        Command::Launch {
            hooks: "echo setup".to_string(),
            dir: "/tmp/envA".to_string(),
            family: "posix-shell".to_string(),
        }
    );
    let c2 = s.step(Event::Exited { code: 0 });
    assert_eq!(
        c2,
        Command::Teardown {
            name: "PROJ_HOME".to_string(),
            path: "/tmp/envA/work".to_string(),
            remove_dir: true,
        }
    );
    let c3 = s.step(Event::TornDown);
    assert_eq!(c3, Command::Finish(Outcome::Done { code: 0 }));
    assert_eq!(s.state, SessionState::Done);
    assert!(s.warnings.is_empty());
}

#[test]
fn third_of_five_failing_tears_down_first_two_in_reverse() {
    let (mut s, c0) = Session::start(five_binding_plan());
    expect_provision(&c0, "D1");
    let c1 = s.step(Event::Performed { created: true });
    expect_provision(&c1, "D2");
    let c2 = s.step(Event::Performed { created: true });
    expect_provision(&c2, "D3");
    let c3 = s.step(Event::PerformFailed { message: "disk full".to_string() });
    assert_eq!(
        c3,
        Command::Teardown {
            name: "D2".to_string(),
            path: "/tmp/env5/d2".to_string(),
            remove_dir: true,
        }
    );
    let c4 = s.step(Event::TornDown);
    assert_eq!(
        c4,
        Command::Teardown {
            name: "D1".to_string(),
            path: "/tmp/env5/d1".to_string(),
            remove_dir: true,
        }
    );
    let c5 = s.step(Event::TornDown);
    assert_eq!(
        c5,
        Command::Finish(Outcome::Aborted {
            failure: Failure::Provision { index: 2, message: "disk full".to_string() },
        })
    );
    assert_eq!(s.state, SessionState::Aborted);
}

#[test]
fn pre_existing_directories_are_never_removed() {
    // a rerun against directories that already exist: every Performed event
    // reports created = false, so no teardown removes a directory
    let (mut s, _c0) = Session::start(five_binding_plan());
    for _ in 0..4 {
        s.step(Event::Performed { created: false });
    }
    let launch = s.step(Event::Performed { created: false });
    assert!(matches!(launch, Command::Launch { .. }));
    let mut c = s.step(Event::Exited { code: 0 });
    let mut unbinds = Vec::new();
    loop {
        match c {
            Command::Teardown { name, remove_dir, .. } => {
                assert!(!remove_dir, "a pre-existing directory must be kept");
                unbinds.push(name);
                c = s.step(Event::TornDown);
            }
            Command::Finish(outcome) => {
                assert_eq!(outcome, Outcome::Done { code: 0 });
                break;
            }
            other => panic!("unexpected command {:?}", other),
        }
    }
    // every binding is still released (unbound), in reverse order
    assert_eq!(unbinds, vec!["D5", "D4", "D3", "D2", "D1"]);
}

#[test]
fn teardown_failures_are_warnings_not_fatal() {
    let (mut s, _c0) = Session::start(five_binding_plan());
    for _ in 0..4 {
        s.step(Event::Performed { created: true });
    }
    s.step(Event::Performed { created: true });
    let mut c = s.step(Event::Exited { code: 7 });
    let mut steps = 0;
    loop {
        match c {
            Command::Teardown { .. } => {
                c = s.step(Event::TeardownFailed { message: "directory not empty".to_string() });
                steps += 1;
            }
            Command::Finish(outcome) => {
                // best-effort teardown never hides the shell's exit status
                assert_eq!(outcome, Outcome::Done { code: 7 });
                break;
            }
            other => panic!("unexpected command {:?}", other),
        }
    }
    assert_eq!(steps, 5);
    assert_eq!(s.warnings.len(), 5);
}

#[test]
fn shell_launch_failure_still_tears_down() {
    let text = r#"
dir = "/tmp/envL"
family = "zsh"
descr = "l"
hooks = "exit 1"
env_var_dirs = [ { name = "W", path = "/tmp/envL/w" } ]
files = []
"#;
    let (mut s, _c0) = Session::start(build(text).expect("valid"));
    let c1 = s.step(Event::Performed { created: true });
    assert!(matches!(c1, Command::Launch { .. }));
    let c2 = s.step(Event::LaunchFailed { message: "hooks failed".to_string() });
    assert_eq!(
        c2,
        Command::Teardown {
            name: "W".to_string(),
            path: "/tmp/envL/w".to_string(),
            remove_dir: true,
        }
    );
    let c3 = s.step(Event::TornDown);
    assert_eq!(
        c3,
        Command::Finish(Outcome::Aborted {
            failure: Failure::ShellExec { message: "hooks failed".to_string() },
        })
    );
}

#[test]
fn empty_plan_goes_straight_to_launch() {
    let text = r#"
dir = "/tmp/envE"
family = "zsh"
descr = "e"
hooks = ""
env_var_dirs = []
files = []
"#;
    let (mut s, c0) = Session::start(build(text).expect("valid"));
    assert!(matches!(c0, Command::Launch { .. }));
    let c1 = s.step(Event::Exited { code: 3 });
    assert_eq!(c1, Command::Finish(Outcome::Done { code: 3 }));
    assert_eq!(s.state, SessionState::Done);
}
