use make_shell::build;
use make_shell::compile::{EnvDir, File};
use make_shell::install;
use make_shell::persist::render_install;
use make_shell::plan::{bindings_of_plan, files_of_plan};
use make_shell::session::{Command, SessionState};

const SOURCE: &str = r#"
dir = "/tmp/envR"
family = "posix-shell"
descr = "round"
hooks = "echo ready"
env_var_dirs = [
  { name = "FIRST", path = "/tmp/envR/first" },
  { name = "SECOND", path = "/tmp/envR/second" },
]
files = [ { path = "/tmp/envR/first/note", content = "kept\n" } ]
"#;

#[test]
fn plan_carries_bindings_and_files_back() {
    let plan = build(SOURCE).expect("valid");
    assert_eq!(
        bindings_of_plan(&plan),
        vec![
            EnvDir { name: "FIRST".to_string(), path: "/tmp/envR/first".to_string() },
            EnvDir { name: "SECOND".to_string(), path: "/tmp/envR/second".to_string() },
        ]
    );
    assert_eq!(
        files_of_plan(&plan),
        vec![File { path: "/tmp/envR/first/note".to_string(), content: "kept\n".to_string() }]
    );
}

#[test]
fn rendered_plan_installs_to_the_same_plan() {
    let plan = build(SOURCE).expect("valid");
    let text = render_install(&plan).expect("a plan of plain strings serializes");
    let (session, first) = install(&text).expect("the rendered document is valid");
    assert_eq!(session.plan, plan);
    assert_eq!(session.state, SessionState::Provisioning { next: 0 });
    match first {
        Command::Provision(a) => assert_eq!(a, plan.actions[0].duplicate()),
        other => panic!("expected a provisioning command, got {:?}", other),
    }
}

#[test]
fn rendering_twice_is_stable() {
    let plan = build(SOURCE).expect("valid");
    let text = render_install(&plan).expect("serializes");
    let (session, _) = install(&text).expect("valid");
    let text2 = render_install(&session.plan).expect("serializes");
    assert_eq!(text, text2);
}

#[test]
fn multiline_content_survives_the_trip() {
    let source = r#"
dir = "/tmp/envM"
family = "zsh"
descr = "m"
hooks = "line one\nline two"
env_var_dirs = []
files = [ { path = "/tmp/envM/cfg", content = "a = 1\nb = \"two\"\n" } ]
"#;
    let plan = build(source).expect("valid");
    let text = render_install(&plan).expect("serializes");
    let (session, _) = install(&text).expect("valid");
    assert_eq!(session.plan.hooks, "line one\nline two");
    assert_eq!(
        files_of_plan(&session.plan),
        vec![File { path: "/tmp/envM/cfg".to_string(), content: "a = 1\nb = \"two\"\n".to_string() }]
    );
}
