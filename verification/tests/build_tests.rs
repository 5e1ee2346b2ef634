use make_shell::build;
use make_shell::errors::{BuildError, Expected, KeyPath};
use make_shell::plan::{ProvisionAction, TeardownAction};

fn key(k: &str) -> KeyPath {
    KeyPath { key: k.to_string(), index: None, sub: None }
}

fn elem_field(k: &str, i: usize, sub: &str) -> KeyPath {
    KeyPath { key: k.to_string(), index: Some(i), sub: Some(sub.to_string()) }
}

#[test]
fn example_scenario_build() {
    let text = r#"
dir = "/tmp/envA"
family = "posix-shell"
descr = "envA"
hooks = "echo setup"
env_var_dirs = [ { name = "PROJ_HOME", path = "/tmp/envA/work" } ]
files = []
"#;
    let plan = build(text).expect("the document is valid");
    assert_eq!(plan.dir, "/tmp/envA");
    assert_eq!(plan.family, "posix-shell");
    assert_eq!(plan.tag, "envA");
    assert_eq!(plan.hooks, "echo setup");
    assert_eq!(
        plan.actions,
        vec![ProvisionAction::EnsureDir {
            name: "PROJ_HOME".to_string(),
            path: "/tmp/envA/work".to_string(),
        }]
    );
    assert_eq!(
        plan.teardown,
        vec![TeardownAction::RemoveDir {
            name: "PROJ_HOME".to_string(),
            path: "/tmp/envA/work".to_string(),
        }]
    );
}

#[test]
fn file_actions_follow_binding_actions() {
    let text = r#"
dir = "/srv/env"
family = "zsh"
descr = "t"
hooks = ""
env_var_dirs = [ { name = "A", path = "/srv/env/a" } ]
files = [ { path = "/srv/env/a/readme", content = "hello" } ]
"#;
    let plan = build(text).expect("valid");
    assert_eq!(
        plan.actions,
        vec![
            ProvisionAction::EnsureDir { name: "A".to_string(), path: "/srv/env/a".to_string() },
            ProvisionAction::WriteFile {
                path: "/srv/env/a/readme".to_string(),
                content: "hello".to_string(),
            },
        ]
    );
    // generated files are persistent: only the directory gets a teardown
    assert_eq!(plan.teardown.len(), 1);
}

#[test]
fn missing_family_is_diagnosed_by_name() {
    let text = r#"
dir = "/tmp/envA"
descr = "envA"
hooks = ""
env_var_dirs = []
files = []
"#;
    let err = build(text).expect_err("family is mandatory");
    assert_eq!(err.errors, vec![BuildError::MissingKey(key("family"))]);
}

#[test]
fn two_violations_reported_in_one_pass() {
    let text = r#"
dir = "/tmp/envA"
family = "posix-shell"
descr = "envA"
env_var_dirs = [ { name = "GOOD", path = "" } ]
files = []
"#;
    let err = build(text).expect_err("two independent violations");
    assert!(err.errors.contains(&BuildError::MissingKey(key("hooks"))));
    assert!(err.errors.contains(&BuildError::TypeMismatch(
        elem_field("env_var_dirs", 0, "path"),
        Expected::PathText
    )));
    assert_eq!(err.errors.len(), 2);
}

#[test]
fn parse_error_is_fatal_and_single() {
    let err = build("this is [not valid toml").expect_err("ill-formed text");
    assert_eq!(err.errors.len(), 1);
    assert!(matches!(err.errors[0], BuildError::DocumentParse(_)));
}

#[test]
fn duplicate_binding_names_rejected() {
    let text = r#"
dir = "/e"
family = "zsh"
descr = "t"
hooks = ""
env_var_dirs = [ { name = "X", path = "/e/a" }, { name = "X", path = "/e/b" } ]
files = []
"#;
    let err = build(text).expect_err("duplicate name");
    assert_eq!(err.errors, vec![BuildError::DuplicateBinding("X".to_string())]);
}

#[test]
fn duplicate_file_paths_rejected() {
    let text = r#"
dir = "/e"
family = "zsh"
descr = "t"
hooks = ""
env_var_dirs = []
files = [ { path = "/e/f", content = "a" }, { path = "/e/f", content = "b" } ]
"#;
    let err = build(text).expect_err("duplicate path");
    assert_eq!(err.errors, vec![BuildError::DuplicateFile("/e/f".to_string())]);
}

#[test]
fn unsupported_family_rejected() {
    let text = r#"
dir = "/e"
family = "powershell"
descr = "t"
hooks = ""
env_var_dirs = []
files = []
"#;
    let err = build(text).expect_err("family is a closed set");
    assert_eq!(err.errors, vec![BuildError::UnsupportedFamily("powershell".to_string())]);
}

#[test]
fn invalid_env_names_rejected() {
    let text = r#"
dir = "/e"
family = "zsh"
descr = "t"
hooks = ""
env_var_dirs = [ { name = "1BAD", path = "/e/a" }, { name = "ALSO BAD", path = "/e/b" } ]
files = []
"#;
    let err = build(text).expect_err("names must be identifiers");
    assert_eq!(
        err.errors,
        vec![
            BuildError::InvalidEnvName("1BAD".to_string()),
            BuildError::InvalidEnvName("ALSO BAD".to_string()),
        ]
    );
}

#[test]
fn wrong_shapes_are_type_mismatches() {
    let text = r#"
dir = 17
family = "zsh"
descr = "t"
hooks = ""
env_var_dirs = [ "not a record" ]
files = "not a list"
"#;
    let err = build(text).expect_err("three shape violations");
    assert!(err.errors.contains(&BuildError::TypeMismatch(key("dir"), Expected::PathText)));
    assert!(err.errors.contains(&BuildError::TypeMismatch(
        KeyPath { key: "env_var_dirs".to_string(), index: Some(0), sub: None },
        Expected::Record
    )));
    assert!(err.errors.contains(&BuildError::TypeMismatch(key("files"), Expected::List)));
    assert_eq!(err.errors.len(), 3);
}

#[test]
fn binding_missing_subkey_is_path_qualified() {
    let text = r#"
dir = "/e"
family = "zsh"
descr = "t"
hooks = ""
env_var_dirs = [ { path = "/e/a" } ]
files = []
"#;
    let err = build(text).expect_err("name is mandatory in a binding");
    assert_eq!(err.errors, vec![BuildError::MissingKey(elem_field("env_var_dirs", 0, "name"))]);
}

#[test]
fn empty_document_reports_every_missing_key() {
    let err = build("").expect_err("everything is missing");
    let names: Vec<String> = err
        .errors
        .iter()
        .map(|e| match e {
            BuildError::MissingKey(p) => p.key.clone(),
            other => panic!("unexpected diagnostic {:?}", other),
        })
        .collect();
    assert_eq!(names, vec!["dir", "family", "descr", "hooks", "env_var_dirs", "files"]);
}
