use mozrunner::command::{Arg, Invocation, Stdio};
use std::path::PathBuf;

#[test]
fn new_invocation_is_empty() {
    let command = Invocation::new(PathBuf::from("/bin/true"));
    assert_eq!(command.program, PathBuf::from("/bin/true"));
    assert!(command.args.is_empty());
    assert!(command.envs.is_empty());
    assert_eq!(command.stdout, Stdio::Unset);
    assert_eq!(command.stderr, Stdio::Unset);
}

#[test]
fn arguments_keep_their_order() {
    let mut command = Invocation::new(PathBuf::from("/bin/true"));
    command.arg("a");
    command.args(&vec!["b".to_string(), "c".to_string()]);
    command.arg_path(PathBuf::from("/tmp/d"));
    command.args(&Vec::new());
    command.arg("e");
    assert_eq!(
        command.args,
        vec![
            Arg::Text("a".to_string()),
            Arg::Text("b".to_string()),
            Arg::Text("c".to_string()),
            Arg::Path(PathBuf::from("/tmp/d")),
            Arg::Text("e".to_string()),
        ]
    );
    assert_eq!(command.program, PathBuf::from("/bin/true"));
}

#[test]
fn last_binding_of_a_variable_wins() {
    let mut command = Invocation::new(PathBuf::from("/bin/true"));
    assert_eq!(command.env_value("A"), None);
    command.env("A", "1");
    command.env("B", "2");
    assert_eq!(command.env_value("A"), Some("1".to_string()));
    command.env("A", "3");
    assert_eq!(command.env_value("A"), Some("3".to_string()));
    assert_eq!(command.env_value("B"), Some("2".to_string()));
    assert_eq!(command.env_value("C"), None);
    assert_eq!(command.env_value(""), None);
    assert_eq!(command.envs.len(), 3);
}

#[test]
fn streams_are_set_one_by_one() {
    let mut command = Invocation::new(PathBuf::from("/bin/true"));
    command.stdout(Stdio::Inherit);
    assert_eq!(command.stdout, Stdio::Inherit);
    assert_eq!(command.stderr, Stdio::Unset);
    command.stderr(Stdio::Inherit);
    assert_eq!(command.stderr, Stdio::Inherit);
    command.stdout(Stdio::Unset);
    assert_eq!(command.stdout, Stdio::Unset);
    assert_eq!(command.stderr, Stdio::Inherit);
}
