use alchemist::error::AlchemistErrorType;
use alchemist::resolve::{resolve_task, RawValue};
use alchemist::tasks::AlchemistTaskType;

fn text(s: &str) -> RawValue {
    RawValue::Text(s.to_string())
}

fn list(items: &[&str]) -> RawValue {
    RawValue::TextList(items.iter().map(|s| s.to_string()).collect())
}

fn field(k: &str, v: RawValue) -> (String, RawValue) {
    (k.to_string(), v)
}

#[test]
fn command_definition_resolves_to_basic_task() {
    let fields = vec![
        field("command", text("echo")),
        field("args", list(&["hello", "world"])),
        field(
            "env",
            RawValue::TextMap(vec![("K".to_string(), "V".to_string())]),
        ),
        field("hide", RawValue::Truth(true)),
    ];
    match resolve_task(&fields).unwrap() {
        AlchemistTaskType::AlchemistBasicTask(t) => {
            assert_eq!(t.command, "echo");
            assert_eq!(t.args, Some(vec!["hello".to_string(), "world".to_string()]));
            assert_eq!(t.env, Some(vec![("K".to_string(), "V".to_string())]));
            assert_eq!(t.hide, Some(true));
        }
        _ => panic!("wrong shape"),
    }
}

#[test]
fn command_alone_resolves_with_defaults() {
    let fields = vec![field("command", text("ls"))];
    match resolve_task(&fields).unwrap() {
        AlchemistTaskType::AlchemistBasicTask(t) => {
            assert_eq!(t.command, "ls");
            assert_eq!(t.args, None);
            assert_eq!(t.env, None);
            assert_eq!(t.hide, None);
        }
        _ => panic!("wrong shape"),
    }
}

#[test]
fn serial_definition_resolves_to_serial_group() {
    let fields = vec![field("serial_tasks", list(&["a", "b"]))];
    match resolve_task(&fields).unwrap() {
        AlchemistTaskType::AlchemistSerialTasks(t) => {
            assert_eq!(t.serial_tasks, vec!["a".to_string(), "b".to_string()]);
            assert_eq!(t.hide, None);
        }
        _ => panic!("wrong shape"),
    }
}

#[test]
fn parallel_definition_resolves_to_parallel_group() {
    let fields = vec![
        field("parallel_tasks", list(&["a"])),
        field("hide", RawValue::Truth(false)),
    ];
    match resolve_task(&fields).unwrap() {
        AlchemistTaskType::AlchemistParallelTasks(t) => {
            assert_eq!(t.parallel_tasks, vec!["a".to_string()]);
            assert_eq!(t.hide, Some(false));
        }
        _ => panic!("wrong shape"),
    }
}

#[test]
fn shell_definition_resolves_to_shell_task() {
    let fields = vec![field("shell_script", text("echo hi"))];
    match resolve_task(&fields).unwrap() {
        AlchemistTaskType::AlchemistShellTask(t) => {
            assert_eq!(t.shell_script, "echo hi");
            assert_eq!(t.hide, None);
        }
        _ => panic!("wrong shape"),
    }
}

#[test]
fn definition_matching_no_shape_is_rejected() {
    let fields = vec![field("recipe", text("make"))];
    let err = resolve_task(&fields).unwrap_err();
    assert_eq!(err.error_type, AlchemistErrorType::ConfigParseError);
    assert_eq!(
        err.error_message,
        "Task definition matches no known task type"
    );
}

#[test]
fn unrecognized_extra_field_is_rejected() {
    let fields = vec![field("command", text("ls")), field("extra", text("x"))];
    let err = resolve_task(&fields).unwrap_err();
    assert_eq!(err.error_type, AlchemistErrorType::ConfigParseError);
}

#[test]
fn field_of_wrong_type_is_rejected() {
    let fields = vec![field("command", RawValue::Truth(true))];
    assert!(resolve_task(&fields).is_err());
    let fields = vec![field("serial_tasks", text("not-a-list"))];
    assert!(resolve_task(&fields).is_err());
    let fields = vec![field("command", text("ls")), field("hide", text("yes"))];
    assert!(resolve_task(&fields).is_err());
}

#[test]
fn mixed_shapes_are_rejected() {
    let fields = vec![
        field("command", text("ls")),
        field("serial_tasks", list(&["a"])),
    ];
    assert!(resolve_task(&fields).is_err());
}

#[test]
fn duplicate_field_is_rejected() {
    let fields = vec![field("command", text("ls")), field("command", text("pwd"))];
    assert!(resolve_task(&fields).is_err());
}

#[test]
fn unrecognized_value_kind_is_rejected() {
    let fields = vec![
        field("command", text("ls")),
        field("args", RawValue::Unrecognized),
    ];
    assert!(resolve_task(&fields).is_err());
}
