use alchemist::error::{AlchemistError, AlchemistErrorType};
use alchemist::registry::AlchemistConfig;
use alchemist::tasks::{
    AlchemistBasicTask, AlchemistSerialTasks, AlchemistShellTask, AlchemistTaskType,
};
use alchemist::terminal::{error_prefix, message_prefix, ERROR};

#[test]
fn error_carries_kind_and_message() {
    let e = AlchemistError::new(
        AlchemistErrorType::ConfigParseError,
        "bad definition".to_string(),
    );
    assert_eq!(e.error_type, AlchemistErrorType::ConfigParseError);
    assert_eq!(e.error_message, "bad definition");
    assert_eq!(e.error_type.to_string(), "ConfigParseError");
    assert_eq!(
        AlchemistErrorType::UnknownSubtaskError.to_string(),
        "UnknownSubtaskError"
    );
    assert_eq!(
        AlchemistErrorType::NoConfigFileError.to_string(),
        "NoConfigFileError"
    );
}

#[test]
fn message_prefix_styles_the_brackets() {
    let p = message_prefix("?");
    assert_eq!(p, "\u{1b}[2m[\u{1b}[0m?\u{1b}[2m]\u{1b}[0m");
}

#[test]
fn error_prefix_styles_the_icon() {
    let p = error_prefix();
    let expected = format!(
        "\u{1b}[2m[\u{1b}[0m\u{1b}[1m\u{1b}[31m{}\u{1b}[39m\u{1b}[0m\u{1b}[2m]\u{1b}[0m",
        ERROR
    );
    assert_eq!(p, expected);
    // the styling really decorates: the bare bracketed icon is not returned
    assert_ne!(p, format!("[{}]", ERROR));
}

#[test]
fn registry_lookup_finds_first_entry() {
    let mut config = AlchemistConfig::new();
    config.add(
        "build".to_string(),
        AlchemistTaskType::AlchemistShellTask(AlchemistShellTask {
            shell_script: "true".to_string(),
            hide: None,
        }),
    );
    match config.get(&"build".to_string()) {
        Some(AlchemistTaskType::AlchemistShellTask(t)) => assert_eq!(t.shell_script, "true"),
        _ => panic!("expected the shell task"),
    }
    assert!(config.get(&"missing".to_string()).is_none());

    // a later entry under the same name never shadows the earlier one
    config.add(
        "build".to_string(),
        AlchemistTaskType::AlchemistShellTask(AlchemistShellTask {
            shell_script: "false".to_string(),
            hide: None,
        }),
    );
    match config.get(&"build".to_string()) {
        Some(AlchemistTaskType::AlchemistShellTask(t)) => assert_eq!(t.shell_script, "true"),
        _ => panic!("expected the shell task"),
    }
}

#[test]
fn is_shown_follows_hide_flag() {
    let shown = AlchemistTaskType::AlchemistBasicTask(AlchemistBasicTask {
        command: "ls".to_string(),
        args: None,
        env: None,
        hide: None,
    });
    assert!(shown.is_shown());
    let hidden = AlchemistTaskType::AlchemistShellTask(AlchemistShellTask {
        shell_script: "true".to_string(),
        hide: Some(true),
    });
    assert!(!hidden.is_shown());
    let explicit = AlchemistTaskType::AlchemistShellTask(AlchemistShellTask {
        shell_script: "true".to_string(),
        hide: Some(false),
    });
    assert!(explicit.is_shown());
}

#[test]
fn to_basic_tasks_is_empty() {
    let t = AlchemistSerialTasks::to_basic_tasks();
    assert!(t.serial_tasks.is_empty());
    assert_eq!(t.hide, None);
}

#[test]
fn duplicate_keeps_the_value() {
    let t = AlchemistBasicTask {
        command: "echo".to_string(),
        args: Some(vec!["x".to_string()]),
        env: Some(vec![("A".to_string(), "1".to_string())]),
        hide: Some(true),
    };
    let d = t.duplicate();
    assert_eq!(d.command, t.command);
    assert_eq!(d.args, t.args);
    assert_eq!(d.env, t.env);
    assert_eq!(d.hide, t.hide);
}
