use alchemist::engine::{
    LaunchStep, Message, MessageKind, ParallelRun, ProcessSpec, ProcessStatus, SerialRun,
    SerialStep,
};
use alchemist::error::{AlchemistError, AlchemistErrorType};
use alchemist::registry::AlchemistConfig;
use alchemist::tasks::{
    AlchemistBasicTask, AlchemistParallelTasks, AlchemistSerialTasks, AlchemistShellTask,
    AlchemistTaskType,
};

fn run_process(spec: &ProcessSpec) -> ProcessStatus {
    let args: Vec<&str> = spec.args.iter().map(|s| s.as_str()).collect();
    let mut expr = duct::cmd(spec.program.as_str(), args);
    for (k, v) in spec.env.iter() {
        expr = expr.env(k, v);
    }
    match expr.unchecked().stdout_null().stderr_null().run() {
        Ok(out) => ProcessStatus::Exited {
            success: out.status.success(),
        },
        Err(_) => ProcessStatus::SpawnFailed,
    }
}

fn run_task(
    task: &AlchemistTaskType,
    name: &String,
    config: &AlchemistConfig,
    log: &mut Vec<Message>,
) -> Result<(), AlchemistError> {
    match task {
        AlchemistTaskType::AlchemistBasicTask(t) => {
            let (spec, line, notice) = t.prepare();
            log.push(notice);
            let status = run_process(&spec);
            let (result, notice) = AlchemistBasicTask::conclude(name, &line, status);
            if let Some(m) = notice {
                log.push(m);
            }
            result
        }
        AlchemistTaskType::AlchemistShellTask(t) => {
            let (spec, notice) = t.prepare(name);
            log.push(notice);
            let status = run_process(&spec);
            let (result, notice) = AlchemistShellTask::conclude(name, status);
            if let Some(m) = notice {
                log.push(m);
            }
            result
        }
        AlchemistTaskType::AlchemistSerialTasks(t) => {
            let (mut run, notice) = SerialRun::begin(t, name);
            log.push(notice);
            let mut prev: Result<(), AlchemistError> = Ok(());
            loop {
                match run.advance(config, prev) {
                    SerialStep::RunSub { sub_name, task } => {
                        prev = run_task(&task, &sub_name, config, log);
                    }
                    SerialStep::Stop { result, notice } => {
                        if let Some(m) = notice {
                            log.push(m);
                        }
                        return result;
                    }
                }
            }
        }
        AlchemistTaskType::AlchemistParallelTasks(t) => {
            let (mut run, notice) = ParallelRun::begin(t, name);
            log.push(notice);
            let mut results: Vec<Result<(), AlchemistError>> = Vec::new();
            loop {
                match run.launch_next(config) {
                    LaunchStep::Launch { sub_name, task } => {
                        let branch_config = config.duplicate();
                        results.push(run_task(&task, &sub_name, &branch_config, log));
                    }
                    LaunchStep::LaunchesDone => break,
                    LaunchStep::Abort { error } => return Err(error),
                }
            }
            for r in results.iter() {
                if let Some(m) = run.collect(r) {
                    log.push(m);
                }
            }
            let (result, notice) = run.conclude();
            if let Some(m) = notice {
                log.push(m);
            }
            result
        }
    }
}

fn basic(command: &str, args: &[&str]) -> AlchemistTaskType {
    AlchemistTaskType::AlchemistBasicTask(AlchemistBasicTask {
        command: command.to_string(),
        args: if args.is_empty() {
            None
        } else {
            Some(args.iter().map(|s| s.to_string()).collect())
        },
        env: None,
        hide: None,
    })
}

#[test]
fn command_exit_zero_reports_success() {
    let task = basic("true", &[]);
    let mut log = Vec::new();
    let ret = run_task(&task, &"t".to_string(), &AlchemistConfig::new(), &mut log);
    assert!(ret.is_ok());
    assert_eq!(log.len(), 2);
    assert_eq!(log[0].kind, MessageKind::Inform);
    assert_eq!(log[0].text, "Running command true");
    assert_eq!(log[1].kind, MessageKind::Succeed);
    assert_eq!(log[1].text, "Finished command true");
}

#[test]
fn command_nonzero_exit_is_execution_failure() {
    let task = basic("false", &[]);
    let mut log = Vec::new();
    let ret = run_task(&task, &"t".to_string(), &AlchemistConfig::new(), &mut log);
    let err = ret.unwrap_err();
    assert_eq!(err.error_type, AlchemistErrorType::ExecutionFailureError);
    assert!(log.iter().all(|m| m.kind != MessageKind::Succeed));
}

#[test]
fn missing_executable_is_spawn_failure() {
    let task = basic("no_such_executable_here_at_all", &[]);
    let mut log = Vec::new();
    let ret = run_task(&task, &"t".to_string(), &AlchemistConfig::new(), &mut log);
    let spawn_err = ret.unwrap_err();
    assert_eq!(spawn_err.error_type, AlchemistErrorType::SpawnFailureError);

    let exec_err = run_task(
        &basic("false", &[]),
        &"t".to_string(),
        &AlchemistConfig::new(),
        &mut Vec::new(),
    )
    .unwrap_err();
    assert_ne!(spawn_err.error_message, exec_err.error_message);
    assert!(spawn_err.error_message.contains("either not found"));
}

#[test]
fn command_env_is_handed_to_process() {
    let task = AlchemistTaskType::AlchemistBasicTask(AlchemistBasicTask {
        command: "sh".to_string(),
        args: Some(vec!["-c".to_string(), "test \"$MARKER\" = yes".to_string()]),
        env: Some(vec![("MARKER".to_string(), "yes".to_string())]),
        hide: None,
    });
    let ret = run_task(
        &task,
        &"t".to_string(),
        &AlchemistConfig::new(),
        &mut Vec::new(),
    );
    assert!(ret.is_ok());
}

#[test]
fn serial_failure_stops_group_and_propagates_unchanged() {
    let mut config = AlchemistConfig::new();
    config.add("a".to_string(), basic("false", &[]));
    config.add("b".to_string(), basic("true", &[]));
    let group = AlchemistTaskType::AlchemistSerialTasks(AlchemistSerialTasks {
        serial_tasks: vec!["a".to_string(), "b".to_string()],
        hide: None,
    });
    let mut log = Vec::new();
    let ret = run_task(&group, &"g".to_string(), &config, &mut log);
    let err = ret.unwrap_err();
    // the group's error is a's error, unchanged
    assert_eq!(err.error_type, AlchemistErrorType::ExecutionFailureError);
    assert_eq!(
        err.error_message,
        "While running basic task a, command `false` failed (non-zero exit code)."
    );
    // b never executed: only the group notice and a's notice were emitted
    assert_eq!(log.len(), 2);
    assert_eq!(
        log[0].text,
        "Running serial task 'g' which is a collection of [\"a\", \"b\"]"
    );
    assert_eq!(log[1].text, "Running command false");
}

#[test]
fn serial_unknown_subtask_fails_before_running_it() {
    let config = AlchemistConfig::new();
    let group = AlchemistTaskType::AlchemistSerialTasks(AlchemistSerialTasks {
        serial_tasks: vec!["missing".to_string()],
        hide: None,
    });
    let mut log = Vec::new();
    let ret = run_task(&group, &"g".to_string(), &config, &mut log);
    let err = ret.unwrap_err();
    assert_eq!(err.error_type, AlchemistErrorType::UnknownSubtaskError);
    assert_eq!(
        err.error_message,
        "Serial task 'g' has an invalid subtask 'missing'"
    );
    // nothing was executed: only the group's own notice was emitted
    assert_eq!(log.len(), 1);
    assert_eq!(log[0].kind, MessageKind::Inform);
}

#[test]
fn serial_runs_members_in_order_and_succeeds() {
    let mut config = AlchemistConfig::new();
    config.add("a".to_string(), basic("true", &[]));
    config.add("b".to_string(), basic("echo", &["done"]));
    let group = AlchemistTaskType::AlchemistSerialTasks(AlchemistSerialTasks {
        serial_tasks: vec!["a".to_string(), "b".to_string()],
        hide: None,
    });
    let mut log = Vec::new();
    let ret = run_task(&group, &"g".to_string(), &config, &mut log);
    assert!(ret.is_ok());
    let texts: Vec<&str> = log.iter().map(|m| m.text.as_str()).collect();
    assert_eq!(
        texts,
        vec![
            "Running serial task 'g' which is a collection of [\"a\", \"b\"]",
            "Running command true",
            "Finished command true",
            "Running command echo done",
            "Finished command echo done",
            "Finished serial task 'g'",
        ]
    );
}

#[test]
fn parallel_collects_both_failures_into_aggregate() {
    let mut config = AlchemistConfig::new();
    config.add("a".to_string(), basic("false", &[]));
    config.add("b".to_string(), basic("false", &[]));
    let group = AlchemistTaskType::AlchemistParallelTasks(AlchemistParallelTasks {
        parallel_tasks: vec!["a".to_string(), "b".to_string()],
        hide: None,
    });
    let mut log = Vec::new();
    let ret = run_task(&group, &"p".to_string(), &config, &mut log);
    let err = ret.unwrap_err();
    assert_eq!(err.error_type, AlchemistErrorType::AggregateFailureError);
    assert_eq!(
        err.error_message,
        "One or more errors occoured in parallel tasks"
    );
    // both failures were individually reported
    let failures: Vec<&Message> = log.iter().filter(|m| m.kind == MessageKind::Fail).collect();
    assert_eq!(failures.len(), 2);
}

#[test]
fn parallel_succeeds_when_all_members_succeed() {
    let mut config = AlchemistConfig::new();
    config.add("a".to_string(), basic("true", &[]));
    config.add("b".to_string(), basic("true", &[]));
    let group = AlchemistTaskType::AlchemistParallelTasks(AlchemistParallelTasks {
        parallel_tasks: vec!["a".to_string(), "b".to_string()],
        hide: None,
    });
    let mut log = Vec::new();
    let ret = run_task(&group, &"p".to_string(), &config, &mut log);
    assert!(ret.is_ok());
    assert_eq!(
        log[0].text,
        "Running parallel task 'p' which is a collection of [\"a\", \"b\"]"
    );
    assert_eq!(log.last().unwrap().text, "Finished parallel task 'p'");
}

#[test]
fn empty_groups_succeed() {
    let config = AlchemistConfig::new();
    let serial = AlchemistTaskType::AlchemistSerialTasks(AlchemistSerialTasks {
        serial_tasks: vec![],
        hide: None,
    });
    assert!(run_task(&serial, &"s".to_string(), &config, &mut Vec::new()).is_ok());
    let parallel = AlchemistTaskType::AlchemistParallelTasks(AlchemistParallelTasks {
        parallel_tasks: vec![],
        hide: None,
    });
    let mut log = Vec::new();
    assert!(run_task(&parallel, &"p".to_string(), &config, &mut log).is_ok());
    assert_eq!(
        log[0].text,
        "Running parallel task 'p' which is a collection of []"
    );
}

#[test]
fn parallel_unknown_name_aborts_launching_but_not_launched_siblings() {
    let mut config = AlchemistConfig::new();
    config.add("good".to_string(), basic("true", &[]));
    let group = AlchemistParallelTasks {
        parallel_tasks: vec!["good".to_string(), "missing".to_string()],
        hide: None,
    };
    let (mut run, _notice) = ParallelRun::begin(&group, &"p".to_string());

    // the resolvable name launches and runs to completion
    let first = run.launch_next(&config);
    let launched_result = match first {
        LaunchStep::Launch { sub_name, task } => {
            assert_eq!(sub_name, "good");
            run_task(&task, &sub_name, &config.duplicate(), &mut Vec::new())
        }
        _ => panic!("expected a launch"),
    };
    assert!(launched_result.is_ok());

    // the unresolvable name aborts further launching with the group's error
    match run.launch_next(&config) {
        LaunchStep::Abort { error } => {
            assert_eq!(error.error_type, AlchemistErrorType::UnknownSubtaskError);
            assert_eq!(
                error.error_message,
                "Parallel task 'p' has an invalid subtask 'missing'"
            );
        }
        _ => panic!("expected an abort"),
    }
}

#[test]
fn shell_task_round_trip() {
    let ok = AlchemistTaskType::AlchemistShellTask(AlchemistShellTask {
        shell_script: "exit 0".to_string(),
        hide: None,
    });
    let mut log = Vec::new();
    let ret = run_task(&ok, &"s".to_string(), &AlchemistConfig::new(), &mut log);
    assert!(ret.is_ok());
    assert_eq!(log[0].text, "Running shell script s");
    assert_eq!(log[1].text, "Finished shell script s");

    let failing = AlchemistTaskType::AlchemistShellTask(AlchemistShellTask {
        shell_script: "exit 7".to_string(),
        hide: None,
    });
    let ret = run_task(
        &failing,
        &"s".to_string(),
        &AlchemistConfig::new(),
        &mut Vec::new(),
    );
    let err = ret.unwrap_err();
    assert_eq!(err.error_type, AlchemistErrorType::ExecutionFailureError);
    assert_eq!(
        err.error_message,
        "Shell script 's' exited with non-zero exit code."
    );
}

#[test]
fn nested_groups_run_through() {
    let mut config = AlchemistConfig::new();
    config.add("leaf".to_string(), basic("true", &[]));
    config.add(
        "inner".to_string(),
        AlchemistTaskType::AlchemistSerialTasks(AlchemistSerialTasks {
            serial_tasks: vec!["leaf".to_string()],
            hide: None,
        }),
    );
    let group = AlchemistTaskType::AlchemistParallelTasks(AlchemistParallelTasks {
        parallel_tasks: vec!["inner".to_string(), "leaf".to_string()],
        hide: None,
    });
    let ret = run_task(&group, &"outer".to_string(), &config, &mut Vec::new());
    assert!(ret.is_ok());
}
