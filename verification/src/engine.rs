//! The execution engine: every decision a run makes, as verified step
//! functions. Leaf tasks (command and shell) are two steps — prepare a
//! process invocation, then turn its exit status into a result. Serial and
//! parallel groups are small state machines whose steps tell the caller what
//! to do next: run a sub-task, launch a concurrent unit, or stop with a
//! result. The caller performs the spawning, waiting and printing these
//! decisions ask for, and feeds the outcomes back in.

use vstd::prelude::*;

verus! {

use vstd::string::StringExecFns;
use crate::error::{AlchemistError, AlchemistErrorType};
use crate::registry::AlchemistConfig;
use crate::strutil::{
    str_views,
    pair_views,
    clone_string,
    clone_strings,
    clone_pairs,
    joined_spaces,
    name_list,
    join_with_spaces,
    format_name_list,
};
use crate::tasks::{
    AlchemistBasicTask,
    AlchemistSerialTasks,
    AlchemistParallelTasks,
    AlchemistShellTask,
    AlchemistTaskType,
};

/// The class of a side-channel notice.
#[derive(Debug, PartialEq, Eq, Clone, Copy)]
pub enum MessageKind {
    /// An informational notice, emitted before work starts.
    Inform,
    /// A success notice, emitted after work completes.
    Succeed,
    /// A failure notice, one per underlying failure.
    Fail,
}

/// One side-channel notice, emitted as execution proceeds.
#[derive(Debug, PartialEq, Eq)]
pub struct Message {
    pub kind: MessageKind,
    pub text: String,
}

/// A process invocation the engine asks for: a program, its arguments, and
/// environment variables to merge into the inherited environment.
#[derive(Debug)]
pub struct ProcessSpec {
    pub program: String,
    pub args: Vec<String>,
    pub env: Vec<(String, String)>,
}

/// What became of a requested process, as reported back to the engine.
#[derive(Debug, PartialEq, Eq, Clone, Copy)]
pub enum ProcessStatus {
    /// The program could not be started at all.
    SpawnFailed,
    /// The program ran; `success` says whether it exited with status zero.
    Exited { success: bool },
}

/// The rendering of a command with its arguments: the command alone when no
/// argument list was given, else the command and the space-joined arguments.
pub open spec fn command_line_of(command: Seq<char>, args: Option<Seq<Seq<char>>>) -> Seq<char> {
    match args {
        Option::Some(a) => command + " "@ + joined_spaces(a),
        Option::None => command,
    }
}

pub open spec fn running_command_msg(command_line: Seq<char>) -> Seq<char> {
    "Running command "@ + command_line
}

pub open spec fn finished_command_msg(command_line: Seq<char>) -> Seq<char> {
    "Finished command "@ + command_line
}

pub open spec fn basic_spawn_failed_msg(task_name: Seq<char>, command_line: Seq<char>) -> Seq<
    char,
> {
    "Starting basic task "@ + task_name + " with command `"@ + command_line
        + "` either not found or insufficient permissions to run."@
}

pub open spec fn basic_nonzero_exit_msg(task_name: Seq<char>, command_line: Seq<char>) -> Seq<
    char,
> {
    "While running basic task "@ + task_name + ", command `"@ + command_line
        + "` failed (non-zero exit code)."@
}

pub open spec fn running_shell_msg(task_name: Seq<char>) -> Seq<char> {
    "Running shell script "@ + task_name
}

pub open spec fn finished_shell_msg(task_name: Seq<char>) -> Seq<char> {
    "Finished shell script "@ + task_name
}

pub open spec fn shell_spawn_failed_msg(task_name: Seq<char>) -> Seq<char> {
    "Failed to start shell script "@ + task_name + "."@
}

pub open spec fn shell_nonzero_exit_msg(task_name: Seq<char>) -> Seq<char> {
    "Shell script '"@ + task_name + "' exited with non-zero exit code."@
}

pub open spec fn running_group_msg(kind: Seq<char>, task_name: Seq<char>, subs: Seq<Seq<char>>) -> Seq<
    char,
> {
    "Running "@ + kind + " task '"@ + task_name + "' which is a collection of "@ + name_list(subs)
}

pub open spec fn finished_group_msg(kind: Seq<char>, task_name: Seq<char>) -> Seq<char> {
    "Finished "@ + kind + " task '"@ + task_name + "'"@
}

pub open spec fn invalid_subtask_msg(kind: Seq<char>, task_name: Seq<char>, sub_name: Seq<char>) -> Seq<
    char,
> {
    kind + " task '"@ + task_name + "' has an invalid subtask '"@ + sub_name + "'"@
}

pub open spec fn aggregate_failure_msg() -> Seq<char> {
    "One or more errors occoured in parallel tasks"@
}

impl AlchemistBasicTask {
    pub open spec fn command_line(&self) -> Seq<char> {
        command_line_of(self@.command, self@.args)
    }

    /// First step of running a command task: the process to start, the
    /// rendered command line, and the informational notice to emit before
    /// starting it.
    pub fn prepare(&self) -> (r: (ProcessSpec, String, Message))
        ensures
            r.0.program@ == self@.command,
            str_views(r.0.args@) == (match self@.args {
                Option::Some(a) => a,
                Option::None => Seq::<Seq<char>>::empty(),
            }),
            pair_views(r.0.env@) == (match self@.env {
                Option::Some(e) => e,
                Option::None => Seq::<(Seq<char>, Seq<char>)>::empty(),
            }),
            r.1@ == self.command_line(),
            r.2.kind == MessageKind::Inform,
            r.2.text@ == running_command_msg(self.command_line()),
    {
        let args: Vec<String> = match &self.args {
            Option::Some(a) => clone_strings(a),
            Option::None => Vec::new(),
        };
        let env: Vec<(String, String)> = match &self.env {
            Option::Some(e) => clone_pairs(e),
            Option::None => Vec::new(),
        };
        let command_line: String = match &self.args {
            Option::Some(a) => {
                let mut s = clone_string(&self.command);
                s.append(" ");
                let joined = join_with_spaces(a);
                s.append(joined.as_str());
                s
            },
            Option::None => clone_string(&self.command),
        };
        let mut text = String::from_str("Running command ");
        text.append(command_line.as_str());
        proof {
            assert(str_views(Seq::<String>::empty()) =~= Seq::<Seq<char>>::empty());
            assert(pair_views(Seq::<(String, String)>::empty()) =~= Seq::<
                (Seq<char>, Seq<char>),
            >::empty());
        }
        let spec = ProcessSpec { program: clone_string(&self.command), args, env };
        (spec, command_line, Message { kind: MessageKind::Inform, text })
    }

    /// Second step: what the process's status means. Spawn failure and a
    /// non-zero exit are both failures, told apart by kind and by message
    /// content; success requires an exit status of exactly zero, and only
    /// then is a success notice emitted.
    pub fn conclude(task_name: &String, command_line: &String, status: ProcessStatus) -> (r: (
        Result<(), AlchemistError>,
        Option<Message>,
    ))
        ensures
            match status {
                ProcessStatus::SpawnFailed => r.0 matches Err(e)
                    && e.error_type == AlchemistErrorType::SpawnFailureError
                    && e.error_message@ == basic_spawn_failed_msg(task_name@, command_line@)
                    && r.1 is None,
                ProcessStatus::Exited { success } => if success {
                    r.0 is Ok && (r.1 matches Some(m) && m.kind == MessageKind::Succeed
                        && m.text@ == finished_command_msg(command_line@))
                } else {
                    r.0 matches Err(e) && e.error_type == AlchemistErrorType::ExecutionFailureError
                        && e.error_message@ == basic_nonzero_exit_msg(task_name@, command_line@)
                        && r.1 is None
                },
            },
    {
        match status {
            ProcessStatus::SpawnFailed => {
                let mut text = String::from_str("Starting basic task ");
                text.append(task_name.as_str());
                text.append(" with command `");
                text.append(command_line.as_str());
                text.append("` either not found or insufficient permissions to run.");
                (
                    Result::Err(
                        AlchemistError::new(AlchemistErrorType::SpawnFailureError, text),
                    ),
                    Option::None,
                )
            },
            ProcessStatus::Exited { success } => {
                if success {
                    let mut text = String::from_str("Finished command ");
                    text.append(command_line.as_str());
                    (
                        Result::Ok(()),
                        Option::Some(Message { kind: MessageKind::Succeed, text }),
                    )
                } else {
                    let mut text = String::from_str("While running basic task ");
                    text.append(task_name.as_str());
                    text.append(", command `");
                    text.append(command_line.as_str());
                    text.append("` failed (non-zero exit code).");
                    (
                        Result::Err(
                            AlchemistError::new(AlchemistErrorType::ExecutionFailureError, text),
                        ),
                        Option::None,
                    )
                }
            },
        }
    }
}

impl AlchemistShellTask {
    /// First step of running a shell task: the shell invocation to start
    /// (`sh -c <script>`, no extra environment) and the informational notice
    /// to emit before starting it.
    pub fn prepare(&self, task_name: &String) -> (r: (ProcessSpec, Message))
        ensures
            r.0.program@ == "sh"@,
            str_views(r.0.args@) == seq!["-c"@, self@.shell_script],
            r.0.env@.len() == 0,
            r.1.kind == MessageKind::Inform,
            r.1.text@ == running_shell_msg(task_name@),
    {
        let mut args: Vec<String> = Vec::new();
        args.push(String::from_str("-c"));
        args.push(clone_string(&self.shell_script));
        proof {
            assert(str_views(args@) =~= seq!["-c"@, self@.shell_script]);
        }
        let mut text = String::from_str("Running shell script ");
        text.append(task_name.as_str());
        let spec = ProcessSpec { program: String::from_str("sh"), args, env: Vec::new() };
        (spec, Message { kind: MessageKind::Inform, text })
    }

    /// Second step: same success and failure meaning as a command task, with
    /// the shell task's own messages.
    pub fn conclude(task_name: &String, status: ProcessStatus) -> (r: (
        Result<(), AlchemistError>,
        Option<Message>,
    ))
        ensures
            match status {
                ProcessStatus::SpawnFailed => r.0 matches Err(e)
                    && e.error_type == AlchemistErrorType::SpawnFailureError
                    && e.error_message@ == shell_spawn_failed_msg(task_name@) && r.1 is None,
                ProcessStatus::Exited { success } => if success {
                    r.0 is Ok && (r.1 matches Some(m) && m.kind == MessageKind::Succeed
                        && m.text@ == finished_shell_msg(task_name@))
                } else {
                    r.0 matches Err(e) && e.error_type == AlchemistErrorType::ExecutionFailureError
                        && e.error_message@ == shell_nonzero_exit_msg(task_name@) && r.1 is None
                },
            },
    {
        match status {
            ProcessStatus::SpawnFailed => {
                let mut text = String::from_str("Failed to start shell script ");
                text.append(task_name.as_str());
                text.append(".");
                (
                    Result::Err(
                        AlchemistError::new(AlchemistErrorType::SpawnFailureError, text),
                    ),
                    Option::None,
                )
            },
            ProcessStatus::Exited { success } => {
                if success {
                    let mut text = String::from_str("Finished shell script ");
                    text.append(task_name.as_str());
                    (
                        Result::Ok(()),
                        Option::Some(Message { kind: MessageKind::Succeed, text }),
                    )
                } else {
                    let mut text = String::from_str("Shell script '");
                    text.append(task_name.as_str());
                    text.append("' exited with non-zero exit code.");
                    (
                        Result::Err(
                            AlchemistError::new(AlchemistErrorType::ExecutionFailureError, text),
                        ),
                        Option::None,
                    )
                }
            },
        }
    }
}

fn group_notice(kind: &str, task_name: &String, subs: &Vec<String>) -> (r: Message)
    ensures
        r.kind == MessageKind::Inform,
        r.text@ == running_group_msg(kind@, task_name@, str_views(subs@)),
{
    let mut text = String::from_str("Running ");
    text.append(kind);
    text.append(" task '");
    text.append(task_name.as_str());
    text.append("' which is a collection of ");
    let listed = format_name_list(subs);
    text.append(listed.as_str());
    Message { kind: MessageKind::Inform, text }
}

fn finished_group_notice(kind: &str, task_name: &String) -> (r: Message)
    ensures
        r.kind == MessageKind::Succeed,
        r.text@ == finished_group_msg(kind@, task_name@),
{
    let mut text = String::from_str("Finished ");
    text.append(kind);
    text.append(" task '");
    text.append(task_name.as_str());
    text.append("'");
    Message { kind: MessageKind::Succeed, text }
}

fn invalid_subtask_error(kind: &str, task_name: &String, sub_name: &String) -> (r: AlchemistError)
    ensures
        r.error_type == AlchemistErrorType::UnknownSubtaskError,
        r.error_message@ == invalid_subtask_msg(kind@, task_name@, sub_name@),
{
    let mut text = String::new();
    text.append(kind);
    proof {
        assert(Seq::<char>::empty() + kind@ =~= kind@);
    }
    text.append(" task '");
    text.append(task_name.as_str());
    text.append("' has an invalid subtask '");
    text.append(sub_name.as_str());
    text.append("'");
    AlchemistError::new(AlchemistErrorType::UnknownSubtaskError, text)
}

/// What a serial group asks its caller to do next.
#[derive(Debug)]
pub enum SerialStep {
    /// Run this sub-task (a copy of its registry entry) and feed the result
    /// into the next `advance` call.
    RunSub { sub_name: String, task: AlchemistTaskType },
    /// The group is over: its result, and the success notice to emit when it
    /// succeeded.
    Stop { result: Result<(), AlchemistError>, notice: Option<Message> },
}

/// The state of one serial group execution: which sub-task comes next.
pub struct SerialRun {
    pub task_name: String,
    pub subs: Vec<String>,
    pub idx: usize,
    pub finished: bool,
}

impl SerialRun {
    pub open spec fn wf(&self) -> bool {
        self.idx <= self.subs@.len()
    }

    /// Starts a serial group: the fresh state, and the informational notice
    /// naming the group and its members.
    pub fn begin(task: &AlchemistSerialTasks, task_name: &String) -> (r: (SerialRun, Message))
        ensures
            r.0.wf(),
            !r.0.finished,
            r.0.idx == 0,
            r.0.task_name@ == task_name@,
            str_views(r.0.subs@) == task@.serial_tasks,
            r.1.kind == MessageKind::Inform,
            r.1.text@ == running_group_msg("serial"@, task_name@, task@.serial_tasks),
    {
        let subs = clone_strings(&task.serial_tasks);
        let notice = group_notice("serial", task_name, &subs);
        (
            SerialRun { task_name: clone_string(task_name), subs, idx: 0, finished: false },
            notice,
        )
    }

    /// One decision of a serial group, fed the previous sub-task's result
    /// (`Ok` on the first call). A failure stops the group at once and is
    /// propagated unchanged; otherwise the next name is resolved against the
    /// registry — an absent name fails the group with an unknown-subtask
    /// error — and its task is handed back to be run; when no name is left,
    /// the group succeeds.
    pub fn advance(&mut self, config: &AlchemistConfig, prev: Result<(), AlchemistError>) -> (r:
        SerialStep)
        requires
            old(self).wf(),
            !old(self).finished,
        ensures
            final(self).wf(),
            final(self).task_name@ == old(self).task_name@,
            final(self).subs@ == old(self).subs@,
            match prev {
                Result::Err(e) => (r matches SerialStep::Stop { result, notice }
                    && result == Result::<(), AlchemistError>::Err(e) && notice is None) && final(self).finished,
                Result::Ok(_) => if old(self).idx < old(self).subs@.len() {
                    match config.spec_get(old(self).subs@[old(self).idx as int]@) {
                        Option::Some(t) => (r matches SerialStep::RunSub { sub_name, task }
                            && sub_name@ == old(self).subs@[old(self).idx as int]@ && task@ == t@)
                            && final(self).idx == old(self).idx + 1 && !final(self).finished,
                        Option::None => (r matches SerialStep::Stop { result, notice }
                            && (result matches Err(e)
                            && e.error_type == AlchemistErrorType::UnknownSubtaskError
                            && e.error_message@ == invalid_subtask_msg(
                            "Serial"@,
                            old(self).task_name@,
                            old(self).subs@[old(self).idx as int]@,
                        )) && notice is None) && final(self).finished,
                    }
                } else {
                    (r matches SerialStep::Stop { result, notice } && result is Ok && (
                    notice matches Some(m) && m.kind == MessageKind::Succeed && m.text@
                        == finished_group_msg("serial"@, old(self).task_name@))) && final(self).finished
                },
            },
    {
        match prev {
            Result::Err(e) => {
                self.finished = true;
                SerialStep::Stop { result: Result::Err(e), notice: Option::None }
            },
            Result::Ok(_) => {
                if self.idx < self.subs.len() {
                    let sub_name = clone_string(&self.subs[self.idx]);
                    match config.get(&sub_name) {
                        Option::Some(task) => {
                            let task = task.duplicate();
                            self.idx = self.idx + 1;
                            SerialStep::RunSub { sub_name, task }
                        },
                        Option::None => {
                            self.finished = true;
                            let e = invalid_subtask_error("Serial", &self.task_name, &sub_name);
                            SerialStep::Stop { result: Result::Err(e), notice: Option::None }
                        },
                    }
                } else {
                    self.finished = true;
                    let notice = finished_group_notice("serial", &self.task_name);
                    SerialStep::Stop { result: Result::Ok(()), notice: Option::Some(notice) }
                }
            },
        }
    }
}

/// What a parallel group asks its caller to do next while launching.
#[derive(Debug)]
pub enum LaunchStep {
    /// Launch this sub-task (a copy of its registry entry) as its own
    /// concurrent unit, with its own copy of the registry.
    Launch { sub_name: String, task: AlchemistTaskType },
    /// Every name resolved and was launched; wait for the units and feed
    /// each result to `collect`.
    LaunchesDone,
    /// A name did not resolve: the group fails at once with this error.
    /// Units launched before it keep running, but no further name is
    /// launched.
    Abort { error: AlchemistError },
}

/// The state of one parallel group execution: which name launches next,
/// whether any collected unit has failed, and — as ghost state — every unit
/// result collected so far.
pub struct ParallelRun {
    pub task_name: String,
    pub subs: Vec<String>,
    pub idx: usize,
    pub failed: bool,
    pub aborted: bool,
    pub collected: Ghost<Seq<Result<(), AlchemistError>>>,
}

impl ParallelRun {
    pub open spec fn wf(&self) -> bool {
        &&& self.idx <= self.subs@.len()
        &&& self.failed == self.some_collected_failure()
    }

    /// Whether any unit result collected so far is a failure.
    pub open spec fn some_collected_failure(&self) -> bool {
        exists|i: int| 0 <= i < self.collected@.len() && self.collected@[i] is Err
    }

    /// Starts a parallel group: the fresh state, and the informational
    /// notice naming the group and its members.
    pub fn begin(task: &AlchemistParallelTasks, task_name: &String) -> (r: (ParallelRun, Message))
        ensures
            r.0.wf(),
            !r.0.aborted,
            !r.0.failed,
            r.0.idx == 0,
            r.0.collected@.len() == 0,
            r.0.task_name@ == task_name@,
            str_views(r.0.subs@) == task@.parallel_tasks,
            r.1.kind == MessageKind::Inform,
            r.1.text@ == running_group_msg("parallel"@, task_name@, task@.parallel_tasks),
    {
        let subs = clone_strings(&task.parallel_tasks);
        let notice = group_notice("parallel", task_name, &subs);
        (
            ParallelRun {
                task_name: clone_string(task_name),
                subs,
                idx: 0,
                failed: false,
                aborted: false,
                collected: Ghost(Seq::empty()),
            },
            notice,
        )
    }

    /// One launching decision: resolves the next name against the registry
    /// and hands its task back to be launched concurrently. An absent name
    /// aborts launching at once — the group's result is then the
    /// unknown-subtask error, while units already launched keep running.
    pub fn launch_next(&mut self, config: &AlchemistConfig) -> (r: LaunchStep)
        requires
            old(self).wf(),
            !old(self).aborted,
        ensures
            final(self).wf(),
            final(self).task_name@ == old(self).task_name@,
            final(self).subs@ == old(self).subs@,
            final(self).failed == old(self).failed,
            final(self).collected@ == old(self).collected@,
            if old(self).idx < old(self).subs@.len() {
                match config.spec_get(old(self).subs@[old(self).idx as int]@) {
                    Option::Some(t) => (r matches LaunchStep::Launch { sub_name, task }
                        && sub_name@ == old(self).subs@[old(self).idx as int]@ && task@ == t@)
                        && final(self).idx == old(self).idx + 1 && !final(self).aborted,
                    Option::None => (r matches LaunchStep::Abort { error }
                        && error.error_type == AlchemistErrorType::UnknownSubtaskError
                        && error.error_message@ == invalid_subtask_msg(
                        "Parallel"@,
                        old(self).task_name@,
                        old(self).subs@[old(self).idx as int]@,
                    )) && final(self).aborted,
                }
            } else {
                r is LaunchesDone && final(self).idx == old(self).idx && !final(self).aborted
            },
    {
        if self.idx < self.subs.len() {
            let sub_name = clone_string(&self.subs[self.idx]);
            match config.get(&sub_name) {
                Option::Some(task) => {
                    let task = task.duplicate();
                    self.idx = self.idx + 1;
                    LaunchStep::Launch { sub_name, task }
                },
                Option::None => {
                    self.aborted = true;
                    let error = invalid_subtask_error("Parallel", &self.task_name, &sub_name);
                    LaunchStep::Abort { error }
                },
            }
        } else {
            LaunchStep::LaunchesDone
        }
    }

    /// Takes one finished unit's result. A failure is reported at once as a
    /// failure notice carrying that unit's message, and is remembered for
    /// the group's aggregate result; a success changes nothing.
    pub fn collect(&mut self, result: &Result<(), AlchemistError>) -> (r: Option<Message>)
        requires
            old(self).wf(),
        ensures
            final(self).wf(),
            final(self).task_name@ == old(self).task_name@,
            final(self).subs@ == old(self).subs@,
            final(self).idx == old(self).idx,
            final(self).aborted == old(self).aborted,
            final(self).collected@ == old(self).collected@.push(*result),
            final(self).failed == (old(self).failed || result is Err),
            match result {
                Result::Err(e) => r matches Some(m) && m.kind == MessageKind::Fail && m.text@
                    == e.error_message@,
                Result::Ok(_) => r is None,
            },
    {
        let ghost before = self.collected@;
        let ghost history = before.push(*result);
        proof {
            assert(history[before.len() as int] == *result);
            assert(forall|i: int| 0 <= i < before.len() ==> history[i] == before[i]);
        }
        self.collected = Ghost(history);
        match result {
            Result::Err(e) => {
                self.failed = true;
                proof {
                    assert(history[before.len() as int] is Err);
                }
                Option::Some(
                    Message { kind: MessageKind::Fail, text: clone_string(&e.error_message) },
                )
            },
            Result::Ok(_) => {
                proof {
                    assert forall|i: int|
                        0 <= i < history.len() && history[i] is Err implies 0 <= i < before.len()
                        && before[i] is Err by {
                        if i == before.len() {
                            assert(history[i] == *result);
                        }
                    }
                }
                Option::None
            },
        }
    }

    /// The group's aggregate outcome once every launched unit has been
    /// collected: a single aggregate failure if one or more units failed,
    /// else success with the group's success notice.
    pub fn conclude(&self) -> (r: (Result<(), AlchemistError>, Option<Message>))
        requires
            self.wf(),
        ensures
            r.0 is Ok <==> !self.some_collected_failure(),
            if self.failed {
                (r.0 matches Err(e) && e.error_type == AlchemistErrorType::AggregateFailureError
                    && e.error_message@ == aggregate_failure_msg()) && r.1 is None
            } else {
                r.0 is Ok && (r.1 matches Some(m) && m.kind == MessageKind::Succeed && m.text@
                    == finished_group_msg("parallel"@, self.task_name@))
            },
    {
        if self.failed {
            let text = String::from_str("One or more errors occoured in parallel tasks");
            (
                Result::Err(
                    AlchemistError::new(AlchemistErrorType::AggregateFailureError, text),
                ),
                Option::None,
            )
        } else {
            let notice = finished_group_notice("parallel", &self.task_name);
            (Result::Ok(()), Option::Some(notice))
        }
    }
}

} // verus!
