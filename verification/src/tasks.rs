//! The four shapes a named task definition can take, and the tagged union
//! over them. Values are immutable once built; groups hand clones of them to
//! concurrent branches, so every shape has a `duplicate` that provably keeps
//! the abstract value.

use vstd::prelude::*;

verus! {

use crate::strutil::{str_views, pair_views, clone_string, clone_strings, clone_pairs};

/// Abstract value of a command task.
pub struct BasicTaskView {
    pub command: Seq<char>,
    pub args: Option<Seq<Seq<char>>>,
    pub env: Option<Seq<(Seq<char>, Seq<char>)>>,
    pub hide: Option<bool>,
}

/// Abstract value of a serial group.
pub struct SerialTasksView {
    pub serial_tasks: Seq<Seq<char>>,
    pub hide: Option<bool>,
}

/// Abstract value of a parallel group.
pub struct ParallelTasksView {
    pub parallel_tasks: Seq<Seq<char>>,
    pub hide: Option<bool>,
}

/// Abstract value of a shell task.
pub struct ShellTaskView {
    pub shell_script: Seq<char>,
    pub hide: Option<bool>,
}

/// Abstract value of a task definition: exactly one of the four shapes.
pub enum TaskTypeView {
    Basic(BasicTaskView),
    Serial(SerialTasksView),
    Parallel(ParallelTasksView),
    Shell(ShellTaskView),
}

/// A simple task: a command with optional arguments and extra environment
/// variables (merged into, not replacing, the inherited environment).
#[derive(Debug)]
pub struct AlchemistBasicTask {
    pub command: String,
    pub args: Option<Vec<String>>,
    pub env: Option<Vec<(String, String)>>,
    pub hide: Option<bool>,
}

/// A group of named tasks executed one after the other, in listed order.
#[derive(Debug)]
pub struct AlchemistSerialTasks {
    pub serial_tasks: Vec<String>,
    pub hide: Option<bool>,
}

/// A group of named tasks all launched concurrently.
#[derive(Debug)]
pub struct AlchemistParallelTasks {
    pub parallel_tasks: Vec<String>,
    pub hide: Option<bool>,
}

/// A shell snippet run through the system shell's `-c` convention.
#[derive(Debug)]
pub struct AlchemistShellTask {
    pub shell_script: String,
    pub hide: Option<bool>,
}

impl View for AlchemistBasicTask {
    type V = BasicTaskView;

    open spec fn view(&self) -> BasicTaskView {
        BasicTaskView {
            command: self.command@,
            args: match self.args {
                Option::Some(a) => Option::Some(str_views(a@)),
                Option::None => Option::None,
            },
            env: match self.env {
                Option::Some(e) => Option::Some(pair_views(e@)),
                Option::None => Option::None,
            },
            hide: self.hide,
        }
    }
}

impl View for AlchemistSerialTasks {
    type V = SerialTasksView;

    open spec fn view(&self) -> SerialTasksView {
        SerialTasksView { serial_tasks: str_views(self.serial_tasks@), hide: self.hide }
    }
}

impl View for AlchemistParallelTasks {
    type V = ParallelTasksView;

    open spec fn view(&self) -> ParallelTasksView {
        ParallelTasksView { parallel_tasks: str_views(self.parallel_tasks@), hide: self.hide }
    }
}

impl View for AlchemistShellTask {
    type V = ShellTaskView;

    open spec fn view(&self) -> ShellTaskView {
        ShellTaskView { shell_script: self.shell_script@, hide: self.hide }
    }
}

fn clone_opt_strings(v: &Option<Vec<String>>) -> (r: Option<Vec<String>>)
    ensures
        r is Some <==> v is Some,
        v matches Some(a) ==> (r matches Some(b) && str_views(b@) == str_views(a@)),
{
    match v {
        Option::Some(a) => Option::Some(clone_strings(a)),
        Option::None => Option::None,
    }
}

fn clone_opt_pairs(v: &Option<Vec<(String, String)>>) -> (r: Option<Vec<(String, String)>>)
    ensures
        r is Some <==> v is Some,
        v matches Some(a) ==> (r matches Some(b) && pair_views(b@) == pair_views(a@)),
{
    match v {
        Option::Some(a) => Option::Some(clone_pairs(a)),
        Option::None => Option::None,
    }
}

impl AlchemistBasicTask {
    /// A copy with the same abstract value.
    pub fn duplicate(&self) -> (r: AlchemistBasicTask)
        ensures
            r@ == self@,
    {
        AlchemistBasicTask {
            command: clone_string(&self.command),
            args: clone_opt_strings(&self.args),
            env: clone_opt_pairs(&self.env),
            hide: self.hide,
        }
    }
}

impl AlchemistSerialTasks {
    /// A copy with the same abstract value.
    pub fn duplicate(&self) -> (r: AlchemistSerialTasks)
        ensures
            r@ == self@,
    {
        AlchemistSerialTasks {
            serial_tasks: clone_strings(&self.serial_tasks),
            hide: self.hide,
        }
    }

    /// An empty serial group, hiding nothing and naming no sub-tasks.
    pub fn to_basic_tasks() -> (r: AlchemistSerialTasks)
        ensures
            r@.serial_tasks.len() == 0,
            r@.hide is None,
    {
        let r = AlchemistSerialTasks { serial_tasks: Vec::new(), hide: Option::None };
        proof {
            assert(str_views(r.serial_tasks@) =~= Seq::<Seq<char>>::empty());
        }
        r
    }
}

impl AlchemistParallelTasks {
    /// A copy with the same abstract value.
    pub fn duplicate(&self) -> (r: AlchemistParallelTasks)
        ensures
            r@ == self@,
    {
        AlchemistParallelTasks {
            parallel_tasks: clone_strings(&self.parallel_tasks),
            hide: self.hide,
        }
    }
}

impl AlchemistShellTask {
    /// A copy with the same abstract value.
    pub fn duplicate(&self) -> (r: AlchemistShellTask)
        ensures
            r@ == self@,
    {
        AlchemistShellTask {
            shell_script: clone_string(&self.shell_script),
            hide: self.hide,
        }
    }
}

/// One task definition: exactly one of the four shapes.
#[derive(Debug)]
pub enum AlchemistTaskType {
    AlchemistBasicTask(AlchemistBasicTask),
    AlchemistSerialTasks(AlchemistSerialTasks),
    AlchemistParallelTasks(AlchemistParallelTasks),
    AlchemistShellTask(AlchemistShellTask),
}

impl View for AlchemistTaskType {
    type V = TaskTypeView;

    open spec fn view(&self) -> TaskTypeView {
        match self {
            AlchemistTaskType::AlchemistBasicTask(t) => TaskTypeView::Basic(t@),
            AlchemistTaskType::AlchemistSerialTasks(t) => TaskTypeView::Serial(t@),
            AlchemistTaskType::AlchemistParallelTasks(t) => TaskTypeView::Parallel(t@),
            AlchemistTaskType::AlchemistShellTask(t) => TaskTypeView::Shell(t@),
        }
    }
}

impl TaskTypeView {
    /// The `hide` flag of whichever shape the definition has.
    pub open spec fn hide_flag(&self) -> Option<bool> {
        match self {
            TaskTypeView::Basic(t) => t.hide,
            TaskTypeView::Serial(t) => t.hide,
            TaskTypeView::Parallel(t) => t.hide,
            TaskTypeView::Shell(t) => t.hide,
        }
    }
}

impl AlchemistTaskType {
    /// Whether listing UIs should display the task: everything is shown
    /// unless its definition says `hide = true`.
    pub fn is_shown(&self) -> (r: bool)
        ensures
            r == (self@.hide_flag() != Option::Some(true)),
    {
        let hide = match self {
            AlchemistTaskType::AlchemistBasicTask(t) => t.hide,
            AlchemistTaskType::AlchemistSerialTasks(t) => t.hide,
            AlchemistTaskType::AlchemistParallelTasks(t) => t.hide,
            AlchemistTaskType::AlchemistShellTask(t) => t.hide,
        };
        match hide {
            Option::Some(h) => !h,
            Option::None => true,
        }
    }

    /// A copy with the same abstract value.
    pub fn duplicate(&self) -> (r: AlchemistTaskType)
        ensures
            r@ == self@,
    {
        match self {
            AlchemistTaskType::AlchemistBasicTask(t) => {
                AlchemistTaskType::AlchemistBasicTask(t.duplicate())
            },
            AlchemistTaskType::AlchemistSerialTasks(t) => {
                AlchemistTaskType::AlchemistSerialTasks(t.duplicate())
            },
            AlchemistTaskType::AlchemistParallelTasks(t) => {
                AlchemistTaskType::AlchemistParallelTasks(t.duplicate())
            },
            AlchemistTaskType::AlchemistShellTask(t) => {
                AlchemistTaskType::AlchemistShellTask(t.duplicate())
            },
        }
    }
}

} // verus!
