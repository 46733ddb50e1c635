//! Structural discrimination of task definitions. A definition carries no
//! type tag: the shape is decided by which fields are present. The cases are
//! tried in a fixed priority order — command task, serial group, parallel
//! group, shell task — and a case matches only when its required field is
//! present and every present field belongs to that case with the right value
//! type (the optional `hide` flag belongs to all four). A definition
//! matching no case, or one with a duplicate field, is rejected before
//! anything runs.

use vstd::prelude::*;

verus! {

use vstd::string::StringExecFns;
use crate::error::{AlchemistError, AlchemistErrorType};
use crate::strutil::{str_views, pair_views, clone_string, clone_strings, clone_pairs};
use crate::tasks::{
    AlchemistBasicTask,
    AlchemistSerialTasks,
    AlchemistParallelTasks,
    AlchemistShellTask,
    AlchemistTaskType,
};

/// One field value of a raw task definition, as the configuration loader
/// hands it over: a string, a list of strings, a string-to-string table, a
/// boolean, or anything else (which no shape accepts).
#[derive(Debug)]
pub enum RawValue {
    Text(String),
    TextList(Vec<String>),
    TextMap(Vec<(String, String)>),
    Truth(bool),
    Unrecognized,
}

/// The raw fields of one task definition, in document order.
pub type RawFields = Vec<(String, RawValue)>;

/// No field name occurs twice.
pub open spec fn distinct_keys(fs: Seq<(String, RawValue)>) -> bool {
    forall|i: int, j: int| 0 <= i < j < fs.len() ==> fs[i].0@ != fs[j].0@
}

/// Whether some field has this name.
pub open spec fn has_key(fs: Seq<(String, RawValue)>, k: Seq<char>) -> bool {
    exists|i: int| 0 <= i < fs.len() && fs[i].0@ == k
}

/// The first value stored under this field name.
pub open spec fn field_value(fs: Seq<(String, RawValue)>, k: Seq<char>) -> Option<RawValue>
    decreases fs.len(),
{
    if fs.len() == 0 {
        Option::None
    } else if fs[0].0@ == k {
        Option::Some(fs[0].1)
    } else {
        field_value(fs.drop_first(), k)
    }
}

/// A field a command task accepts, with the value type it demands.
pub open spec fn basic_field_ok(f: (String, RawValue)) -> bool {
    ||| (f.0@ == "command"@ && f.1 is Text)
    ||| (f.0@ == "args"@ && f.1 is TextList)
    ||| (f.0@ == "env"@ && f.1 is TextMap)
    ||| (f.0@ == "hide"@ && f.1 is Truth)
}

/// A field a serial group accepts.
pub open spec fn serial_field_ok(f: (String, RawValue)) -> bool {
    ||| (f.0@ == "serial_tasks"@ && f.1 is TextList)
    ||| (f.0@ == "hide"@ && f.1 is Truth)
}

/// A field a parallel group accepts.
pub open spec fn parallel_field_ok(f: (String, RawValue)) -> bool {
    ||| (f.0@ == "parallel_tasks"@ && f.1 is TextList)
    ||| (f.0@ == "hide"@ && f.1 is Truth)
}

/// A field a shell task accepts.
pub open spec fn shell_field_ok(f: (String, RawValue)) -> bool {
    ||| (f.0@ == "shell_script"@ && f.1 is Text)
    ||| (f.0@ == "hide"@ && f.1 is Truth)
}

/// The definition is a command task: `command` is present, and every field
/// is one a command task accepts, each name at most once.
pub open spec fn matches_basic(fs: Seq<(String, RawValue)>) -> bool {
    &&& has_key(fs, "command"@)
    &&& forall|i: int| 0 <= i < fs.len() ==> basic_field_ok(#[trigger] fs[i])
    &&& distinct_keys(fs)
}

/// The definition is a serial group.
pub open spec fn matches_serial(fs: Seq<(String, RawValue)>) -> bool {
    &&& has_key(fs, "serial_tasks"@)
    &&& forall|i: int| 0 <= i < fs.len() ==> serial_field_ok(#[trigger] fs[i])
    &&& distinct_keys(fs)
}

/// The definition is a parallel group.
pub open spec fn matches_parallel(fs: Seq<(String, RawValue)>) -> bool {
    &&& has_key(fs, "parallel_tasks"@)
    &&& forall|i: int| 0 <= i < fs.len() ==> parallel_field_ok(#[trigger] fs[i])
    &&& distinct_keys(fs)
}

/// The definition is a shell task.
pub open spec fn matches_shell(fs: Seq<(String, RawValue)>) -> bool {
    &&& has_key(fs, "shell_script"@)
    &&& forall|i: int| 0 <= i < fs.len() ==> shell_field_ok(#[trigger] fs[i])
    &&& distinct_keys(fs)
}

/// The definition matches some shape.
pub open spec fn matches_any(fs: Seq<(String, RawValue)>) -> bool {
    matches_basic(fs) || matches_serial(fs) || matches_parallel(fs) || matches_shell(fs)
}

pub open spec fn invalid_definition_msg() -> Seq<char> {
    "Task definition matches no known task type"@
}

/// The optional `hide` flag of a definition.
pub open spec fn hide_of(fs: Seq<(String, RawValue)>) -> Option<bool> {
    match field_value(fs, "hide"@) {
        Option::Some(RawValue::Truth(h)) => Option::Some(h),
        _ => Option::None,
    }
}

/// The seven recognized field names are pairwise distinct.
proof fn lemma_key_literals_distinct()
    ensures
        "command"@ != "args"@,
        "command"@ != "env"@,
        "command"@ != "hide"@,
        "command"@ != "serial_tasks"@,
        "command"@ != "parallel_tasks"@,
        "command"@ != "shell_script"@,
        "args"@ != "env"@,
        "args"@ != "hide"@,
        "args"@ != "serial_tasks"@,
        "args"@ != "parallel_tasks"@,
        "args"@ != "shell_script"@,
        "env"@ != "hide"@,
        "env"@ != "serial_tasks"@,
        "env"@ != "parallel_tasks"@,
        "env"@ != "shell_script"@,
        "hide"@ != "serial_tasks"@,
        "hide"@ != "parallel_tasks"@,
        "hide"@ != "shell_script"@,
        "serial_tasks"@ != "parallel_tasks"@,
        "serial_tasks"@ != "shell_script"@,
        "parallel_tasks"@ != "shell_script"@,
{
    reveal_strlit("command");
    reveal_strlit("args");
    reveal_strlit("env");
    reveal_strlit("hide");
    reveal_strlit("serial_tasks");
    reveal_strlit("parallel_tasks");
    reveal_strlit("shell_script");
    assert("command"@.len() == 7);
    assert("args"@.len() == 4);
    assert("env"@.len() == 3);
    assert("hide"@.len() == 4);
    assert("serial_tasks"@.len() == 12);
    assert("parallel_tasks"@.len() == 14);
    assert("shell_script"@.len() == 12);
    assert("args"@[0] == 'a' && "hide"@[0] == 'h');
    assert("serial_tasks"@[1] == 'e' && "shell_script"@[1] == 'h');
}

/// The four shapes are mutually exclusive: no definition matches two of
/// them, because each shape's required field is one every other shape
/// rejects. Any new shape must preserve this.
pub proof fn lemma_shapes_mutually_exclusive(fs: Seq<(String, RawValue)>)
    ensures
        !(matches_basic(fs) && matches_serial(fs)),
        !(matches_basic(fs) && matches_parallel(fs)),
        !(matches_basic(fs) && matches_shell(fs)),
        !(matches_serial(fs) && matches_parallel(fs)),
        !(matches_serial(fs) && matches_shell(fs)),
        !(matches_parallel(fs) && matches_shell(fs)),
{
    lemma_key_literals_distinct();
    if matches_serial(fs) {
        let i = choose|i: int| 0 <= i < fs.len() && fs[i].0@ == "serial_tasks"@;
        assert(!basic_field_ok(fs[i]) && !parallel_field_ok(fs[i]) && !shell_field_ok(fs[i]));
    }
    if matches_parallel(fs) {
        let i = choose|i: int| 0 <= i < fs.len() && fs[i].0@ == "parallel_tasks"@;
        assert(!basic_field_ok(fs[i]) && !shell_field_ok(fs[i]));
    }
    if matches_shell(fs) {
        let i = choose|i: int| 0 <= i < fs.len() && fs[i].0@ == "shell_script"@;
        assert(!basic_field_ok(fs[i]));
    }
}

/// Finds the first field with this name.
fn find_field<'a>(fields: &'a RawFields, key: &String) -> (r: Option<&'a RawValue>)
    ensures
        match r {
            Option::Some(v) => field_value(fields@, key@) == Option::Some(*v),
            Option::None => field_value(fields@, key@) is None,
        },
{
    let mut i: usize = 0;
    proof {
        assert(fields@.skip(0) =~= fields@);
    }
    while i < fields.len()
        invariant
            i <= fields@.len(),
            field_value(fields@.skip(i as int), key@) == field_value(fields@, key@),
        decreases fields@.len() - i,
    {
        proof {
            assert(fields@.skip(i as int)[0] == fields@[i as int]);
            assert(fields@.skip(i as int).drop_first() =~= fields@.skip(i + 1));
        }
        if fields[i].0.eq(key) {
            return Option::Some(&fields[i].1);
        }
        i += 1;
    }
    proof {
        assert(fields@.skip(fields@.len() as int).len() == 0);
    }
    Option::None
}

/// Whether every field of the definition satisfies `ok`, where `ok` is told
/// apart by a small tag so one loop serves all four shapes.
#[derive(Clone, Copy)]
pub(crate) enum Shape {
    Basic,
    Serial,
    Parallel,
    Shell,
}

impl Shape {
    pub(crate) open spec fn field_ok(&self, f: (String, RawValue)) -> bool {
        match self {
            Shape::Basic => basic_field_ok(f),
            Shape::Serial => serial_field_ok(f),
            Shape::Parallel => parallel_field_ok(f),
            Shape::Shell => shell_field_ok(f),
        }
    }
}

fn field_allowed(shape: Shape, name: &String, value: &RawValue) -> (r: bool)
    ensures
        r == shape.field_ok((*name, *value)),
{
    let is_text_v = matches!(value, RawValue::Text(_));
    let is_list_v = matches!(value, RawValue::TextList(_));
    let is_map_v = matches!(value, RawValue::TextMap(_));
    let is_truth_v = matches!(value, RawValue::Truth(_));
    let hide_ok = name.eq(&String::from_str("hide")) && is_truth_v;
    match shape {
        Shape::Basic => {
            (name.eq(&String::from_str("command")) && is_text_v) || (name.eq(
                &String::from_str("args"),
            ) && is_list_v) || (name.eq(&String::from_str("env")) && is_map_v) || hide_ok
        },
        Shape::Serial => (name.eq(&String::from_str("serial_tasks")) && is_list_v) || hide_ok,
        Shape::Parallel => (name.eq(&String::from_str("parallel_tasks")) && is_list_v) || hide_ok,
        Shape::Shell => (name.eq(&String::from_str("shell_script")) && is_text_v) || hide_ok,
    }
}

fn all_fields_allowed(shape: Shape, fields: &RawFields) -> (r: bool)
    ensures
        r == forall|i: int| 0 <= i < fields@.len() ==> shape.field_ok(#[trigger] fields@[i]),
{
    let mut i: usize = 0;
    while i < fields.len()
        invariant
            i <= fields@.len(),
            forall|j: int| 0 <= j < i ==> shape.field_ok(#[trigger] fields@[j]),
        decreases fields@.len() - i,
    {
        if !field_allowed(shape, &fields[i].0, &fields[i].1) {
            return false;
        }
        i += 1;
    }
    true
}

fn keys_distinct(fields: &RawFields) -> (r: bool)
    ensures
        r == distinct_keys(fields@),
{
    let mut i: usize = 0;
    while i < fields.len()
        invariant
            i <= fields@.len(),
            forall|a: int, b: int| 0 <= a < b < i ==> fields@[a].0@ != fields@[b].0@,
        decreases fields@.len() - i,
    {
        let mut j: usize = 0;
        while j < i
            invariant
                j <= i < fields@.len(),
                forall|a: int, b: int| 0 <= a < b < i ==> fields@[a].0@ != fields@[b].0@,
                forall|b: int| 0 <= b < j ==> fields@[b].0@ != fields@[i as int].0@,
            decreases i - j,
        {
            if fields[j].0.eq(&fields[i].0) {
                return false;
            }
            j += 1;
        }
        i += 1;
    }
    true
}

fn hide_flag(fields: &RawFields) -> (r: Option<bool>)
    ensures
        r == hide_of(fields@),
{
    match find_field(fields, &String::from_str("hide")) {
        Option::Some(RawValue::Truth(h)) => Option::Some(*h),
        _ => Option::None,
    }
}

/// Decides which of the four shapes a raw definition has and builds the
/// task, or rejects the definition. The shapes are tried in priority order;
/// a definition whose fields satisfy none of them — an unrecognized field, a
/// wrong value type, a duplicate, or no required field — is a configuration
/// error, surfaced before anything is executed.
pub fn resolve_task(fields: &RawFields) -> (r: Result<AlchemistTaskType, AlchemistError>)
    ensures
        r is Ok <==> matches_any(fields@),
        matches_basic(fields@) ==> (r matches Ok(t) && (t@ matches
        crate::tasks::TaskTypeView::Basic(b) && (field_value(fields@, "command"@) matches Some(
            RawValue::Text(c),
        ) && b.command == c@) && (match field_value(fields@, "args"@) {
            Option::Some(RawValue::TextList(a)) => b.args == Option::Some(str_views(a@)),
            _ => b.args is None,
        }) && (match field_value(fields@, "env"@) {
            Option::Some(RawValue::TextMap(e)) => b.env == Option::Some(pair_views(e@)),
            _ => b.env is None,
        }) && b.hide == hide_of(fields@))),
        !matches_basic(fields@) && matches_serial(fields@) ==> (r matches Ok(t) && (t@ matches
        crate::tasks::TaskTypeView::Serial(s) && (field_value(fields@, "serial_tasks"@) matches
        Some(RawValue::TextList(l)) && s.serial_tasks == str_views(l@)) && s.hide == hide_of(
            fields@,
        ))),
        !matches_basic(fields@) && !matches_serial(fields@) && matches_parallel(fields@) ==> (
        r matches Ok(t) && (t@ matches crate::tasks::TaskTypeView::Parallel(p) && (field_value(
            fields@,
            "parallel_tasks"@,
        ) matches Some(RawValue::TextList(l)) && p.parallel_tasks == str_views(l@)) && p.hide
            == hide_of(fields@))),
        !matches_basic(fields@) && !matches_serial(fields@) && !matches_parallel(fields@)
            && matches_shell(fields@) ==> (r matches Ok(t) && (t@ matches
        crate::tasks::TaskTypeView::Shell(s) && (field_value(fields@, "shell_script"@) matches
        Some(RawValue::Text(c)) && s.shell_script == c@) && s.hide == hide_of(fields@))),
        !matches_any(fields@) ==> (r matches Err(e) && e.error_type
            == AlchemistErrorType::ConfigParseError && e.error_message@
            == invalid_definition_msg()),
{
    proof {
        lemma_key_literals_distinct();
        lemma_field_value_found(fields@, "command"@);
        lemma_field_value_found(fields@, "serial_tasks"@);
        lemma_field_value_found(fields@, "parallel_tasks"@);
        lemma_field_value_found(fields@, "shell_script"@);
    }
    let distinct = keys_distinct(fields);

    if distinct {
        let command = find_field(fields, &String::from_str("command"));
        if all_fields_allowed(Shape::Basic, fields) {
            match command {
                Option::Some(RawValue::Text(c)) => {
                    let args = match find_field(fields, &String::from_str("args")) {
                        Option::Some(RawValue::TextList(a)) => Option::Some(clone_strings(a)),
                        _ => Option::None,
                    };
                    let env = match find_field(fields, &String::from_str("env")) {
                        Option::Some(RawValue::TextMap(e)) => Option::Some(clone_pairs(e)),
                        _ => Option::None,
                    };
                    let task = AlchemistBasicTask {
                        command: clone_string(c),
                        args,
                        env,
                        hide: hide_flag(fields),
                    };
                    return Result::Ok(AlchemistTaskType::AlchemistBasicTask(task));
                },
                _ => {},
            }
        }

        let serial = find_field(fields, &String::from_str("serial_tasks"));
        if all_fields_allowed(Shape::Serial, fields) {
            match serial {
                Option::Some(RawValue::TextList(l)) => {
                    let task = AlchemistSerialTasks {
                        serial_tasks: clone_strings(l),
                        hide: hide_flag(fields),
                    };
                    return Result::Ok(AlchemistTaskType::AlchemistSerialTasks(task));
                },
                _ => {},
            }
        }

        let parallel = find_field(fields, &String::from_str("parallel_tasks"));
        if all_fields_allowed(Shape::Parallel, fields) {
            match parallel {
                Option::Some(RawValue::TextList(l)) => {
                    let task = AlchemistParallelTasks {
                        parallel_tasks: clone_strings(l),
                        hide: hide_flag(fields),
                    };
                    return Result::Ok(AlchemistTaskType::AlchemistParallelTasks(task));
                },
                _ => {},
            }
        }

        let shell = find_field(fields, &String::from_str("shell_script"));
        if all_fields_allowed(Shape::Shell, fields) {
            match shell {
                Option::Some(RawValue::Text(c)) => {
                    let task = AlchemistShellTask {
                        shell_script: clone_string(c),
                        hide: hide_flag(fields),
                    };
                    return Result::Ok(AlchemistTaskType::AlchemistShellTask(task));
                },
                _ => {},
            }
        }
    }

    Result::Err(
        AlchemistError::new(
            AlchemistErrorType::ConfigParseError,
            String::from_str("Task definition matches no known task type"),
        ),
    )
}

/// When a key is present, `field_value` finds the value of some field with
/// that key, and when none is, the key is absent.
proof fn lemma_field_value_found(fs: Seq<(String, RawValue)>, k: Seq<char>)
    ensures
        has_key(fs, k) <==> field_value(fs, k) is Some,
        field_value(fs, k) matches Some(v) ==> exists|i: int|
            0 <= i < fs.len() && fs[i].0@ == k && #[trigger] fs[i].1 == v,
    decreases fs.len(),
{
    if fs.len() > 0 {
        if fs[0].0@ == k {
            assert(fs[0].0@ == k && fs[0].1 == field_value(fs, k)->Some_0);
        } else {
            lemma_field_value_found(fs.drop_first(), k);
            assert forall|i: int| 0 <= i < fs.len() && fs[i].0@ == k implies field_value(
                fs,
                k,
            ) is Some by {
                assert(fs.drop_first()[i - 1] == fs[i]);
            }
            if has_key(fs.drop_first(), k) {
                let i = choose|i: int|
                    0 <= i < fs.drop_first().len() && fs.drop_first()[i].0@ == k;
                assert(fs[i + 1] == fs.drop_first()[i]);
                let v = field_value(fs, k)->Some_0;
                let j = choose|j: int|
                    0 <= j < fs.drop_first().len() && fs.drop_first()[j].0@ == k
                        && #[trigger] fs.drop_first()[j].1 == v;
                assert(fs[j + 1] == fs.drop_first()[j]);
                assert(fs[j + 1].0@ == k && fs[j + 1].1 == v);
            }
        }
    }
}

} // verus!
