//! Filters: whether a file or a process meets the conditions of a `WHERE`.
//!
//! Every listed expression has to match, and of each expression its first
//! comparison decides.

use vstd::prelude::*;
use vstd::string::StringExecFns;
use crate::ast::{
    CompareOp, Condition, ConditionExprView, ConditionView, Value, ValueView, WhereClause,
};
use crate::bridge::{lowercase, regex_match, search, to_lowercase};
use crate::number::Number;
use crate::results::{FileEntry, ProcessInfo};
use crate::text::{
    chars_contain, chars_eq, chars_of, contains, lower, lower_chars, text_eq, text_of,
};

verus! {

/// A file that a `DELETE` may pick.
#[derive(Debug)]
pub struct FileInfo {
    pub path: String,
    pub name: String,
    pub size: u64,
    /// The extension without its dot; empty where the name has none.
    pub extension: String,
}

/// A process that a `KILL` may pick.
#[derive(Debug)]
pub struct ProcessMatch {
    pub pid: u32,
    pub name: String,
    /// Load in percent.
    pub cpu: Number,
    /// Resident memory in bytes.
    pub memory: u64,
}

/// How two numbers compare under an operator. The text operators never hold
/// of numbers.
pub open spec fn numbers_match(left: int, right: int, op: CompareOp) -> bool {
    match op {
        CompareOp::Equal => left == right,
        CompareOp::NotEqual => left != right,
        CompareOp::GreaterThan => left > right,
        CompareOp::GreaterThanOrEqual => left >= right,
        CompareOp::LessThan => left < right,
        CompareOp::LessThanOrEqual => left <= right,
        _ => false,
    }
}

/// `pattern` with every `%` replaced by `.*`.
pub open spec fn wildcards(pattern: Seq<char>) -> Seq<char>
    decreases pattern.len(),
{
    if pattern.len() == 0 {
        Seq::empty()
    } else if pattern.last() == '%' {
        wildcards(pattern.drop_last()).push('.').push('*')
    } else {
        wildcards(pattern.drop_last()).push(pattern.last())
    }
}

/// The regular expression that a `LIKE` pattern stands for.
pub open spec fn like_pattern(pattern: Seq<char>, fold_case: bool) -> Seq<char> {
    let head = if fold_case {
        "(?i)^"@
    } else {
        "^"@
    };
    head + wildcards(pattern) + "$"@
}

/// How two texts compare under an operator, with or without regard to
/// case. Without regard to case, equality folds the ASCII letters alone, and
/// `CONTAINS` compares the lower-case forms of both texts. The order
/// operators and `MATCHES` never hold of texts, and a `LIKE` whose pattern is
/// no regular expression holds of none.
pub open spec fn texts_match(left: Seq<char>, right: Seq<char>, op: CompareOp, fold_case: bool) -> bool {
    match op {
        CompareOp::Equal => if fold_case {
            lower(left) == lower(right)
        } else {
            left == right
        },
        CompareOp::NotEqual => if fold_case {
            lower(left) != lower(right)
        } else {
            left != right
        },
        CompareOp::Like => regex_match(like_pattern(right, fold_case), left) == Some(true),
        CompareOp::Contains => if fold_case {
            contains(lowercase(left), lowercase(right))
        } else {
            contains(left, right)
        },
        _ => false,
    }
}

/// The byte count that a value stands for in a comparison of sizes.
pub open spec fn size_operand(value: ValueView) -> Option<u64> {
    match value {
        ValueView::Number(n) => Some(n.whole_part()),
        ValueView::Size(s) => Some(s),
        _ => None,
    }
}

/// Whether a file of this name, size and extension meets a condition, the
/// name of whose field in lower case is `field`: a condition on its `size`,
/// `name` or `extension` (`ext`). A condition on any other field holds of
/// every file.
pub open spec fn file_data_meets(
    name: Seq<char>,
    size: u64,
    extension: Seq<char>,
    field: Seq<char>,
    condition: ConditionView,
) -> bool {
    if field == "size"@ {
        match size_operand(condition.value) {
            Some(target) => numbers_match(size as int, target as int, condition.operator),
            None => false,
        }
    } else if field == "name"@ {
        match condition.value {
            ValueView::String(s) => texts_match(name, s, condition.operator, true),
            _ => false,
        }
    } else if field == "extension"@ || field == "ext"@ {
        match condition.value {
            ValueView::String(s) => texts_match(extension, s, condition.operator, true),
            _ => false,
        }
    } else {
        true
    }
}

/// Whether a file meets a condition, the name of whose field in lower case
/// is `field`.
pub open spec fn file_meets_by(file: FileInfo, field: Seq<char>, condition: ConditionView) -> bool {
    file_data_meets(file.name@, file.size, file.extension@, field, condition)
}

/// Whether a file meets a condition. The name of the field counts in its
/// lower-case form.
pub open spec fn file_meets(file: FileInfo, condition: ConditionView) -> bool {
    file_meets_by(file, lowercase(condition.field), condition)
}

/// Whether a process meets a condition, the name of whose field in lower
/// case is `field`: a condition on its `pid`, `name`, `cpu` or `memory`. A
/// condition on any other field holds of every process.
pub open spec fn process_meets_by(
    pid: u32,
    name: Seq<char>,
    cpu: Number,
    memory: u64,
    field: Seq<char>,
    condition: ConditionView,
    fold_case: bool,
) -> bool {
    if field == "pid"@ {
        match condition.value {
            ValueView::Number(n) => numbers_match(
                pid * 1_000_000,
                n.micros as int,
                condition.operator,
            ),
            _ => false,
        }
    } else if field == "name"@ {
        match condition.value {
            ValueView::String(s) => texts_match(name, s, condition.operator, fold_case),
            _ => false,
        }
    } else if field == "cpu"@ {
        match condition.value {
            ValueView::Number(n) => numbers_match(
                cpu.micros as int,
                n.micros as int,
                condition.operator,
            ),
            _ => false,
        }
    } else if field == "memory"@ {
        match size_operand(condition.value) {
            Some(target) => numbers_match(memory as int, target as int, condition.operator),
            None => false,
        }
    } else {
        true
    }
}

/// Whether a process meets a condition. The name of the field counts in its
/// lower-case form.
pub open spec fn process_meets(
    pid: u32,
    name: Seq<char>,
    cpu: Number,
    memory: u64,
    condition: ConditionView,
    fold_case: bool,
) -> bool {
    process_meets_by(pid, name, cpu, memory, lowercase(condition.field), condition, fold_case)
}

/// The extension of a listed file, and the empty text where it has none.
pub open spec fn extension_of(entry: FileEntry) -> Seq<char> {
    match entry.extension {
        Some(e) => e@,
        None => Seq::empty(),
    }
}

/// Whether a listed file meets every expression of a filter. A listing
/// shows the files that a `DELETE` with the same filter would pick.
pub open spec fn entry_passes(entry: FileEntry, filter: Seq<ConditionExprView>) -> bool {
    forall|i: int|
        0 <= i < filter.len() ==> file_data_meets(
            entry.name@,
            entry.size,
            extension_of(entry),
            lowercase((#[trigger] filter[i]).condition.field),
            filter[i].condition,
        )
}

/// Whether a file meets every expression of a filter.
pub open spec fn file_passes(file: FileInfo, filter: Seq<ConditionExprView>) -> bool {
    forall|i: int| 0 <= i < filter.len() ==> file_meets(file, (#[trigger] filter[i]).condition)
}

/// Whether a process meets every expression of a filter.
pub open spec fn process_passes(
    pid: u32,
    name: Seq<char>,
    cpu: Number,
    memory: u64,
    filter: Seq<ConditionExprView>,
    fold_case: bool,
) -> bool {
    forall|i: int|
        0 <= i < filter.len() ==> process_meets(
            pid,
            name,
            cpu,
            memory,
            (#[trigger] filter[i]).condition,
            fold_case,
        )
}

/// The names, or parts of names, of the processes that are never killed,
/// in lower case.
pub open spec fn protected_names() -> Seq<Seq<char>> {
    seq![
        "init"@,
        "systemd"@,
        "kernel"@,
        "launchd"@,
        "windowserver"@,
        "loginwindow"@,
        "kernel_task"@,
        "syslogd"@,
        "notifyd"@,
    ]
}

/// Whether a name in lower case holds one of the protected names.
pub open spec fn holds_protected_name(lowered: Seq<char>) -> bool {
    exists|i: int|
        0 <= i < protected_names().len() && contains(lowered, #[trigger] protected_names()[i])
}

/// Whether a process of this name is never killed: its name in lower case
/// holds one of the protected names.
pub open spec fn is_protected(name: Seq<char>) -> bool {
    holds_protected_name(lowercase(name))
}

/// Compares two numbers under an operator.
pub fn compare_numbers(left: i128, right: i128, op: &CompareOp) -> (r: bool)
    ensures
        r == numbers_match(left as int, right as int, *op),
{
    match op {
        CompareOp::Equal => left == right,
        CompareOp::NotEqual => left != right,
        CompareOp::GreaterThan => left > right,
        CompareOp::GreaterThanOrEqual => left >= right,
        CompareOp::LessThan => left < right,
        CompareOp::LessThanOrEqual => left <= right,
        _ => false,
    }
}

fn replace_wildcards(pattern: &Vec<char>) -> (r: Vec<char>)
    ensures
        r@ == wildcards(pattern@),
{
    let mut out: Vec<char> = Vec::new();
    let mut i: usize = 0;
    assert(pattern@.take(0) =~= Seq::empty());
    while i < pattern.len()
        invariant
            i <= pattern.len(),
            out@ =~= wildcards(pattern@.take(i as int)),
        decreases pattern.len() - i,
    {
        proof {
            assert(pattern@.take(i + 1).drop_last() =~= pattern@.take(i as int));
            assert(pattern@.take(i + 1).last() == pattern@[i as int]);
        }
        if pattern[i] == '%' {
            out.push('.');
            out.push('*');
        } else {
            out.push(pattern[i]);
        }
        i = i + 1;
    }
    assert(pattern@.take(pattern.len() as int) =~= pattern@);
    out
}

/// Compares two texts under an operator, with or without regard to case.
pub fn compare_strings(left: &str, right: &str, op: &CompareOp, fold_case: bool) -> (r: bool)
    ensures
        r == texts_match(left@, right@, *op, fold_case),
{
    match op {
        CompareOp::Equal => if fold_case {
            chars_eq(&lower_chars(&chars_of(left)), &lower_chars(&chars_of(right)))
        } else {
            text_eq(left, right)
        },
        CompareOp::NotEqual => if fold_case {
            !chars_eq(&lower_chars(&chars_of(left)), &lower_chars(&chars_of(right)))
        } else {
            !text_eq(left, right)
        },
        CompareOp::Like => {
            let body = text_of(&replace_wildcards(&chars_of(right)));
            let mut pattern = String::from_str(
                if fold_case {
                    "(?i)^"
                } else {
                    "^"
                },
            );
            pattern.append(body.as_str());
            pattern.append("$");
            match search(pattern.as_str(), left) {
                Some(found) => found,
                None => false,
            }
        },
        CompareOp::Contains => if fold_case {
            let hay = to_lowercase(left);
            let needle = to_lowercase(right);
            chars_contain(&chars_of(hay.as_str()), &chars_of(needle.as_str()))
        } else {
            chars_contain(&chars_of(left), &chars_of(right))
        },
        _ => false,
    }
}

fn operand_size(value: &Value) -> (r: Option<u64>)
    ensures
        r == size_operand(value@),
{
    match value {
        Value::Number(n) => Some(n.whole()),
        Value::Size(s) => Some(*s),
        _ => None,
    }
}

fn is_word(chars: &Vec<char>, word: &str) -> (r: bool)
    ensures
        r == (chars@ == word@),
{
    chars_eq(chars, &chars_of(word))
}

/// Whether a file that a `DELETE` may pick meets a condition.
pub fn matches_file_condition(file: &FileInfo, condition: &Condition) -> (r: bool)
    ensures
        r == file_meets(*file, condition@),
{
    let field = to_lowercase(condition.field.as_str());
    file_meets_condition(file, field.as_str(), condition)
}

/// Whether a file meets a condition, the name of whose field in lower case
/// is `field`.
pub fn file_meets_condition(file: &FileInfo, field: &str, condition: &Condition) -> (r: bool)
    ensures
        r == file_meets_by(*file, field@, condition@),
{
    let field = chars_of(field);
    if is_word(&field, "size") {
        match operand_size(&condition.value) {
            Some(target) => compare_numbers(file.size as i128, target as i128, &condition.operator),
            None => false,
        }
    } else if is_word(&field, "name") {
        match &condition.value {
            Value::String(s) => compare_strings(
                file.name.as_str(),
                s.as_str(),
                &condition.operator,
                true,
            ),
            _ => false,
        }
    } else if is_word(&field, "extension") || is_word(&field, "ext") {
        match &condition.value {
            Value::String(s) => compare_strings(
                file.extension.as_str(),
                s.as_str(),
                &condition.operator,
                true,
            ),
            _ => false,
        }
    } else {
        true
    }
}

/// Whether a file that a `DELETE` may pick meets a filter.
pub fn matches_file_where_clause(file: &FileInfo, where_clause: &WhereClause) -> (r: bool)
    ensures
        r == file_passes(*file, where_clause@),
{
    let mut i: usize = 0;
    while i < where_clause.conditions.len()
        invariant
            i <= where_clause.conditions.len(),
            forall|j: int| 0 <= j < i ==> file_meets(*file, (#[trigger] where_clause@[j]).condition),
        decreases where_clause.conditions.len() - i,
    {
        assert(where_clause@[i as int].condition == where_clause.conditions[i as int].condition@);
        if !matches_file_condition(file, &where_clause.conditions[i].condition) {
            return false;
        }
        i = i + 1;
    }
    true
}

fn process_condition(
    pid: u32,
    name: &str,
    cpu: Number,
    memory: u64,
    condition: &Condition,
    fold_case: bool,
) -> (r: bool)
    ensures
        r == process_meets(pid, name@, cpu, memory, condition@, fold_case),
{
    let field = to_lowercase(condition.field.as_str());
    process_meets_condition(pid, name, cpu, memory, field.as_str(), condition, fold_case)
}

/// Whether a process meets a condition, the name of whose field in lower
/// case is `field`.
pub fn process_meets_condition(
    pid: u32,
    name: &str,
    cpu: Number,
    memory: u64,
    field: &str,
    condition: &Condition,
    fold_case: bool,
) -> (r: bool)
    ensures
        r == process_meets_by(pid, name@, cpu, memory, field@, condition@, fold_case),
{
    let field = chars_of(field);
    if is_word(&field, "pid") {
        match &condition.value {
            Value::Number(n) => compare_numbers(
                (pid as i128) * 1_000_000,
                n.micros,
                &condition.operator,
            ),
            _ => false,
        }
    } else if is_word(&field, "name") {
        match &condition.value {
            Value::String(s) => compare_strings(name, s.as_str(), &condition.operator, fold_case),
            _ => false,
        }
    } else if is_word(&field, "cpu") {
        match &condition.value {
            Value::Number(n) => compare_numbers(cpu.micros, n.micros, &condition.operator),
            _ => false,
        }
    } else if is_word(&field, "memory") {
        match operand_size(&condition.value) {
            Some(target) => compare_numbers(memory as i128, target as i128, &condition.operator),
            None => false,
        }
    } else {
        true
    }
}

fn process_filter(
    pid: u32,
    name: &str,
    cpu: Number,
    memory: u64,
    where_clause: &WhereClause,
    fold_case: bool,
) -> (r: bool)
    ensures
        r == process_passes(pid, name@, cpu, memory, where_clause@, fold_case),
{
    let mut i: usize = 0;
    while i < where_clause.conditions.len()
        invariant
            i <= where_clause.conditions.len(),
            forall|j: int|
                0 <= j < i ==> process_meets(
                    pid,
                    name@,
                    cpu,
                    memory,
                    (#[trigger] where_clause@[j]).condition,
                    fold_case,
                ),
        decreases where_clause.conditions.len() - i,
    {
        assert(where_clause@[i as int].condition == where_clause.conditions[i as int].condition@);
        if !process_condition(
            pid,
            name,
            cpu,
            memory,
            &where_clause.conditions[i].condition,
            fold_case,
        ) {
            return false;
        }
        i = i + 1;
    }
    true
}

/// Whether a process that a `KILL` may pick meets a condition. Texts are
/// compared without regard to case.
pub fn matches_process_condition(process: &ProcessMatch, condition: &Condition) -> (r: bool)
    ensures
        r == process_meets(
            process.pid,
            process.name@,
            process.cpu,
            process.memory,
            condition@,
            true,
        ),
{
    process_condition(
        process.pid,
        process.name.as_str(),
        process.cpu,
        process.memory,
        condition,
        true,
    )
}

/// Whether a process that a `KILL` may pick meets a filter. Texts are
/// compared without regard to case.
pub fn matches_process_where_clause(process: &ProcessMatch, where_clause: &WhereClause) -> (r:
    bool)
    ensures
        r == process_passes(
            process.pid,
            process.name@,
            process.cpu,
            process.memory,
            where_clause@,
            true,
        ),
{
    process_filter(
        process.pid,
        process.name.as_str(),
        process.cpu,
        process.memory,
        where_clause,
        true,
    )
}

/// Whether a listed process meets a condition. Texts are compared exactly.
pub fn matches_condition(process: &ProcessInfo, condition: &Condition) -> (r: bool)
    ensures
        r == process_meets(
            process.pid,
            process.name@,
            process.cpu,
            process.memory,
            condition@,
            false,
        ),
{
    process_condition(
        process.pid,
        process.name.as_str(),
        process.cpu,
        process.memory,
        condition,
        false,
    )
}

/// Whether a listed process meets a filter. Texts are compared exactly.
pub fn matches_where_clause(process: &ProcessInfo, where_clause: &WhereClause) -> (r: bool)
    ensures
        r == process_passes(
            process.pid,
            process.name@,
            process.cpu,
            process.memory,
            where_clause@,
            false,
        ),
{
    process_filter(
        process.pid,
        process.name.as_str(),
        process.cpu,
        process.memory,
        where_clause,
        false,
    )
}

/// Whether a listed file meets a filter: a filter narrows a listing to the
/// files that meet every expression of it.
pub fn matches_file_filter(entry: &FileEntry, where_clause: &WhereClause) -> (r: bool)
    ensures
        r == entry_passes(*entry, where_clause@),
{
    let file = FileInfo {
        path: entry.path.clone(),
        name: entry.name.clone(),
        size: entry.size,
        extension: match &entry.extension {
            Some(e) => e.clone(),
            None => String::new(),
        },
    };
    assert(file.extension@ == extension_of(*entry));
    matches_file_where_clause(&file, where_clause)
}

/// Whether a process of this name is never killed.
pub fn is_protected_process(name: &str) -> (r: bool)
    ensures
        r == is_protected(name@),
{
    let lowered = to_lowercase(name);
    holds_protected(lowered.as_str())
}

/// Whether a name in lower case holds one of the protected names.
pub fn holds_protected(lowered: &str) -> (r: bool)
    ensures
        r == holds_protected_name(lowered@),
{
    let hay = chars_of(lowered);
    let mut names: Vec<&str> = Vec::new();
    names.push("init");
    names.push("systemd");
    names.push("kernel");
    names.push("launchd");
    names.push("windowserver");
    names.push("loginwindow");
    names.push("kernel_task");
    names.push("syslogd");
    names.push("notifyd");
    assert(names.len() == 9 && protected_names().len() == 9);
    assert(forall|k: int| 0 <= k < 9 ==> (#[trigger] names[k])@ == protected_names()[k]);
    let mut i: usize = 0;
    while i < names.len()
        invariant
            i <= names.len(),
            names.len() == protected_names().len(),
            forall|k: int| 0 <= k < names.len() ==> (#[trigger] names[k])@ == protected_names()[k],
            hay@ == lowered@,
            forall|k: int| 0 <= k < i ==> !contains(lowered@, #[trigger] protected_names()[k]),
        decreases names.len() - i,
    {
        let word = chars_of(names[i]);
        if chars_contain(&hay, &word) {
            assert(contains(lowered@, protected_names()[i as int]));
            return true;
        }
        i = i + 1;
    }
    false
}

} // verus!
