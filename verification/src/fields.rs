//! The fields of a sample: as numbers, for the condition of an `IF`, and as
//! texts, for `PRINT`.

use vstd::prelude::*;
use vstd::string::StringExecFns;
use crate::ast::{CompareOp, IfCondition, IfConditionView, QueryTarget, Value, ValueView};
use crate::bridge::{format_size, lowercase, size_text, to_lowercase};
use crate::context::{Context, ContextView, VariableValue, VariableView};
use crate::display::target_name;
use crate::error::{ArtaError, ErrorView};
use crate::number::Number;
use crate::results::ResultData;
use crate::text::{chars_eq, chars_of, decimal, decimal_text, join, join3};

verus! {

/// The error for a field that the resource does not have.
pub open spec fn unknown_field(target: Seq<char>, field: Seq<char>) -> ErrorView {
    ErrorView::ExecutionError("Unknown "@ + target + " field: "@ + field)
}

/// The error for a sample that is not of the resource that was asked for.
pub open spec fn wrong_sample(target: QueryTarget) -> ErrorView {
    ErrorView::ExecutionError("Sample does not match "@ + target_name(target))
}

/// The number `n`.
pub open spec fn whole(n: nat) -> Number {
    Number { micros: (n * 1_000_000) as i128 }
}

/// The field of a sample that the condition of an `IF` compares, as a
/// number. Only memory, processor, disk and battery can be asked; of disks
/// and batteries the first counts, and a machine without battery counts as
/// full.
pub open spec fn numeric_field(target: QueryTarget, field: Seq<char>, sample: ResultData) -> Result<
    Number,
    ErrorView,
> {
    numeric_field_by(target, field, lowercase(field), sample)
}

/// The same, where `f` is the name of the field in lower case.
pub open spec fn numeric_field_by(
    target: QueryTarget,
    field: Seq<char>,
    f: Seq<char>,
    sample: ResultData,
) -> Result<Number, ErrorView> {
    match target {
        QueryTarget::Memory => match sample {
            ResultData::Memory(info) => if f == "total"@ || f == "total_bytes"@ {
                Ok(whole(info.total as nat))
            } else if f == "used"@ || f == "used_bytes"@ {
                Ok(whole(info.used as nat))
            } else if f == "free"@ || f == "free_bytes"@ {
                Ok(whole(info.free as nat))
            } else if f == "available"@ || f == "available_bytes"@ {
                Ok(whole(info.available as nat))
            } else if f == "used_percent"@ || f == "percent"@ || f == "usage"@ || f
                == "usage_percent"@ {
                Ok(info.usage_percent)
            } else {
                Err(unknown_field("MEMORY"@, field))
            },
            _ => Err(wrong_sample(target)),
        },
        QueryTarget::Cpu => match sample {
            ResultData::Cpu(info) => if f == "usage"@ || f == "percent"@ || f == "used_percent"@
                || f == "usage_percent"@ {
                Ok(info.usage)
            } else if f == "cores"@ || f == "core_count"@ {
                Ok(whole(info.cores as nat))
            } else if f == "frequency"@ || f == "frequency_mhz"@ {
                Ok(whole(info.frequency as nat))
            } else {
                Err(unknown_field("CPU"@, field))
            },
            _ => Err(wrong_sample(target)),
        },
        QueryTarget::Disk => match sample {
            ResultData::Disk(info) => if info.disks.len() == 0 {
                Err(ErrorView::ExecutionError("No disks found"@))
            } else if f == "total"@ || f == "total_bytes"@ {
                Ok(whole(info.disks[0].total as nat))
            } else if f == "used"@ || f == "used_bytes"@ {
                Ok(whole(info.disks[0].used as nat))
            } else if f == "free"@ || f == "free_bytes"@ || f == "available"@ || f
                == "available_bytes"@ {
                Ok(whole(info.disks[0].free as nat))
            } else if f == "used_percent"@ || f == "percent"@ || f == "usage"@ {
                Ok(info.disks[0].usage_percent)
            } else {
                Err(unknown_field("DISK"@, field))
            },
            _ => Err(wrong_sample(target)),
        },
        QueryTarget::Battery => match sample {
            ResultData::Battery(info) => if info.batteries.len() == 0 {
                Ok(whole(100))
            } else if f == "percent"@ || f == "charge"@ || f == "level"@ || f
                == "charge_percent"@ || f == "percentage"@ {
                Ok(info.batteries[0].percentage)
            } else {
                Err(unknown_field("BATTERY"@, field))
            },
            _ => Err(wrong_sample(target)),
        },
        _ => Err(
            ErrorView::ExecutionError(
                "IF condition not supported for "@ + target_name(target) + " queries yet"@,
            ),
        ),
    }
}

/// The number that the right side of a condition stands for: a number, a
/// byte count, or a variable bound to one of the two.
pub open spec fn expected_number(value: ValueView, c: ContextView) -> Result<Number, ErrorView> {
    match value {
        ValueView::Number(n) => Ok(n),
        ValueView::Size(s) => Ok(whole(s as nat)),
        ValueView::Identifier(id) => match c.lookup(id) {
            Some(VariableView::Number(n)) => Ok(n),
            Some(VariableView::Size(s)) => Ok(whole(s as nat)),
            Some(_) => Err(ErrorView::ExecutionError("Variable '"@ + id + "' is not a number"@)),
            None => Err(ErrorView::ExecutionError("Unknown variable: "@ + id)),
        },
        _ => Err(ErrorView::ExecutionError("IF condition value must be a number or size"@)),
    }
}

/// Whether `actual` stands to `expected` as the operator says. Two numbers
/// count as equal where they are less than a thousandth apart.
pub open spec fn numbers_compare(actual: Number, op: CompareOp, expected: Number) -> Result<
    bool,
    ErrorView,
> {
    match op {
        CompareOp::GreaterThan => Ok(actual.micros > expected.micros),
        CompareOp::GreaterThanOrEqual => Ok(actual.micros >= expected.micros),
        CompareOp::LessThan => Ok(actual.micros < expected.micros),
        CompareOp::LessThanOrEqual => Ok(actual.micros <= expected.micros),
        CompareOp::Equal => Ok(actual.gap(expected) < 1_000),
        CompareOp::NotEqual => Ok(actual.gap(expected) >= 1_000),
        _ => Err(ErrorView::ExecutionError("IF condition only supports numeric comparisons"@)),
    }
}

/// Whether the condition of an `IF` holds of a sample.
pub open spec fn condition_holds(condition: IfConditionView, sample: ResultData, c: ContextView) -> Result<
    bool,
    ErrorView,
> {
    match numeric_field(condition.target, condition.field, sample) {
        Err(e) => Err(e),
        Ok(actual) => match expected_number(condition.value, c) {
            Err(e) => Err(e),
            Ok(expected) => numbers_compare(actual, condition.operator, expected),
        },
    }
}

/// Whether `IF` can ask the target at all.
pub open spec fn if_supports(target: QueryTarget) -> bool {
    target == QueryTarget::Memory || target == QueryTarget::Cpu || target == QueryTarget::Disk
        || target == QueryTarget::Battery
}

/// Whether `PRINT` can ask the target at all.
pub open spec fn print_supports(target: QueryTarget) -> bool {
    target != QueryTarget::Process && target != QueryTarget::Files && target
        != QueryTarget::Content
}

/// A number with one fractional digit and a percent sign.
pub open spec fn percent_text(n: Number) -> Seq<char> {
    n.fixed_text() + "%"@
}

/// The text, or `N/A` where there is none.
pub open spec fn or_not_available(text: Option<String>) -> Seq<char> {
    match text {
        Some(t) => t@,
        None => "N/A"@,
    }
}

/// The whole percents of a charge, within `0..=u32::MAX`.
pub open spec fn whole_percent(n: Number) -> nat {
    if n.whole_part() > u32::MAX {
        u32::MAX as nat
    } else {
        n.whole_part() as nat
    }
}

/// The field of a sample that a `PRINT` writes, as a text. Of batteries,
/// disks and interfaces the first counts.
pub open spec fn field_text(target: QueryTarget, field: Seq<char>, sample: ResultData) -> Result<
    Seq<char>,
    ErrorView,
> {
    field_text_by(target, field, lowercase(field), sample)
}

/// The same, where `f` is the name of the field in lower case.
pub open spec fn field_text_by(
    target: QueryTarget,
    field: Seq<char>,
    f: Seq<char>,
    sample: ResultData,
) -> Result<Seq<char>, ErrorView> {
    match target {
        QueryTarget::Battery => match sample {
            ResultData::Battery(info) => if info.batteries.len() == 0 {
                Ok("No battery"@)
            } else if f == "level"@ || f == "percent"@ || f == "percentage"@ || f == "charge"@ {
                Ok(decimal(whole_percent(info.batteries[0].percentage)) + "%"@)
            } else if f == "state"@ || f == "status"@ {
                Ok(info.batteries[0].state@)
            } else if f == "time_to_empty"@ || f == "remaining"@ {
                Ok(or_not_available(info.batteries[0].time_to_empty))
            } else if f == "time_to_full"@ {
                Ok(or_not_available(info.batteries[0].time_to_full))
            } else {
                Err(unknown_field("BATTERY"@, field))
            },
            _ => Err(wrong_sample(target)),
        },
        QueryTarget::Memory => match sample {
            ResultData::Memory(info) => if f == "total"@ {
                Ok(size_text(info.total))
            } else if f == "used"@ {
                Ok(size_text(info.used))
            } else if f == "free"@ {
                Ok(size_text(info.free))
            } else if f == "available"@ {
                Ok(size_text(info.available))
            } else if f == "usage"@ || f == "percent"@ || f == "used_percent"@ {
                Ok(percent_text(info.usage_percent))
            } else {
                Err(unknown_field("MEMORY"@, field))
            },
            _ => Err(wrong_sample(target)),
        },
        QueryTarget::Cpu => match sample {
            ResultData::Cpu(info) => if f == "usage"@ || f == "percent"@ {
                Ok(percent_text(info.usage))
            } else if f == "cores"@ {
                Ok(decimal(info.cores as nat))
            } else if f == "frequency"@ || f == "frequency_mhz"@ {
                Ok(decimal(info.frequency as nat) + " MHz"@)
            } else if f == "name"@ || f == "brand"@ {
                Ok(info.brand@)
            } else {
                Err(unknown_field("CPU"@, field))
            },
            _ => Err(wrong_sample(target)),
        },
        QueryTarget::Disk => match sample {
            ResultData::Disk(info) => if info.disks.len() == 0 {
                Ok("No disks"@)
            } else if f == "total"@ {
                Ok(size_text(info.disks[0].total))
            } else if f == "used"@ {
                Ok(size_text(info.disks[0].used))
            } else if f == "free"@ || f == "available"@ {
                Ok(size_text(info.disks[0].free))
            } else if f == "usage"@ || f == "percent"@ || f == "used_percent"@ {
                Ok(percent_text(info.disks[0].usage_percent))
            } else if f == "name"@ || f == "mount"@ || f == "mount_point"@ {
                Ok(info.disks[0].mount_point@)
            } else {
                Err(unknown_field("DISK"@, field))
            },
            _ => Err(wrong_sample(target)),
        },
        QueryTarget::System => match sample {
            ResultData::System(info) => if f == "hostname"@ || f == "name"@ {
                Ok(info.hostname@)
            } else if f == "os"@ || f == "os_name"@ {
                Ok(info.os_name@)
            } else if f == "os_version"@ || f == "version"@ {
                Ok(info.os_version@)
            } else if f == "kernel"@ || f == "kernel_version"@ {
                Ok(info.kernel_version@)
            } else if f == "uptime"@ || f == "uptime_secs"@ {
                Ok(decimal(info.uptime as nat) + " seconds"@)
            } else {
                Err(unknown_field("SYSTEM"@, field))
            },
            _ => Err(wrong_sample(target)),
        },
        QueryTarget::Network => match sample {
            ResultData::Network(info) => if info.interfaces.len() == 0 {
                Ok("No network interfaces"@)
            } else if f == "name"@ {
                Ok(info.interfaces[0].name@)
            } else if f == "sent"@ || f == "bytes_sent"@ || f == "transmitted"@ {
                Ok(size_text(info.interfaces[0].transmitted))
            } else if f == "recv"@ || f == "received"@ || f == "bytes_recv"@ {
                Ok(size_text(info.interfaces[0].received))
            } else {
                Err(unknown_field("NETWORK"@, field))
            },
            _ => Err(wrong_sample(target)),
        },
        _ => Err(
            ErrorView::ExecutionError(
                "PRINT not supported for "@ + target_name(target) + " queries"@,
            ),
        ),
    }
}

fn is(field: &Vec<char>, word: &str) -> (r: bool)
    ensures
        r == (field@ == word@),
{
    chars_eq(field, &chars_of(word))
}

fn unknown(target: &str, field: &str) -> (r: ArtaError)
    ensures
        r@ == unknown_field(target@, field@),
{
    let mut text = String::from_str("Unknown ");
    text.append(target);
    text.append(" field: ");
    text.append(field);
    ArtaError::ExecutionError(text)
}

/// The error for a sample that is not of the resource that was asked for.
pub fn mismatch(target: QueryTarget) -> (r: ArtaError)
    ensures
        r@ == wrong_sample(target),
{
    ArtaError::ExecutionError(join("Sample does not match ", target.to_text()))
}

fn whole_number(n: u64) -> (r: Number)
    ensures
        r == whole(n as nat),
{
    Number::from_whole(n)
}

fn percent(n: &Number) -> (r: String)
    ensures
        r@ == percent_text(*n),
{
    let mut text = n.to_fixed_text();
    text.append("%");
    text
}

fn or_na(text: &Option<String>) -> (r: String)
    ensures
        r@ == or_not_available(*text),
{
    match text {
        Some(t) => t.clone(),
        None => String::from_str("N/A"),
    }
}

/// The memory field that an `IF` compares.
pub fn get_memory_field_value(sample: &ResultData, field: &str) -> (r: Result<Number, ArtaError>)
    ensures
        match numeric_field(QueryTarget::Memory, field@, *sample) {
            Ok(n) => r == Ok::<Number, ArtaError>(n),
            Err(e) => r is Err && r->Err_0@ == e,
        },
{
    let folded = to_lowercase(field);
    memory_number(sample, field, &chars_of(folded.as_str()))
}

fn memory_number(sample: &ResultData, field: &str, f: &Vec<char>) -> (r: Result<Number, ArtaError>)
    ensures
        match numeric_field_by(QueryTarget::Memory, field@, f@, *sample) {
            Ok(n) => r == Ok::<Number, ArtaError>(n),
            Err(e) => r is Err && r->Err_0@ == e,
        },
{
    match sample {
        ResultData::Memory(info) => if is(f, "total") || is(f, "total_bytes") {
            Ok(whole_number(info.total))
        } else if is(f, "used") || is(f, "used_bytes") {
            Ok(whole_number(info.used))
        } else if is(f, "free") || is(f, "free_bytes") {
            Ok(whole_number(info.free))
        } else if is(f, "available") || is(f, "available_bytes") {
            Ok(whole_number(info.available))
        } else if is(f, "used_percent") || is(f, "percent") || is(f, "usage") || is(
            f,
            "usage_percent",
        ) {
            Ok(info.usage_percent)
        } else {
            Err(unknown("MEMORY", field))
        },
        _ => Err(mismatch(QueryTarget::Memory)),
    }
}

/// The processor field that an `IF` compares.
pub fn get_cpu_field_value(sample: &ResultData, field: &str) -> (r: Result<Number, ArtaError>)
    ensures
        match numeric_field(QueryTarget::Cpu, field@, *sample) {
            Ok(n) => r == Ok::<Number, ArtaError>(n),
            Err(e) => r is Err && r->Err_0@ == e,
        },
{
    let folded = to_lowercase(field);
    cpu_number(sample, field, &chars_of(folded.as_str()))
}

fn cpu_number(sample: &ResultData, field: &str, f: &Vec<char>) -> (r: Result<Number, ArtaError>)
    ensures
        match numeric_field_by(QueryTarget::Cpu, field@, f@, *sample) {
            Ok(n) => r == Ok::<Number, ArtaError>(n),
            Err(e) => r is Err && r->Err_0@ == e,
        },
{
    match sample {
        ResultData::Cpu(info) => if is(f, "usage") || is(f, "percent") || is(
            f,
            "used_percent",
        ) || is(f, "usage_percent") {
            Ok(info.usage)
        } else if is(f, "cores") || is(f, "core_count") {
            Ok(whole_number(info.cores as u64))
        } else if is(f, "frequency") || is(f, "frequency_mhz") {
            Ok(whole_number(info.frequency))
        } else {
            Err(unknown("CPU", field))
        },
        _ => Err(mismatch(QueryTarget::Cpu)),
    }
}

/// The disk field that an `IF` compares.
pub fn get_disk_field_value(sample: &ResultData, field: &str) -> (r: Result<Number, ArtaError>)
    ensures
        match numeric_field(QueryTarget::Disk, field@, *sample) {
            Ok(n) => r == Ok::<Number, ArtaError>(n),
            Err(e) => r is Err && r->Err_0@ == e,
        },
{
    let folded = to_lowercase(field);
    disk_number(sample, field, &chars_of(folded.as_str()))
}

fn disk_number(sample: &ResultData, field: &str, f: &Vec<char>) -> (r: Result<Number, ArtaError>)
    ensures
        match numeric_field_by(QueryTarget::Disk, field@, f@, *sample) {
            Ok(n) => r == Ok::<Number, ArtaError>(n),
            Err(e) => r is Err && r->Err_0@ == e,
        },
{
    match sample {
        ResultData::Disk(info) => if info.disks.len() == 0 {
            Err(ArtaError::ExecutionError(String::from_str("No disks found")))
        } else if is(f, "total") || is(f, "total_bytes") {
            Ok(whole_number(info.disks[0].total))
        } else if is(f, "used") || is(f, "used_bytes") {
            Ok(whole_number(info.disks[0].used))
        } else if is(f, "free") || is(f, "free_bytes") || is(f, "available") || is(
            f,
            "available_bytes",
        ) {
            Ok(whole_number(info.disks[0].free))
        } else if is(f, "used_percent") || is(f, "percent") || is(f, "usage") {
            Ok(info.disks[0].usage_percent)
        } else {
            Err(unknown("DISK", field))
        },
        _ => Err(mismatch(QueryTarget::Disk)),
    }
}

/// The battery field that an `IF` compares.
pub fn get_battery_field_value(sample: &ResultData, field: &str) -> (r: Result<Number, ArtaError>)
    ensures
        match numeric_field(QueryTarget::Battery, field@, *sample) {
            Ok(n) => r == Ok::<Number, ArtaError>(n),
            Err(e) => r is Err && r->Err_0@ == e,
        },
{
    let folded = to_lowercase(field);
    battery_number(sample, field, &chars_of(folded.as_str()))
}

fn battery_number(sample: &ResultData, field: &str, f: &Vec<char>) -> (r: Result<Number, ArtaError>)
    ensures
        match numeric_field_by(QueryTarget::Battery, field@, f@, *sample) {
            Ok(n) => r == Ok::<Number, ArtaError>(n),
            Err(e) => r is Err && r->Err_0@ == e,
        },
{
    match sample {
        ResultData::Battery(info) => if info.batteries.len() == 0 {
            Ok(whole_number(100))
        } else if is(f, "percent") || is(f, "charge") || is(f, "level") || is(
            f,
            "charge_percent",
        ) || is(f, "percentage") {
            Ok(info.batteries[0].percentage)
        } else {
            Err(unknown("BATTERY", field))
        },
        _ => Err(mismatch(QueryTarget::Battery)),
    }
}

/// The field of a sample that the condition of an `IF` compares, where
/// `folded` is the name of the field in lower case.
pub fn numeric_field_value(target: QueryTarget, field: &str, folded: &str, sample: &ResultData) -> (r:
    Result<Number, ArtaError>)
    ensures
        match numeric_field_by(target, field@, folded@, *sample) {
            Ok(n) => r == Ok::<Number, ArtaError>(n),
            Err(e) => r is Err && r->Err_0@ == e,
        },
{
    let f = chars_of(folded);
    match target {
        QueryTarget::Memory => memory_number(sample, field, &f),
        QueryTarget::Cpu => cpu_number(sample, field, &f),
        QueryTarget::Disk => disk_number(sample, field, &f),
        QueryTarget::Battery => battery_number(sample, field, &f),
        _ => {
            let mut text = String::from_str("IF condition not supported for ");
            text.append(target.to_text());
            text.append(" queries yet");
            Err(ArtaError::ExecutionError(text))
        },
    }
}

/// Compares a sampled number with the right side of a condition.
pub fn compare_values(actual: Number, operator: &CompareOp, expected: &Value, context: &Context) -> (r:
    Result<bool, ArtaError>)
    ensures
        match expected_number(expected@, context@) {
            Err(e) => r is Err && r->Err_0@ == e,
            Ok(n) => match numbers_compare(actual, *operator, n) {
                Ok(b) => r == Ok::<bool, ArtaError>(b),
                Err(e) => r is Err && r->Err_0@ == e,
            },
        },
{
    let expected_num = match expected {
        Value::Number(n) => *n,
        Value::Size(s) => whole_number(*s),
        Value::Identifier(id) => match context.get_variable(id.as_str()) {
            Some(VariableValue::Number(n)) => *n,
            Some(VariableValue::Size(s)) => whole_number(*s),
            Some(_) => {
                return Err(
                    ArtaError::ExecutionError(join3("Variable '", id.as_str(), "' is not a number")),
                );
            },
            None => {
                return Err(ArtaError::ExecutionError(join("Unknown variable: ", id.as_str())));
            },
        },
        _ => {
            return Err(
                ArtaError::ExecutionError(
                    String::from_str("IF condition value must be a number or size"),
                ),
            );
        },
    };
    match operator {
        CompareOp::GreaterThan => Ok(actual.micros > expected_num.micros),
        CompareOp::GreaterThanOrEqual => Ok(actual.micros >= expected_num.micros),
        CompareOp::LessThan => Ok(actual.micros < expected_num.micros),
        CompareOp::LessThanOrEqual => Ok(actual.micros <= expected_num.micros),
        CompareOp::Equal => Ok(actual.distance(&expected_num) < 1_000),
        CompareOp::NotEqual => Ok(actual.distance(&expected_num) >= 1_000),
        _ => Err(
            ArtaError::ExecutionError(
                String::from_str("IF condition only supports numeric comparisons"),
            ),
        ),
    }
}

/// Decides the condition of an `IF` on a fresh sample of its target.
pub fn evaluate_if_condition(condition: &IfCondition, sample: &ResultData, context: &Context) -> (r:
    Result<bool, ArtaError>)
    ensures
        match condition_holds(condition@, *sample, context@) {
            Ok(b) => r == Ok::<bool, ArtaError>(b),
            Err(e) => r is Err && r->Err_0@ == e,
        },
{
    let field = condition.field.as_str();
    let actual = match condition.target {
        QueryTarget::Memory => get_memory_field_value(sample, field),
        QueryTarget::Cpu => get_cpu_field_value(sample, field),
        QueryTarget::Disk => get_disk_field_value(sample, field),
        QueryTarget::Battery => get_battery_field_value(sample, field),
        _ => {
            let mut text = String::from_str("IF condition not supported for ");
            text.append(condition.target.to_text());
            text.append(" queries yet");
            Err(ArtaError::ExecutionError(text))
        },
    };
    match actual {
        Err(e) => Err(e),
        Ok(n) => compare_values(n, &condition.operator, &condition.value, context),
    }
}

fn battery_text(sample: &ResultData, field: &str, f: &Vec<char>) -> (r: Result<String, ArtaError>)
    ensures
        match field_text_by(QueryTarget::Battery, field@, f@, *sample) {
            Ok(t) => r is Ok && r->Ok_0@ == t,
            Err(e) => r is Err && r->Err_0@ == e,
        },
{
    match sample {
        ResultData::Battery(info) => if info.batteries.len() == 0 {
            Ok(String::from_str("No battery"))
        } else if is(f, "level") || is(f, "percent") || is(f, "percentage") || is(f, "charge") {
            let w = info.batteries[0].percentage.whole();
            let shown: u64 = if w > 0xffff_ffff {
                0xffff_ffff
            } else {
                w
            };
            let mut text = decimal_text(shown as u128);
            text.append("%");
            Ok(text)
        } else if is(f, "state") || is(f, "status") {
            Ok(info.batteries[0].state.clone())
        } else if is(f, "time_to_empty") || is(f, "remaining") {
            Ok(or_na(&info.batteries[0].time_to_empty))
        } else if is(f, "time_to_full") {
            Ok(or_na(&info.batteries[0].time_to_full))
        } else {
            Err(unknown("BATTERY", field))
        },
        _ => Err(mismatch(QueryTarget::Battery)),
    }
}

fn memory_text(sample: &ResultData, field: &str, f: &Vec<char>) -> (r: Result<String, ArtaError>)
    ensures
        match field_text_by(QueryTarget::Memory, field@, f@, *sample) {
            Ok(t) => r is Ok && r->Ok_0@ == t,
            Err(e) => r is Err && r->Err_0@ == e,
        },
{
    match sample {
        ResultData::Memory(info) => if is(f, "total") {
            Ok(format_size(info.total))
        } else if is(f, "used") {
            Ok(format_size(info.used))
        } else if is(f, "free") {
            Ok(format_size(info.free))
        } else if is(f, "available") {
            Ok(format_size(info.available))
        } else if is(f, "usage") || is(f, "percent") || is(f, "used_percent") {
            Ok(percent(&info.usage_percent))
        } else {
            Err(unknown("MEMORY", field))
        },
        _ => Err(mismatch(QueryTarget::Memory)),
    }
}

fn cpu_text(sample: &ResultData, field: &str, f: &Vec<char>) -> (r: Result<String, ArtaError>)
    ensures
        match field_text_by(QueryTarget::Cpu, field@, f@, *sample) {
            Ok(t) => r is Ok && r->Ok_0@ == t,
            Err(e) => r is Err && r->Err_0@ == e,
        },
{
    match sample {
        ResultData::Cpu(info) => if is(f, "usage") || is(f, "percent") {
            Ok(percent(&info.usage))
        } else if is(f, "cores") {
            Ok(decimal_text(info.cores as u128))
        } else if is(f, "frequency") || is(f, "frequency_mhz") {
            let mut text = decimal_text(info.frequency as u128);
            text.append(" MHz");
            Ok(text)
        } else if is(f, "name") || is(f, "brand") {
            Ok(info.brand.clone())
        } else {
            Err(unknown("CPU", field))
        },
        _ => Err(mismatch(QueryTarget::Cpu)),
    }
}

fn disk_text(sample: &ResultData, field: &str, f: &Vec<char>) -> (r: Result<String, ArtaError>)
    ensures
        match field_text_by(QueryTarget::Disk, field@, f@, *sample) {
            Ok(t) => r is Ok && r->Ok_0@ == t,
            Err(e) => r is Err && r->Err_0@ == e,
        },
{
    match sample {
        ResultData::Disk(info) => if info.disks.len() == 0 {
            Ok(String::from_str("No disks"))
        } else if is(f, "total") {
            Ok(format_size(info.disks[0].total))
        } else if is(f, "used") {
            Ok(format_size(info.disks[0].used))
        } else if is(f, "free") || is(f, "available") {
            Ok(format_size(info.disks[0].free))
        } else if is(f, "usage") || is(f, "percent") || is(f, "used_percent") {
            Ok(percent(&info.disks[0].usage_percent))
        } else if is(f, "name") || is(f, "mount") || is(f, "mount_point") {
            Ok(info.disks[0].mount_point.clone())
        } else {
            Err(unknown("DISK", field))
        },
        _ => Err(mismatch(QueryTarget::Disk)),
    }
}

fn system_text(sample: &ResultData, field: &str, f: &Vec<char>) -> (r: Result<String, ArtaError>)
    ensures
        match field_text_by(QueryTarget::System, field@, f@, *sample) {
            Ok(t) => r is Ok && r->Ok_0@ == t,
            Err(e) => r is Err && r->Err_0@ == e,
        },
{
    match sample {
        ResultData::System(info) => if is(f, "hostname") || is(f, "name") {
            Ok(info.hostname.clone())
        } else if is(f, "os") || is(f, "os_name") {
            Ok(info.os_name.clone())
        } else if is(f, "os_version") || is(f, "version") {
            Ok(info.os_version.clone())
        } else if is(f, "kernel") || is(f, "kernel_version") {
            Ok(info.kernel_version.clone())
        } else if is(f, "uptime") || is(f, "uptime_secs") {
            let mut text = decimal_text(info.uptime as u128);
            text.append(" seconds");
            Ok(text)
        } else {
            Err(unknown("SYSTEM", field))
        },
        _ => Err(mismatch(QueryTarget::System)),
    }
}

fn network_text(sample: &ResultData, field: &str, f: &Vec<char>) -> (r: Result<String, ArtaError>)
    ensures
        match field_text_by(QueryTarget::Network, field@, f@, *sample) {
            Ok(t) => r is Ok && r->Ok_0@ == t,
            Err(e) => r is Err && r->Err_0@ == e,
        },
{
    match sample {
        ResultData::Network(info) => if info.interfaces.len() == 0 {
            Ok(String::from_str("No network interfaces"))
        } else if is(f, "name") {
            Ok(info.interfaces[0].name.clone())
        } else if is(f, "sent") || is(f, "bytes_sent") || is(f, "transmitted") {
            Ok(format_size(info.interfaces[0].transmitted))
        } else if is(f, "recv") || is(f, "received") || is(f, "bytes_recv") {
            Ok(format_size(info.interfaces[0].received))
        } else {
            Err(unknown("NETWORK", field))
        },
        _ => Err(mismatch(QueryTarget::Network)),
    }
}

/// The field of a sample that a `PRINT` writes.
pub fn get_query_field_value(target: QueryTarget, field: &str, sample: &ResultData) -> (r: Result<
    String,
    ArtaError,
>)
    ensures
        match field_text(target, field@, *sample) {
            Ok(t) => r is Ok && r->Ok_0@ == t,
            Err(e) => r is Err && r->Err_0@ == e,
        },
{
    let folded = to_lowercase(field);
    query_field_value(target, field, folded.as_str(), sample)
}

/// The field of a sample that a `PRINT` writes, where `folded` is the name
/// of the field in lower case.
pub fn query_field_value(target: QueryTarget, field: &str, folded: &str, sample: &ResultData) -> (r:
    Result<String, ArtaError>)
    ensures
        match field_text_by(target, field@, folded@, *sample) {
            Ok(t) => r is Ok && r->Ok_0@ == t,
            Err(e) => r is Err && r->Err_0@ == e,
        },
{
    let f = chars_of(folded);
    match target {
        QueryTarget::Battery => battery_text(sample, field, &f),
        QueryTarget::Memory => memory_text(sample, field, &f),
        QueryTarget::Cpu => cpu_text(sample, field, &f),
        QueryTarget::Disk => disk_text(sample, field, &f),
        QueryTarget::System => system_text(sample, field, &f),
        QueryTarget::Network => network_text(sample, field, &f),
        _ => {
            let mut text = String::from_str("PRINT not supported for ");
            text.append(target.to_text());
            text.append(" queries");
            Err(ArtaError::ExecutionError(text))
        },
    }
}

} // verus!
