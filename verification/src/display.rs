//! How the pieces of a command are written in messages.

use vstd::prelude::*;
use vstd::string::StringExecFns;
use crate::ast::{
    texts_view, CompareOp, FieldList, FieldListView, LetValue, LetValueView, LifeTarget,
    QueryTarget, ShowTarget, Value, ValueView,
};
use crate::bridge::{format_size, quote, quoted, size_text};
use crate::text::{decimal, decimal_text, join3};

verus! {

/// A query target in capitals.
pub open spec fn target_name(target: QueryTarget) -> Seq<char> {
    match target {
        QueryTarget::Cpu => "CPU"@,
        QueryTarget::Memory => "MEMORY"@,
        QueryTarget::Disk => "DISK"@,
        QueryTarget::Network => "NETWORK"@,
        QueryTarget::System => "SYSTEM"@,
        QueryTarget::Battery => "BATTERY"@,
        QueryTarget::Process => "PROCESS"@,
        QueryTarget::Files => "FILES"@,
        QueryTarget::Content => "CONTENT"@,
    }
}

/// A monitored resource in capitals.
pub open spec fn life_target_name(target: LifeTarget) -> Seq<char> {
    match target {
        LifeTarget::Battery => "BATTERY"@,
        LifeTarget::Memory => "MEMORY"@,
        LifeTarget::Cpu => "CPU"@,
        LifeTarget::Disk => "DISK"@,
        LifeTarget::Network => "NETWORK"@,
        LifeTarget::Processes => "PROCESSES"@,
    }
}

/// What `SHOW` displays, in capitals.
pub open spec fn show_target_name(target: ShowTarget) -> Seq<char> {
    match target {
        ShowTarget::Context => "CONTEXT"@,
        ShowTarget::Variables => "VARIABLES"@,
        ShowTarget::History => "HISTORY"@,
    }
}

/// An operator as it is written.
pub open spec fn operator_text(op: CompareOp) -> Seq<char> {
    match op {
        CompareOp::Equal => "="@,
        CompareOp::NotEqual => "!="@,
        CompareOp::GreaterThan => ">"@,
        CompareOp::GreaterThanOrEqual => ">="@,
        CompareOp::LessThan => "<"@,
        CompareOp::LessThanOrEqual => "<="@,
        CompareOp::Like => "LIKE"@,
        CompareOp::Contains => "CONTAINS"@,
        CompareOp::Matches => "MATCHES"@,
    }
}

/// A truth value as `true` or `false`.
pub open spec fn bool_text(b: bool) -> Seq<char> {
    if b {
        "true"@
    } else {
        "false"@
    }
}

/// A value as it is written in a condition.
pub open spec fn value_text(value: ValueView) -> Seq<char> {
    match value {
        ValueView::String(s) => "\""@ + s + "\""@,
        ValueView::Number(n) => n.text(),
        ValueView::Size(s) => size_text(s),
        ValueView::Boolean(b) => bool_text(b),
        ValueView::Identifier(id) => id,
    }
}

/// A bound value with the name of its kind, as in `Number(80.0)`.
pub open spec fn let_value_text(value: LetValueView) -> Seq<char> {
    match value {
        LetValueView::String(s) => "String("@ + quoted(s) + ")"@,
        LetValueView::Number(n) => "Number("@ + n.debug_text() + ")"@,
        LetValueView::Size(s) => "Size("@ + decimal(s as nat) + ")"@,
        LetValueView::Boolean(b) => "Boolean("@ + bool_text(b) + ")"@,
        LetValueView::Path(p) => "Path("@ + quoted(p) + ")"@,
    }
}

/// The first `count` of `texts`, each changed by `each`, with `sep` between
/// them.
pub open spec fn joined(
    texts: Seq<Seq<char>>,
    sep: Seq<char>,
    each: spec_fn(Seq<char>) -> Seq<char>,
    count: nat,
) -> Seq<char>
    decreases count,
{
    if count == 0 || count > texts.len() {
        Seq::empty()
    } else if count == 1 {
        each(texts[0])
    } else {
        joined(texts, sep, each, (count - 1) as nat) + sep + each(texts[count - 1])
    }
}

/// The list of fields with the name of its kind, as in `Fields(["a", "b"])`.
pub open spec fn field_list_text(fields: FieldListView) -> Seq<char> {
    match fields {
        FieldListView::All => "All"@,
        FieldListView::Fields(f) => "Fields(["@ + joined(
            f,
            ", "@,
            |t: Seq<char>| quoted(t),
            f.len(),
        ) + "])"@,
    }
}

/// The list of fields as it is written in a query.
pub open spec fn field_list_source(fields: FieldListView) -> Seq<char> {
    match fields {
        FieldListView::All => "*"@,
        FieldListView::Fields(f) => joined(f, ", "@, |t: Seq<char>| t, f.len()),
    }
}

impl QueryTarget {
    /// The target in capitals.
    pub fn to_text(&self) -> (r: &'static str)
        ensures
            r@ == target_name(*self),
    {
        match self {
            QueryTarget::Cpu => "CPU",
            QueryTarget::Memory => "MEMORY",
            QueryTarget::Disk => "DISK",
            QueryTarget::Network => "NETWORK",
            QueryTarget::System => "SYSTEM",
            QueryTarget::Battery => "BATTERY",
            QueryTarget::Process => "PROCESS",
            QueryTarget::Files => "FILES",
            QueryTarget::Content => "CONTENT",
        }
    }
}

impl LifeTarget {
    /// The resource in capitals.
    pub fn to_text(&self) -> (r: &'static str)
        ensures
            r@ == life_target_name(*self),
    {
        match self {
            LifeTarget::Battery => "BATTERY",
            LifeTarget::Memory => "MEMORY",
            LifeTarget::Cpu => "CPU",
            LifeTarget::Disk => "DISK",
            LifeTarget::Network => "NETWORK",
            LifeTarget::Processes => "PROCESSES",
        }
    }
}

impl ShowTarget {
    /// The name in capitals.
    pub fn to_text(&self) -> (r: &'static str)
        ensures
            r@ == show_target_name(*self),
    {
        match self {
            ShowTarget::Context => "CONTEXT",
            ShowTarget::Variables => "VARIABLES",
            ShowTarget::History => "HISTORY",
        }
    }
}

impl CompareOp {
    /// The operator as it is written.
    pub fn to_text(&self) -> (r: &'static str)
        ensures
            r@ == operator_text(*self),
    {
        match self {
            CompareOp::Equal => "=",
            CompareOp::NotEqual => "!=",
            CompareOp::GreaterThan => ">",
            CompareOp::GreaterThanOrEqual => ">=",
            CompareOp::LessThan => "<",
            CompareOp::LessThanOrEqual => "<=",
            CompareOp::Like => "LIKE",
            CompareOp::Contains => "CONTAINS",
            CompareOp::Matches => "MATCHES",
        }
    }
}

/// A truth value as `true` or `false`.
pub fn bool_word(b: bool) -> (r: &'static str)
    ensures
        r@ == bool_text(b),
{
    if b {
        "true"
    } else {
        "false"
    }
}

impl Value {
    /// The value as it is written in a condition.
    pub fn to_text(&self) -> (r: String)
        ensures
            r@ == value_text(self@),
    {
        match self {
            Value::String(s) => join3("\"", s.as_str(), "\""),
            Value::Number(n) => n.to_text(),
            Value::Size(s) => format_size(*s),
            Value::Boolean(b) => String::from_str(bool_word(*b)),
            Value::Identifier(id) => id.clone(),
        }
    }
}

impl LetValue {
    /// The value with the name of its kind.
    pub fn to_debug_text(&self) -> (r: String)
        ensures
            r@ == let_value_text(self@),
    {
        match self {
            LetValue::String(s) => join3("String(", quote(s.as_str()).as_str(), ")"),
            LetValue::Number(n) => join3("Number(", n.to_debug_text().as_str(), ")"),
            LetValue::Size(s) => join3("Size(", decimal_text(*s as u128).as_str(), ")"),
            LetValue::Boolean(b) => join3("Boolean(", bool_word(*b), ")"),
            LetValue::Path(p) => join3("Path(", quote(p.as_str()).as_str(), ")"),
        }
    }
}

/// Writes `texts` with `, ` between them, each in quotes where `quotes` says
/// so.
fn join_texts(texts: &Vec<String>, quotes: bool) -> (r: String)
    ensures
        quotes ==> r@ == joined(
            texts_view(*texts),
            ", "@,
            |t: Seq<char>| quoted(t),
            texts.len() as nat,
        ),
        !quotes ==> r@ == joined(texts_view(*texts), ", "@, |t: Seq<char>| t, texts.len() as nat),
{
    let mut out = String::new();
    let mut i: usize = 0;
    let ghost quoting = |t: Seq<char>| quoted(t);
    let ghost plain = |t: Seq<char>| t;
    while i < texts.len()
        invariant
            i <= texts.len(),
            quoting == |t: Seq<char>| quoted(t),
            plain == |t: Seq<char>| t,
            quotes ==> out@ =~= joined(texts_view(*texts), ", "@, quoting, i as nat),
            !quotes ==> out@ =~= joined(texts_view(*texts), ", "@, plain, i as nat),
        decreases texts.len() - i,
    {
        if i > 0 {
            out.append(", ");
        }
        if quotes {
            let q = quote(texts[i].as_str());
            out.append(q.as_str());
        } else {
            out.append(texts[i].as_str());
        }
        proof {
            assert(texts_view(*texts)[i as int] == texts[i as int]@);
            if i == 0 {
                assert(out@ =~= Seq::<char>::empty() + if quotes {
                    quoted(texts[0]@)
                } else {
                    texts[0]@
                });
            }
        }
        i = i + 1;
    }
    out
}

impl FieldList {
    /// The list with the name of its kind.
    pub fn to_debug_text(&self) -> (r: String)
        ensures
            r@ == field_list_text(self@),
    {
        match self {
            FieldList::All => String::from_str("All"),
            FieldList::Fields(f) => join3("Fields([", join_texts(f, true).as_str(), "])"),
        }
    }

    /// The list as it is written in a query.
    pub fn to_source(&self) -> (r: String)
        ensures
            r@ == field_list_source(self@),
    {
        match self {
            FieldList::All => String::from_str("*"),
            FieldList::Fields(f) => join_texts(f, false),
        }
    }
}

} // verus!
