//! The command tree that the parser builds and every later pass reads.

use vstd::prelude::*;
use crate::number::Number;

verus! {

/// One statement of the language.
#[derive(Debug)]
pub enum Command {
    Query(QueryCommand),
    Action(ActionCommand),
    Context(ContextCommand),
    Let(LetStatement),
    For(ForLoop),
    If(IfStatement),
    Life(LifeMonitor),
    Print(PrintCommand),
    Container(ContainerCommand),
    Explain(Box<Command>),
}

/// A sequence of statements.
#[derive(Debug)]
pub struct Script {
    pub statements: Vec<Command>,
}

/// `LIFE MONITOR <target> DO ... END LIFE`.
#[derive(Debug)]
pub struct LifeMonitor {
    pub target: LifeTarget,
    pub body: Vec<Command>,
}

/// Resources that a `LIFE` block can watch.
#[derive(Debug, Clone, Copy, PartialEq, Eq, Structural)]
pub enum LifeTarget {
    Battery,
    Memory,
    Cpu,
    Disk,
    Network,
    Processes,
}

/// `PRINT <expr>, <expr>, ...`.
#[derive(Debug)]
pub struct PrintCommand {
    pub expressions: Vec<PrintExpr>,
}

/// One expression of a `PRINT` statement.
#[derive(Debug)]
pub enum PrintExpr {
    /// A field of a freshly sampled resource, as in `BATTERY level`.
    QueryField { target: QueryTarget, field: String },
    /// A literal text.
    String(String),
    /// A variable, looked up when the statement runs.
    Variable(String),
}

/// `FOR <var> IN <query> DO ... END FOR`.
#[derive(Debug)]
pub struct ForLoop {
    pub iterator_var: String,
    pub source_query: QueryCommand,
    pub body: Vec<Command>,
}

/// `IF <condition> THEN ... [ELSE ...] END IF`.
#[derive(Debug)]
pub struct IfStatement {
    pub condition: IfCondition,
    pub then_body: Vec<Command>,
    pub else_body: Option<Vec<Command>>,
}

/// The comparison that an `IF` evaluates against a fresh sample.
#[derive(Debug)]
pub struct IfCondition {
    pub target: QueryTarget,
    pub field: String,
    pub operator: CompareOp,
    pub value: Value,
}

/// `LET <name> = <value>`.
#[derive(Debug)]
pub struct LetStatement {
    pub name: String,
    pub value: LetValue,
}

/// What a `LET` can bind.
#[derive(Debug)]
pub enum LetValue {
    String(String),
    Number(Number),
    Size(u64),
    Boolean(bool),
    Path(String),
}

/// Navigation and inspection of the session's context.
#[derive(Debug)]
pub enum ContextCommand {
    EnterFolder(String),
    EnterFile(String),
    Exit,
    Reset,
    Show(ShowTarget),
}

/// What `SHOW` displays.
#[derive(Debug, Clone, Copy, PartialEq, Eq, Structural)]
pub enum ShowTarget {
    Context,
    Variables,
    History,
}

/// `SELECT <target> <fields> [FROM <path>] [WHERE <filter>]`.
#[derive(Debug)]
pub struct QueryCommand {
    pub target: QueryTarget,
    pub fields: FieldList,
    pub from_path: Option<String>,
    pub where_clause: Option<WhereClause>,
}

/// Resources that can be queried.
#[derive(Debug, Clone, Copy, PartialEq, Eq, Structural)]
pub enum QueryTarget {
    Cpu,
    Memory,
    Disk,
    Network,
    System,
    Battery,
    Process,
    Files,
    Content,
}

/// The fields a query asks for.
#[derive(Debug)]
pub enum FieldList {
    All,
    Fields(Vec<String>),
}

/// A filter: every listed expression has to match.
#[derive(Debug)]
pub struct WhereClause {
    pub conditions: Vec<ConditionExpr>,
}

/// One comparison and, optionally, a link to the next one.
#[derive(Debug)]
pub struct ConditionExpr {
    pub condition: Condition,
    pub next: Option<(LogicalOp, Box<ConditionExpr>)>,
}

/// `<field> <operator> <value>`.
#[derive(Debug)]
pub struct Condition {
    pub field: String,
    pub operator: CompareOp,
    pub value: Value,
}

/// How two comparisons of a filter are linked.
#[derive(Debug, Clone, Copy, PartialEq, Eq, Structural)]
pub enum LogicalOp {
    And,
    Or,
}

/// Comparison operators.
#[derive(Debug, Clone, Copy, PartialEq, Eq, Structural)]
pub enum CompareOp {
    Equal,
    NotEqual,
    GreaterThan,
    GreaterThanOrEqual,
    LessThan,
    LessThanOrEqual,
    Like,
    Contains,
    Matches,
}

/// A literal or a variable reference on the right of a comparison.
#[derive(Debug)]
pub enum Value {
    String(String),
    Number(Number),
    /// A byte count.
    Size(u64),
    Boolean(bool),
    /// The name of a variable.
    Identifier(String),
}

/// Statements that change the system.
#[derive(Debug)]
pub enum ActionCommand {
    DeleteFiles(DeleteFilesCommand),
    KillProcess(KillProcessCommand),
}

/// `DELETE FILES FROM <path> [WHERE <filter>]`.
#[derive(Debug)]
pub struct DeleteFilesCommand {
    pub path: String,
    pub where_clause: Option<WhereClause>,
}

/// `KILL PROCESS WHERE <filter>`.
#[derive(Debug)]
pub struct KillProcessCommand {
    pub where_clause: WhereClause,
}

/// Statements that manage containers.
#[derive(Debug)]
pub enum ContainerCommand {
    Create(CreateContainer),
    Switch(String),
    List,
    Destroy(String),
    Export(ExportContainer),
}

/// `CREATE CONTAINER <name> [WITH <options>] DO ... END CONTAINER`.
#[derive(Debug)]
pub struct CreateContainer {
    pub name: String,
    pub options: ContainerOptions,
    pub body: Vec<Command>,
}

/// Permissions of a container.
#[derive(Debug, Clone, Copy, PartialEq, Eq, Structural)]
pub struct ContainerOptions {
    /// Whether `DELETE` and `KILL` may run in the container.
    pub allow_actions: bool,
    /// Whether the container refuses file modifications.
    pub readonly: bool,
}

impl Default for ContainerOptions {
    fn default() -> (r: Self)
        ensures
            r == (ContainerOptions { allow_actions: false, readonly: false }),
    {
        ContainerOptions { allow_actions: false, readonly: false }
    }
}

/// `EXPORT CONTAINER <name> TO <path>`.
#[derive(Debug)]
pub struct ExportContainer {
    pub name: String,
    pub path: String,
}

// ---------------------------------------------------------------------------
// Mathematical models
// ---------------------------------------------------------------------------

/// The model of `Command`.
pub ghost enum CommandView {
    Query(QueryView),
    Action(ActionView),
    Context(ContextCommandView),
    Let(LetView),
    For(ForView),
    If(IfView),
    Life(LifeView),
    Print(Seq<PrintExprView>),
    Container(ContainerCommandView),
    Explain(Box<CommandView>),
}

/// The model of `LifeMonitor`.
pub ghost struct LifeView {
    pub target: LifeTarget,
    pub body: Seq<CommandView>,
}

/// The model of `PrintExpr`.
pub ghost enum PrintExprView {
    QueryField { target: QueryTarget, field: Seq<char> },
    String(Seq<char>),
    Variable(Seq<char>),
}

/// The model of `ForLoop`.
pub ghost struct ForView {
    pub iterator_var: Seq<char>,
    pub source_query: QueryView,
    pub body: Seq<CommandView>,
}

/// The model of `IfStatement`.
pub ghost struct IfView {
    pub condition: IfConditionView,
    pub then_body: Seq<CommandView>,
    pub else_body: Option<Seq<CommandView>>,
}

/// The model of `IfCondition`.
pub ghost struct IfConditionView {
    pub target: QueryTarget,
    pub field: Seq<char>,
    pub operator: CompareOp,
    pub value: ValueView,
}

/// The model of `LetStatement`.
pub ghost struct LetView {
    pub name: Seq<char>,
    pub value: LetValueView,
}

/// The model of `LetValue`.
pub ghost enum LetValueView {
    String(Seq<char>),
    Number(Number),
    Size(u64),
    Boolean(bool),
    Path(Seq<char>),
}

/// The model of `ContextCommand`.
pub ghost enum ContextCommandView {
    EnterFolder(Seq<char>),
    EnterFile(Seq<char>),
    Exit,
    Reset,
    Show(ShowTarget),
}

/// The model of `QueryCommand`.
pub ghost struct QueryView {
    pub target: QueryTarget,
    pub fields: FieldListView,
    pub from_path: Option<Seq<char>>,
    pub where_clause: Option<Seq<ConditionExprView>>,
}

/// The model of `FieldList`.
pub ghost enum FieldListView {
    All,
    Fields(Seq<Seq<char>>),
}

/// The model of `ConditionExpr`.
pub ghost struct ConditionExprView {
    pub condition: ConditionView,
    pub next: Option<(LogicalOp, Box<ConditionExprView>)>,
}

/// The model of `Condition`.
pub ghost struct ConditionView {
    pub field: Seq<char>,
    pub operator: CompareOp,
    pub value: ValueView,
}

/// The model of `Value`.
pub ghost enum ValueView {
    String(Seq<char>),
    Number(Number),
    Size(u64),
    Boolean(bool),
    Identifier(Seq<char>),
}

/// The model of `ActionCommand`.
pub ghost enum ActionView {
    DeleteFiles { path: Seq<char>, where_clause: Option<Seq<ConditionExprView>> },
    KillProcess(Seq<ConditionExprView>),
}

/// The model of `ContainerCommand`.
pub ghost enum ContainerCommandView {
    Create(CreateView),
    Switch(Seq<char>),
    List,
    Destroy(Seq<char>),
    Export { name: Seq<char>, path: Seq<char> },
}

/// The model of `CreateContainer`.
pub ghost struct CreateView {
    pub name: Seq<char>,
    pub options: ContainerOptions,
    pub body: Seq<CommandView>,
}

/// The models of a list of statements, in order.
pub open spec fn body_view(body: Vec<Command>) -> Seq<CommandView>
    decreases body,
{
    Seq::new(
        body.len() as nat,
        |i: int|
            if 0 <= i < body.len() {
                body[i].view()
            } else {
                arbitrary()
            },
    )
}

/// The models of a list of texts, in order.
pub open spec fn texts_view(texts: Vec<String>) -> Seq<Seq<char>> {
    Seq::new(texts.len() as nat, |i: int| texts[i]@)
}

impl Command {
    pub open spec fn view(&self) -> CommandView
        decreases self,
    {
        match self {
            Command::Query(q) => CommandView::Query(q@),
            Command::Action(a) => CommandView::Action(a@),
            Command::Context(c) => CommandView::Context(c@),
            Command::Let(l) => CommandView::Let(l@),
            Command::For(f) => CommandView::For(
                ForView {
                    iterator_var: f.iterator_var@,
                    source_query: f.source_query@,
                    body: body_view(f.body),
                },
            ),
            Command::If(i) => CommandView::If(
                IfView {
                    condition: i.condition@,
                    then_body: body_view(i.then_body),
                    else_body: match i.else_body {
                        Some(b) => Some(body_view(b)),
                        None => None,
                    },
                },
            ),
            Command::Life(l) => CommandView::Life(
                LifeView { target: l.target, body: body_view(l.body) },
            ),
            Command::Print(p) => CommandView::Print(p@),
            Command::Container(c) => CommandView::Container(
                match c {
                    ContainerCommand::Create(create) => ContainerCommandView::Create(
                        CreateView {
                            name: create.name@,
                            options: create.options,
                            body: body_view(create.body),
                        },
                    ),
                    ContainerCommand::Switch(name) => ContainerCommandView::Switch(name@),
                    ContainerCommand::List => ContainerCommandView::List,
                    ContainerCommand::Destroy(name) => ContainerCommandView::Destroy(name@),
                    ContainerCommand::Export(e) => ContainerCommandView::Export {
                        name: e.name@,
                        path: e.path@,
                    },
                },
            ),
            Command::Explain(inner) => CommandView::Explain(Box::new(inner.view())),
        }
    }
}

impl Script {
    pub open spec fn view(&self) -> Seq<CommandView> {
        body_view(self.statements)
    }
}

impl ForLoop {
    pub open spec fn view(&self) -> ForView {
        ForView {
            iterator_var: self.iterator_var@,
            source_query: self.source_query@,
            body: body_view(self.body),
        }
    }
}

impl IfStatement {
    pub open spec fn view(&self) -> IfView {
        IfView {
            condition: self.condition@,
            then_body: body_view(self.then_body),
            else_body: match self.else_body {
                Some(b) => Some(body_view(b)),
                None => None,
            },
        }
    }
}

impl LifeMonitor {
    pub open spec fn view(&self) -> LifeView {
        LifeView { target: self.target, body: body_view(self.body) }
    }
}

impl CreateContainer {
    pub open spec fn view(&self) -> CreateView {
        CreateView { name: self.name@, options: self.options, body: body_view(self.body) }
    }
}

impl ContainerCommand {
    pub open spec fn view(&self) -> ContainerCommandView {
        match self {
            ContainerCommand::Create(create) => ContainerCommandView::Create(create@),
            ContainerCommand::Switch(name) => ContainerCommandView::Switch(name@),
            ContainerCommand::List => ContainerCommandView::List,
            ContainerCommand::Destroy(name) => ContainerCommandView::Destroy(name@),
            ContainerCommand::Export(e) => ContainerCommandView::Export {
                name: e.name@,
                path: e.path@,
            },
        }
    }
}

impl PrintExpr {
    pub open spec fn view(&self) -> PrintExprView {
        match self {
            PrintExpr::QueryField { target, field } => PrintExprView::QueryField {
                target: *target,
                field: field@,
            },
            PrintExpr::String(s) => PrintExprView::String(s@),
            PrintExpr::Variable(name) => PrintExprView::Variable(name@),
        }
    }
}

impl PrintCommand {
    pub open spec fn view(&self) -> Seq<PrintExprView> {
        Seq::new(self.expressions.len() as nat, |i: int| self.expressions[i]@)
    }
}

impl IfCondition {
    pub open spec fn view(&self) -> IfConditionView {
        IfConditionView {
            target: self.target,
            field: self.field@,
            operator: self.operator,
            value: self.value@,
        }
    }
}

impl LetValue {
    pub open spec fn view(&self) -> LetValueView {
        match self {
            LetValue::String(s) => LetValueView::String(s@),
            LetValue::Number(n) => LetValueView::Number(*n),
            LetValue::Size(s) => LetValueView::Size(*s),
            LetValue::Boolean(b) => LetValueView::Boolean(*b),
            LetValue::Path(p) => LetValueView::Path(p@),
        }
    }
}

impl LetStatement {
    pub open spec fn view(&self) -> LetView {
        LetView { name: self.name@, value: self.value@ }
    }
}

impl ContextCommand {
    pub open spec fn view(&self) -> ContextCommandView {
        match self {
            ContextCommand::EnterFolder(p) => ContextCommandView::EnterFolder(p@),
            ContextCommand::EnterFile(p) => ContextCommandView::EnterFile(p@),
            ContextCommand::Exit => ContextCommandView::Exit,
            ContextCommand::Reset => ContextCommandView::Reset,
            ContextCommand::Show(t) => ContextCommandView::Show(*t),
        }
    }
}

impl FieldList {
    pub open spec fn view(&self) -> FieldListView {
        match self {
            FieldList::All => FieldListView::All,
            FieldList::Fields(f) => FieldListView::Fields(texts_view(*f)),
        }
    }
}

impl Value {
    pub open spec fn view(&self) -> ValueView {
        match self {
            Value::String(s) => ValueView::String(s@),
            Value::Number(n) => ValueView::Number(*n),
            Value::Size(s) => ValueView::Size(*s),
            Value::Boolean(b) => ValueView::Boolean(*b),
            Value::Identifier(id) => ValueView::Identifier(id@),
        }
    }
}

impl Condition {
    pub open spec fn view(&self) -> ConditionView {
        ConditionView { field: self.field@, operator: self.operator, value: self.value@ }
    }
}

impl ConditionExpr {
    pub open spec fn view(&self) -> ConditionExprView
        decreases self,
    {
        ConditionExprView {
            condition: self.condition@,
            next: match self.next {
                Some((op, rest)) => Some((op, Box::new(rest.view()))),
                None => None,
            },
        }
    }
}

impl WhereClause {
    pub open spec fn view(&self) -> Seq<ConditionExprView> {
        Seq::new(self.conditions.len() as nat, |i: int| self.conditions[i]@)
    }
}

/// The model of an optional filter.
pub open spec fn filter_view(filter: Option<WhereClause>) -> Option<Seq<ConditionExprView>> {
    match filter {
        Some(w) => Some(w@),
        None => None,
    }
}

/// The model of an optional text.
pub open spec fn opt_text_view(text: Option<String>) -> Option<Seq<char>> {
    match text {
        Some(t) => Some(t@),
        None => None,
    }
}

impl QueryCommand {
    pub open spec fn view(&self) -> QueryView {
        QueryView {
            target: self.target,
            fields: self.fields@,
            from_path: opt_text_view(self.from_path),
            where_clause: filter_view(self.where_clause),
        }
    }
}

impl ActionCommand {
    pub open spec fn view(&self) -> ActionView {
        match self {
            ActionCommand::DeleteFiles(d) => ActionView::DeleteFiles {
                path: d.path@,
                where_clause: filter_view(d.where_clause),
            },
            ActionCommand::KillProcess(k) => ActionView::KillProcess(k.where_clause@),
        }
    }
}

} // verus!
