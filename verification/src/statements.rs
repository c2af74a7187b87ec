//! What the statements that need nothing from outside do to a session, and
//! what the others ask for.

use vstd::prelude::*;
use vstd::string::StringExecFns;
use crate::ast::{
    opt_text_view, texts_view, ActionCommand, ActionView, ConditionExprView, FieldList,
    FieldListView, LetStatement, LetValue, LetValueView, LetView, QueryCommand, QueryTarget,
    QueryView, ShowTarget, WhereClause,
};
use crate::bridge::{format_clock, is_moment, quote, quoted, time_of_day};
use crate::context::{
    bindings_view, history_view, Context, ContextView, HistoryView, VariableValue, VariableView,
};
use crate::error::{ArtaError, ErrorView};
use crate::policy::ExecutionContext;
use crate::results::{
    message, message_result, pairs_view, ContextInfo, ContextInfoView, DataView, ExecutionResult,
    FileEntry, ProcessInfo, ResultData, ResultView,
};
use crate::number::Number;
use crate::text::{join, join3};

verus! {

/// A query that is ready to be sampled: its target, and the path that it
/// reads where it reads any.
#[derive(Debug)]
pub struct QueryPlan<'a> {
    pub target: QueryTarget,
    /// The fields that were asked for; `None` stands for all of them.
    pub fields: Option<&'a FieldList>,
    pub path: Option<String>,
    pub filter: Option<&'a WhereClause>,
}

/// An action that is ready to be carried out.
#[derive(Debug)]
pub enum ActionPlan<'a> {
    DeleteFiles { path: String, filter: Option<&'a WhereClause>, dry_run: bool },
    KillProcess { criteria: &'a WhereClause, dry_run: bool },
}

/// The model of `QueryPlan`.
pub ghost struct QueryPlanView {
    pub target: QueryTarget,
    pub fields: FieldListView,
    pub path: Option<Seq<char>>,
    pub filter: Option<Seq<ConditionExprView>>,
}

/// The model of `ActionPlan`.
pub ghost enum ActionPlanView {
    DeleteFiles { path: Seq<char>, filter: Option<Seq<ConditionExprView>>, dry_run: bool },
    KillProcess { criteria: Seq<ConditionExprView>, dry_run: bool },
}

impl<'a> QueryPlan<'a> {
    pub open spec fn view(&self) -> QueryPlanView {
        QueryPlanView {
            target: self.target,
            fields: match self.fields {
                Some(f) => f@,
                None => FieldListView::All,
            },
            path: opt_text_view(self.path),
            filter: match self.filter {
                Some(f) => Some(f@),
                None => None,
            },
        }
    }
}

impl<'a> ActionPlan<'a> {
    pub open spec fn view(&self) -> ActionPlanView {
        match self {
            ActionPlan::DeleteFiles { path, filter, dry_run } => ActionPlanView::DeleteFiles {
                path: path@,
                filter: match filter {
                    Some(f) => Some(f@),
                    None => None,
                },
                dry_run: *dry_run,
            },
            ActionPlan::KillProcess { criteria, dry_run } => ActionPlanView::KillProcess {
                criteria: criteria@,
                dry_run: *dry_run,
            },
        }
    }
}

/// What a path argument stands for: the value of the variable of that name,
/// where there is one, and else the argument itself.
pub open spec fn interpolated(input: Seq<char>, c: ContextView) -> Seq<char> {
    match c.lookup(input) {
        Some(VariableView::String(s)) => s,
        Some(VariableView::Path(p)) => p,
        Some(other) => other.text(),
        None => input,
    }
}

/// The path that a query reads, or why the query cannot run.
///
/// A listing reads the named folder, or the current one; a content query the
/// named file, or the one in focus; a disk query takes its path as written.
pub open spec fn planned_path(q: QueryView, c: ContextView) -> Result<Option<Seq<char>>, ErrorView> {
    match q.target {
        QueryTarget::Files => match q.from_path {
            Some(p) => Ok(Some(c.resolved(interpolated(p, c)))),
            None => Ok(Some(c.current_folder())),
        },
        QueryTarget::Content => match q.from_path {
            Some(p) => Ok(Some(c.resolved(interpolated(p, c)))),
            None => match c.file {
                Some(f) => Ok(Some(f)),
                None => Err(
                    ErrorView::ExecutionError(
                        "No file in context. Use 'ENTER FILE <path>' or 'SELECT CONTENT * FROM <path>'"@,
                    ),
                ),
            },
        },
        QueryTarget::Disk => Ok(q.from_path),
        _ => Ok(None),
    }
}

/// The query with the path that it reads.
pub open spec fn query_plan(q: QueryView, path: Option<Seq<char>>) -> QueryPlanView {
    QueryPlanView { target: q.target, fields: q.fields, path, filter: q.where_clause }
}

/// The query that samples all of a resource.
pub open spec fn sample_plan(target: QueryTarget) -> QueryPlanView {
    QueryPlanView { target, fields: FieldListView::All, path: None, filter: None }
}

/// The action as it is handed to the host.
pub open spec fn action_plan(action: ActionView, policy: ExecutionContext, c: ContextView) -> ActionPlanView {
    match action {
        ActionView::DeleteFiles { path, where_clause } => ActionPlanView::DeleteFiles {
            path: c.resolved(interpolated(path, c)),
            filter: where_clause,
            dry_run: policy.dry_run,
        },
        ActionView::KillProcess(filter) => ActionPlanView::KillProcess {
            criteria: filter,
            dry_run: policy.dry_run,
        },
    }
}

/// Whether the policy lets an action go ahead: actions have to be allowed,
/// or the run has to be a dry one.
pub open spec fn action_permitted(policy: ExecutionContext) -> bool {
    policy.allow_actions || policy.dry_run
}

/// The refusal of an action that the policy does not permit.
pub open spec fn actions_disabled() -> ErrorView {
    ErrorView::SecurityError(
        "Actions not enabled. Use --allow-actions flag to enable system modifications"@,
    )
}

/// The variable that a `LET` binds its value to.
pub open spec fn let_binding(value: LetValueView) -> VariableView {
    match value {
        LetValueView::String(s) => VariableView::String(s),
        LetValueView::Number(n) => VariableView::Number(n),
        LetValueView::Size(s) => VariableView::Size(s),
        LetValueView::Boolean(b) => VariableView::Boolean(b),
        LetValueView::Path(p) => VariableView::Path(p),
    }
}

/// What a `LET` yields.
pub open spec fn let_outcome(l: LetView) -> ResultView {
    message_result("Variable '"@ + l.name + "' set to "@ + let_binding(l.value).text())
}

/// One line of the history as `SHOW HISTORY` writes it: the time of day in
/// UTC, the action and the path. A moment outside the range of `chrono` is
/// written with dashes.
pub open spec fn history_text(line: HistoryView) -> Seq<char> {
    let clock = if is_moment(line.timestamp.secs, line.timestamp.nanos) {
        time_of_day(line.timestamp.secs, line.timestamp.nanos)
    } else {
        "--:--:--"@
    };
    clock + ": "@ + line.action + " "@ + match line.path {
        Some(p) => "Some("@ + quoted(p) + ")"@,
        None => "None"@,
    }
}

/// What `SHOW` displays of a session.
pub open spec fn shown(target: ShowTarget, c: ContextView) -> ContextInfoView {
    match target {
        ShowTarget::Context => ContextInfoView {
            current_folder: c.current_folder(),
            current_file: c.file,
            folder_depth: c.folders.len(),
            variables: Seq::new(
                c.variables.len(),
                |i: int| (c.variables[i].0, c.variables[i].1.text()),
            ),
            history: Seq::empty(),
        },
        ShowTarget::Variables => ContextInfoView {
            current_folder: Seq::empty(),
            current_file: None,
            folder_depth: 0,
            variables: Seq::new(
                c.variables.len(),
                |i: int| (c.variables[i].0, c.variables[i].1.text()),
            ),
            history: Seq::empty(),
        },
        ShowTarget::History => ContextInfoView {
            current_folder: Seq::empty(),
            current_file: None,
            folder_depth: 0,
            variables: Seq::empty(),
            history: Seq::new(c.history.len(), |i: int| history_text(c.history[i])),
        },
    }
}

/// The session after the loop variable `var` and its fields are bound to a
/// file.
pub open spec fn bound_to_file(c: ContextView, var: Seq<char>, file: FileEntry) -> ContextView {
    let named = c.bind(var, VariableView::Path(file.path@)).bind(
        var + ".name"@,
        VariableView::String(file.name@),
    ).bind(var + ".path"@, VariableView::Path(file.path@)).bind(
        var + ".size"@,
        VariableView::Size(file.size),
    );
    let extended = match file.extension {
        Some(e) => named.bind(var + ".extension"@, VariableView::String(e@)),
        None => named,
    };
    extended.bind(var + ".is_dir"@, VariableView::Boolean(file.is_dir))
}

/// The session after the loop variable `var` and its fields are bound to a
/// process.
pub open spec fn bound_to_process(c: ContextView, var: Seq<char>, process: ProcessInfo) -> ContextView {
    c.bind(var, VariableView::String(process.name@)).bind(
        var + ".name"@,
        VariableView::String(process.name@),
    ).bind(var + ".pid"@, VariableView::Number(Number { micros: (process.pid * 1_000_000) as i128 })).bind(
        var + ".cpu"@,
        VariableView::Number(process.cpu),
    ).bind(var + ".memory"@, VariableView::Size(process.memory))
}

/// What a path argument stands for in a session.
pub fn resolve_variable_in_string(input: &str, context: &Context) -> (r: String)
    ensures
        r@ == interpolated(input@, context@),
{
    match context.get_variable(input) {
        Some(VariableValue::String(s)) => s.clone(),
        Some(VariableValue::Path(p)) => p.clone(),
        Some(other) => other.to_text(),
        None => String::from_str(input),
    }
}

fn resolve_argument(path: &str, context: &Context) -> (r: String)
    requires
        context.wf(),
    ensures
        r@ == context@.resolved(interpolated(path@, context@)),
{
    let named = resolve_variable_in_string(path, context);
    match context.resolve_path(named.as_str()) {
        Ok(p) => p,
        Err(_) => named,
    }
}

/// Prepares a query: settles the path that it reads.
pub fn plan_query<'a>(query: &'a QueryCommand, context: &Context) -> (r: Result<
    QueryPlan<'a>,
    ArtaError,
>)
    requires
        context.wf(),
    ensures
        match planned_path(query@, context@) {
            Ok(path) => r is Ok && r->Ok_0@ == query_plan(query@, path),
            Err(e) => r is Err && r->Err_0@ == e,
        },
{
    let filter = match &query.where_clause {
        Some(w) => Some(w),
        None => None,
    };
    let path = match query.target {
        QueryTarget::Files => match &query.from_path {
            Some(p) => Some(resolve_argument(p.as_str(), context)),
            None => Some(String::from_str(context.current_folder())),
        },
        QueryTarget::Content => match &query.from_path {
            Some(p) => Some(resolve_argument(p.as_str(), context)),
            None => match context.current_file() {
                Some(f) => Some(String::from_str(f)),
                None => {
                    return Err(
                        ArtaError::ExecutionError(
                            String::from_str(
                                "No file in context. Use 'ENTER FILE <path>' or 'SELECT CONTENT * FROM <path>'",
                            ),
                        ),
                    );
                },
            },
        },
        QueryTarget::Disk => match &query.from_path {
            Some(p) => Some(p.clone()),
            None => None,
        },
        _ => None,
    };
    Ok(QueryPlan { target: query.target, fields: Some(&query.fields), path, filter })
}

/// Prepares an action, or refuses it where the policy neither allows
/// actions nor asks for a dry run.
pub fn plan_action<'a>(
    action: &'a ActionCommand,
    policy: &ExecutionContext,
    context: &Context,
) -> (r: Result<ActionPlan<'a>, ArtaError>)
    requires
        context.wf(),
    ensures
        !action_permitted(*policy) ==> r is Err && r->Err_0@ == actions_disabled(),
        action_permitted(*policy) ==> r is Ok && r->Ok_0@ == action_plan(
            action@,
            *policy,
            context@,
        ),
{
    if !policy.allow_actions && !policy.dry_run {
        return Err(
            ArtaError::SecurityError(
                String::from_str(
                    "Actions not enabled. Use --allow-actions flag to enable system modifications",
                ),
            ),
        );
    }
    match action {
        ActionCommand::DeleteFiles(d) => Ok(
            ActionPlan::DeleteFiles {
                path: resolve_argument(d.path.as_str(), context),
                filter: match &d.where_clause {
                    Some(w) => Some(w),
                    None => None,
                },
                dry_run: policy.dry_run,
            },
        ),
        ActionCommand::KillProcess(k) => Ok(
            ActionPlan::KillProcess { criteria: &k.where_clause, dry_run: policy.dry_run },
        ),
    }
}

/// The query that samples all of a resource.
pub fn plan_sample<'a>(target: QueryTarget) -> (r: QueryPlan<'a>)
    ensures
        r@ == sample_plan(target),
{
    QueryPlan { target, fields: None, path: None, filter: None }
}

/// Binds the variable of a `LET`, in place of what the name was bound to.
pub fn execute_let(let_stmt: &LetStatement, context: &mut Context) -> (r: ExecutionResult)
    requires
        old(context).wf(),
    ensures
        final(context).wf(),
        final(context)@ == old(context)@.bind(let_stmt.name@, let_binding(let_stmt.value@)),
        r@ == let_outcome(let_stmt@),
{
    let value = match &let_stmt.value {
        LetValue::String(s) => VariableValue::String(s.clone()),
        LetValue::Number(n) => VariableValue::Number(*n),
        LetValue::Size(s) => VariableValue::Size(*s),
        LetValue::Boolean(b) => VariableValue::Boolean(*b),
        LetValue::Path(p) => VariableValue::Path(p.clone()),
    };
    let shown = value.to_text();
    context.set_variable(let_stmt.name.clone(), value);
    let mut text = String::from_str("Variable '");
    text.append(let_stmt.name.as_str());
    text.append("' set to ");
    text.append(shown.as_str());
    message(text)
}

fn shown_variables(context: &Context) -> (r: Vec<(String, String)>)
    ensures
        pairs_view(r) == Seq::new(
            context@.variables.len(),
            |i: int| (context@.variables[i].0, context@.variables[i].1.text()),
        ),
{
    let variables = context.variables();
    let mut out: Vec<(String, String)> = Vec::new();
    let mut i: usize = 0;
    while i < variables.len()
        invariant
            i <= variables.len(),
            bindings_view(variables@) == context@.variables,
            out.len() == i,
            forall|k: int|
                0 <= k < i ==> (#[trigger] out[k]).0@ == context@.variables[k].0 && out[k].1@
                    == context@.variables[k].1.text(),
        decreases variables.len() - i,
    {
        assert(bindings_view(variables@)[i as int] == (variables[i as int].0@, variables[i as int].1@));
        out.push((variables[i].0.clone(), variables[i].1.to_text()));
        i = i + 1;
    }
    assert(pairs_view(out) =~= Seq::new(
        context@.variables.len(),
        |i: int| (context@.variables[i].0, context@.variables[i].1.text()),
    ));
    out
}

fn shown_history(context: &Context) -> (r: Vec<String>)
    ensures
        texts_view(r) == Seq::new(
            context@.history.len(),
            |i: int| history_text(context@.history[i]),
        ),
{
    let history = context.history();
    let mut out: Vec<String> = Vec::new();
    let mut i: usize = 0;
    while i < history.len()
        invariant
            i <= history.len(),
            history_view(history@) == context@.history,
            out.len() == i,
            forall|k: int| 0 <= k < i ==> (#[trigger] out[k])@ == history_text(context@.history[k]),
        decreases history.len() - i,
    {
        assert(history_view(history@)[i as int] == history[i as int]@);
        let entry = &history[i];
        let clock = match format_clock(entry.timestamp) {
            Some(t) => t,
            None => String::from_str("--:--:--"),
        };
        let path = match &entry.path {
            Some(p) => join3("Some(", quote(p.as_str()).as_str(), ")"),
            None => String::from_str("None"),
        };
        let mut line = clock;
        line.append(": ");
        line.append(entry.action.as_str());
        line.append(" ");
        line.append(path.as_str());
        out.push(line);
        i = i + 1;
    }
    assert(texts_view(out) =~= Seq::new(
        context@.history.len(),
        |i: int| history_text(context@.history[i]),
    ));
    out
}

/// What `SHOW` displays of a session.
pub fn show(target: ShowTarget, context: &Context) -> (r: ExecutionResult)
    requires
        context.wf(),
    ensures
        r@ == (ResultView { data: DataView::ContextInfo(shown(target, context@)), message: None }),
{
    let info = match target {
        ShowTarget::Context => ContextInfo {
            current_folder: String::from_str(context.current_folder()),
            current_file: match context.current_file() {
                Some(f) => Some(String::from_str(f)),
                None => None,
            },
            folder_depth: context.folder_depth(),
            variables: shown_variables(context),
            history: Vec::new(),
        },
        ShowTarget::Variables => ContextInfo {
            current_folder: String::new(),
            current_file: None,
            folder_depth: 0,
            variables: shown_variables(context),
            history: Vec::new(),
        },
        ShowTarget::History => ContextInfo {
            current_folder: String::new(),
            current_file: None,
            folder_depth: 0,
            variables: Vec::new(),
            history: shown_history(context),
        },
    };
    proof {
        assert(info@.history =~= shown(target, context@).history);
        assert(info@.variables =~= shown(target, context@).variables);
        assert(info@.current_folder =~= shown(target, context@).current_folder);
    }
    ExecutionResult { data: ResultData::ContextInfo(info), message: None }
}

fn field_name(var: &str, field: &str) -> (r: String)
    ensures
        r@ == var@ + field@,
{
    join(var, field)
}

/// Binds the loop variable `var` and its fields to a file.
pub fn bind_file(context: &mut Context, var: &str, file: &FileEntry)
    requires
        old(context).wf(),
    ensures
        final(context).wf(),
        final(context)@ == bound_to_file(old(context)@, var@, *file),
{
    context.set_variable(String::from_str(var), VariableValue::Path(file.path.clone()));
    context.set_variable(field_name(var, ".name"), VariableValue::String(file.name.clone()));
    context.set_variable(field_name(var, ".path"), VariableValue::Path(file.path.clone()));
    context.set_variable(field_name(var, ".size"), VariableValue::Size(file.size));
    match &file.extension {
        Some(e) => {
            context.set_variable(field_name(var, ".extension"), VariableValue::String(e.clone()));
        },
        None => {},
    }
    context.set_variable(field_name(var, ".is_dir"), VariableValue::Boolean(file.is_dir));
}

/// Binds the loop variable `var` and its fields to a process.
pub fn bind_process(context: &mut Context, var: &str, process: &ProcessInfo)
    requires
        old(context).wf(),
    ensures
        final(context).wf(),
        final(context)@ == bound_to_process(old(context)@, var@, *process),
{
    context.set_variable(String::from_str(var), VariableValue::String(process.name.clone()));
    context.set_variable(field_name(var, ".name"), VariableValue::String(process.name.clone()));
    context.set_variable(
        field_name(var, ".pid"),
        VariableValue::Number(Number { micros: (process.pid as i128) * 1_000_000 }),
    );
    context.set_variable(field_name(var, ".cpu"), VariableValue::Number(process.cpu));
    context.set_variable(field_name(var, ".memory"), VariableValue::Size(process.memory));
}

} // verus!
