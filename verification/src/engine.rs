//! The interpreter. It decides and never acts: whatever has to be read
//! from or done to the system it asks of its host, one request at a time,
//! and it goes on when the host hands it the answer.

use vstd::prelude::*;
use vstd::string::StringExecFns;
use crate::container::ManagerView;
use crate::context::{PathProbe, ProbeView};
use crate::error::{ArtaError, ErrorView};
use crate::results::{
    message, message_result, results_view, ActionResult, ContainerInfo, ContainerInfoView,
    ContainerResultInfo, ContainerResultView, DataView, ExecutionResult, ResultData, ResultView,
};
use crate::statements::{ActionPlan, ActionPlanView, QueryPlan, QueryPlanView};
use crate::text::{decimal, join3, push_decimal};

verus! {

/// What the interpreter asks of its host.
#[derive(Debug)]
pub enum Request<'a> {
    /// Sample a resource.
    Query(QueryPlan<'a>),
    /// Carry out an action, or preview it under a dry run.
    Action(ActionPlan<'a>),
    /// Say what a path is.
    Probe { path: String },
    /// Write a text to a file.
    Write { path: String, content: String },
    /// Wait for so many seconds, and say whether the user asked to stop.
    Pause { seconds: u64 },
}

/// What the host answers.
#[derive(Debug)]
pub enum Response {
    Sample(Result<ResultData, ArtaError>),
    Action(Result<ActionResult, ArtaError>),
    Probe(PathProbe),
    /// The file was written, or the message of the failure.
    Written(Result<(), String>),
    Resumed { cancelled: bool },
}

/// Where a run stands after a step.
#[derive(Debug)]
pub enum Step<'a> {
    /// There is more to do; nothing is needed.
    Running,
    /// The run waits for the answer to a request.
    Need(Request<'a>),
    /// A statement of the script has run, and this is its outcome.
    Yield(ExecutionResult),
    /// A statement in the body of a `LIFE` block has run. Its outcome is to
    /// be shown; it is no outcome of a statement of the script.
    Fired(ExecutionResult),
    /// Every statement has run.
    Finished,
    /// A statement failed; the statements after it do not run.
    Failed(ArtaError),
}

/// The model of `Request`.
pub ghost enum RequestView {
    Query(QueryPlanView),
    Action(ActionPlanView),
    Probe { path: Seq<char> },
    Write { path: Seq<char>, content: Seq<char> },
    Pause { seconds: u64 },
}

/// The model of `Response`.
pub ghost enum ResponseView {
    Sample(Result<ResultData, ErrorView>),
    Action(Result<ActionResult, ErrorView>),
    Probe(ProbeView),
    Written(Result<(), Seq<char>>),
    Resumed { cancelled: bool },
}

/// The model of `Step`.
pub ghost enum StepView {
    Running,
    Need(RequestView),
    Yield(ResultView),
    Fired(ResultView),
    Finished,
    Failed(ErrorView),
}

impl<'a> Request<'a> {
    pub open spec fn view(&self) -> RequestView {
        match self {
            Request::Query(plan) => RequestView::Query(plan@),
            Request::Action(plan) => RequestView::Action(plan@),
            Request::Probe { path } => RequestView::Probe { path: path@ },
            Request::Write { path, content } => RequestView::Write {
                path: path@,
                content: content@,
            },
            Request::Pause { seconds } => RequestView::Pause { seconds: *seconds },
        }
    }
}

impl Response {
    pub open spec fn view(&self) -> ResponseView {
        match self {
            Response::Sample(Ok(data)) => ResponseView::Sample(Ok(*data)),
            Response::Sample(Err(e)) => ResponseView::Sample(Err(e@)),
            Response::Action(Ok(done)) => ResponseView::Action(Ok(*done)),
            Response::Action(Err(e)) => ResponseView::Action(Err(e@)),
            Response::Probe(probe) => ResponseView::Probe(probe@),
            Response::Written(Ok(())) => ResponseView::Written(Ok(())),
            Response::Written(Err(e)) => ResponseView::Written(Err(e@)),
            Response::Resumed { cancelled } => ResponseView::Resumed { cancelled: *cancelled },
        }
    }
}

impl<'a> Step<'a> {
    pub open spec fn view(&self) -> StepView {
        match self {
            Step::Running => StepView::Running,
            Step::Need(request) => StepView::Need(request@),
            Step::Yield(result) => StepView::Yield(result@),
            Step::Fired(result) => StepView::Fired(result@),
            Step::Finished => StepView::Finished,
            Step::Failed(e) => StepView::Failed(e@),
        }
    }
}

/// What a `FOR` yields: the outcomes of its body, statement by statement
/// and item by item, or a note where there were none.
pub open spec fn for_outcome(results: Seq<ResultView>) -> ResultView {
    if results.len() == 0 {
        message_result("FOR loop completed (no items)"@)
    } else {
        ResultView { data: DataView::Multiple(results), message: Some("FOR loop completed"@) }
    }
}

/// What the branch of an `IF` yields: the outcome of its only statement, or
/// the outcomes of its statements together.
pub open spec fn branch_outcome(results: Seq<ResultView>) -> ResultView {
    if results.len() == 1 {
        results[0]
    } else {
        ResultView { data: DataView::Multiple(results), message: None }
    }
}

/// What an `IF` yields where its condition fails and it has no `ELSE`.
pub open spec fn skipped_outcome() -> ResultView {
    ResultView { data: DataView::Empty, message: Some("IF condition was false"@) }
}

/// The outcome of a container statement.
pub open spec fn container_outcome(
    operation: Seq<char>,
    name: Option<Seq<char>>,
    containers: Option<Seq<ContainerInfoView>>,
    text: Seq<char>,
) -> ResultView {
    ResultView {
        data: DataView::ContainerResult(
            ContainerResultView { operation, container_name: name, containers, message: text },
        ),
        message: None,
    }
}

/// What a `CREATE CONTAINER` yields once its body has run.
pub open spec fn create_outcome(name: Seq<char>, statements: nat) -> ResultView {
    container_outcome(
        "CREATE"@,
        Some(name),
        None,
        "Container '"@ + name + "' created with "@ + decimal(statements)
            + " initialization commands"@,
    )
}

/// What a `SWITCH CONTAINER` yields.
pub open spec fn switch_outcome(name: Seq<char>) -> ResultView {
    container_outcome(
        "SWITCH"@,
        Some(name),
        None,
        "Switched to container '"@ + name + "'"@,
    )
}

/// What a `DESTROY CONTAINER` yields.
pub open spec fn destroy_outcome(name: Seq<char>) -> ResultView {
    container_outcome("DESTROY"@, Some(name), None, "Container '"@ + name + "' destroyed"@)
}

/// What an `EXPORT CONTAINER` yields once the script is written.
pub open spec fn export_outcome(name: Seq<char>, path: Seq<char>) -> ResultView {
    container_outcome(
        "EXPORT"@,
        Some(name),
        None,
        "Container '"@ + name + "' exported to '"@ + path + "'"@,
    )
}

/// The lines of `LIST CONTAINERS`: every container, the active one marked.
pub open spec fn listed(m: ManagerView) -> Seq<ContainerInfoView> {
    Seq::new(m.containers.len(), |i: int| m.line(i))
}

/// What a `LIST CONTAINERS` yields.
pub open spec fn list_outcome(m: ManagerView) -> ResultView {
    container_outcome("LIST"@, None, Some(listed(m)), "Container list"@)
}

/// Builds what a `FOR` yields.
pub fn finish_for(results: Vec<ExecutionResult>) -> (r: ExecutionResult)
    ensures
        r@ == for_outcome(results_view(results)),
{
    if results.len() == 0 {
        message(String::from_str("FOR loop completed (no items)"))
    } else {
        ExecutionResult {
            data: ResultData::Multiple(results),
            message: Some(String::from_str("FOR loop completed")),
        }
    }
}

/// Builds what the branch of an `IF` yields.
pub fn finish_branch(results: Vec<ExecutionResult>) -> (r: ExecutionResult)
    ensures
        r@ == branch_outcome(results_view(results)),
{
    let mut results = results;
    if results.len() == 1 {
        let ghost before = results_view(results);
        let only = results.pop();
        match only {
            Some(r) => {
                assert(before[0] == r@);
                r
            },
            None => ExecutionResult { data: ResultData::Empty, message: None },
        }
    } else {
        ExecutionResult { data: ResultData::Multiple(results), message: None }
    }
}

fn container_result(operation: &str, name: Option<String>, text: String) -> (r: ExecutionResult)
    ensures
        r@ == container_outcome(
            operation@,
            match name {
                Some(n) => Some(n@),
                None => None,
            },
            None,
            text@,
        ),
{
    ExecutionResult {
        data: ResultData::ContainerResult(
            ContainerResultInfo {
                operation: String::from_str(operation),
                container_name: name,
                containers: None,
                message: text,
            },
        ),
        message: None,
    }
}

/// Builds what a `CREATE CONTAINER` yields.
pub fn finish_create(name: &str, statements: usize) -> (r: ExecutionResult)
    ensures
        r@ == create_outcome(name@, statements as nat),
{
    let mut text = String::from_str("Container '");
    text.append(name);
    text.append("' created with ");
    push_decimal(&mut text, statements as u128);
    text.append(" initialization commands");
    container_result("CREATE", Some(String::from_str(name)), text)
}

/// Builds what a `SWITCH CONTAINER` yields.
pub fn finish_switch(name: &str) -> (r: ExecutionResult)
    ensures
        r@ == switch_outcome(name@),
{
    container_result(
        "SWITCH",
        Some(String::from_str(name)),
        join3("Switched to container '", name, "'"),
    )
}

/// Builds what a `DESTROY CONTAINER` yields.
pub fn finish_destroy(name: &str) -> (r: ExecutionResult)
    ensures
        r@ == destroy_outcome(name@),
{
    container_result(
        "DESTROY",
        Some(String::from_str(name)),
        join3("Container '", name, "' destroyed"),
    )
}

/// Builds what an `EXPORT CONTAINER` yields.
pub fn finish_export(name: &str, path: &str) -> (r: ExecutionResult)
    ensures
        r@ == export_outcome(name@, path@),
{
    let mut text = String::from_str("Container '");
    text.append(name);
    text.append("' exported to '");
    text.append(path);
    text.append("'");
    container_result("EXPORT", Some(String::from_str(name)), text)
}

/// Builds what a `LIST CONTAINERS` yields from the lines of the list.
pub fn finish_list(lines: Vec<ContainerInfo>) -> (r: ExecutionResult)
    ensures
        r@ == container_outcome(
            "LIST"@,
            None,
            Some(Seq::new(lines.len() as nat, |i: int| lines[i]@)),
            "Container list"@,
        ),
{
    ExecutionResult {
        data: ResultData::ContainerResult(
            ContainerResultInfo {
                operation: String::from_str("LIST"),
                container_name: None,
                containers: Some(lines),
                message: String::from_str("Container list"),
            },
        ),
        message: None,
    }
}

} // verus!
