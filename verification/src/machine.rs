//! The steps of a run: how the interpreter walks a script, statement by
//! statement and block by block, between the requests that it makes.

use vstd::prelude::*;
use vstd::string::StringExecFns;
use crate::ast::{
    body_view, Command, CommandView, ContainerCommand, ContainerCommandView, ContextCommand,
    ContextCommandView, ExportContainer, ForLoop, ForView, IfStatement, IfView, LifeTarget,
    PrintCommand, PrintExpr, PrintExprView, Script,
};
use crate::bridge::Timestamp;
use crate::container::{
    export_text, find_container, lemma_find_container, lemma_with_context_wf, ContainerManager,
    ManagerView,
};
use crate::context::{Context, ContextView};
use crate::display::target_name;
use crate::engine::{
    branch_outcome, create_outcome, destroy_outcome, export_outcome, finish_branch, finish_create,
    finish_for, for_outcome, list_outcome, listed, skipped_outcome, switch_outcome, Request,
    RequestView, Response, ResponseView, Step, StepView,
};
use crate::error::{ArtaError, ErrorView};
use crate::explain::{execute_explain, explanation, explanation_result};
use crate::fields::{
    condition_holds, evaluate_if_condition, field_text, get_query_field_value, if_supports,
    print_supports, wrong_sample,
};
use crate::life::{
    fires, sample_state, sample_target, sampled_by, should_fire, state_of_sample, MonitorState,
};
use crate::policy::ExecutionContext;
use crate::results::{
    message, message_result, results_view, DataView, ExecutionResult, FileEntry, ProcessInfo,
    ResultData, ResultView,
};
use crate::statements::{
    action_permitted, action_plan, actions_disabled, bind_file, bind_process, bound_to_file,
    bound_to_process, execute_let, interpolated, let_binding, let_outcome, plan_action, plan_query,
    plan_sample, planned_path, query_plan, resolve_variable_in_string, sample_plan, show, shown,
};
use crate::text::{join, join3};

verus! {

/// What a block is the body of.
#[derive(Debug)]
pub enum FrameKind<'a> {
    /// The script itself.
    Script,
    ForFiles { var: &'a str, files: Vec<FileEntry>, index: usize },
    ForProcesses { var: &'a str, processes: Vec<ProcessInfo>, index: usize },
    /// The branch of an `IF` that was taken.
    Branch,
    Create { name: &'a str },
    /// A `LIFE` block, with the sample that came last.
    Life { target: LifeTarget, last: Option<MonitorState> },
}

/// A block that is being run.
#[derive(Debug)]
pub struct Frame<'a> {
    pub kind: FrameKind<'a>,
    pub body: &'a Vec<Command>,
    /// The index of the statement to run next.
    pub next: usize,
    /// The outcomes of the statements that have run.
    pub results: Vec<ExecutionResult>,
    /// The name of the container in whose session the block runs.
    pub container: String,
}

/// What the interpreter waits for.
#[derive(Debug)]
pub enum Waiting<'a> {
    Nothing,
    /// The sample of a query.
    Query,
    Action,
    Enter { folder: bool },
    /// The items of a `FOR`.
    ForSource(&'a ForLoop),
    /// The sample that the condition of an `IF` is decided on.
    IfSample(&'a IfStatement),
    /// The sample that the expression `index` of a `PRINT` reads; `output`
    /// holds what the expressions before it gave.
    PrintSample { command: &'a PrintCommand, index: usize, output: String },
    Export(&'a ExportContainer),
    LifeSample,
    LifePause,
    /// The run is over.
    Ended,
}

/// The model of `FrameKind`.
pub ghost enum FrameKindView {
    Script,
    ForFiles { var: Seq<char>, files: Seq<FileEntry>, index: nat },
    ForProcesses { var: Seq<char>, processes: Seq<ProcessInfo>, index: nat },
    Branch,
    Create { name: Seq<char> },
    Life { target: LifeTarget, last: Option<MonitorState> },
}

/// The model of `Frame`.
pub ghost struct FrameView {
    pub kind: FrameKindView,
    pub body: Seq<CommandView>,
    pub next: nat,
    pub results: Seq<ResultView>,
    pub container: Seq<char>,
}

/// The model of `Waiting`.
pub ghost enum WaitingView {
    Nothing,
    Query,
    Action,
    Enter { folder: bool },
    ForSource(ForView),
    IfSample(IfView),
    PrintSample { command: Seq<PrintExprView>, index: nat, output: Seq<char> },
    Export { name: Seq<char>, path: Seq<char> },
    LifeSample,
    LifePause,
    Ended,
}

/// The model of `Interpreter`.
pub ghost struct MachineView {
    pub policy: ExecutionContext,
    /// The blocks that are being run, the script first.
    pub frames: Seq<FrameView>,
    pub waiting: WaitingView,
}

/// A step: the state of the run and of the registry after it, and what it
/// hands to the host.
pub ghost struct Turn {
    pub machine: MachineView,
    pub registry: ManagerView,
    pub step: StepView,
}

impl<'a> FrameKind<'a> {
    pub open spec fn view(&self) -> FrameKindView {
        match self {
            FrameKind::Script => FrameKindView::Script,
            FrameKind::ForFiles { var, files, index } => FrameKindView::ForFiles {
                var: var@,
                files: files@,
                index: *index as nat,
            },
            FrameKind::ForProcesses { var, processes, index } => FrameKindView::ForProcesses {
                var: var@,
                processes: processes@,
                index: *index as nat,
            },
            FrameKind::Branch => FrameKindView::Branch,
            FrameKind::Create { name } => FrameKindView::Create { name: name@ },
            FrameKind::Life { target, last } => FrameKindView::Life {
                target: *target,
                last: *last,
            },
        }
    }
}

impl<'a> Frame<'a> {
    pub open spec fn view(&self) -> FrameView {
        FrameView {
            kind: self.kind@,
            body: body_view(*self.body),
            next: self.next as nat,
            results: results_view(self.results),
            container: self.container@,
        }
    }
}

impl<'a> Waiting<'a> {
    pub open spec fn view(&self) -> WaitingView {
        match self {
            Waiting::Nothing => WaitingView::Nothing,
            Waiting::Query => WaitingView::Query,
            Waiting::Action => WaitingView::Action,
            Waiting::Enter { folder } => WaitingView::Enter { folder: *folder },
            Waiting::ForSource(f) => WaitingView::ForSource(f@),
            Waiting::IfSample(i) => WaitingView::IfSample(i@),
            Waiting::PrintSample { command, index, output } => WaitingView::PrintSample {
                command: command@,
                index: *index as nat,
                output: output@,
            },
            Waiting::Export(e) => WaitingView::Export { name: e.name@, path: e.path@ },
            Waiting::LifeSample => WaitingView::LifeSample,
            Waiting::LifePause => WaitingView::LifePause,
            Waiting::Ended => WaitingView::Ended,
        }
    }
}

/// The models of a stack of blocks.
pub open spec fn frames_view(frames: Seq<Frame>) -> Seq<FrameView> {
    Seq::new(frames.len(), |i: int| frames[i]@)
}

// ---------------------------------------------------------------------------
// The steps, on the models
// ---------------------------------------------------------------------------

/// The seconds between two samples of a `LIFE` block.
pub const LIFE_INTERVAL_SECS: u64 = 1;

/// The error for a block whose container is gone.
pub open spec fn missing_container(name: Seq<char>) -> ErrorView {
    ErrorView::ExecutionError("Container '"@ + name + "' does not exist"@)
}

/// The error for an answer that fits no request.
pub open spec fn unexpected_answer() -> ErrorView {
    ErrorView::ExecutionError("Unexpected answer from the host"@)
}

/// The session of the container named `name`.
pub open spec fn session_of(m: ManagerView, name: Seq<char>) -> Option<ContextView> {
    match find_container(m.containers, name) {
        Some(i) => Some(m.containers[i].context),
        None => None,
    }
}

/// The run fails: no block is left, and nothing more will run.
pub open spec fn failed(policy: ExecutionContext, m: ManagerView, e: ErrorView) -> Turn {
    Turn {
        machine: MachineView { policy, frames: Seq::empty(), waiting: WaitingView::Ended },
        registry: m,
        step: StepView::Failed(e),
    }
}

/// A statement of the innermost block has yielded `result`. The script
/// hands it to the host as the outcome of its statement, the body of a
/// `LIFE` block as something to show; every other block keeps it for the
/// outcome of its own statement.
pub open spec fn delivered(
    policy: ExecutionContext,
    frames: Seq<FrameView>,
    m: ManagerView,
    result: ResultView,
) -> Turn {
    Turn {
        machine: MachineView {
            policy,
            frames: kept(frames, result),
            waiting: WaitingView::Nothing,
        },
        registry: m,
        step: handed(frames, result),
    }
}

/// The blocks after a statement of the innermost one has yielded `result`.
pub open spec fn kept(frames: Seq<FrameView>, result: ResultView) -> Seq<FrameView> {
    if keeps(frames) {
        frames.drop_last().push(
            FrameView { results: frames.last().results.push(result), ..frames.last() },
        )
    } else {
        frames
    }
}

/// What the host is handed when a statement has yielded `result`.
pub open spec fn handed(frames: Seq<FrameView>, result: ResultView) -> StepView {
    if keeps(frames) {
        StepView::Running
    } else if frames.len() > 0 && frames.last().kind is Life {
        StepView::Fired(result)
    } else {
        StepView::Yield(result)
    }
}

/// Whether the innermost block keeps the outcomes of its statements.
pub open spec fn keeps(frames: Seq<FrameView>) -> bool {
    frames.len() > 0 && !(frames.last().kind is Script) && !(frames.last().kind is Life)
}

/// The run waits for the answer to `request`.
pub open spec fn asked(
    policy: ExecutionContext,
    frames: Seq<FrameView>,
    m: ManagerView,
    waiting: WaitingView,
    request: RequestView,
) -> Turn {
    Turn {
        machine: MachineView { policy, frames, waiting },
        registry: m,
        step: StepView::Need(request),
    }
}

/// A new innermost block begins.
pub open spec fn entered(
    policy: ExecutionContext,
    frames: Seq<FrameView>,
    m: ManagerView,
    frame: FrameView,
) -> Turn {
    Turn {
        machine: MachineView { policy, frames: frames.push(frame), waiting: WaitingView::Nothing },
        registry: m,
        step: StepView::Running,
    }
}

/// The outcome that holds a sample as it came.
pub open spec fn sample_outcome(data: ResultData) -> ResultView {
    (ExecutionResult { data, message: None })@
}

/// What one expression of a `PRINT` gives without a look at the system, or
/// `None` where it reads a sample.
pub open spec fn print_part(expr: PrintExprView, c: ContextView) -> Option<Seq<char>> {
    match expr {
        PrintExprView::String(s) => Some(s),
        PrintExprView::Variable(name) => Some(
            match c.lookup(name) {
                Some(v) => v.text(),
                None => "<undefined: "@ + name + ">"@,
            },
        ),
        PrintExprView::QueryField { .. } => None,
    }
}

/// `output` with the text of expression `index` added: the texts are set
/// apart by single spaces.
pub open spec fn print_joined(output: Seq<char>, index: nat, part: Seq<char>) -> Seq<char> {
    if index == 0 {
        part
    } else {
        output + " "@ + part
    }
}

/// The expressions of a `PRINT` from `index` on, up to the first that reads
/// a sample: the index of that expression, or the number of expressions, and
/// the text so far.
pub open spec fn print_scan(
    exprs: Seq<PrintExprView>,
    index: nat,
    output: Seq<char>,
    c: ContextView,
) -> (nat, Seq<char>)
    decreases exprs.len() - index,
{
    if index >= exprs.len() {
        (index, output)
    } else {
        match print_part(exprs[index as int], c) {
            None => (index, output),
            Some(part) => print_scan(exprs, index + 1, print_joined(output, index, part), c),
        }
    }
}

/// A `PRINT` goes on from expression `index`.
pub open spec fn printed(
    policy: ExecutionContext,
    frames: Seq<FrameView>,
    m: ManagerView,
    exprs: Seq<PrintExprView>,
    index: nat,
    output: Seq<char>,
    c: ContextView,
) -> Turn {
    let (at, text) = print_scan(exprs, index, output, c);
    if at >= exprs.len() {
        delivered(policy, frames, m, message_result(text))
    } else {
        match exprs[at as int] {
            PrintExprView::QueryField { target, field } => if print_supports(target) {
                asked(
                    policy,
                    frames,
                    m,
                    WaitingView::PrintSample { command: exprs, index: at, output: text },
                    RequestView::Query(sample_plan(target)),
                )
            } else {
                failed(
                    policy,
                    m,
                    ErrorView::ExecutionError(
                        "PRINT not supported for "@ + target_name(target) + " queries"@,
                    ),
                )
            },
            _ => failed(policy, m, unexpected_answer()),
        }
    }
}

/// A statement begins in the session `c` of the innermost block.
#[verifier::opaque]
pub open spec fn begun(
    policy: ExecutionContext,
    frames: Seq<FrameView>,
    m: ManagerView,
    cmd: CommandView,
    c: ContextView,
    now: Timestamp,
) -> Turn {
    let name = frames.last().container;
    match cmd {
        CommandView::Query(q) => match planned_path(q, c) {
            Err(e) => failed(policy, m, e),
            Ok(path) => asked(
                policy,
                frames,
                m,
                WaitingView::Query,
                RequestView::Query(query_plan(q, path)),
            ),
        },
        CommandView::Action(a) => if action_permitted(policy) {
            asked(
                policy,
                frames,
                m,
                WaitingView::Action,
                RequestView::Action(action_plan(a, policy, c)),
            )
        } else {
            failed(policy, m, actions_disabled())
        },
        CommandView::Context(ContextCommandView::EnterFolder(p)) => asked(
            policy,
            frames,
            m,
            WaitingView::Enter { folder: true },
            RequestView::Probe { path: c.resolved(interpolated(p, c)) },
        ),
        CommandView::Context(ContextCommandView::EnterFile(p)) => asked(
            policy,
            frames,
            m,
            WaitingView::Enter { folder: false },
            RequestView::Probe { path: c.resolved(interpolated(p, c)) },
        ),
        CommandView::Context(ContextCommandView::Exit) => match c.exit(now) {
            Err(e) => failed(policy, m, e),
            Ok(next) => delivered(
                policy,
                frames,
                m.with_context(name, next),
                message_result("Exited to: "@ + next.current_folder()),
            ),
        },
        CommandView::Context(ContextCommandView::Reset) => delivered(
            policy,
            frames,
            m.with_context(name, c.reset(now)),
            message_result("Context reset to initial state"@),
        ),
        CommandView::Context(ContextCommandView::Show(t)) => delivered(
            policy,
            frames,
            m,
            ResultView { data: DataView::ContextInfo(shown(t, c)), message: None },
        ),
        CommandView::Let(l) => delivered(
            policy,
            frames,
            m.with_context(name, c.bind(l.name, let_binding(l.value))),
            let_outcome(l),
        ),
        CommandView::For(f) => match planned_path(f.source_query, c) {
            Err(e) => failed(policy, m, e),
            Ok(path) => asked(
                policy,
                frames,
                m,
                WaitingView::ForSource(f),
                RequestView::Query(query_plan(f.source_query, path)),
            ),
        },
        CommandView::If(i) => if if_supports(i.condition.target) {
            asked(
                policy,
                frames,
                m,
                WaitingView::IfSample(i),
                RequestView::Query(sample_plan(i.condition.target)),
            )
        } else {
            failed(
                policy,
                m,
                ErrorView::ExecutionError(
                    "IF condition not supported for "@ + target_name(i.condition.target)
                        + " queries yet"@,
                ),
            )
        },
        CommandView::Life(l) => asked(
            policy,
            frames.push(
                FrameView {
                    kind: FrameKindView::Life { target: l.target, last: None },
                    body: l.body,
                    next: l.body.len(),
                    results: Seq::empty(),
                    container: name,
                },
            ),
            m,
            WaitingView::LifeSample,
            RequestView::Query(sample_plan(sampled_by(l.target))),
        ),
        CommandView::Print(p) => printed(policy, frames, m, p, 0, Seq::empty(), c),
        CommandView::Container(ContainerCommandView::Create(create)) => match m.create(
            create.name,
            create.options,
            c.folders[0],
            now,
        ) {
            Err(e) => failed(policy, m, e),
            Ok(next) => entered(
                policy,
                frames,
                next,
                FrameView {
                    kind: FrameKindView::Create { name: create.name },
                    body: create.body,
                    next: 0,
                    results: Seq::empty(),
                    container: create.name,
                },
            ),
        },
        CommandView::Container(ContainerCommandView::Switch(n)) => match m.switch(n) {
            Err(e) => failed(policy, m, e),
            Ok(next) => delivered(policy, frames, next, switch_outcome(n)),
        },
        CommandView::Container(ContainerCommandView::List) => delivered(
            policy,
            frames,
            m,
            list_outcome(m),
        ),
        CommandView::Container(ContainerCommandView::Destroy(n)) => match m.destroy(n) {
            Err(e) => failed(policy, m, e),
            Ok(next) => delivered(policy, frames, next, destroy_outcome(n)),
        },
        CommandView::Container(ContainerCommandView::Export { name: exported, path }) => match find_container(
            m.containers,
            exported,
        ) {
            None => failed(policy, m, missing_container(exported)),
            Some(i) => asked(
                policy,
                frames,
                m,
                WaitingView::Export { name: exported, path },
                RequestView::Write { path, content: export_text(m.containers[i]) },
            ),
        },
        CommandView::Explain(inner) => delivered(
            policy,
            frames,
            m,
            explanation_result(explanation(*inner)),
        ),
    }
}

/// The innermost block has run its statements.
#[verifier::opaque]
pub open spec fn finished(
    policy: ExecutionContext,
    frames: Seq<FrameView>,
    m: ManagerView,
) -> Turn {
    let top = frames.last();
    let below = frames.drop_last();
    match top.kind {
        FrameKindView::Script => Turn {
            machine: MachineView { policy, frames: below, waiting: WaitingView::Ended },
            registry: m,
            step: StepView::Finished,
        },
        FrameKindView::ForFiles { var, files, index } => if index + 1 < files.len() {
            match session_of(m, top.container) {
                None => failed(policy, m, missing_container(top.container)),
                Some(c) => Turn {
                    machine: MachineView {
                        policy,
                        frames: below.push(
                            FrameView {
                                kind: FrameKindView::ForFiles { var, files, index: index + 1 },
                                next: 0,
                                ..top
                            },
                        ),
                        waiting: WaitingView::Nothing,
                    },
                    registry: m.with_context(
                        top.container,
                        bound_to_file(c, var, files[index as int + 1]),
                    ),
                    step: StepView::Running,
                },
            }
        } else {
            delivered(policy, below, m, for_outcome(top.results))
        },
        FrameKindView::ForProcesses { var, processes, index } => if index + 1 < processes.len() {
            match session_of(m, top.container) {
                None => failed(policy, m, missing_container(top.container)),
                Some(c) => Turn {
                    machine: MachineView {
                        policy,
                        frames: below.push(
                            FrameView {
                                kind: FrameKindView::ForProcesses {
                                    var,
                                    processes,
                                    index: index + 1,
                                },
                                next: 0,
                                ..top
                            },
                        ),
                        waiting: WaitingView::Nothing,
                    },
                    registry: m.with_context(
                        top.container,
                        bound_to_process(c, var, processes[index as int + 1]),
                    ),
                    step: StepView::Running,
                },
            }
        } else {
            delivered(policy, below, m, for_outcome(top.results))
        },
        FrameKindView::Branch => delivered(policy, below, m, branch_outcome(top.results)),
        FrameKindView::Create { name } => delivered(
            policy,
            below,
            m,
            create_outcome(name, top.body.len()),
        ),
        FrameKindView::Life { .. } => asked(
            policy,
            frames,
            m,
            WaitingView::LifePause,
            RequestView::Pause { seconds: LIFE_INTERVAL_SECS },
        ),
    }
}

/// The run goes on without an answer: the next statement of the innermost
/// block begins, or the block is done.
#[verifier::opaque]
pub open spec fn advanced(s: MachineView, m: ManagerView, now: Timestamp) -> Turn {
    if s.frames.len() == 0 {
        Turn {
            machine: MachineView { waiting: WaitingView::Ended, ..s },
            registry: m,
            step: StepView::Finished,
        }
    } else {
        let top = s.frames.last();
        if top.next < top.body.len() {
            let frames = s.frames.drop_last().push(FrameView { next: top.next + 1, ..top });
            match session_of(m, top.container) {
                None => failed(s.policy, m, missing_container(top.container)),
                Some(c) => begun(s.policy, frames, m, top.body[top.next as int], c, now),
            }
        } else {
            finished(s.policy, s.frames, m)
        }
    }
}

/// The items of a `FOR` have come.
pub open spec fn for_answered(
    policy: ExecutionContext,
    frames: Seq<FrameView>,
    m: ManagerView,
    f: ForView,
    c: ContextView,
    data: ResultData,
) -> Turn {
    let name = frames.last().container;
    match data {
        ResultData::Files(items) => if items.len() == 0 {
            delivered(policy, frames, m, for_outcome(Seq::empty()))
        } else {
            entered(
                policy,
                frames,
                m.with_context(name, bound_to_file(c, f.iterator_var, items[0])),
                FrameView {
                    kind: FrameKindView::ForFiles { var: f.iterator_var, files: items@, index: 0 },
                    body: f.body,
                    next: 0,
                    results: Seq::empty(),
                    container: name,
                },
            )
        },
        ResultData::Processes(items) => if items.len() == 0 {
            delivered(policy, frames, m, for_outcome(Seq::empty()))
        } else {
            entered(
                policy,
                frames,
                m.with_context(name, bound_to_process(c, f.iterator_var, items[0])),
                FrameView {
                    kind: FrameKindView::ForProcesses {
                        var: f.iterator_var,
                        processes: items@,
                        index: 0,
                    },
                    body: f.body,
                    next: 0,
                    results: Seq::empty(),
                    container: name,
                },
            )
        },
        _ => failed(
            policy,
            m,
            ErrorView::ExecutionError("FOR loop source must be a FILES or PROCESS query"@),
        ),
    }
}

/// The sample for the condition of an `IF` has come.
pub open spec fn if_answered(
    policy: ExecutionContext,
    frames: Seq<FrameView>,
    m: ManagerView,
    i: IfView,
    c: ContextView,
    data: ResultData,
) -> Turn {
    let name = frames.last().container;
    match condition_holds(i.condition, data, c) {
        Err(e) => failed(policy, m, e),
        Ok(holds) => if holds {
            entered(
                policy,
                frames,
                m,
                FrameView {
                    kind: FrameKindView::Branch,
                    body: i.then_body,
                    next: 0,
                    results: Seq::empty(),
                    container: name,
                },
            )
        } else {
            match i.else_body {
                Some(body) => entered(
                    policy,
                    frames,
                    m,
                    FrameView {
                        kind: FrameKindView::Branch,
                        body,
                        next: 0,
                        results: Seq::empty(),
                        container: name,
                    },
                ),
                None => delivered(policy, frames, m, skipped_outcome()),
            }
        },
    }
}

/// The sample of a `LIFE` block has come. The body runs where the sample is
/// the first or differs materially from the one right before it; in either
/// case it becomes the one to compare the next with.
pub open spec fn life_answered(
    policy: ExecutionContext,
    frames: Seq<FrameView>,
    m: ManagerView,
    data: ResultData,
) -> Turn {
    let top = frames.last();
    match top.kind {
        FrameKindView::Life { target, last } => match state_of_sample(target, data) {
            None => failed(policy, m, wrong_sample(sampled_by(target))),
            Some(state) => if should_fire(last, state) {
                Turn {
                    machine: MachineView {
                        policy,
                        frames: frames.drop_last().push(
                            FrameView {
                                kind: FrameKindView::Life { target, last: Some(state) },
                                next: 0,
                                ..top
                            },
                        ),
                        waiting: WaitingView::Nothing,
                    },
                    registry: m,
                    step: StepView::Running,
                }
            } else {
                asked(
                    policy,
                    frames.drop_last().push(
                        FrameView {
                            kind: FrameKindView::Life { target, last: Some(state) },
                            ..top
                        },
                    ),
                    m,
                    WaitingView::LifePause,
                    RequestView::Pause { seconds: LIFE_INTERVAL_SECS },
                )
            },
        },
        _ => failed(policy, m, unexpected_answer()),
    }
}

/// The pause of a `LIFE` block is over.
pub open spec fn life_resumed(
    policy: ExecutionContext,
    frames: Seq<FrameView>,
    m: ManagerView,
    cancelled: bool,
) -> Turn {
    match frames.last().kind {
        FrameKindView::Life { target, .. } => if cancelled {
            delivered(policy, frames.drop_last(), m, message_result("LIFE monitoring completed"@))
        } else {
            asked(
                policy,
                frames,
                m,
                WaitingView::LifeSample,
                RequestView::Query(sample_plan(sampled_by(target))),
            )
        },
        _ => failed(policy, m, unexpected_answer()),
    }
}

/// The answer on the path of an `ENTER` has come.
pub open spec fn enter_answered(
    policy: ExecutionContext,
    frames: Seq<FrameView>,
    m: ManagerView,
    c: ContextView,
    folder: bool,
    probe: crate::context::ProbeView,
    now: Timestamp,
) -> Turn {
    let name = frames.last().container;
    if folder {
        match c.enter_folder(probe, now) {
            Err(e) => failed(policy, m, e),
            Ok(next) => delivered(
                policy,
                frames,
                m.with_context(name, next),
                message_result("Entered folder: "@ + next.current_folder()),
            ),
        }
    } else {
        match c.enter_file(probe, now) {
            Err(e) => failed(policy, m, e),
            Ok(next) => delivered(
                policy,
                frames,
                m.with_context(name, next),
                message_result("Entered file: "@ + next.file->Some_0),
            ),
        }
    }
}

/// The sample that an expression of a `PRINT` reads has come.
pub open spec fn print_answered(
    policy: ExecutionContext,
    frames: Seq<FrameView>,
    m: ManagerView,
    command: Seq<PrintExprView>,
    index: nat,
    output: Seq<char>,
    c: ContextView,
    data: ResultData,
) -> Turn {
    if index < command.len() {
        match command[index as int] {
            PrintExprView::QueryField { target, field } => match field_text(target, field, data) {
                Err(e) => failed(policy, m, e),
                Ok(part) => printed(
                    policy,
                    frames,
                    m,
                    command,
                    index + 1,
                    print_joined(output, index, part),
                    c,
                ),
            },
            _ => failed(policy, m, unexpected_answer()),
        }
    } else {
        failed(policy, m, unexpected_answer())
    }
}

/// The sample that the run waits for has come.
pub open spec fn sampled(
    s: MachineView,
    m: ManagerView,
    c: ContextView,
    data: ResultData,
) -> Turn {
    match s.waiting {
        WaitingView::Query => delivered(s.policy, s.frames, m, sample_outcome(data)),
        WaitingView::ForSource(f) => for_answered(s.policy, s.frames, m, f, c, data),
        WaitingView::IfSample(i) => if_answered(s.policy, s.frames, m, i, c, data),
        WaitingView::PrintSample { command, index, output } => print_answered(
            s.policy,
            s.frames,
            m,
            command,
            index,
            output,
            c,
            data,
        ),
        WaitingView::LifeSample => life_answered(s.policy, s.frames, m, data),
        _ => failed(s.policy, m, unexpected_answer()),
    }
}

/// The run goes on with the answer to its request. A failure of the host
/// fails the run; an answer that fits no request does so too.
#[verifier::opaque]
pub open spec fn answered(s: MachineView, m: ManagerView, response: ResponseView, now: Timestamp) -> Turn {
    let policy = s.policy;
    if s.frames.len() == 0 {
        failed(policy, m, unexpected_answer())
    } else {
        let name = s.frames.last().container;
        match session_of(m, name) {
            None => failed(policy, m, missing_container(name)),
            Some(c) => match response {
                ResponseView::Sample(Err(e)) => failed(policy, m, e),
                ResponseView::Action(Err(e)) => failed(policy, m, e),
                ResponseView::Sample(Ok(data)) => sampled(s, m, c, data),
                ResponseView::Action(Ok(done)) => if s.waiting is Action {
                    delivered(
                        policy,
                        s.frames,
                        m,
                        ResultView { data: DataView::ActionResult(done@), message: None },
                    )
                } else {
                    failed(policy, m, unexpected_answer())
                },
                ResponseView::Probe(probe) => match s.waiting {
                    WaitingView::Enter { folder } => enter_answered(
                        policy,
                        s.frames,
                        m,
                        c,
                        folder,
                        probe,
                        now,
                    ),
                    _ => failed(policy, m, unexpected_answer()),
                },
                ResponseView::Written(written) => match s.waiting {
                    WaitingView::Export { name: exported, path } => match written {
                        Ok(_) => delivered(policy, s.frames, m, export_outcome(exported, path)),
                        Err(e) => failed(policy, m, ErrorView::IoError(e)),
                    },
                    _ => failed(policy, m, unexpected_answer()),
                },
                ResponseView::Resumed { cancelled } => match s.waiting {
                    WaitingView::LifePause => life_resumed(policy, s.frames, m, cancelled),
                    _ => failed(policy, m, unexpected_answer()),
                },
            },
        }
    }
}

/// One step of a run. A run that waits goes on with the answer to its
/// request, any other without one; a run that is over stays over.
pub open spec fn stepped(
    s: MachineView,
    m: ManagerView,
    response: Option<ResponseView>,
    now: Timestamp,
) -> Turn {
    match (s.waiting, response) {
        (WaitingView::Ended, _) => Turn { machine: s, registry: m, step: StepView::Finished },
        (WaitingView::Nothing, None) => advanced(s, m, now),
        (WaitingView::Nothing, Some(_)) => failed(s.policy, m, unexpected_answer()),
        (_, None) => failed(s.policy, m, unexpected_answer()),
        (_, Some(r)) => answered(s, m, r, now),
    }
}

/// The run of a script before its first step, in the container named
/// `container`.
pub open spec fn started(policy: ExecutionContext, script: Seq<CommandView>, container: Seq<char>) -> MachineView {
    MachineView {
        policy,
        frames: seq![
            FrameView {
                kind: FrameKindView::Script,
                body: script,
                next: 0,
                results: Seq::empty(),
                container,
            },
        ],
        waiting: WaitingView::Nothing,
    }
}

// ---------------------------------------------------------------------------
// The interpreter
// ---------------------------------------------------------------------------

/// The run of one script.
#[derive(Debug)]
pub struct Interpreter<'a> {
    policy: ExecutionContext,
    frames: Vec<Frame<'a>>,
    waiting: Waiting<'a>,
}

/// Whether a run, a registry and what was handed to the host are those of a
/// turn.
pub open spec fn reaches(machine: MachineView, registry: ManagerView, step: StepView, turn: Turn) -> bool {
    machine.policy == turn.machine.policy && machine.frames =~= turn.machine.frames
        && machine.waiting == turn.machine.waiting && registry == turn.registry && step
        == turn.step
}

fn missing<'a>(name: &str) -> (r: ArtaError)
    ensures
        r@ == missing_container(name@),
{
    ArtaError::ExecutionError(join3("Container '", name, "' does not exist"))
}

fn unexpected() -> (r: ArtaError)
    ensures
        r@ == unexpected_answer(),
{
    ArtaError::ExecutionError(String::from_str("Unexpected answer from the host"))
}

impl<'a> Interpreter<'a> {
    pub closed spec fn view(&self) -> MachineView {
        MachineView {
            policy: self.policy,
            frames: frames_view(self.frames@),
            waiting: self.waiting@,
        }
    }

    /// The run of `script` under `policy`, in the container named
    /// `container`, before its first step.
    pub fn new(script: &'a Script, policy: ExecutionContext, container: &str) -> (r: Self)
        ensures
            r@ == started(policy, script@, container@),
    {
        let mut frames: Vec<Frame<'a>> = Vec::new();
        let results: Vec<ExecutionResult> = Vec::new();
        assert(results_view(results) =~= Seq::empty());
        frames.push(
            Frame {
                kind: FrameKind::Script,
                body: &script.statements,
                next: 0,
                results,
                container: String::from_str(container),
            },
        );
        let r = Interpreter { policy, frames, waiting: Waiting::Nothing };
        assert(r@.frames =~= started(policy, script@, container@).frames);
        r
    }

    /// Whether the run is over.
    pub fn is_over(&self) -> (r: bool)
        ensures
            r == (self@.waiting is Ended),
    {
        match self.waiting {
            Waiting::Ended => true,
            _ => false,
        }
    }

    fn fail(&mut self, e: ArtaError) -> (r: Step<'a>)
        ensures
            final(self)@.policy == old(self)@.policy,
            final(self)@.frames =~= Seq::empty(),
            final(self)@.waiting == WaitingView::Ended,
            r@ == StepView::Failed(e@),
    {
        self.frames = Vec::new();
        self.waiting = Waiting::Ended;
        Step::Failed(e)
    }

    fn ask(&mut self, waiting: Waiting<'a>, request: Request<'a>) -> (r: Step<'a>)
        ensures
            final(self)@.policy == old(self)@.policy,
            final(self)@.frames == old(self)@.frames,
            final(self)@.waiting == waiting@,
            r@ == StepView::Need(request@),
    {
        self.waiting = waiting;
        Step::Need(request)
    }

    fn deliver(&mut self, result: ExecutionResult) -> (r: Step<'a>)
        ensures
            final(self)@.policy == old(self)@.policy,
            final(self)@.frames =~= kept(old(self)@.frames, result@),
            final(self)@.waiting == WaitingView::Nothing,
            r@ == handed(old(self)@.frames, result@),
    {
        self.waiting = Waiting::Nothing;
        let n = self.frames.len();
        let holds = n > 0 && match &self.frames[n - 1].kind {
            FrameKind::Script => false,
            FrameKind::Life { .. } => false,
            _ => true,
        };
        let in_life = n > 0 && match &self.frames[n - 1].kind {
            FrameKind::Life { .. } => true,
            _ => false,
        };
        assert(holds == keeps(old(self)@.frames));
        assert(in_life == (old(self)@.frames.len() > 0 && old(self)@.frames.last().kind is Life));
        if holds {
            let ghost before = frames_view(self.frames@);
            let popped = self.frames.pop();
            match popped {
                Some(top) => {
                    let mut top = top;
                    let ghost old_top = top@;
                    assert(old_top == before.last());
                    top.results.push(result);
                    assert(results_view(top.results) =~= old_top.results.push(result@));
                    self.frames.push(top);
                    assert(frames_view(self.frames@) =~= before.drop_last().push(
                        FrameView { results: old_top.results.push(result@), ..old_top },
                    ));
                    Step::Running
                },
                None => Step::Running,
            }
        } else if in_life {
            Step::Fired(result)
        } else {
            Step::Yield(result)
        }
    }

    fn enter(&mut self, frame: Frame<'a>) -> (r: Step<'a>)
        ensures
            final(self)@.policy == old(self)@.policy,
            final(self)@.frames =~= old(self)@.frames.push(frame@),
            final(self)@.waiting == WaitingView::Nothing,
            r@ == StepView::Running,
    {
        self.waiting = Waiting::Nothing;
        self.frames.push(frame);
        Step::Running
    }

    /// The name of the container of the innermost block.
    fn scope(&self) -> (r: String)
        requires
            self@.frames.len() > 0,
        ensures
            r@ == self@.frames.last().container,
    {
        self.frames[self.frames.len() - 1].container.clone()
    }

    /// Whether the run can take a step in `registry`: its innermost block
    /// runs in a container that exists.
    pub open spec fn grounded(&self, registry: &ContainerManager) -> bool {
        registry.wf() && self@.frames.len() > 0 && session_of(
            registry@,
            self@.frames.last().container,
        ) is Some
    }

    /// The session of the container of the innermost block.
    pub open spec fn session(&self, registry: &ContainerManager) -> ContextView {
        session_of(registry@, self@.frames.last().container)->Some_0
    }

    fn begin_query(
        &mut self,
        registry: &ContainerManager,
        query: &'a crate::ast::QueryCommand,
        waiting: Waiting<'a>,
    ) -> (r: Step<'a>)
        requires
            old(self).grounded(registry),
        ensures
            reaches(
                final(self)@,
                registry@,
                r@,
                match planned_path(query@, old(self).session(registry)) {
                    Err(e) => failed(old(self)@.policy, registry@, e),
                    Ok(path) => asked(
                        old(self)@.policy,
                        old(self)@.frames,
                        registry@,
                        waiting@,
                        RequestView::Query(query_plan(query@, path)),
                    ),
                },
            ),
    {
        let name = self.scope();
        proof {
            lemma_find_container(registry@.containers, name@);
        }
        match registry.get(name.as_str()) {
            None => self.fail(missing(name.as_str())),
            Some(container) => match plan_query(query, &container.context) {
                Err(e) => self.fail(e),
                Ok(plan) => self.ask(waiting, Request::Query(plan)),
            },
        }
    }

    fn begin_action(&mut self, registry: &ContainerManager, action: &'a crate::ast::ActionCommand) -> (r:
        Step<'a>)
        requires
            old(self).grounded(registry),
        ensures
            reaches(
                final(self)@,
                registry@,
                r@,
                if action_permitted(old(self)@.policy) {
                    asked(
                        old(self)@.policy,
                        old(self)@.frames,
                        registry@,
                        WaitingView::Action,
                        RequestView::Action(
                            action_plan(action@, old(self)@.policy, old(self).session(registry)),
                        ),
                    )
                } else {
                    failed(old(self)@.policy, registry@, actions_disabled())
                },
            ),
    {
        let name = self.scope();
        proof {
            lemma_find_container(registry@.containers, name@);
        }
        match registry.get(name.as_str()) {
            None => self.fail(missing(name.as_str())),
            Some(container) => {
                let policy = self.policy;
                match plan_action(action, &policy, &container.context) {
                    Err(e) => self.fail(e),
                    Ok(plan) => self.ask(Waiting::Action, Request::Action(plan)),
                }
            },
        }
    }

    fn begin_enter(&mut self, registry: &ContainerManager, path: &str, folder: bool) -> (r: Step<'a>)
        requires
            old(self).grounded(registry),
        ensures
            reaches(
                final(self)@,
                registry@,
                r@,
                asked(
                    old(self)@.policy,
                    old(self)@.frames,
                    registry@,
                    WaitingView::Enter { folder },
                    RequestView::Probe {
                        path: old(self).session(registry).resolved(
                            interpolated(path@, old(self).session(registry)),
                        ),
                    },
                ),
            ),
    {
        let name = self.scope();
        proof {
            lemma_find_container(registry@.containers, name@);
        }
        match registry.get(name.as_str()) {
            None => self.fail(missing(name.as_str())),
            Some(container) => {
                let named = resolve_variable_in_string(path, &container.context);
                let resolved = match container.context.resolve_path(named.as_str()) {
                    Ok(p) => p,
                    Err(_) => named,
                };
                self.ask(Waiting::Enter { folder }, Request::Probe { path: resolved })
            },
        }
    }

    fn begin_show(&mut self, registry: &ContainerManager, target: crate::ast::ShowTarget) -> (r:
        Step<'a>)
        requires
            old(self).grounded(registry),
        ensures
            reaches(
                final(self)@,
                registry@,
                r@,
                delivered(
                    old(self)@.policy,
                    old(self)@.frames,
                    registry@,
                    ResultView {
                        data: DataView::ContextInfo(shown(target, old(self).session(registry))),
                        message: None,
                    },
                ),
            ),
    {
        let name = self.scope();
        proof {
            lemma_find_container(registry@.containers, name@);
        }
        match registry.get(name.as_str()) {
            None => self.fail(missing(name.as_str())),
            Some(container) => {
                let result = show(target, &container.context);
                self.deliver(result)
            },
        }
    }

    fn begin_exit(&mut self, registry: &mut ContainerManager, now: Timestamp) -> (r: Step<'a>)
        requires
            old(self).grounded(old(registry)),
        ensures
            final(registry).wf(),
            reaches(
                final(self)@,
                final(registry)@,
                r@,
                begun(
                    old(self)@.policy,
                    old(self)@.frames,
                    old(registry)@,
                    CommandView::Context(ContextCommandView::Exit),
                    old(self).session(old(registry)),
                    now,
                ),
            ),
    {
        proof {
            reveal(begun);
        }
        let name = self.scope();
        proof {
            lemma_find_container(registry@.containers, name@);
        }
        let outcome = match registry.get_mut(name.as_str()) {
            None => Err(missing(name.as_str())),
            Some(context) => match context.exit_context(now) {
                Err(e) => Err(e),
                Ok(()) => Ok(message(join("Exited to: ", context.current_folder()))),
            },
        };
        proof {
            let c = old(self).session(old(registry));
            match c.exit(now) {
                Ok(next) => {
                    lemma_with_context_wf(old(registry)@, name@, next);
                },
                Err(_) => {
                    lemma_with_context_wf(old(registry)@, name@, c);
                    assert(old(registry)@.with_context(name@, c).containers =~= old(
                        registry,
                    )@.containers);
                },
            }
        }
        match outcome {
            Err(e) => self.fail(e),
            Ok(result) => self.deliver(result),
        }
    }

    fn begin_reset(&mut self, registry: &mut ContainerManager, now: Timestamp) -> (r: Step<'a>)
        requires
            old(self).grounded(old(registry)),
        ensures
            final(registry).wf(),
            reaches(
                final(self)@,
                final(registry)@,
                r@,
                begun(
                    old(self)@.policy,
                    old(self)@.frames,
                    old(registry)@,
                    CommandView::Context(ContextCommandView::Reset),
                    old(self).session(old(registry)),
                    now,
                ),
            ),
    {
        proof {
            reveal(begun);
        }
        let name = self.scope();
        proof {
            lemma_find_container(registry@.containers, name@);
        }
        match registry.get_mut(name.as_str()) {
            None => {},
            Some(context) => {
                context.reset(now);
            },
        }
        proof {
            let c = old(self).session(old(registry));
            lemma_with_context_wf(old(registry)@, name@, c.reset(now));
        }
        self.deliver(message(String::from_str("Context reset to initial state")))
    }

    fn begin_let(&mut self, registry: &mut ContainerManager, statement: &'a crate::ast::LetStatement) -> (r:
        Step<'a>)
        requires
            old(self).grounded(old(registry)),
        ensures
            final(registry).wf(),
            reaches(
                final(self)@,
                final(registry)@,
                r@,
                delivered(
                    old(self)@.policy,
                    old(self)@.frames,
                    old(registry)@.with_context(
                        old(self)@.frames.last().container,
                        old(self).session(old(registry)).bind(
                            statement.name@,
                            let_binding(statement.value@),
                        ),
                    ),
                    let_outcome(statement@),
                ),
            ),
    {
        let name = self.scope();
        proof {
            lemma_find_container(registry@.containers, name@);
        }
        let outcome = match registry.get_mut(name.as_str()) {
            None => Err(missing(name.as_str())),
            Some(context) => Ok(execute_let(statement, context)),
        };
        proof {
            let c = old(self).session(old(registry));
            lemma_with_context_wf(
                old(registry)@,
                name@,
                c.bind(statement.name@, let_binding(statement.value@)),
            );
        }
        match outcome {
            Err(e) => self.fail(e),
            Ok(result) => self.deliver(result),
        }
    }

    fn begin_if(&mut self, statement: &'a IfStatement) -> (r: Step<'a>)
        ensures
            final(self)@.policy == old(self)@.policy,
            if_supports(statement.condition.target) ==> final(self)@.frames == old(self)@.frames
                && final(self)@.waiting == WaitingView::IfSample(statement@) && r@
                == StepView::Need(RequestView::Query(sample_plan(statement.condition.target))),
            !if_supports(statement.condition.target) ==> final(self)@.frames =~= Seq::empty()
                && final(self)@.waiting == WaitingView::Ended && r@ == StepView::Failed(
                ErrorView::ExecutionError(
                    "IF condition not supported for "@ + target_name(statement.condition.target)
                        + " queries yet"@,
                ),
            ),
    {
        let target = statement.condition.target;
        let supported = match target {
            crate::ast::QueryTarget::Memory => true,
            crate::ast::QueryTarget::Cpu => true,
            crate::ast::QueryTarget::Disk => true,
            crate::ast::QueryTarget::Battery => true,
            _ => false,
        };
        if supported {
            self.ask(Waiting::IfSample(statement), Request::Query(plan_sample(target)))
        } else {
            let mut text = String::from_str("IF condition not supported for ");
            text.append(target.to_text());
            text.append(" queries yet");
            self.fail(ArtaError::ExecutionError(text))
        }
    }

    fn begin_life(&mut self, life: &'a crate::ast::LifeMonitor) -> (r: Step<'a>)
        requires
            old(self)@.frames.len() > 0,
        ensures
            final(self)@.policy == old(self)@.policy,
            final(self)@.frames =~= old(self)@.frames.push(
                FrameView {
                    kind: FrameKindView::Life { target: life.target, last: None },
                    body: body_view(life.body),
                    next: life.body.len() as nat,
                    results: Seq::empty(),
                    container: old(self)@.frames.last().container,
                },
            ),
            final(self)@.waiting == WaitingView::LifeSample,
            r@ == StepView::Need(RequestView::Query(sample_plan(sampled_by(life.target)))),
    {
        let name = self.scope();
        let results: Vec<ExecutionResult> = Vec::new();
        assert(results_view(results) =~= Seq::empty());
        self.frames.push(
            Frame {
                kind: FrameKind::Life { target: life.target, last: None },
                body: &life.body,
                next: life.body.len(),
                results,
                container: name,
            },
        );
        self.ask(Waiting::LifeSample, Request::Query(plan_sample(sample_target(life.target))))
    }

    /// Goes on with a `PRINT` from expression `index`.
    fn print_from(
        &mut self,
        registry: &ContainerManager,
        command: &'a PrintCommand,
        index: usize,
        output: String,
    ) -> (r: Step<'a>)
        requires
            old(self).grounded(registry),
            index <= command.expressions.len(),
        ensures
            reaches(
                final(self)@,
                registry@,
                r@,
                printed(
                    old(self)@.policy,
                    old(self)@.frames,
                    registry@,
                    command@,
                    index as nat,
                    output@,
                    old(self).session(registry),
                ),
            ),
    {
        let name = self.scope();
        proof {
            lemma_find_container(registry@.containers, name@);
        }
        let container = match registry.get(name.as_str()) {
            None => {
                return self.fail(missing(name.as_str()));
            },
            Some(container) => container,
        };
        let ghost c = old(self).session(registry);
        let mut at: usize = index;
        let mut text = output;
        let mut reads = false;
        while at < command.expressions.len() && !reads
            invariant
                index <= at <= command.expressions.len(),
                container.context@ == c,
                reads ==> at < command.expressions.len() && print_part(command@[at as int], c)
                    is None,
                print_scan(command@, index as nat, output@, c) == print_scan(
                    command@,
                    at as nat,
                    text@,
                    c,
                ),
            decreases command.expressions.len() - at, if reads { 0int } else { 1int },
        {
            assert(command@[at as int] == command.expressions[at as int]@);
            let part = match &command.expressions[at] {
                PrintExpr::String(s) => Some(s.clone()),
                PrintExpr::Variable(variable) => match container.context.get_variable(
                    variable.as_str(),
                ) {
                    Some(v) => Some(v.to_text()),
                    None => Some(join3("<undefined: ", variable.as_str(), ">")),
                },
                PrintExpr::QueryField { .. } => None,
            };
            match part {
                Some(part) => {
                    let ghost before = text@;
                    if at > 0 {
                        text.append(" ");
                        text.append(part.as_str());
                    } else {
                        text = part;
                    }
                    assert(text@ == print_joined(before, at as nat, part@));
                    assert(print_scan(command@, at as nat, before, c) == print_scan(
                        command@,
                        (at + 1) as nat,
                        text@,
                        c,
                    ));
                    at = at + 1;
                },
                None => {
                    reads = true;
                },
            }
        }
        assert(print_scan(command@, at as nat, text@, c) == (at as nat, text@));
        if at >= command.expressions.len() {
            self.deliver(message(text))
        } else {
            assert(command@[at as int] == command.expressions[at as int]@);
            match &command.expressions[at] {
                PrintExpr::QueryField { target, field } => {
                    let supported = match target {
                        crate::ast::QueryTarget::Process => false,
                        crate::ast::QueryTarget::Files => false,
                        crate::ast::QueryTarget::Content => false,
                        _ => true,
                    };
                    if supported {
                        self.ask(
                            Waiting::PrintSample { command, index: at, output: text },
                            Request::Query(plan_sample(*target)),
                        )
                    } else {
                        let mut why = String::from_str("PRINT not supported for ");
                        why.append(target.to_text());
                        why.append(" queries");
                        self.fail(ArtaError::ExecutionError(why))
                    }
                },
                _ => self.fail(unexpected()),
            }
        }
    }

    fn begin_create(
        &mut self,
        registry: &mut ContainerManager,
        create: &'a crate::ast::CreateContainer,
        now: Timestamp,
    ) -> (r: Step<'a>)
        requires
            old(self).grounded(old(registry)),
        ensures
            final(registry).wf(),
            reaches(
                final(self)@,
                final(registry)@,
                r@,
                begun(
                    old(self)@.policy,
                    old(self)@.frames,
                    old(registry)@,
                    CommandView::Container(ContainerCommandView::Create(create@)),
                    old(self).session(old(registry)),
                    now,
                ),
            ),
    {
        proof {
            reveal(begun);
        }
        let name = self.scope();
        proof {
            lemma_find_container(registry@.containers, name@);
        }
        let start = match registry.get(name.as_str()) {
            None => {
                return self.fail(missing(name.as_str()));
            },
            Some(container) => String::from_str(container.context.start_folder()),
        };
        match registry.create(create.name.as_str(), create.options, start, now) {
            Err(e) => self.fail(e),
            Ok(()) => {
                let results: Vec<ExecutionResult> = Vec::new();
                assert(results_view(results) =~= Seq::empty());
                self.enter(
                    Frame {
                        kind: FrameKind::Create { name: create.name.as_str() },
                        body: &create.body,
                        next: 0,
                        results,
                        container: create.name.clone(),
                    },
                )
            },
        }
    }

    fn begin_container(
        &mut self,
        registry: &mut ContainerManager,
        command: &'a ContainerCommand,
        now: Timestamp,
    ) -> (r: Step<'a>)
        requires
            old(self).grounded(old(registry)),
        ensures
            final(registry).wf(),
            reaches(
                final(self)@,
                final(registry)@,
                r@,
                begun(
                    old(self)@.policy,
                    old(self)@.frames,
                    old(registry)@,
                    CommandView::Container(command@),
                    old(self).session(old(registry)),
                    now,
                ),
            ),
    {
        proof {
            reveal(begun);
        }
        match command {
            ContainerCommand::Create(create) => self.begin_create(registry, create, now),
            ContainerCommand::Switch(name) => match registry.switch(name.as_str()) {
                Err(e) => self.fail(e),
                Ok(()) => {
                    let result = crate::engine::finish_switch(name.as_str());
                    self.deliver(result)
                },
            },
            ContainerCommand::List => {
                let result = crate::engine::finish_list(registry.describe());
                assert(result@ == list_outcome(registry@)) by {
                    assert(result@.data->ContainerResult_0.containers->Some_0 =~= listed(
                        registry@,
                    ));
                }
                self.deliver(result)
            },
            ContainerCommand::Destroy(name) => match registry.destroy(name.as_str()) {
                Err(e) => self.fail(e),
                Ok(()) => {
                    let result = crate::engine::finish_destroy(name.as_str());
                    self.deliver(result)
                },
            },
            ContainerCommand::Export(export) => {
                proof {
                    lemma_find_container(registry@.containers, export.name@);
                }
                match registry.export(export.name.as_str()) {
                    Err(e) => self.fail(e),
                    Ok(content) => self.ask(
                        Waiting::Export(export),
                        Request::Write { path: export.path.clone(), content },
                    ),
                }
            },
        }
    }

    fn begin_simple(
        &mut self,
        registry: &mut ContainerManager,
        cmd: &'a Command,
        now: Timestamp,
    ) -> (r: Step<'a>)
        requires
            old(self).grounded(old(registry)),
            cmd is Query || cmd is Action || cmd is Let || cmd is For || cmd is If || cmd is Life
                || cmd is Print || cmd is Explain,
        ensures
            final(registry).wf(),
            reaches(
                final(self)@,
                final(registry)@,
                r@,
                begun(
                    old(self)@.policy,
                    old(self)@.frames,
                    old(registry)@,
                    cmd@,
                    old(self).session(old(registry)),
                    now,
                ),
            ),
    {
        proof {
            reveal(begun);
        }
        match cmd {
            Command::Query(q) => self.begin_query(registry, q, Waiting::Query),
            Command::Action(a) => self.begin_action(registry, a),
            Command::Let(l) => self.begin_let(registry, l),
            Command::For(f) => self.begin_query(registry, &f.source_query, Waiting::ForSource(f)),
            Command::If(i) => self.begin_if(i),
            Command::Life(l) => self.begin_life(l),
            Command::Print(p) => {
                let empty = String::new();
                self.print_from(registry, p, 0, empty)
            },
            Command::Explain(inner) => {
                let result = execute_explain(inner);
                self.deliver(result)
            },
            _ => self.fail(unexpected()),
        }
    }

    fn begin_context(
        &mut self,
        registry: &mut ContainerManager,
        command: &'a ContextCommand,
        now: Timestamp,
    ) -> (r: Step<'a>)
        requires
            old(self).grounded(old(registry)),
        ensures
            final(registry).wf(),
            reaches(
                final(self)@,
                final(registry)@,
                r@,
                begun(
                    old(self)@.policy,
                    old(self)@.frames,
                    old(registry)@,
                    CommandView::Context(command@),
                    old(self).session(old(registry)),
                    now,
                ),
            ),
    {
        match command {
            ContextCommand::EnterFolder(p) => {
                proof {
                    reveal(begun);
                }
                self.begin_enter(registry, p.as_str(), true)
            },
            ContextCommand::EnterFile(p) => {
                proof {
                    reveal(begun);
                }
                self.begin_enter(registry, p.as_str(), false)
            },
            ContextCommand::Exit => self.begin_exit(registry, now),
            ContextCommand::Reset => self.begin_reset(registry, now),
            ContextCommand::Show(t) => {
                proof {
                    reveal(begun);
                }
                self.begin_show(registry, *t)
            },
        }
    }

    fn begin(&mut self, registry: &mut ContainerManager, cmd: &'a Command, now: Timestamp) -> (r:
        Step<'a>)
        requires
            old(self).grounded(old(registry)),
        ensures
            final(registry).wf(),
            reaches(
                final(self)@,
                final(registry)@,
                r@,
                begun(
                    old(self)@.policy,
                    old(self)@.frames,
                    old(registry)@,
                    cmd@,
                    old(self).session(old(registry)),
                    now,
                ),
            ),
    {
        match cmd {
            Command::Context(c) => self.begin_context(registry, c, now),
            Command::Container(c) => self.begin_container(registry, c, now),
            _ => self.begin_simple(registry, cmd, now),
        }
    }

    /// Binds the next item of a `FOR` over files and runs the body again.
    fn next_file(
        &mut self,
        registry: &mut ContainerManager,
        top: Frame<'a>,
        now: Timestamp,
    ) -> (r: Step<'a>)
        requires
            old(registry).wf(),
            top.kind matches FrameKind::ForFiles { files, index, .. } && index + 1 < files.len(),
        ensures
            final(registry).wf(),
            reaches(
                final(self)@,
                final(registry)@,
                r@,
                finished(old(self)@.policy, old(self)@.frames.push(top@), old(registry)@),
            ),
    {
        proof {
            reveal(finished);
        }
        let ghost below = self@.frames;
        assert(below.push(top@).drop_last() =~= below);
        let Frame { kind, body, next: _, results, container } = top;
        match kind {
            FrameKind::ForFiles { var, files, index } => {
                proof {
                    lemma_find_container(registry@.containers, container@);
                }
                let bound = match registry.get_mut(container.as_str()) {
                    None => false,
                    Some(context) => {
                        bind_file(context, var, &files[index + 1]);
                        true
                    },
                };
                if !bound {
                    return self.fail(missing(container.as_str()));
                }
                proof {
                    let c = session_of(old(registry)@, container@)->Some_0;
                    lemma_with_context_wf(
                        old(registry)@,
                        container@,
                        bound_to_file(c, var@, files@[index + 1]),
                    );
                }
                self.enter(
                    Frame {
                        kind: FrameKind::ForFiles { var, files, index: index + 1 },
                        body,
                        next: 0,
                        results,
                        container,
                    },
                )
            },
            _ => self.fail(unexpected()),
        }
    }

    /// Binds the next item of a `FOR` over processes and runs the body
    /// again.
    fn next_process(
        &mut self,
        registry: &mut ContainerManager,
        top: Frame<'a>,
        now: Timestamp,
    ) -> (r: Step<'a>)
        requires
            old(registry).wf(),
            top.kind matches FrameKind::ForProcesses { processes, index, .. } && index + 1
                < processes.len(),
        ensures
            final(registry).wf(),
            reaches(
                final(self)@,
                final(registry)@,
                r@,
                finished(old(self)@.policy, old(self)@.frames.push(top@), old(registry)@),
            ),
    {
        proof {
            reveal(finished);
        }
        let ghost below = self@.frames;
        assert(below.push(top@).drop_last() =~= below);
        let Frame { kind, body, next: _, results, container } = top;
        match kind {
            FrameKind::ForProcesses { var, processes, index } => {
                proof {
                    lemma_find_container(registry@.containers, container@);
                }
                let bound = match registry.get_mut(container.as_str()) {
                    None => false,
                    Some(context) => {
                        bind_process(context, var, &processes[index + 1]);
                        true
                    },
                };
                if !bound {
                    return self.fail(missing(container.as_str()));
                }
                proof {
                    let c = session_of(old(registry)@, container@)->Some_0;
                    lemma_with_context_wf(
                        old(registry)@,
                        container@,
                        bound_to_process(c, var@, processes@[index + 1]),
                    );
                }
                self.enter(
                    Frame {
                        kind: FrameKind::ForProcesses { var, processes, index: index + 1 },
                        body,
                        next: 0,
                        results,
                        container,
                    },
                )
            },
            _ => self.fail(unexpected()),
        }
    }

    /// Ends the innermost block, which has run its statements.
    fn finish(&mut self, registry: &mut ContainerManager, now: Timestamp) -> (r: Step<'a>)
        requires
            old(registry).wf(),
            old(self)@.frames.len() > 0,
        ensures
            final(registry).wf(),
            reaches(
                final(self)@,
                final(registry)@,
                r@,
                finished(old(self)@.policy, old(self)@.frames, old(registry)@),
            ),
    {
        proof {
            reveal(finished);
        }
        let ghost frames = self@.frames;
        let n = self.frames.len();
        let repeats = match &self.frames[n - 1].kind {
            FrameKind::ForFiles { files, index, .. } => *index < files.len() && *index + 1
                < files.len(),
            FrameKind::ForProcesses { processes, index, .. } => *index < processes.len() && *index
                + 1 < processes.len(),
            _ => false,
        };
        let pauses = match &self.frames[n - 1].kind {
            FrameKind::Life { .. } => true,
            _ => false,
        };
        if pauses {
            return self.ask(Waiting::LifePause, Request::Pause { seconds: LIFE_INTERVAL_SECS });
        }
        let top = match self.frames.pop() {
            Some(top) => top,
            None => {
                return self.fail(unexpected());
            },
        };
        assert(top@ == frames.last());
        assert(self@.frames =~= frames.drop_last());
        assert(self@.frames.push(top@) =~= frames);
        if repeats {
            let files = match &top.kind {
                FrameKind::ForFiles { .. } => true,
                _ => false,
            };
            if files {
                return self.next_file(registry, top, now);
            } else {
                return self.next_process(registry, top, now);
            }
        }
        let Frame { kind, body, next: _, results, container: _ } = top;
        match kind {
            FrameKind::Script => {
                self.waiting = Waiting::Ended;
                Step::Finished
            },
            FrameKind::ForFiles { .. } => {
                let result = finish_for(results);
                self.deliver(result)
            },
            FrameKind::ForProcesses { .. } => {
                let result = finish_for(results);
                self.deliver(result)
            },
            FrameKind::Branch => {
                let result = finish_branch(results);
                self.deliver(result)
            },
            FrameKind::Create { name } => {
                let result = finish_create(name, body.len());
                assert(body_view(*body).len() == body.len());
                self.deliver(result)
            },
            FrameKind::Life { .. } => self.fail(unexpected()),
        }
    }

    /// Goes on without an answer.
    fn advance(&mut self, registry: &mut ContainerManager, now: Timestamp) -> (r: Step<'a>)
        requires
            old(registry).wf(),
            old(self)@.waiting is Nothing,
        ensures
            final(registry).wf(),
            reaches(
                final(self)@,
                final(registry)@,
                r@,
                advanced(old(self)@, old(registry)@, now),
            ),
    {
        proof {
            reveal(advanced);
        }
        let n = self.frames.len();
        if n == 0 {
            self.waiting = Waiting::Ended;
            return Step::Finished;
        }
        let ghost frames = self@.frames;
        if self.frames[n - 1].next >= self.frames[n - 1].body.len() {
            assert(body_view(*self.frames[n - 1].body).len() == self.frames[n - 1].body.len());
            return self.finish(registry, now);
        }
        let top = match self.frames.pop() {
            Some(top) => top,
            None => {
                return self.fail(unexpected());
            },
        };
        assert(top@ == frames.last());
        let Frame { kind, body, next, results, container } = top;
        assert(body_view(*body).len() == body.len());
        assert(body_view(*body)[next as int] == body[next as int]@);
        let cmd: &'a Command = &body[next];
        let known = registry.contains(container.as_str());
        self.frames.push(Frame { kind, body, next: next + 1, results, container });
        assert(self@.frames =~= frames.drop_last().push(
            FrameView { next: frames.last().next + 1, ..frames.last() },
        ));
        if !known {
            let name = self.scope();
            return self.fail(missing(name.as_str()));
        }
        self.begin(registry, cmd, now)
    }

    fn answer_enter(
        &mut self,
        registry: &mut ContainerManager,
        folder: bool,
        probe: crate::context::PathProbe,
        now: Timestamp,
    ) -> (r: Step<'a>)
        requires
            old(self).grounded(old(registry)),
        ensures
            final(registry).wf(),
            reaches(
                final(self)@,
                final(registry)@,
                r@,
                enter_answered(
                    old(self)@.policy,
                    old(self)@.frames,
                    old(registry)@,
                    old(self).session(old(registry)),
                    folder,
                    probe@,
                    now,
                ),
            ),
    {
        let name = self.scope();
        proof {
            lemma_find_container(registry@.containers, name@);
        }
        let outcome = match registry.get_mut(name.as_str()) {
            None => Err(missing(name.as_str())),
            Some(context) => if folder {
                match context.enter_folder(&probe, now) {
                    Err(e) => Err(e),
                    Ok(()) => Ok(message(join("Entered folder: ", context.current_folder()))),
                }
            } else {
                match context.enter_file(&probe, now) {
                    Err(e) => Err(e),
                    Ok(()) => Ok(
                        message(
                            join(
                                "Entered file: ",
                                match context.current_file() {
                                    Some(f) => f,
                                    None => "",
                                },
                            ),
                        ),
                    ),
                }
            },
        };
        proof {
            let c = old(self).session(old(registry));
            let entered = if folder {
                c.enter_folder(probe@, now)
            } else {
                c.enter_file(probe@, now)
            };
            match entered {
                Ok(next) => {
                    lemma_with_context_wf(old(registry)@, name@, next);
                },
                Err(_) => {
                    lemma_with_context_wf(old(registry)@, name@, c);
                    assert(old(registry)@.with_context(name@, c).containers =~= old(
                        registry,
                    )@.containers);
                },
            }
        }
        match outcome {
            Err(e) => self.fail(e),
            Ok(result) => self.deliver(result),
        }
    }

    fn answer_for(&mut self, registry: &mut ContainerManager, f: &'a ForLoop, data: ResultData) -> (r:
        Step<'a>)
        requires
            old(self).grounded(old(registry)),
        ensures
            final(registry).wf(),
            reaches(
                final(self)@,
                final(registry)@,
                r@,
                for_answered(
                    old(self)@.policy,
                    old(self)@.frames,
                    old(registry)@,
                    f@,
                    old(self).session(old(registry)),
                    data,
                ),
            ),
    {
        let name = self.scope();
        proof {
            lemma_find_container(registry@.containers, name@);
        }
        let results: Vec<ExecutionResult> = Vec::new();
        assert(results_view(results) =~= Seq::empty());
        match data {
            ResultData::Files(items) => {
                if items.len() == 0 {
                    let result = finish_for(results);
                    return self.deliver(result);
                }
                match registry.get_mut(name.as_str()) {
                    None => {},
                    Some(context) => {
                        bind_file(context, f.iterator_var.as_str(), &items[0]);
                    },
                }
                proof {
                    let c = old(self).session(old(registry));
                    lemma_with_context_wf(
                        old(registry)@,
                        name@,
                        bound_to_file(c, f.iterator_var@, items@[0]),
                    );
                }
                self.enter(
                    Frame {
                        kind: FrameKind::ForFiles {
                            var: f.iterator_var.as_str(),
                            files: items,
                            index: 0,
                        },
                        body: &f.body,
                        next: 0,
                        results,
                        container: name,
                    },
                )
            },
            ResultData::Processes(items) => {
                if items.len() == 0 {
                    let result = finish_for(results);
                    return self.deliver(result);
                }
                match registry.get_mut(name.as_str()) {
                    None => {},
                    Some(context) => {
                        bind_process(context, f.iterator_var.as_str(), &items[0]);
                    },
                }
                proof {
                    let c = old(self).session(old(registry));
                    lemma_with_context_wf(
                        old(registry)@,
                        name@,
                        bound_to_process(c, f.iterator_var@, items@[0]),
                    );
                }
                self.enter(
                    Frame {
                        kind: FrameKind::ForProcesses {
                            var: f.iterator_var.as_str(),
                            processes: items,
                            index: 0,
                        },
                        body: &f.body,
                        next: 0,
                        results,
                        container: name,
                    },
                )
            },
            _ => self.fail(
                ArtaError::ExecutionError(
                    String::from_str("FOR loop source must be a FILES or PROCESS query"),
                ),
            ),
        }
    }

    fn answer_if(&mut self, registry: &ContainerManager, statement: &'a IfStatement, data: ResultData) -> (r:
        Step<'a>)
        requires
            old(self).grounded(registry),
        ensures
            reaches(
                final(self)@,
                registry@,
                r@,
                if_answered(
                    old(self)@.policy,
                    old(self)@.frames,
                    registry@,
                    statement@,
                    old(self).session(registry),
                    data,
                ),
            ),
    {
        let name = self.scope();
        proof {
            lemma_find_container(registry@.containers, name@);
        }
        let holds = match registry.get(name.as_str()) {
            None => Err(missing(name.as_str())),
            Some(container) => evaluate_if_condition(
                &statement.condition,
                &data,
                &container.context,
            ),
        };
        let results: Vec<ExecutionResult> = Vec::new();
        assert(results_view(results) =~= Seq::empty());
        match holds {
            Err(e) => self.fail(e),
            Ok(true) => self.enter(
                Frame {
                    kind: FrameKind::Branch,
                    body: &statement.then_body,
                    next: 0,
                    results,
                    container: name,
                },
            ),
            Ok(false) => match &statement.else_body {
                Some(body) => self.enter(
                    Frame { kind: FrameKind::Branch, body, next: 0, results, container: name },
                ),
                None => self.deliver(
                    ExecutionResult {
                        data: ResultData::Empty,
                        message: Some(String::from_str("IF condition was false")),
                    },
                ),
            },
        }
    }

    fn answer_print(
        &mut self,
        registry: &ContainerManager,
        command: &'a PrintCommand,
        index: usize,
        output: String,
        data: ResultData,
    ) -> (r: Step<'a>)
        requires
            old(self).grounded(registry),
        ensures
            reaches(
                final(self)@,
                registry@,
                r@,
                print_answered(
                    old(self)@.policy,
                    old(self)@.frames,
                    registry@,
                    command@,
                    index as nat,
                    output@,
                    old(self).session(registry),
                    data,
                ),
            ),
    {
        if index >= command.expressions.len() {
            return self.fail(unexpected());
        }
        assert(command@[index as int] == command.expressions[index as int]@);
        match &command.expressions[index] {
            PrintExpr::QueryField { target, field } => match get_query_field_value(
                *target,
                field.as_str(),
                &data,
            ) {
                Err(e) => self.fail(e),
                Ok(part) => {
                    let mut text = output;
                    if index > 0 {
                        text.append(" ");
                        text.append(part.as_str());
                    } else {
                        text = part;
                    }
                    self.print_from(registry, command, index + 1, text)
                },
            },
            _ => self.fail(unexpected()),
        }
    }

    fn answer_life(&mut self, registry: &ContainerManager, data: ResultData) -> (r: Step<'a>)
        requires
            old(self)@.frames.len() > 0,
        ensures
            reaches(
                final(self)@,
                registry@,
                r@,
                life_answered(old(self)@.policy, old(self)@.frames, registry@, data),
            ),
    {
        let ghost frames = self@.frames;
        let top = match self.frames.pop() {
            Some(top) => top,
            None => {
                return self.fail(unexpected());
            },
        };
        assert(top@ == frames.last());
        assert(self@.frames =~= frames.drop_last());
        let Frame { kind, body, next, results, container } = top;
        match kind {
            FrameKind::Life { target, last } => match sample_state(target, &data) {
                None => self.fail(crate::fields::mismatch(sample_target(target))),
                Some(state) => if fires(&last, &state) {
                    self.enter(
                        Frame {
                            kind: FrameKind::Life { target, last: Some(state) },
                            body,
                            next: 0,
                            results,
                            container,
                        },
                    )
                } else {
                    self.frames.push(
                        Frame {
                            kind: FrameKind::Life { target, last: Some(state) },
                            body,
                            next,
                            results,
                            container,
                        },
                    );
                    assert(self@.frames =~= frames.drop_last().push(
                        FrameView {
                            kind: FrameKindView::Life { target, last: Some(state) },
                            ..frames.last()
                        },
                    ));
                    self.ask(Waiting::LifePause, Request::Pause { seconds: LIFE_INTERVAL_SECS })
                },
            },
            _ => self.fail(unexpected()),
        }
    }

    fn answer_resumed(&mut self, registry: &ContainerManager, cancelled: bool) -> (r: Step<'a>)
        requires
            old(self)@.frames.len() > 0,
        ensures
            reaches(
                final(self)@,
                registry@,
                r@,
                life_resumed(old(self)@.policy, old(self)@.frames, registry@, cancelled),
            ),
    {
        let ghost frames = self@.frames;
        let n = self.frames.len();
        let target = match &self.frames[n - 1].kind {
            FrameKind::Life { target, .. } => Some(*target),
            _ => None,
        };
        match target {
            None => self.fail(unexpected()),
            Some(target) => if cancelled {
                self.frames.pop();
                assert(self@.frames =~= frames.drop_last());
                self.deliver(message(String::from_str("LIFE monitoring completed")))
            } else {
                self.ask(
                    Waiting::LifeSample,
                    Request::Query(plan_sample(sample_target(target))),
                )
            },
        }
    }

    /// Goes on with the sample that `waiting` stands for.
    fn answer_sample(
        &mut self,
        registry: &mut ContainerManager,
        waiting: Waiting<'a>,
        data: ResultData,
    ) -> (r: Step<'a>)
        requires
            old(self).grounded(old(registry)),
        ensures
            final(registry).wf(),
            reaches(
                final(self)@,
                final(registry)@,
                r@,
                sampled(
                    MachineView { waiting: waiting@, ..old(self)@ },
                    old(registry)@,
                    old(self).session(old(registry)),
                    data,
                ),
            ),
    {
        match waiting {
            Waiting::Query => self.deliver(ExecutionResult { data, message: None }),
            Waiting::ForSource(f) => self.answer_for(registry, f, data),
            Waiting::IfSample(i) => self.answer_if(registry, i, data),
            Waiting::PrintSample { command, index, output } => self.answer_print(
                registry,
                command,
                index,
                output,
                data,
            ),
            Waiting::LifeSample => self.answer_life(registry, data),
            _ => self.fail(unexpected()),
        }
    }

    /// Goes on with the answer to the request that `waiting` stands for.
    fn answer(
        &mut self,
        registry: &mut ContainerManager,
        waiting: Waiting<'a>,
        response: Response,
        now: Timestamp,
    ) -> (r: Step<'a>)
        requires
            old(registry).wf(),
        ensures
            final(registry).wf(),
            reaches(
                final(self)@,
                final(registry)@,
                r@,
                answered(
                    MachineView { waiting: waiting@, ..old(self)@ },
                    old(registry)@,
                    response@,
                    now,
                ),
            ),
    {
        proof {
            reveal(answered);
        }
        if self.frames.len() == 0 {
            return self.fail(unexpected());
        }
        let name = self.scope();
        if !registry.contains(name.as_str()) {
            return self.fail(missing(name.as_str()));
        }
        match response {
            Response::Sample(Err(e)) => self.fail(e),
            Response::Action(Err(e)) => self.fail(e),
            Response::Sample(Ok(data)) => self.answer_sample(registry, waiting, data),
            Response::Action(Ok(done)) => match waiting {
                Waiting::Action => self.deliver(
                    ExecutionResult { data: ResultData::ActionResult(done), message: None },
                ),
                _ => self.fail(unexpected()),
            },
            Response::Probe(probe) => match waiting {
                Waiting::Enter { folder } => self.answer_enter(registry, folder, probe, now),
                _ => self.fail(unexpected()),
            },
            Response::Written(written) => match waiting {
                Waiting::Export(export) => match written {
                    Ok(()) => {
                        let result = crate::engine::finish_export(
                            export.name.as_str(),
                            export.path.as_str(),
                        );
                        self.deliver(result)
                    },
                    Err(e) => self.fail(ArtaError::IoError(e)),
                },
                _ => self.fail(unexpected()),
            },
            Response::Resumed { cancelled } => match waiting {
                Waiting::LifePause => self.answer_resumed(registry, cancelled),
                _ => self.fail(unexpected()),
            },
        }
    }

    /// Takes one step. A run that waits for an answer takes it from
    /// `response`; any other run takes a step without one. `now` is the
    /// current time: it marks what the step writes to the history of the
    /// session.
    pub fn step(
        &mut self,
        registry: &mut ContainerManager,
        response: Option<Response>,
        now: Timestamp,
    ) -> (r: Step<'a>)
        requires
            old(registry).wf(),
        ensures
            final(registry).wf(),
            reaches(
                final(self)@,
                final(registry)@,
                r@,
                stepped(
                    old(self)@,
                    old(registry)@,
                    match response {
                        Some(answer) => Some(answer@),
                        None => None,
                    },
                    now,
                ),
            ),
    {
        let mut waiting = Waiting::Nothing;
        core::mem::swap(&mut waiting, &mut self.waiting);
        match waiting {
            Waiting::Ended => {
                self.waiting = Waiting::Ended;
                Step::Finished
            },
            Waiting::Nothing => match response {
                None => self.advance(registry, now),
                Some(_) => self.fail(unexpected()),
            },
            other => match response {
                None => self.fail(unexpected()),
                Some(answer) => self.answer(registry, other, answer, now),
            },
        }
    }
}

/// An action is refused where the policy neither allows actions nor asks
/// for a dry run: the run fails on it with a security error before anything
/// is asked of the host, and the registry stays as it is. Under a dry run
/// the host is asked for a preview.
pub proof fn lemma_actions_need_permission(s: MachineView, m: ManagerView, now: Timestamp)
    requires
        s.waiting is Nothing,
        s.frames.len() > 0,
        s.frames.last().next < s.frames.last().body.len(),
        s.frames.last().body[s.frames.last().next as int] is Action,
        session_of(m, s.frames.last().container) is Some,
    ensures
        !s.policy.allow_actions && !s.policy.dry_run ==> stepped(s, m, None, now).step
            == StepView::Failed(actions_disabled()) && stepped(s, m, None, now).registry == m,
        s.policy.dry_run ==> (stepped(s, m, None, now).step matches StepView::Need(
            RequestView::Action(plan),
        ) && match plan {
            crate::statements::ActionPlanView::DeleteFiles { dry_run, .. } => dry_run,
            crate::statements::ActionPlanView::KillProcess { dry_run, .. } => dry_run,
        }),
        s.policy.dry_run ==> stepped(s, m, None, now).registry == m,
{
    reveal(advanced);
    reveal(begun);
}

/// A `FOR` over no items runs its body not at all: no block begins, the
/// registry stays as it is, and the statement yields the note that there
/// were no items. It never fails.
pub proof fn lemma_for_over_nothing(s: MachineView, m: ManagerView, f: ForView, data: ResultData, now: Timestamp)
    requires
        s.waiting == WaitingView::ForSource(f),
        s.frames.len() > 0,
        session_of(m, s.frames.last().container) is Some,
        match data {
            ResultData::Files(items) => items.len() == 0,
            ResultData::Processes(items) => items.len() == 0,
            _ => false,
        },
    ensures
        stepped(s, m, Some(ResponseView::Sample(Ok(data))), now) == delivered(
            s.policy,
            s.frames,
            m,
            message_result("FOR loop completed (no items)"@),
        ),
        stepped(s, m, Some(ResponseView::Sample(Ok(data))), now).machine.frames.len()
            == s.frames.len(),
        !(stepped(s, m, Some(ResponseView::Sample(Ok(data))), now).step is Failed),
{
    reveal(answered);
}

/// Whether the blocks are those of a run: the script is the outermost
/// block, and no block inside it is the script.
pub open spec fn rooted(frames: Seq<FrameView>) -> bool {
    frames.len() > 0 && frames[0].kind is Script && forall|i: int|
        0 < i < frames.len() ==> !((#[trigger] frames[i]).kind is Script)
}

/// The number of statements of the script that have run to their end: those
/// that have begun, but for the one that is still running.
pub open spec fn completed(s: MachineView) -> int {
    s.frames[0].next - if s.frames.len() > 1 || !(s.waiting is Nothing) {
        1int
    } else {
        0int
    }
}

/// Whether a step that was taken with `before` statements of the script
/// completed keeps the count: a step that yields an outcome completes one
/// statement of the script, every other step none, and a run without blocks
/// has finished or failed.
#[verifier::opaque]
pub open spec fn tallies(before: int, t: Turn) -> bool {
    if t.machine.frames.len() == 0 {
        t.step is Finished || t.step is Failed
    } else {
        rooted(t.machine.frames) && completed(t.machine) == before + if t.step is Yield {
            1int
        } else {
            0int
        }
    }
}

proof fn lemma_delivered_tallies(
    policy: ExecutionContext,
    frames: Seq<FrameView>,
    m: ManagerView,
    result: ResultView,
)
    requires
        rooted(frames),
    ensures
        tallies(frames[0].next - 1, delivered(policy, frames, m, result)),
{
    reveal(tallies);
    let t = delivered(policy, frames, m, result);
    if keeps(frames) {
        assert(t.machine.frames.len() == frames.len());
        assert(t.machine.frames[0].kind is Script);
        assert(t.machine.frames[0].next == frames[0].next);
        assert forall|i: int| 0 < i < t.machine.frames.len() implies !((
        #[trigger] t.machine.frames[i]).kind is Script) by {
            if i < frames.len() - 1 {
                assert(t.machine.frames[i] == frames[i]);
            }
        }
    } else {
        assert(frames.len() == 1 || frames.last().kind is Life);
    }
}

proof fn lemma_rooted_frames(frames: Seq<FrameView>)
    requires
        rooted(frames),
    ensures
        forall|frame: FrameView|
            !(frame.kind is Script) ==> rooted(#[trigger] frames.push(frame)) && frames.push(
                frame,
            )[0] == frames[0],
        forall|frame: FrameView|
            frames.len() > 1 && !(frame.kind is Script) ==> rooted(
                #[trigger] frames.drop_last().push(frame),
            ) && frames.drop_last().push(frame)[0] == frames[0],
        frames.len() > 1 ==> rooted(frames.drop_last()) && frames.drop_last()[0] == frames[0],
{
    assert forall|frame: FrameView| !(frame.kind is Script) implies rooted(
        #[trigger] frames.push(frame),
    ) && frames.push(frame)[0] == frames[0] by {
        let pushed = frames.push(frame);
        assert forall|i: int| 0 < i < pushed.len() implies !((#[trigger] pushed[i]).kind
            is Script) by {
            if i < frames.len() {
                assert(pushed[i] == frames[i]);
            }
        }
    }
    assert forall|frame: FrameView| frames.len() > 1 && !(frame.kind is Script) implies rooted(
        #[trigger] frames.drop_last().push(frame),
    ) && frames.drop_last().push(frame)[0] == frames[0] by {
        let pushed = frames.drop_last().push(frame);
        assert forall|i: int| 0 < i < pushed.len() implies !((#[trigger] pushed[i]).kind
            is Script) by {
            if i < frames.len() - 1 {
                assert(pushed[i] == frames[i]);
            }
        }
    }
    if frames.len() > 1 {
        let below = frames.drop_last();
        assert forall|i: int| 0 < i < below.len() implies !((#[trigger] below[i]).kind
            is Script) by {
            assert(below[i] == frames[i]);
        }
    }
}

proof fn lemma_turns_tally(policy: ExecutionContext, frames: Seq<FrameView>)
    requires
        rooted(frames),
    ensures
        forall|m: ManagerView, e: ErrorView|
            tallies(frames[0].next - 1, #[trigger] failed(policy, m, e)),
        forall|m: ManagerView, result: ResultView|
            tallies(frames[0].next - 1, #[trigger] delivered(policy, frames, m, result)),
        forall|m: ManagerView, waiting: WaitingView, request: RequestView|
            !(waiting is Nothing) ==> tallies(
                frames[0].next - 1,
                #[trigger] asked(policy, frames, m, waiting, request),
            ),
        forall|m: ManagerView, frame: FrameView, waiting: WaitingView, request: RequestView|
            !(waiting is Nothing) && !(frame.kind is Script) ==> tallies(
                frames[0].next - 1,
                #[trigger] asked(policy, frames.push(frame), m, waiting, request),
            ),
        forall|m: ManagerView, frame: FrameView|
            !(frame.kind is Script) ==> tallies(
                frames[0].next - 1,
                #[trigger] entered(policy, frames, m, frame),
            ),
        forall|
            m: ManagerView,
            exprs: Seq<PrintExprView>,
            index: nat,
            output: Seq<char>,
            c: ContextView,
        |
            tallies(
                frames[0].next - 1,
                #[trigger] printed(policy, frames, m, exprs, index, output, c),
            ),
{
    lemma_rooted_frames(frames);
    assert forall|m: ManagerView, e: ErrorView|
        tallies(frames[0].next - 1, #[trigger] failed(policy, m, e)) by {
        reveal(tallies);
    }
    assert forall|m: ManagerView, waiting: WaitingView, request: RequestView|
        !(waiting is Nothing) implies tallies(
            frames[0].next - 1,
            #[trigger] asked(policy, frames, m, waiting, request),
        ) by {
        reveal(tallies);
    }
    assert forall|m: ManagerView, frame: FrameView, waiting: WaitingView, request: RequestView|
        !(waiting is Nothing) && !(frame.kind is Script) implies tallies(
            frames[0].next - 1,
            #[trigger] asked(policy, frames.push(frame), m, waiting, request),
        ) by {
        reveal(tallies);
    }
    assert forall|m: ManagerView, frame: FrameView|
        !(frame.kind is Script) implies tallies(
            frames[0].next - 1,
            #[trigger] entered(policy, frames, m, frame),
        ) by {
        reveal(tallies);
    }
    assert forall|m: ManagerView, result: ResultView|
        tallies(frames[0].next - 1, #[trigger] delivered(policy, frames, m, result)) by {
        lemma_delivered_tallies(policy, frames, m, result);
    }
    assert forall|
        m: ManagerView,
        exprs: Seq<PrintExprView>,
        index: nat,
        output: Seq<char>,
        c: ContextView,
    |
        tallies(
            frames[0].next - 1,
            #[trigger] printed(policy, frames, m, exprs, index, output, c),
        ) by {
        let (at, text) = print_scan(exprs, index, output, c);
        lemma_delivered_tallies(policy, frames, m, message_result(text));
        reveal(tallies);
    }
}

proof fn lemma_begun_tallies(
    policy: ExecutionContext,
    frames: Seq<FrameView>,
    m: ManagerView,
    cmd: CommandView,
    c: ContextView,
    now: Timestamp,
)
    requires
        rooted(frames),
    ensures
        tallies(frames[0].next - 1, begun(policy, frames, m, cmd, c, now)),
{
    lemma_turns_tally(policy, frames);
    reveal(begun);
}

proof fn lemma_finished_tallies(policy: ExecutionContext, frames: Seq<FrameView>, m: ManagerView)
    requires
        rooted(frames),
    ensures
        tallies(frames[0].next - 1, finished(policy, frames, m)),
{
    reveal(finished);
    reveal(tallies);
    lemma_rooted_frames(frames);
    if frames.len() > 1 {
        let below = frames.drop_last();
        assert forall|result: ResultView| #[trigger]
            tallies(below[0].next - 1, delivered(policy, below, m, result)) by {
            lemma_delivered_tallies(policy, below, m, result);
        }
    }
}

proof fn lemma_advanced_tallies(s: MachineView, m: ManagerView, now: Timestamp)
    requires
        rooted(s.frames),
        s.waiting is Nothing,
    ensures
        tallies(completed(s), advanced(s, m, now)),
{
    reveal(advanced);
    reveal(tallies);
    let top = s.frames.last();
    if top.next < top.body.len() {
        let frames = s.frames.drop_last().push(FrameView { next: top.next + 1, ..top });
        assert(rooted(frames)) by {
            assert forall|i: int| 0 < i < frames.len() implies !((#[trigger] frames[i]).kind
                is Script) by {
                if i < s.frames.len() - 1 {
                    assert(frames[i] == s.frames[i]);
                }
            }
        }
        match session_of(m, top.container) {
            None => {},
            Some(c) => {
                lemma_begun_tallies(s.policy, frames, m, top.body[top.next as int], c, now);
            },
        }
    } else {
        lemma_finished_tallies(s.policy, s.frames, m);
        if s.frames.len() == 1 {
            reveal(finished);
        }
    }
}

proof fn lemma_answered_tallies(s: MachineView, m: ManagerView, r: ResponseView, now: Timestamp)
    requires
        rooted(s.frames),
        !(s.waiting is Nothing),
        !(s.waiting is Ended),
    ensures
        tallies(completed(s), answered(s, m, r, now)),
{
    reveal(answered);
    reveal(tallies);
    lemma_rooted_frames(s.frames);
    assert forall|result: ResultView| #[trigger]
        tallies(s.frames[0].next - 1, delivered(s.policy, s.frames, m, result)) by {
        lemma_delivered_tallies(s.policy, s.frames, m, result);
    }
    if s.frames.len() > 1 {
        let below = s.frames.drop_last();
        assert forall|result: ResultView| #[trigger]
            tallies(below[0].next - 1, delivered(s.policy, below, m, result)) by {
            lemma_delivered_tallies(s.policy, below, m, result);
        }
    }
}

/// A run begins with the script as its only block, and with no statement
/// completed.
pub proof fn lemma_a_run_begins_at_nothing(
    policy: ExecutionContext,
    script: Seq<CommandView>,
    container: Seq<char>,
)
    ensures
        rooted(started(policy, script, container).frames),
        completed(started(policy, script, container)) == 0,
{
}

/// One outcome is yielded for each statement of the script that runs to its
/// end: a step that yields an outcome completes exactly one statement of
/// the script, and no other step completes one. What the body of a `LIFE`
/// block hands over to be shown is no such outcome. So the outcomes that a
/// host has been yielded are as many as the statements that have completed.
pub proof fn lemma_one_outcome_for_each_statement(
    s: MachineView,
    m: ManagerView,
    response: Option<ResponseView>,
    now: Timestamp,
)
    requires
        rooted(s.frames),
        !(s.waiting is Ended),
    ensures
        ({
            let t = stepped(s, m, response, now);
            if t.machine.frames.len() == 0 {
                t.step is Finished || t.step is Failed
            } else {
                rooted(t.machine.frames) && completed(t.machine) == completed(s) + if t.step
                    is Yield {
                    1int
                } else {
                    0int
                }
            }
        }),
{
    reveal(tallies);
    match (s.waiting, response) {
        (WaitingView::Nothing, None) => {
            lemma_advanced_tallies(s, m, now);
        },
        (WaitingView::Nothing, Some(_)) => {},
        (_, None) => {},
        (_, Some(r)) => {
            lemma_answered_tallies(s, m, r, now);
        },
    }
}

/// A failure of the host ends the run: the error is handed on as it came,
/// and no statement runs after it.
pub proof fn lemma_failure_ends_the_run(s: MachineView, m: ManagerView, e: ErrorView, now: Timestamp)
    requires
        !(s.waiting is Nothing),
        !(s.waiting is Ended),
        s.frames.len() > 0,
        session_of(m, s.frames.last().container) is Some,
    ensures
        stepped(s, m, Some(ResponseView::Sample(Err(e))), now) == failed(s.policy, m, e),
        stepped(
            stepped(s, m, Some(ResponseView::Sample(Err(e))), now).machine,
            m,
            None,
            now,
        ).step == StepView::Finished,
{
    reveal(answered);
    reveal(advanced);
}

} // verus!
