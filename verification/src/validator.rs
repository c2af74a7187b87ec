//! The validation of a script before it runs: a walk of the command tree
//! that reads nothing but the script and the options.

use vstd::prelude::*;
use vstd::string::StringExecFns;
use crate::ast::{
    body_view, ActionCommand, ActionView, Command, CommandView, ContainerCommand,
    ContainerCommandView, Script,
};
use crate::text::{decimal, join, join3, push_decimal, text_eq};

verus! {

broadcast use {vstd::seq::axiom_seq_index_decreases, vstd::seq::axiom_seq_subrange_decreases};

/// How serious a finding is.
#[derive(Debug, Clone, Copy, PartialEq, Eq, Structural)]
pub enum ValidationSeverity {
    Error,
    Warning,
}

/// One finding of the validator.
#[derive(Debug)]
pub struct ScriptValidationError {
    /// The number of the top-level statement, counted from 1.
    pub line: Option<usize>,
    pub message: String,
    pub severity: ValidationSeverity,
}

/// What the validator allows.
#[derive(Debug, Clone, Copy, PartialEq, Eq, Structural)]
pub struct ValidationOptions {
    /// Whether the script may hold `DELETE` and `KILL`.
    pub allow_actions: bool,
    /// Whether a `LIFE` block may hold them.
    pub allow_life_actions: bool,
    /// How deep blocks may nest.
    pub max_nesting_depth: usize,
}

/// The model of `ScriptValidationError`.
pub ghost struct IssueView {
    pub line: Option<usize>,
    pub message: Seq<char>,
    pub severity: ValidationSeverity,
}

impl ScriptValidationError {
    pub open spec fn view(&self) -> IssueView {
        IssueView { line: self.line, message: self.message@, severity: self.severity }
    }

    /// The finding as one line: its severity, its statement and its message.
    pub fn to_text(&self) -> (r: String)
        ensures
            r@ == self@.text(),
    {
        let prefix = match self.severity {
            ValidationSeverity::Error => "ERROR",
            ValidationSeverity::Warning => "WARNING",
        };
        let mut out = String::from_str(prefix);
        match self.line {
            Some(line) => {
                out.append(" (line ");
                push_decimal(&mut out, line as u128);
                out.append("): ");
            },
            None => {
                out.append(": ");
            },
        }
        out.append(self.message.as_str());
        out
    }
}

impl IssueView {
    /// The finding as one line: its severity, its statement and its message.
    pub open spec fn text(self) -> Seq<char> {
        let prefix = match self.severity {
            ValidationSeverity::Error => "ERROR"@,
            ValidationSeverity::Warning => "WARNING"@,
        };
        match self.line {
            Some(line) => prefix + " (line "@ + decimal(line as nat) + "): "@ + self.message,
            None => prefix + ": "@ + self.message,
        }
    }
}

impl Default for ValidationOptions {
    fn default() -> (r: Self)
        ensures
            r == (ValidationOptions {
                allow_actions: false,
                allow_life_actions: false,
                max_nesting_depth: 10,
            }),
    {
        ValidationOptions { allow_actions: false, allow_life_actions: false, max_nesting_depth: 10 }
    }
}

/// The models of a list of findings, in order.
pub open spec fn issues_view(issues: Seq<ScriptValidationError>) -> Seq<IssueView> {
    Seq::new(issues.len(), |i: int| issues[i]@)
}

/// A finding on the statement `line`.
pub open spec fn issue(line: nat, message: Seq<char>, severity: ValidationSeverity) -> IssueView {
    IssueView { line: Some(line as usize), message, severity }
}

/// The name of an action in capitals.
pub open spec fn action_name(action: ActionView) -> Seq<char> {
    match action {
        ActionView::DeleteFiles { .. } => "DELETE FILES"@,
        ActionView::KillProcess(_) => "KILL PROCESS"@,
    }
}

/// The well-known system roots that a `DELETE` should not aim at.
pub open spec fn is_system_path(path: Seq<char>) -> bool {
    path == "/"@ || path == "/bin"@ || path == "/etc"@ || path == "/usr"@ || path == "/var"@
        || path == "/home"@
}

/// The findings on an action, wherever it stands.
pub open spec fn action_issues(action: ActionView, options: ValidationOptions, line: nat) -> Seq<
    IssueView,
> {
    let refused = if !options.allow_actions {
        seq![
            issue(
                line,
                action_name(action)
                    + " action found. Use --allow-actions to enable destructive actions"@,
                ValidationSeverity::Error,
            ),
        ]
    } else {
        Seq::empty()
    };
    match action {
        ActionView::DeleteFiles { path, where_clause } => {
            let unfiltered = if where_clause is None {
                seq![
                    issue(
                        line,
                        "DELETE FILES without WHERE clause will delete ALL files!"@,
                        ValidationSeverity::Warning,
                    ),
                ]
            } else {
                Seq::empty()
            };
            let dangerous = if is_system_path(path) {
                seq![
                    issue(
                        line,
                        "DELETE FILES targeting system path: "@ + path,
                        ValidationSeverity::Warning,
                    ),
                ]
            } else {
                Seq::empty()
            };
            refused + unfiltered + dangerous
        },
        ActionView::KillProcess(_) => refused,
    }
}

/// The finding on an action that stands in a `LIFE` block, however deep.
pub open spec fn life_action_issue(in_life: bool, options: ValidationOptions, line: nat) -> Seq<
    IssueView,
> {
    if in_life && !options.allow_life_actions {
        seq![
            issue(
                line,
                "LIFE blocks cannot contain destructive actions by default"@,
                ValidationSeverity::Error,
            ),
        ]
    } else {
        Seq::empty()
    }
}

/// The warning on an action that stands, however deep, in the body of the
/// container `name`, which was made without `ALLOW ACTIONS`.
pub open spec fn container_warning(action: ActionView, name: Seq<char>, line: nat) -> IssueView {
    issue(
        line,
        action_name(action) + " action in container '"@ + name
            + "' without ALLOW ACTIONS option"@,
        ValidationSeverity::Warning,
    )
}

/// The findings on one statement that stands `depth` blocks down, within a
/// `LIFE` block or not. Beyond the greatest depth there is one finding, and
/// nothing inside the statement is looked at. Of a container made without
/// `ALLOW ACTIONS` the findings on its body come first, and behind them a
/// warning for each action in the body.
pub open spec fn command_issues(
    cmd: CommandView,
    options: ValidationOptions,
    line: nat,
    depth: nat,
    in_life: bool,
) -> Seq<IssueView>
    decreases cmd,
{
    if depth > options.max_nesting_depth {
        seq![
            issue(
                line,
                "Maximum nesting depth ("@ + decimal(options.max_nesting_depth as nat)
                    + ") exceeded"@,
                ValidationSeverity::Error,
            ),
        ]
    } else {
        match cmd {
            CommandView::Action(action) => life_action_issue(in_life, options, line)
                + action_issues(action, options, line),
            CommandView::For(f) => body_issues(f.body, options, line, depth + 1, in_life),
            CommandView::If(i) => body_issues(i.then_body, options, line, depth + 1, in_life)
                + match i.else_body {
                Some(e) => body_issues(e, options, line, depth + 1, in_life),
                None => Seq::empty(),
            },
            CommandView::Life(l) => body_issues(l.body, options, line, depth + 1, true),
            CommandView::Container(ContainerCommandView::Create(c)) => body_issues(
                c.body,
                options,
                line,
                depth + 1,
                in_life,
            ) + if c.options.allow_actions {
                Seq::empty()
            } else {
                body_warnings(c.body, c.name, options, line, depth + 1)
            },
            _ => Seq::empty(),
        }
    }
}

/// The findings on the statements of a block, in order.
pub open spec fn body_issues(
    body: Seq<CommandView>,
    options: ValidationOptions,
    line: nat,
    depth: nat,
    in_life: bool,
) -> Seq<IssueView>
    decreases body,
{
    if body.len() == 0 {
        Seq::empty()
    } else {
        body_issues(body.drop_last(), options, line, depth, in_life) + command_issues(
            body.last(),
            options,
            line,
            depth,
            in_life,
        )
    }
}

/// The warnings of the container `name`, made without `ALLOW ACTIONS`, on
/// one statement of its body that stands `depth` blocks down: one for each
/// action in the statement, through every kind of block, as far as the
/// greatest depth reaches.
pub open spec fn command_warnings(
    cmd: CommandView,
    name: Seq<char>,
    options: ValidationOptions,
    line: nat,
    depth: nat,
) -> Seq<IssueView>
    decreases cmd,
{
    if depth > options.max_nesting_depth {
        Seq::empty()
    } else {
        match cmd {
            CommandView::Action(action) => seq![container_warning(action, name, line)],
            CommandView::For(f) => body_warnings(f.body, name, options, line, depth + 1),
            CommandView::If(i) => body_warnings(i.then_body, name, options, line, depth + 1)
                + match i.else_body {
                Some(e) => body_warnings(e, name, options, line, depth + 1),
                None => Seq::empty(),
            },
            CommandView::Life(l) => body_warnings(l.body, name, options, line, depth + 1),
            CommandView::Container(ContainerCommandView::Create(c)) => body_warnings(
                c.body,
                name,
                options,
                line,
                depth + 1,
            ),
            _ => Seq::empty(),
        }
    }
}

/// The warnings of a container on the statements of a block, in order.
pub open spec fn body_warnings(
    body: Seq<CommandView>,
    name: Seq<char>,
    options: ValidationOptions,
    line: nat,
    depth: nat,
) -> Seq<IssueView>
    decreases body,
{
    if body.len() == 0 {
        Seq::empty()
    } else {
        body_warnings(body.drop_last(), name, options, line, depth) + command_warnings(
            body.last(),
            name,
            options,
            line,
            depth,
        )
    }
}

/// The findings on the first `count` statements of a script.
pub open spec fn script_issues(script: Seq<CommandView>, options: ValidationOptions, count: nat) -> Seq<
    IssueView,
>
    decreases count,
{
    if count == 0 || count > script.len() {
        Seq::empty()
    } else {
        script_issues(script, options, (count - 1) as nat) + command_issues(
            script[count - 1],
            options,
            count,
            0,
            false,
        )
    }
}

/// Whether an action stands in the statement, no more than `room` blocks
/// down. What `EXPLAIN` holds does not count: it does not run.
pub open spec fn holds_action(cmd: CommandView, room: nat) -> bool
    decreases cmd,
{
    match cmd {
        CommandView::Action(_) => true,
        CommandView::For(f) => room > 0 && body_holds_action(f.body, (room - 1) as nat),
        CommandView::If(i) => room > 0 && (body_holds_action(i.then_body, (room - 1) as nat)
            || match i.else_body {
            Some(e) => body_holds_action(e, (room - 1) as nat),
            None => false,
        }),
        CommandView::Life(l) => room > 0 && body_holds_action(l.body, (room - 1) as nat),
        CommandView::Container(ContainerCommandView::Create(c)) => room > 0
            && body_holds_action(c.body, (room - 1) as nat),
        _ => false,
    }
}

/// Whether an action stands in a statement of the block, no more than
/// `room` blocks further down.
pub open spec fn body_holds_action(body: Seq<CommandView>, room: nat) -> bool
    decreases body,
{
    body.len() > 0 && (body_holds_action(body.drop_last(), room) || holds_action(
        body.last(),
        room,
    ))
}

/// Whether any finding is an error.
pub open spec fn has_error(issues: Seq<IssueView>) -> bool {
    exists|i: int| 0 <= i < issues.len() && issues[i].severity == ValidationSeverity::Error
}

/// Whether any finding is a warning.
pub open spec fn has_warning(issues: Seq<IssueView>) -> bool {
    exists|i: int| 0 <= i < issues.len() && issues[i].severity == ValidationSeverity::Warning
}

/// A script that holds one action and nothing else is found in error where
/// actions are not allowed, and free of errors where they are; warnings may
/// remain.
pub proof fn lemma_lone_action(script: Seq<CommandView>, options: ValidationOptions)
    requires
        script.len() == 1,
        script[0] is Action,
    ensures
        !options.allow_actions ==> has_error(script_issues(script, options, 1)),
        options.allow_actions ==> !has_error(script_issues(script, options, 1)),
{
    let action = script[0]->Action_0;
    let found = action_issues(action, options, 1);
    assert(script_issues(script, options, 0) =~= Seq::empty());
    assert(command_issues(script[0], options, 1, 0, false) =~= found);
    assert(script_issues(script, options, 1) =~= found);
    if !options.allow_actions {
        assert(found[0].severity == ValidationSeverity::Error);
    } else {
        assert forall|i: int| 0 <= i < found.len() implies found[i].severity
            == ValidationSeverity::Warning by {}
    }
}

/// Findings that hold an error still hold it with findings before or
/// behind them.
pub proof fn lemma_error_stays(before: Seq<IssueView>, behind: Seq<IssueView>)
    ensures
        has_error(before) ==> has_error(before + behind),
        has_error(behind) ==> has_error(before + behind),
{
    let all = before + behind;
    if has_error(before) {
        let i = choose|i: int|
            0 <= i < before.len() && before[i].severity == ValidationSeverity::Error;
        assert(all[i] == before[i]);
    }
    if has_error(behind) {
        let i = choose|i: int|
            0 <= i < behind.len() && behind[i].severity == ValidationSeverity::Error;
        assert(all[before.len() + i] == behind[i]);
    }
}

/// Findings that hold a warning still hold it with findings before or
/// behind them.
pub proof fn lemma_warning_stays(before: Seq<IssueView>, behind: Seq<IssueView>)
    ensures
        has_warning(before) ==> has_warning(before + behind),
        has_warning(behind) ==> has_warning(before + behind),
{
    let all = before + behind;
    if has_warning(before) {
        let i = choose|i: int|
            0 <= i < before.len() && before[i].severity == ValidationSeverity::Warning;
        assert(all[i] == before[i]);
    }
    if has_warning(behind) {
        let i = choose|i: int|
            0 <= i < behind.len() && behind[i].severity == ValidationSeverity::Warning;
        assert(all[before.len() + i] == behind[i]);
    }
}

/// An action in a `LIFE` block is an error at any depth: a statement that
/// stands in a `LIFE` block and holds an action within the greatest depth is
/// found in error where the options do not allow actions in `LIFE` blocks,
/// whatever they allow else.
pub proof fn lemma_action_under_life(
    cmd: CommandView,
    options: ValidationOptions,
    line: nat,
    depth: nat,
)
    requires
        !options.allow_life_actions,
        depth <= options.max_nesting_depth,
        holds_action(cmd, (options.max_nesting_depth - depth) as nat),
    ensures
        has_error(command_issues(cmd, options, line, depth, true)),
    decreases cmd,
{
    let room = (options.max_nesting_depth - depth) as nat;
    match cmd {
        CommandView::Action(action) => {
            let first = life_action_issue(true, options, line);
            assert(first[0].severity == ValidationSeverity::Error);
            lemma_error_stays(first, action_issues(action, options, line));
        },
        CommandView::For(f) => {
            lemma_action_under_life_in_body(f.body, options, line, depth + 1);
        },
        CommandView::If(i) => {
            let then_found = body_issues(i.then_body, options, line, depth + 1, true);
            let else_found = match i.else_body {
                Some(e) => body_issues(e, options, line, depth + 1, true),
                None => Seq::empty(),
            };
            if body_holds_action(i.then_body, (room - 1) as nat) {
                lemma_action_under_life_in_body(i.then_body, options, line, depth + 1);
            } else {
                lemma_action_under_life_in_body(i.else_body->Some_0, options, line, depth + 1);
            }
            lemma_error_stays(then_found, else_found);
        },
        CommandView::Life(l) => {
            lemma_action_under_life_in_body(l.body, options, line, depth + 1);
        },
        CommandView::Container(ContainerCommandView::Create(c)) => {
            lemma_action_under_life_in_body(c.body, options, line, depth + 1);
            lemma_error_stays(
                body_issues(c.body, options, line, depth + 1, true),
                if c.options.allow_actions {
                    Seq::empty()
                } else {
                    body_warnings(c.body, c.name, options, line, depth + 1)
                },
            );
        },
        _ => {},
    }
}

/// The same of the statements of a block.
pub proof fn lemma_action_under_life_in_body(
    body: Seq<CommandView>,
    options: ValidationOptions,
    line: nat,
    depth: nat,
)
    requires
        !options.allow_life_actions,
        depth <= options.max_nesting_depth,
        body_holds_action(body, (options.max_nesting_depth - depth) as nat),
    ensures
        has_error(body_issues(body, options, line, depth, true)),
    decreases body,
{
    let room = (options.max_nesting_depth - depth) as nat;
    let before = body_issues(body.drop_last(), options, line, depth, true);
    let last = command_issues(body.last(), options, line, depth, true);
    if body_holds_action(body.drop_last(), room) {
        lemma_action_under_life_in_body(body.drop_last(), options, line, depth);
    } else {
        lemma_action_under_life(body.last(), options, line, depth);
    }
    lemma_error_stays(before, last);
}

/// A `LIFE` block that holds an action within the greatest depth, directly
/// or in a block inside it, is found in error where the options do not
/// allow actions in `LIFE` blocks, wherever the block stands and whether or
/// not actions are allowed otherwise.
pub proof fn lemma_life_with_action(
    cmd: CommandView,
    options: ValidationOptions,
    line: nat,
    depth: nat,
    in_life: bool,
)
    requires
        cmd is Life,
        !options.allow_life_actions,
        depth <= options.max_nesting_depth,
        holds_action(cmd, (options.max_nesting_depth - depth) as nat),
    ensures
        has_error(command_issues(cmd, options, line, depth, in_life)),
{
    lemma_action_under_life_in_body(cmd->Life_0.body, options, line, depth + 1);
}

/// A container made without `ALLOW ACTIONS` warns of an action at any
/// depth: of a statement that holds an action within the greatest depth it
/// has a warning.
pub proof fn lemma_action_under_container(
    cmd: CommandView,
    name: Seq<char>,
    options: ValidationOptions,
    line: nat,
    depth: nat,
)
    requires
        depth <= options.max_nesting_depth,
        holds_action(cmd, (options.max_nesting_depth - depth) as nat),
    ensures
        has_warning(command_warnings(cmd, name, options, line, depth)),
    decreases cmd,
{
    let room = (options.max_nesting_depth - depth) as nat;
    match cmd {
        CommandView::Action(action) => {
            let found = command_warnings(cmd, name, options, line, depth);
            assert(found[0].severity == ValidationSeverity::Warning);
        },
        CommandView::For(f) => {
            lemma_action_under_container_in_body(f.body, name, options, line, depth + 1);
        },
        CommandView::If(i) => {
            let then_found = body_warnings(i.then_body, name, options, line, depth + 1);
            let else_found = match i.else_body {
                Some(e) => body_warnings(e, name, options, line, depth + 1),
                None => Seq::empty(),
            };
            if body_holds_action(i.then_body, (room - 1) as nat) {
                lemma_action_under_container_in_body(
                    i.then_body,
                    name,
                    options,
                    line,
                    depth + 1,
                );
            } else {
                lemma_action_under_container_in_body(
                    i.else_body->Some_0,
                    name,
                    options,
                    line,
                    depth + 1,
                );
            }
            lemma_warning_stays(then_found, else_found);
        },
        CommandView::Life(l) => {
            lemma_action_under_container_in_body(l.body, name, options, line, depth + 1);
        },
        CommandView::Container(ContainerCommandView::Create(c)) => {
            lemma_action_under_container_in_body(c.body, name, options, line, depth + 1);
        },
        _ => {},
    }
}

/// The same of the statements of a block.
pub proof fn lemma_action_under_container_in_body(
    body: Seq<CommandView>,
    name: Seq<char>,
    options: ValidationOptions,
    line: nat,
    depth: nat,
)
    requires
        depth <= options.max_nesting_depth,
        body_holds_action(body, (options.max_nesting_depth - depth) as nat),
    ensures
        has_warning(body_warnings(body, name, options, line, depth)),
    decreases body,
{
    let room = (options.max_nesting_depth - depth) as nat;
    let before = body_warnings(body.drop_last(), name, options, line, depth);
    let last = command_warnings(body.last(), name, options, line, depth);
    if body_holds_action(body.drop_last(), room) {
        lemma_action_under_container_in_body(body.drop_last(), name, options, line, depth);
    } else {
        lemma_action_under_container(body.last(), name, options, line, depth);
    }
    lemma_warning_stays(before, last);
}

/// A `CREATE CONTAINER` without `ALLOW ACTIONS` whose body holds an action
/// within the greatest depth, directly or in a block inside it, has a
/// warning among its findings, wherever it stands.
pub proof fn lemma_container_with_action(
    cmd: CommandView,
    options: ValidationOptions,
    line: nat,
    depth: nat,
    in_life: bool,
)
    requires
        cmd matches CommandView::Container(ContainerCommandView::Create(c))
            && !c.options.allow_actions,
        depth <= options.max_nesting_depth,
        holds_action(cmd, (options.max_nesting_depth - depth) as nat),
    ensures
        has_warning(command_issues(cmd, options, line, depth, in_life)),
{
    let c = cmd->Container_0->Create_0;
    lemma_action_under_container_in_body(c.body, c.name, options, line, depth + 1);
    lemma_warning_stays(
        body_issues(c.body, options, line, depth + 1, in_life),
        body_warnings(c.body, c.name, options, line, depth + 1),
    );
}

/// Every warning of a container names the line that was given.
pub proof fn lemma_warnings_on_the_line(
    cmd: CommandView,
    name: Seq<char>,
    options: ValidationOptions,
    line: nat,
    depth: nat,
    k: int,
)
    requires
        0 <= k < command_warnings(cmd, name, options, line, depth).len(),
    ensures
        command_warnings(cmd, name, options, line, depth)[k].line == Some(line as usize),
        command_warnings(cmd, name, options, line, depth)[k].severity
            == ValidationSeverity::Warning,
    decreases cmd,
{
    if depth <= options.max_nesting_depth {
        match cmd {
            CommandView::Action(_) => {},
            CommandView::For(f) => {
                lemma_body_warnings_on_the_line(f.body, name, options, line, depth + 1, k);
            },
            CommandView::If(i) => {
                let then_found = body_warnings(i.then_body, name, options, line, depth + 1);
                if k < then_found.len() {
                    lemma_body_warnings_on_the_line(
                        i.then_body,
                        name,
                        options,
                        line,
                        depth + 1,
                        k,
                    );
                } else {
                    lemma_body_warnings_on_the_line(
                        i.else_body->Some_0,
                        name,
                        options,
                        line,
                        depth + 1,
                        k - then_found.len(),
                    );
                }
            },
            CommandView::Life(l) => {
                lemma_body_warnings_on_the_line(l.body, name, options, line, depth + 1, k);
            },
            CommandView::Container(ContainerCommandView::Create(c)) => {
                lemma_body_warnings_on_the_line(c.body, name, options, line, depth + 1, k);
            },
            _ => {},
        }
    }
}

/// The same of the statements of a block.
pub proof fn lemma_body_warnings_on_the_line(
    body: Seq<CommandView>,
    name: Seq<char>,
    options: ValidationOptions,
    line: nat,
    depth: nat,
    k: int,
)
    requires
        0 <= k < body_warnings(body, name, options, line, depth).len(),
    ensures
        body_warnings(body, name, options, line, depth)[k].line == Some(line as usize),
        body_warnings(body, name, options, line, depth)[k].severity
            == ValidationSeverity::Warning,
    decreases body,
{
    let before = body_warnings(body.drop_last(), name, options, line, depth);
    if k < before.len() {
        lemma_body_warnings_on_the_line(body.drop_last(), name, options, line, depth, k);
    } else {
        lemma_warnings_on_the_line(body.last(), name, options, line, depth, k - before.len());
    }
}

/// Every finding on a statement names the line that was given, at any
/// depth, within a `LIFE` block or not.
pub proof fn lemma_findings_on_the_line(
    cmd: CommandView,
    options: ValidationOptions,
    line: nat,
    depth: nat,
    in_life: bool,
    k: int,
)
    requires
        0 <= k < command_issues(cmd, options, line, depth, in_life).len(),
    ensures
        command_issues(cmd, options, line, depth, in_life)[k].line == Some(line as usize),
    decreases cmd,
{
    if depth <= options.max_nesting_depth {
        match cmd {
            CommandView::Action(_) => {},
            CommandView::For(f) => {
                lemma_body_findings_on_the_line(f.body, options, line, depth + 1, in_life, k);
            },
            CommandView::If(i) => {
                let then_found = body_issues(i.then_body, options, line, depth + 1, in_life);
                if k < then_found.len() {
                    lemma_body_findings_on_the_line(
                        i.then_body,
                        options,
                        line,
                        depth + 1,
                        in_life,
                        k,
                    );
                } else {
                    lemma_body_findings_on_the_line(
                        i.else_body->Some_0,
                        options,
                        line,
                        depth + 1,
                        in_life,
                        k - then_found.len(),
                    );
                }
            },
            CommandView::Life(l) => {
                lemma_body_findings_on_the_line(l.body, options, line, depth + 1, true, k);
            },
            CommandView::Container(ContainerCommandView::Create(c)) => {
                let found = body_issues(c.body, options, line, depth + 1, in_life);
                if k < found.len() {
                    lemma_body_findings_on_the_line(c.body, options, line, depth + 1, in_life, k);
                } else {
                    lemma_body_warnings_on_the_line(
                        c.body,
                        c.name,
                        options,
                        line,
                        depth + 1,
                        k - found.len(),
                    );
                }
            },
            _ => {},
        }
    }
}

/// The same of the statements of a block.
pub proof fn lemma_body_findings_on_the_line(
    body: Seq<CommandView>,
    options: ValidationOptions,
    line: nat,
    depth: nat,
    in_life: bool,
    k: int,
)
    requires
        0 <= k < body_issues(body, options, line, depth, in_life).len(),
    ensures
        body_issues(body, options, line, depth, in_life)[k].line == Some(line as usize),
    decreases body,
{
    let before = body_issues(body.drop_last(), options, line, depth, in_life);
    if k < before.len() {
        lemma_body_findings_on_the_line(body.drop_last(), options, line, depth, in_life, k);
    } else {
        lemma_findings_on_the_line(body.last(), options, line, depth, in_life, k - before.len());
    }
}

/// Beyond the greatest depth a statement has one finding, an error on its
/// line, whatever it holds.
pub proof fn lemma_too_deep(
    cmd: CommandView,
    options: ValidationOptions,
    line: nat,
    depth: nat,
    in_life: bool,
)
    requires
        depth > options.max_nesting_depth,
    ensures
        command_issues(cmd, options, line, depth, in_life).len() == 1,
        command_issues(cmd, options, line, depth, in_life)[0].severity
            == ValidationSeverity::Error,
        command_issues(cmd, options, line, depth, in_life)[0].line == Some(line as usize),
{
}

fn push_issue(
    errors: &mut Vec<ScriptValidationError>,
    line: usize,
    message: String,
    severity: ValidationSeverity,
)
    ensures
        issues_view(final(errors)@) == issues_view(old(errors)@).push(
            issue(line as nat, message@, severity),
        ),
{
    errors.push(ScriptValidationError { line: Some(line), message, severity });
    assert(issues_view(errors@) == issues_view(old(errors)@).push(
        issue(line as nat, message@, severity),
    ));
}

fn name_of_action(action: &ActionCommand) -> (r: &'static str)
    ensures
        r@ == action_name(action@),
{
    match action {
        ActionCommand::DeleteFiles(_) => "DELETE FILES",
        ActionCommand::KillProcess(_) => "KILL PROCESS",
    }
}

fn path_is_system(path: &str) -> (r: bool)
    ensures
        r == is_system_path(path@),
{
    text_eq(path, "/") || text_eq(path, "/bin") || text_eq(path, "/etc") || text_eq(path, "/usr")
        || text_eq(path, "/var") || text_eq(path, "/home")
}

fn validate_action(
    action: &ActionCommand,
    options: &ValidationOptions,
    errors: &mut Vec<ScriptValidationError>,
    line: usize,
)
    ensures
        issues_view(final(errors)@) == issues_view(old(errors)@) + action_issues(
            action@,
            *options,
            line as nat,
        ),
{
    let ghost before = issues_view(errors@);
    if !options.allow_actions {
        let message = join(
            name_of_action(action),
            " action found. Use --allow-actions to enable destructive actions",
        );
        push_issue(errors, line, message, ValidationSeverity::Error);
    }
    let ghost refused = issues_view(errors@);
    match action {
        ActionCommand::DeleteFiles(d) => {
            if d.where_clause.is_none() {
                push_issue(
                    errors,
                    line,
                    String::from_str("DELETE FILES without WHERE clause will delete ALL files!"),
                    ValidationSeverity::Warning,
                );
            }
            if path_is_system(d.path.as_str()) {
                let message = join("DELETE FILES targeting system path: ", d.path.as_str());
                push_issue(errors, line, message, ValidationSeverity::Warning);
            }
            assert(issues_view(errors@) =~= before + action_issues(action@, *options, line as nat));
        },
        ActionCommand::KillProcess(_) => {
            assert(issues_view(errors@) =~= before + action_issues(action@, *options, line as nat));
        },
    }
}

fn validate_body(
    body: &Vec<Command>,
    options: &ValidationOptions,
    errors: &mut Vec<ScriptValidationError>,
    line: usize,
    depth: u128,
    in_life: bool,
)
    ensures
        issues_view(final(errors)@) == issues_view(old(errors)@) + body_issues(
            body_view(*body),
            *options,
            line as nat,
            depth as nat,
            in_life,
        ),
    decreases body, 1nat,
{
    let ghost before = issues_view(errors@);
    let ghost model = body_view(*body);
    let mut i: usize = 0;
    assert(model.take(0) =~= Seq::empty());
    while i < body.len()
        invariant
            i <= body.len(),
            model == body_view(*body),
            issues_view(errors@) =~= before + body_issues(
                model.take(i as int),
                *options,
                line as nat,
                depth as nat,
                in_life,
            ),
        decreases body.len() - i,
    {
        validate_within(&body[i], options, errors, line, depth, in_life);
        proof {
            assert(model.take(i + 1).drop_last() =~= model.take(i as int));
            assert(model.take(i + 1).last() == body[i as int]@);
        }
        i = i + 1;
    }
    assert(model.take(body.len() as int) =~= model);
}

fn validate_within(
    cmd: &Command,
    options: &ValidationOptions,
    errors: &mut Vec<ScriptValidationError>,
    line: usize,
    depth: u128,
    in_life: bool,
)
    ensures
        issues_view(final(errors)@) == issues_view(old(errors)@) + command_issues(
            cmd@,
            *options,
            line as nat,
            depth as nat,
            in_life,
        ),
    decreases cmd, 0nat,
{
    let ghost before = issues_view(errors@);
    let ghost found = command_issues(cmd@, *options, line as nat, depth as nat, in_life);
    if depth > options.max_nesting_depth as u128 {
        let mut message = String::from_str("Maximum nesting depth (");
        push_decimal(&mut message, options.max_nesting_depth as u128);
        message.append(") exceeded");
        push_issue(errors, line, message, ValidationSeverity::Error);
        assert(issues_view(errors@) =~= before + found);
        return ;
    }
    match cmd {
        Command::Action(action) => {
            if in_life && !options.allow_life_actions {
                push_issue(
                    errors,
                    line,
                    String::from_str("LIFE blocks cannot contain destructive actions by default"),
                    ValidationSeverity::Error,
                );
            }
            validate_action(action, options, errors, line);
            assert(issues_view(errors@) =~= before + found);
        },
        Command::For(f) => {
            validate_body(&f.body, options, errors, line, depth + 1, in_life);
        },
        Command::If(i) => {
            validate_body(&i.then_body, options, errors, line, depth + 1, in_life);
            match &i.else_body {
                Some(else_body) => {
                    validate_body(else_body, options, errors, line, depth + 1, in_life);
                },
                None => {},
            }
            assert(issues_view(errors@) =~= before + found);
        },
        Command::Life(l) => {
            validate_body(&l.body, options, errors, line, depth + 1, true);
        },
        Command::Container(ContainerCommand::Create(create)) => {
            validate_body(&create.body, options, errors, line, depth + 1, in_life);
            if !create.options.allow_actions {
                warn_body(&create.body, create.name.as_str(), options, errors, line, depth + 1);
            }
            assert(issues_view(errors@) =~= before + found);
        },
        _ => {
            assert(issues_view(errors@) =~= before + found);
        },
    }
}

fn warn_body(
    body: &Vec<Command>,
    name: &str,
    options: &ValidationOptions,
    errors: &mut Vec<ScriptValidationError>,
    line: usize,
    depth: u128,
)
    ensures
        issues_view(final(errors)@) == issues_view(old(errors)@) + body_warnings(
            body_view(*body),
            name@,
            *options,
            line as nat,
            depth as nat,
        ),
    decreases body, 1nat,
{
    let ghost before = issues_view(errors@);
    let ghost model = body_view(*body);
    let mut i: usize = 0;
    assert(model.take(0) =~= Seq::empty());
    while i < body.len()
        invariant
            i <= body.len(),
            model == body_view(*body),
            issues_view(errors@) =~= before + body_warnings(
                model.take(i as int),
                name@,
                *options,
                line as nat,
                depth as nat,
            ),
        decreases body.len() - i,
    {
        warn_within(&body[i], name, options, errors, line, depth);
        proof {
            assert(model.take(i + 1).drop_last() =~= model.take(i as int));
            assert(model.take(i + 1).last() == body[i as int]@);
        }
        i = i + 1;
    }
    assert(model.take(body.len() as int) =~= model);
}

fn warn_within(
    cmd: &Command,
    name: &str,
    options: &ValidationOptions,
    errors: &mut Vec<ScriptValidationError>,
    line: usize,
    depth: u128,
)
    ensures
        issues_view(final(errors)@) == issues_view(old(errors)@) + command_warnings(
            cmd@,
            name@,
            *options,
            line as nat,
            depth as nat,
        ),
    decreases cmd, 0nat,
{
    let ghost before = issues_view(errors@);
    let ghost found = command_warnings(cmd@, name@, *options, line as nat, depth as nat);
    if depth > options.max_nesting_depth as u128 {
        assert(issues_view(errors@) =~= before + found);
        return ;
    }
    match cmd {
        Command::Action(action) => {
            let mut message = join3(name_of_action(action), " action in container '", name);
            message.append("' without ALLOW ACTIONS option");
            push_issue(errors, line, message, ValidationSeverity::Warning);
            assert(issues_view(errors@) =~= before + found);
        },
        Command::For(f) => {
            warn_body(&f.body, name, options, errors, line, depth + 1);
        },
        Command::If(i) => {
            warn_body(&i.then_body, name, options, errors, line, depth + 1);
            match &i.else_body {
                Some(else_body) => {
                    warn_body(else_body, name, options, errors, line, depth + 1);
                },
                None => {},
            }
            assert(issues_view(errors@) =~= before + found);
        },
        Command::Life(l) => {
            warn_body(&l.body, name, options, errors, line, depth + 1);
        },
        Command::Container(ContainerCommand::Create(create)) => {
            warn_body(&create.body, name, options, errors, line, depth + 1);
        },
        _ => {
            assert(issues_view(errors@) =~= before + found);
        },
    }
}

/// Validates one statement of a script that stands `depth` blocks down, and
/// adds what it finds to `errors`, each finding on the line `line`. Beyond
/// the greatest depth it adds one error and looks at nothing inside the
/// statement.
pub fn validate_command(
    cmd: &Command,
    options: &ValidationOptions,
    errors: &mut Vec<ScriptValidationError>,
    line: usize,
    depth: usize,
)
    ensures
        issues_view(final(errors)@) == issues_view(old(errors)@) + command_issues(
            cmd@,
            *options,
            line as nat,
            depth as nat,
            false,
        ),
{
    validate_within(cmd, options, errors, line, depth as u128, false);
}

/// Validates a script against the options and lists what it finds,
/// statement by statement in the order of the script.
pub fn validate_script(script: &Script, options: &ValidationOptions) -> (r: Vec<
    ScriptValidationError,
>)
    ensures
        issues_view(r@) == script_issues(script@, *options, script.statements.len() as nat),
{
    let mut errors: Vec<ScriptValidationError> = Vec::new();
    let mut i: usize = 0;
    assert(issues_view(errors@) =~= Seq::empty());
    while i < script.statements.len()
        invariant
            i <= script.statements.len(),
            issues_view(errors@) =~= script_issues(script@, *options, i as nat),
        decreases script.statements.len() - i,
    {
        validate_command(&script.statements[i], options, &mut errors, i + 1, 0);
        assert(script@[i as int] == script.statements[i as int]@);
        i = i + 1;
    }
    errors
}

/// Whether any finding is an error.
pub fn has_errors(errors: &[ScriptValidationError]) -> (r: bool)
    ensures
        r == has_error(issues_view(errors@)),
{
    let mut i: usize = 0;
    while i < errors.len()
        invariant
            i <= errors.len(),
            forall|j: int| 0 <= j < i ==> errors@[j].severity != ValidationSeverity::Error,
        decreases errors.len() - i,
    {
        if errors[i].severity == ValidationSeverity::Error {
            assert(issues_view(errors@)[i as int].severity == ValidationSeverity::Error);
            return true;
        }
        i = i + 1;
    }
    assert forall|j: int| 0 <= j < issues_view(errors@).len() implies issues_view(
        errors@,
    )[j].severity != ValidationSeverity::Error by {
        assert(issues_view(errors@)[j] == errors@[j]@);
    }
    false
}

/// Whether any finding is a warning.
pub fn has_warnings(errors: &[ScriptValidationError]) -> (r: bool)
    ensures
        r == has_warning(issues_view(errors@)),
{
    let mut i: usize = 0;
    while i < errors.len()
        invariant
            i <= errors.len(),
            forall|j: int| 0 <= j < i ==> errors@[j].severity != ValidationSeverity::Warning,
        decreases errors.len() - i,
    {
        if errors[i].severity == ValidationSeverity::Warning {
            assert(issues_view(errors@)[i as int].severity == ValidationSeverity::Warning);
            return true;
        }
        i = i + 1;
    }
    assert forall|j: int| 0 <= j < issues_view(errors@).len() implies issues_view(
        errors@,
    )[j].severity != ValidationSeverity::Warning by {
        assert(issues_view(errors@)[j] == errors@[j]@);
    }
    false
}

} // verus!
