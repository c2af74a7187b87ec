//! Descriptions of commands: what a statement would do, told without doing
//! it and without a look at the session or the system.

use vstd::prelude::*;
use vstd::string::StringExecFns;
use crate::ast::{
    body_view, ActionCommand, ActionView, Command, CommandView, ContainerCommand,
    ContainerCommandView, ContextCommand, ContextCommandView, Script,
};
use crate::display::{
    field_list_source, field_list_text, let_value_text, life_target_name, operator_text,
    show_target_name, target_name, value_text,
};
use crate::results::{DataView, ExecutionResult, ResultData, ResultView};
use crate::text::{decimal, join, join3, push_decimal};

verus! {

/// What `EXPLAIN` says of a command.
pub open spec fn explanation(cmd: CommandView) -> Seq<char> {
    match cmd {
        CommandView::Query(q) => "EXPLAIN: Would query "@ + target_name(q.target)
            + " with fields "@ + field_list_text(q.fields) + match q.from_path {
            Some(p) => " from path '"@ + p + "'"@,
            None => ""@,
        } + if q.where_clause is Some {
            " with filtering"@
        } else {
            ""@
        },
        CommandView::Action(ActionView::DeleteFiles { path, where_clause }) =>
            "EXPLAIN: Would delete files from '"@ + path + "' "@ + if where_clause is Some {
                "with filtering"@
            } else {
                "(all files - DANGEROUS!)"@
            },
        CommandView::Action(ActionView::KillProcess(_)) =>
            "EXPLAIN: Would kill processes matching filter criteria"@,
        CommandView::Context(c) => match c {
            ContextCommandView::EnterFolder(p) => "EXPLAIN: Would enter folder '"@ + p + "'"@,
            ContextCommandView::EnterFile(p) => "EXPLAIN: Would enter file '"@ + p + "'"@,
            ContextCommandView::Exit => "EXPLAIN: Would exit current context"@,
            ContextCommandView::Reset => "EXPLAIN: Would reset context to initial state"@,
            ContextCommandView::Show(t) => "EXPLAIN: Would show "@ + show_target_name(t),
        },
        CommandView::Let(l) => "EXPLAIN: Would set variable '"@ + l.name + "' to "@
            + let_value_text(l.value),
        CommandView::For(f) => "EXPLAIN: Would iterate '"@ + f.iterator_var + "' over "@
            + target_name(f.source_query.target) + " query"@ + if f.source_query.where_clause
            is Some {
            " with filtering"@
        } else {
            ""@
        } + " and execute "@ + decimal(f.body.len()) + " statement(s)"@,
        CommandView::If(i) => "EXPLAIN: Would check IF "@ + target_name(i.condition.target)
            + " "@ + i.condition.field + " "@ + operator_text(i.condition.operator) + " "@
            + value_text(i.condition.value) + " THEN execute "@ + decimal(i.then_body.len())
            + " statement(s)"@ + match i.else_body {
            Some(e) => " ELSE execute "@ + decimal(e.len()) + " statement(s)"@,
            None => ""@,
        },
        CommandView::Life(l) => "EXPLAIN: Would start LIFE monitoring for "@ + life_target_name(
            l.target,
        ) + " and execute "@ + decimal(l.body.len()) + " statement(s) on changes"@,
        CommandView::Print(p) => "EXPLAIN: Would print "@ + decimal(p.len()) + " expression(s)"@,
        CommandView::Container(c) => match c {
            ContainerCommandView::Create(create) => "EXPLAIN: Would create container '"@
                + create.name + "' with "@ + decimal(create.body.len())
                + " initialization statement(s)"@ + if create.options.allow_actions {
                " [ALLOW ACTIONS]"@
            } else {
                ""@
            } + if create.options.readonly {
                " [READONLY]"@
            } else {
                ""@
            },
            ContainerCommandView::Switch(name) => "EXPLAIN: Would switch to container '"@ + name
                + "'"@,
            ContainerCommandView::List => "EXPLAIN: Would list all containers"@,
            ContainerCommandView::Destroy(name) => "EXPLAIN: Would destroy container '"@ + name
                + "'"@,
            ContainerCommandView::Export { name, path } => "EXPLAIN: Would export container '"@
                + name + "' to '"@ + path + "'"@,
        },
        CommandView::Explain(_) => "EXPLAIN: Nested EXPLAIN not supported"@,
    }
}

/// One line that sums a command up.
pub open spec fn summary(cmd: CommandView) -> Seq<char>
    decreases cmd,
{
    match cmd {
        CommandView::Query(q) => "SELECT "@ + target_name(q.target) + " "@ + field_list_source(
            q.fields,
        ) + " "@ + match q.from_path {
            Some(p) => "FROM "@ + p + " "@,
            None => ""@,
        } + if q.where_clause is Some {
            "with filtering"@
        } else {
            ""@
        },
        CommandView::Action(ActionView::DeleteFiles { path, where_clause }) =>
            "DELETE FILES FROM "@ + path + " "@ + if where_clause is Some {
                "with filtering"@
            } else {
                ""@
            },
        CommandView::Action(ActionView::KillProcess(_)) => "KILL PROCESS with filtering"@,
        CommandView::Context(c) => match c {
            ContextCommandView::EnterFolder(p) => "ENTER FOLDER "@ + p,
            ContextCommandView::EnterFile(p) => "ENTER FILE "@ + p,
            ContextCommandView::Exit => "EXIT"@,
            ContextCommandView::Reset => "RESET"@,
            ContextCommandView::Show(t) => "SHOW "@ + show_target_name(t),
        },
        CommandView::Let(l) => "LET "@ + l.name + " = "@ + let_value_text(l.value),
        CommandView::For(f) => "FOR "@ + f.iterator_var + " IN "@ + target_name(
            f.source_query.target,
        ) + " ("@ + decimal(f.body.len()) + " statements)"@,
        CommandView::If(i) => "IF "@ + target_name(i.condition.target) + " "@ + i.condition.field
            + " "@ + operator_text(i.condition.operator) + " "@ + value_text(i.condition.value)
            + " ("@ + decimal(i.then_body.len()) + " then, "@ + decimal(
            match i.else_body {
                Some(e) => e.len(),
                None => 0,
            },
        ) + " else)"@,
        CommandView::Life(l) => "LIFE MONITOR "@ + life_target_name(l.target) + " ("@ + decimal(
            l.body.len(),
        ) + " statements)"@,
        CommandView::Print(p) => "PRINT ("@ + decimal(p.len()) + " expressions)"@,
        CommandView::Container(c) => match c {
            ContainerCommandView::Create(create) => "CREATE CONTAINER \""@ + create.name
                + "\" ("@ + decimal(create.body.len()) + " statements)"@,
            ContainerCommandView::Switch(name) => "SWITCH CONTAINER \""@ + name + "\""@,
            ContainerCommandView::List => "LIST CONTAINERS"@,
            ContainerCommandView::Destroy(name) => "DESTROY CONTAINER \""@ + name + "\""@,
            ContainerCommandView::Export { name, path } => "EXPORT CONTAINER \""@ + name
                + "\" TO \""@ + path + "\""@,
        },
        CommandView::Explain(inner) => "EXPLAIN "@ + summary(*inner),
    }
}

/// The numbered summaries of the first `count` statements of a script.
pub open spec fn summaries(script: Seq<CommandView>, count: nat) -> Seq<Seq<char>>
    decreases count,
{
    if count == 0 || count > script.len() {
        Seq::empty()
    } else {
        summaries(script, (count - 1) as nat).push(
            decimal(count) + ". "@ + summary(script[count - 1]),
        )
    }
}

/// An outcome that holds an explanation and nothing else.
pub open spec fn explanation_result(text: Seq<char>) -> ResultView {
    ResultView { data: DataView::Explanation(text), message: None }
}

fn push_count(out: &mut String, n: usize)
    ensures
        final(out)@ == old(out)@ + decimal(n as nat),
{
    push_decimal(out, n as u128);
}

fn explain_text(cmd: &Command) -> (r: String)
    ensures
        r@ == explanation(cmd@),
{
    match cmd {
        Command::Query(q) => {
            let mut out = String::from_str("EXPLAIN: Would query ");
            out.append(q.target.to_text());
            out.append(" with fields ");
            out.append(q.fields.to_debug_text().as_str());
            let from = match &q.from_path {
                Some(p) => join3(" from path '", p.as_str(), "'"),
                None => String::from_str(""),
            };
            out.append(from.as_str());
            out.append(
                if q.where_clause.is_some() {
                    " with filtering"
                } else {
                    ""
                },
            );
            out
        },
        Command::Action(ActionCommand::DeleteFiles(d)) => {
            let mut out = String::from_str("EXPLAIN: Would delete files from '");
            out.append(d.path.as_str());
            out.append("' ");
            if d.where_clause.is_some() {
                out.append("with filtering");
            } else {
                out.append("(all files - DANGEROUS!)");
            }
            out
        },
        Command::Action(ActionCommand::KillProcess(_)) => String::from_str(
            "EXPLAIN: Would kill processes matching filter criteria",
        ),
        Command::Context(c) => match c {
            ContextCommand::EnterFolder(p) => join3(
                "EXPLAIN: Would enter folder '",
                p.as_str(),
                "'",
            ),
            ContextCommand::EnterFile(p) => join3("EXPLAIN: Would enter file '", p.as_str(), "'"),
            ContextCommand::Exit => String::from_str("EXPLAIN: Would exit current context"),
            ContextCommand::Reset => String::from_str(
                "EXPLAIN: Would reset context to initial state",
            ),
            ContextCommand::Show(t) => join("EXPLAIN: Would show ", t.to_text()),
        },
        Command::Let(l) => {
            let mut out = String::from_str("EXPLAIN: Would set variable '");
            out.append(l.name.as_str());
            out.append("' to ");
            out.append(l.value.to_debug_text().as_str());
            out
        },
        Command::For(f) => {
            assert(body_view(f.body).len() == f.body.len());
            let mut out = String::from_str("EXPLAIN: Would iterate '");
            out.append(f.iterator_var.as_str());
            out.append("' over ");
            out.append(f.source_query.target.to_text());
            out.append(" query");
            out.append(
                if f.source_query.where_clause.is_some() {
                    " with filtering"
                } else {
                    ""
                },
            );
            out.append(" and execute ");
            push_count(&mut out, f.body.len());
            out.append(" statement(s)");
            out
        },
        Command::If(i) => {
            assert(body_view(i.then_body).len() == i.then_body.len());
            assert(i.else_body matches Some(e) ==> body_view(e).len() == e.len());
            let mut out = String::from_str("EXPLAIN: Would check IF ");
            out.append(i.condition.target.to_text());
            out.append(" ");
            out.append(i.condition.field.as_str());
            out.append(" ");
            out.append(i.condition.operator.to_text());
            out.append(" ");
            out.append(i.condition.value.to_text().as_str());
            out.append(" THEN execute ");
            push_count(&mut out, i.then_body.len());
            out.append(" statement(s)");
            let otherwise = match &i.else_body {
                Some(e) => {
                    let mut part = String::from_str(" ELSE execute ");
                    push_count(&mut part, e.len());
                    part.append(" statement(s)");
                    part
                },
                None => String::from_str(""),
            };
            out.append(otherwise.as_str());
            out
        },
        Command::Life(l) => {
            assert(body_view(l.body).len() == l.body.len());
            let mut out = String::from_str("EXPLAIN: Would start LIFE monitoring for ");
            out.append(l.target.to_text());
            out.append(" and execute ");
            push_count(&mut out, l.body.len());
            out.append(" statement(s) on changes");
            out
        },
        Command::Print(p) => {
            let mut out = String::from_str("EXPLAIN: Would print ");
            push_count(&mut out, p.expressions.len());
            out.append(" expression(s)");
            out
        },
        Command::Container(c) => match c {
            ContainerCommand::Create(create) => {
                assert(body_view(create.body).len() == create.body.len());
                let mut out = String::from_str("EXPLAIN: Would create container '");
                out.append(create.name.as_str());
                out.append("' with ");
                push_count(&mut out, create.body.len());
                out.append(" initialization statement(s)");
                out.append(
                    if create.options.allow_actions {
                        " [ALLOW ACTIONS]"
                    } else {
                        ""
                    },
                );
                out.append(
                    if create.options.readonly {
                        " [READONLY]"
                    } else {
                        ""
                    },
                );
                out
            },
            ContainerCommand::Switch(name) => join3(
                "EXPLAIN: Would switch to container '",
                name.as_str(),
                "'",
            ),
            ContainerCommand::List => String::from_str("EXPLAIN: Would list all containers"),
            ContainerCommand::Destroy(name) => join3(
                "EXPLAIN: Would destroy container '",
                name.as_str(),
                "'",
            ),
            ContainerCommand::Export(e) => {
                let mut out = String::from_str("EXPLAIN: Would export container '");
                out.append(e.name.as_str());
                out.append("' to '");
                out.append(e.path.as_str());
                out.append("'");
                out
            },
        },
        Command::Explain(_) => String::from_str("EXPLAIN: Nested EXPLAIN not supported"),
    }
}

/// Describes what `cmd` would do. Nothing is run, read or changed.
pub fn execute_explain(cmd: &Command) -> (r: ExecutionResult)
    ensures
        r@ == explanation_result(explanation(cmd@)),
{
    ExecutionResult { data: ResultData::Explanation(explain_text(cmd)), message: None }
}

/// Sums a command up in one line.
pub fn explain_command(cmd: &Command) -> (r: String)
    ensures
        r@ == summary(cmd@),
    decreases cmd,
{
    match cmd {
        Command::Query(q) => {
            let mut out = String::from_str("SELECT ");
            out.append(q.target.to_text());
            out.append(" ");
            out.append(q.fields.to_source().as_str());
            out.append(" ");
            let from = match &q.from_path {
                Some(p) => join3("FROM ", p.as_str(), " "),
                None => String::from_str(""),
            };
            out.append(from.as_str());
            out.append(
                if q.where_clause.is_some() {
                    "with filtering"
                } else {
                    ""
                },
            );
            out
        },
        Command::Action(ActionCommand::DeleteFiles(d)) => {
            let mut out = String::from_str("DELETE FILES FROM ");
            out.append(d.path.as_str());
            out.append(" ");
            out.append(
                if d.where_clause.is_some() {
                    "with filtering"
                } else {
                    ""
                },
            );
            out
        },
        Command::Action(ActionCommand::KillProcess(_)) => String::from_str(
            "KILL PROCESS with filtering",
        ),
        Command::Context(c) => match c {
            ContextCommand::EnterFolder(p) => join("ENTER FOLDER ", p.as_str()),
            ContextCommand::EnterFile(p) => join("ENTER FILE ", p.as_str()),
            ContextCommand::Exit => String::from_str("EXIT"),
            ContextCommand::Reset => String::from_str("RESET"),
            ContextCommand::Show(t) => join("SHOW ", t.to_text()),
        },
        Command::Let(l) => {
            let mut out = String::from_str("LET ");
            out.append(l.name.as_str());
            out.append(" = ");
            out.append(l.value.to_debug_text().as_str());
            out
        },
        Command::For(f) => {
            assert(body_view(f.body).len() == f.body.len());
            let mut out = String::from_str("FOR ");
            out.append(f.iterator_var.as_str());
            out.append(" IN ");
            out.append(f.source_query.target.to_text());
            out.append(" (");
            push_count(&mut out, f.body.len());
            out.append(" statements)");
            out
        },
        Command::If(i) => {
            assert(body_view(i.then_body).len() == i.then_body.len());
            assert(i.else_body matches Some(e) ==> body_view(e).len() == e.len());
            let mut out = String::from_str("IF ");
            out.append(i.condition.target.to_text());
            out.append(" ");
            out.append(i.condition.field.as_str());
            out.append(" ");
            out.append(i.condition.operator.to_text());
            out.append(" ");
            out.append(i.condition.value.to_text().as_str());
            out.append(" (");
            push_count(&mut out, i.then_body.len());
            out.append(" then, ");
            let otherwise: usize = match &i.else_body {
                Some(e) => e.len(),
                None => 0,
            };
            push_count(&mut out, otherwise);
            out.append(" else)");
            out
        },
        Command::Life(l) => {
            assert(body_view(l.body).len() == l.body.len());
            let mut out = String::from_str("LIFE MONITOR ");
            out.append(l.target.to_text());
            out.append(" (");
            push_count(&mut out, l.body.len());
            out.append(" statements)");
            out
        },
        Command::Print(p) => {
            let mut out = String::from_str("PRINT (");
            push_count(&mut out, p.expressions.len());
            out.append(" expressions)");
            out
        },
        Command::Container(c) => match c {
            ContainerCommand::Create(create) => {
                assert(body_view(create.body).len() == create.body.len());
                let mut out = String::from_str("CREATE CONTAINER \"");
                out.append(create.name.as_str());
                out.append("\" (");
                push_count(&mut out, create.body.len());
                out.append(" statements)");
                out
            },
            ContainerCommand::Switch(name) => join3("SWITCH CONTAINER \"", name.as_str(), "\""),
            ContainerCommand::List => String::from_str("LIST CONTAINERS"),
            ContainerCommand::Destroy(name) => join3("DESTROY CONTAINER \"", name.as_str(), "\""),
            ContainerCommand::Export(e) => {
                let mut out = String::from_str("EXPORT CONTAINER \"");
                out.append(e.name.as_str());
                out.append("\" TO \"");
                out.append(e.path.as_str());
                out.append("\"");
                out
            },
        },
        Command::Explain(inner) => join("EXPLAIN ", explain_command(inner).as_str()),
    }
}

/// Sums every statement of a script up, numbered from 1.
pub fn explain_script(script: &Script) -> (r: Vec<String>)
    ensures
        crate::ast::texts_view(r) == summaries(script@, script.statements.len() as nat),
{
    let mut lines: Vec<String> = Vec::new();
    let mut i: usize = 0;
    assert(crate::ast::texts_view(lines) =~= summaries(script@, 0));
    while i < script.statements.len()
        invariant
            i <= script.statements.len(),
            crate::ast::texts_view(lines) =~= summaries(script@, i as nat),
        decreases script.statements.len() - i,
    {
        let mut line = String::new();
        push_count(&mut line, i + 1);
        line.append(". ");
        line.append(explain_command(&script.statements[i]).as_str());
        assert(script@[i as int] == script.statements[i as int]@);
        lines.push(line);
        i = i + 1;
    }
    lines
}

} // verus!
