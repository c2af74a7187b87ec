//! The grammar, as functions from tokens to the models of commands.
//!
//! Keywords count in either case. A statement may be followed by one `;`.
//! A block is closed by `END` and the keyword that opened it.

use vstd::prelude::*;
use crate::ast::{
    ActionView, CommandView, CompareOp, ConditionExprView, ConditionView, ContainerCommandView,
    ContainerOptions, ContextCommandView, CreateView, FieldListView, ForView, IfConditionView,
    IfView, LetValueView, LetView, LifeTarget, LifeView, LogicalOp, PrintExprView, QueryTarget,
    QueryView, ShowTarget, ValueView,
};
use crate::lexer::{Keyword, Token, TokenKind};
use crate::number::number_of;
use crate::size::byte_count;
use crate::text::starts_with;

verus! {

/// What the parser looked for where it gave up.
#[derive(Clone, Copy, Debug, PartialEq, Eq, Structural)]
pub enum Expected {
    /// A character that a token can start with.
    Character,
    Statement,
    /// `SELECT`, `DELETE` or `KILL` after `EXPLAIN`.
    Explainable,
    Target,
    LifeTarget,
    ShowTarget,
    Field,
    Path,
    Name,
    Operator,
    Value,
    /// A number that can be held.
    Number,
    /// A byte count with a numeral and a unit.
    Size,
    /// `ALLOW ACTIONS` or `READONLY`.
    Permission,
    Expression,
    Word(Keyword),
    /// The end of the text.
    End,
}

/// Where the parser gave up, and on what.
#[derive(Clone, Copy, Debug, PartialEq, Eq, Structural)]
pub struct ParseFailure {
    /// The characters `start..end` are the offending fragment; both are the
    /// length of the text where the text ended too early.
    pub start: usize,
    pub end: usize,
    pub expected: Expected,
}

/// A text and its tokens.
pub ghost struct Source {
    pub text: Seq<char>,
    pub tokens: Seq<Token>,
}

/// The query target that a keyword names.
pub open spec fn target_of(k: Keyword) -> Option<QueryTarget> {
    match k {
        Keyword::Cpu => Some(QueryTarget::Cpu),
        Keyword::Memory => Some(QueryTarget::Memory),
        Keyword::Disk => Some(QueryTarget::Disk),
        Keyword::Network => Some(QueryTarget::Network),
        Keyword::System => Some(QueryTarget::System),
        Keyword::Battery => Some(QueryTarget::Battery),
        Keyword::Process => Some(QueryTarget::Process),
        Keyword::Processes => Some(QueryTarget::Process),
        Keyword::Files => Some(QueryTarget::Files),
        Keyword::Content => Some(QueryTarget::Content),
        _ => None,
    }
}

/// The monitored resource that a keyword names.
pub open spec fn life_target_of(k: Keyword) -> Option<LifeTarget> {
    match k {
        Keyword::Battery => Some(LifeTarget::Battery),
        Keyword::Memory => Some(LifeTarget::Memory),
        Keyword::Cpu => Some(LifeTarget::Cpu),
        Keyword::Disk => Some(LifeTarget::Disk),
        Keyword::Network => Some(LifeTarget::Network),
        Keyword::Processes => Some(LifeTarget::Processes),
        _ => None,
    }
}

/// Whether a statement or the end of a block can start with the keyword.
pub open spec fn opens_statement(k: Keyword) -> bool {
    k == Keyword::Select || k == Keyword::Delete || k == Keyword::Kill || k == Keyword::Explain
        || k == Keyword::Let || k == Keyword::Enter || k == Keyword::Exit || k == Keyword::Reset
        || k == Keyword::Show || k == Keyword::For || k == Keyword::If || k == Keyword::Life || k
        == Keyword::Print || k == Keyword::Create || k == Keyword::Switch || k == Keyword::List
        || k == Keyword::Destroy || k == Keyword::Export || k == Keyword::End || k
        == Keyword::Else
}

impl Source {
    /// The kind of the token at `pos`, or `None` behind the last token.
    pub open spec fn kind(self, pos: int) -> Option<TokenKind> {
        if 0 <= pos < self.tokens.len() {
            Some(self.tokens[pos].kind)
        } else {
            None
        }
    }

    /// Whether the word `k` stands at `pos`.
    pub open spec fn is(self, pos: int, k: Keyword) -> bool {
        self.kind(pos) == Some(TokenKind::Word(k))
    }

    /// The characters of the token at `pos`.
    pub open spec fn lexeme(self, pos: int) -> Seq<char> {
        self.text.subrange(self.tokens[pos].start as int, self.tokens[pos].end as int)
    }

    /// The characters between the quotes of the token at `pos`.
    pub open spec fn quoted(self, pos: int) -> Seq<char> {
        self.text.subrange(self.tokens[pos].start + 1, self.tokens[pos].end - 1)
    }

    /// The failure on the token at `pos`, or on the end of the text.
    pub open spec fn fails(self, pos: int, expected: Expected) -> ParseFailure {
        if 0 <= pos < self.tokens.len() {
            ParseFailure {
                start: self.tokens[pos].start,
                end: self.tokens[pos].end,
                expected,
            }
        } else {
            ParseFailure {
                start: self.text.len() as usize,
                end: self.text.len() as usize,
                expected,
            }
        }
    }

    /// The keyword `k` stands at `pos`.
    pub open spec fn word(self, pos: int, k: Keyword) -> Result<int, ParseFailure> {
        if self.is(pos, k) {
            Ok(pos + 1)
        } else {
            Err(self.fails(pos, Expected::Word(k)))
        }
    }

    /// A path: a quoted text, a bare path or a name.
    pub open spec fn path(self, pos: int) -> Result<(Seq<char>, int), ParseFailure> {
        match self.kind(pos) {
            Some(TokenKind::Text) => Ok((self.quoted(pos), pos + 1)),
            Some(TokenKind::Path) => Ok((self.lexeme(pos), pos + 1)),
            Some(TokenKind::Word(_)) => Ok((self.lexeme(pos), pos + 1)),
            _ => Err(self.fails(pos, Expected::Path)),
        }
    }

    /// The name of a container: a quoted text or a word.
    pub open spec fn name(self, pos: int) -> Result<(Seq<char>, int), ParseFailure> {
        match self.kind(pos) {
            Some(TokenKind::Text) => Ok((self.quoted(pos), pos + 1)),
            Some(TokenKind::Word(_)) => Ok((self.lexeme(pos), pos + 1)),
            _ => Err(self.fails(pos, Expected::Name)),
        }
    }

    /// A word, whatever it is, taken as what `expected` says.
    pub open spec fn ident(self, pos: int, expected: Expected) -> Result<
        (Seq<char>, int),
        ParseFailure,
    > {
        match self.kind(pos) {
            Some(TokenKind::Word(_)) => Ok((self.lexeme(pos), pos + 1)),
            _ => Err(self.fails(pos, expected)),
        }
    }

    /// A query target.
    pub open spec fn target(self, pos: int) -> Result<(QueryTarget, int), ParseFailure> {
        match self.kind(pos) {
            Some(TokenKind::Word(k)) => match target_of(k) {
                Some(t) => Ok((t, pos + 1)),
                None => Err(self.fails(pos, Expected::Target)),
            },
            _ => Err(self.fails(pos, Expected::Target)),
        }
    }

    /// A comparison operator, as a sign or as a word.
    pub open spec fn operator(self, pos: int) -> Result<(CompareOp, int), ParseFailure> {
        match self.kind(pos) {
            Some(TokenKind::Equal) => Ok((CompareOp::Equal, pos + 1)),
            Some(TokenKind::NotEqual) => Ok((CompareOp::NotEqual, pos + 1)),
            Some(TokenKind::Greater) => Ok((CompareOp::GreaterThan, pos + 1)),
            Some(TokenKind::GreaterEqual) => Ok((CompareOp::GreaterThanOrEqual, pos + 1)),
            Some(TokenKind::Less) => Ok((CompareOp::LessThan, pos + 1)),
            Some(TokenKind::LessEqual) => Ok((CompareOp::LessThanOrEqual, pos + 1)),
            Some(TokenKind::Word(Keyword::Like)) => Ok((CompareOp::Like, pos + 1)),
            Some(TokenKind::Word(Keyword::Contains)) => Ok((CompareOp::Contains, pos + 1)),
            Some(TokenKind::Word(Keyword::Matches)) => Ok((CompareOp::Matches, pos + 1)),
            _ => Err(self.fails(pos, Expected::Operator)),
        }
    }

    /// A literal or the name of a variable.
    pub open spec fn value(self, pos: int) -> Result<(ValueView, int), ParseFailure> {
        match self.kind(pos) {
            Some(TokenKind::Text) => Ok((ValueView::String(self.quoted(pos)), pos + 1)),
            Some(TokenKind::Number) => match number_of(self.lexeme(pos)) {
                Some(n) => Ok((ValueView::Number(n), pos + 1)),
                None => Err(self.fails(pos, Expected::Number)),
            },
            Some(TokenKind::Size) => match byte_count(self.lexeme(pos)) {
                Ok(bytes) => Ok((ValueView::Size(bytes), pos + 1)),
                Err(_) => Err(self.fails(pos, Expected::Size)),
            },
            Some(TokenKind::Word(Keyword::True)) => Ok((ValueView::Boolean(true), pos + 1)),
            Some(TokenKind::Word(Keyword::False)) => Ok((ValueView::Boolean(false), pos + 1)),
            Some(TokenKind::Word(_)) => Ok((ValueView::Identifier(self.lexeme(pos)), pos + 1)),
            _ => Err(self.fails(pos, Expected::Value)),
        }
    }

    /// `<field> <operator> <value>`.
    pub open spec fn condition(self, pos: int) -> Result<(ConditionView, int), ParseFailure> {
        match self.ident(pos, Expected::Field) {
            Err(e) => Err(e),
            Ok((field, p1)) => match self.operator(p1) {
                Err(e) => Err(e),
                Ok((operator, p2)) => match self.value(p2) {
                    Err(e) => Err(e),
                    Ok((value, p3)) => Ok((ConditionView { field, operator, value }, p3)),
                },
            },
        }
    }

    /// A chain of conditions: each `AND` or `OR` links the condition before
    /// it to the chain after it.
    pub open spec fn condition_expr(self, pos: int) -> Result<
        (ConditionExprView, int),
        ParseFailure,
    >
        decreases self.tokens.len() - pos,
    {
        match self.condition(pos) {
            Err(e) => Err(e),
            Ok((condition, p)) => {
                let link = if self.is(p, Keyword::And) {
                    Some(LogicalOp::And)
                } else if self.is(p, Keyword::Or) {
                    Some(LogicalOp::Or)
                } else {
                    None
                };
                match link {
                    Some(op) => if pos < p < self.tokens.len() {
                        match self.condition_expr(p + 1) {
                            Err(e) => Err(e),
                            Ok((rest, q)) => Ok(
                                (
                                    ConditionExprView {
                                        condition,
                                        next: Some((op, Box::new(rest))),
                                    },
                                    q,
                                ),
                            ),
                        }
                    } else {
                        Err(self.fails(p, Expected::Field))
                    },
                    None => Ok((ConditionExprView { condition, next: None }, p)),
                }
            },
        }
    }

    /// `WHERE <conditions>`, where there is one.
    pub open spec fn filter(self, pos: int) -> Result<
        (Option<Seq<ConditionExprView>>, int),
        ParseFailure,
    > {
        if self.is(pos, Keyword::Where) {
            match self.condition_expr(pos + 1) {
                Err(e) => Err(e),
                Ok((expr, p)) => Ok((Some(seq![expr]), p)),
            }
        } else {
            Ok((None, pos))
        }
    }

    /// The fields that follow the first: `, <field>` as often as it comes.
    pub open spec fn more_fields(self, pos: int, found: Seq<Seq<char>>) -> Result<
        (Seq<Seq<char>>, int),
        ParseFailure,
    >
        decreases self.tokens.len() - pos,
    {
        if self.kind(pos) == Some(TokenKind::Comma) {
            match self.ident(pos + 1, Expected::Field) {
                Err(e) => Err(e),
                Ok((field, p)) => if pos < p <= self.tokens.len() {
                    self.more_fields(p, found.push(field))
                } else {
                    Err(self.fails(pos, Expected::Field))
                },
            }
        } else {
            Ok((found, pos))
        }
    }

    /// `*` or `<field>, <field>, ...`.
    pub open spec fn fields(self, pos: int) -> Result<(FieldListView, int), ParseFailure> {
        if self.kind(pos) == Some(TokenKind::Star) {
            Ok((FieldListView::All, pos + 1))
        } else {
            match self.ident(pos, Expected::Field) {
                Err(e) => Err(e),
                Ok((first, p)) => match self.more_fields(p, seq![first]) {
                    Err(e) => Err(e),
                    Ok((all, q)) => Ok((FieldListView::Fields(all), q)),
                },
            }
        }
    }

    /// What follows `SELECT`: `<target> <fields> [FROM <path>] [WHERE ...]`.
    pub open spec fn query(self, pos: int) -> Result<(QueryView, int), ParseFailure> {
        match self.target(pos) {
            Err(e) => Err(e),
            Ok((target, p1)) => match self.fields(p1) {
                Err(e) => Err(e),
                Ok((fields, p2)) => {
                    let from = if self.is(p2, Keyword::From) {
                        match self.path(p2 + 1) {
                            Err(e) => Err(e),
                            Ok((path, p)) => Ok((Some(path), p)),
                        }
                    } else {
                        Ok((None, p2))
                    };
                    match from {
                        Err(e) => Err(e),
                        Ok((from_path, p3)) => match self.filter(p3) {
                            Err(e) => Err(e),
                            Ok((where_clause, p4)) => Ok(
                                (QueryView { target, fields, from_path, where_clause }, p4),
                            ),
                        },
                    }
                },
            }
        }
    }

    /// What follows `DELETE`: `FILES FROM <path> [WHERE ...]`.
    pub open spec fn delete(self, pos: int) -> Result<(ActionView, int), ParseFailure> {
        match self.word(pos, Keyword::Files) {
            Err(e) => Err(e),
            Ok(p1) => match self.word(p1, Keyword::From) {
                Err(e) => Err(e),
                Ok(p2) => match self.path(p2) {
                    Err(e) => Err(e),
                    Ok((path, p3)) => match self.filter(p3) {
                        Err(e) => Err(e),
                        Ok((where_clause, p4)) => Ok(
                            (ActionView::DeleteFiles { path, where_clause }, p4),
                        ),
                    },
                },
            },
        }
    }

    /// What follows `KILL`: `PROCESS WHERE ...`.
    pub open spec fn kill(self, pos: int) -> Result<(ActionView, int), ParseFailure> {
        if self.is(pos, Keyword::Process) || self.is(pos, Keyword::Processes) {
            match self.word(pos + 1, Keyword::Where) {
                Err(e) => Err(e),
                Ok(p) => match self.condition_expr(p) {
                    Err(e) => Err(e),
                    Ok((expr, q)) => Ok((ActionView::KillProcess(seq![expr]), q)),
                },
            }
        } else {
            Err(self.fails(pos, Expected::Word(Keyword::Process)))
        }
    }

    /// The value of a `LET`. A quoted text that starts with `/` or `~/` is a
    /// path, and so is a bare path; a bare word is a text.
    pub open spec fn let_value(self, pos: int) -> Result<(LetValueView, int), ParseFailure> {
        match self.kind(pos) {
            Some(TokenKind::Text) => {
                let content = self.quoted(pos);
                if starts_with(content, seq!['/']) || starts_with(content, seq!['~', '/']) {
                    Ok((LetValueView::Path(content), pos + 1))
                } else {
                    Ok((LetValueView::String(content), pos + 1))
                }
            },
            Some(TokenKind::Number) => match number_of(self.lexeme(pos)) {
                Some(n) => Ok((LetValueView::Number(n), pos + 1)),
                None => Err(self.fails(pos, Expected::Number)),
            },
            Some(TokenKind::Size) => match byte_count(self.lexeme(pos)) {
                Ok(bytes) => Ok((LetValueView::Size(bytes), pos + 1)),
                Err(_) => Err(self.fails(pos, Expected::Size)),
            },
            Some(TokenKind::Word(Keyword::True)) => Ok((LetValueView::Boolean(true), pos + 1)),
            Some(TokenKind::Word(Keyword::False)) => Ok((LetValueView::Boolean(false), pos + 1)),
            Some(TokenKind::Path) => Ok((LetValueView::Path(self.lexeme(pos)), pos + 1)),
            Some(TokenKind::Word(_)) => Ok((LetValueView::String(self.lexeme(pos)), pos + 1)),
            _ => Err(self.fails(pos, Expected::Value)),
        }
    }

    /// What follows `LET`: `<name> = <value>`.
    pub open spec fn binding(self, pos: int) -> Result<(LetView, int), ParseFailure> {
        match self.ident(pos, Expected::Name) {
            Err(e) => Err(e),
            Ok((name, p1)) => if self.kind(p1) == Some(TokenKind::Equal) {
                match self.let_value(p1 + 1) {
                    Err(e) => Err(e),
                    Ok((value, p2)) => Ok((LetView { name, value }, p2)),
                }
            } else {
                Err(self.fails(p1, Expected::Operator))
            },
        }
    }

    /// What follows `ENTER`: `FOLDER <path>` or `FILE <path>`.
    pub open spec fn enter(self, pos: int) -> Result<(ContextCommandView, int), ParseFailure> {
        if self.is(pos, Keyword::Folder) {
            match self.path(pos + 1) {
                Err(e) => Err(e),
                Ok((path, p)) => Ok((ContextCommandView::EnterFolder(path), p)),
            }
        } else if self.is(pos, Keyword::File) {
            match self.path(pos + 1) {
                Err(e) => Err(e),
                Ok((path, p)) => Ok((ContextCommandView::EnterFile(path), p)),
            }
        } else {
            Err(self.fails(pos, Expected::Word(Keyword::Folder)))
        }
    }

    /// What follows `SHOW`: `CONTEXT`, `VARIABLES` or `HISTORY`.
    pub open spec fn show(self, pos: int) -> Result<(ContextCommandView, int), ParseFailure> {
        if self.is(pos, Keyword::Context) {
            Ok((ContextCommandView::Show(ShowTarget::Context), pos + 1))
        } else if self.is(pos, Keyword::Variables) {
            Ok((ContextCommandView::Show(ShowTarget::Variables), pos + 1))
        } else if self.is(pos, Keyword::History) {
            Ok((ContextCommandView::Show(ShowTarget::History), pos + 1))
        } else {
            Err(self.fails(pos, Expected::ShowTarget))
        }
    }

    /// One expression of a `PRINT`: a target and a field, a quoted text, or
    /// the name of a variable. A target counts as one only where a word
    /// follows that cannot open a statement.
    pub open spec fn print_expr(self, pos: int) -> Result<(PrintExprView, int), ParseFailure> {
        match self.kind(pos) {
            Some(TokenKind::Text) => Ok((PrintExprView::String(self.quoted(pos)), pos + 1)),
            Some(TokenKind::Word(k)) => match (target_of(k), self.kind(pos + 1)) {
                (Some(target), Some(TokenKind::Word(next))) => if opens_statement(next) {
                    Ok((PrintExprView::Variable(self.lexeme(pos)), pos + 1))
                } else {
                    Ok(
                        (
                            PrintExprView::QueryField { target, field: self.lexeme(pos + 1) },
                            pos + 2,
                        ),
                    )
                },
                _ => Ok((PrintExprView::Variable(self.lexeme(pos)), pos + 1)),
            },
            _ => Err(self.fails(pos, Expected::Expression)),
        }
    }

    /// The expressions that follow the first: `, <expression>` as often as
    /// it comes.
    pub open spec fn more_exprs(self, pos: int, found: Seq<PrintExprView>) -> Result<
        (Seq<PrintExprView>, int),
        ParseFailure,
    >
        decreases self.tokens.len() - pos,
    {
        if self.kind(pos) == Some(TokenKind::Comma) {
            match self.print_expr(pos + 1) {
                Err(e) => Err(e),
                Ok((expr, p)) => if pos < p <= self.tokens.len() {
                    self.more_exprs(p, found.push(expr))
                } else {
                    Err(self.fails(pos, Expected::Expression))
                },
            }
        } else {
            Ok((found, pos))
        }
    }

    /// What follows `PRINT`: `<expression>, <expression>, ...`.
    pub open spec fn print(self, pos: int) -> Result<(Seq<PrintExprView>, int), ParseFailure> {
        match self.print_expr(pos) {
            Err(e) => Err(e),
            Ok((first, p)) => self.more_exprs(p, seq![first]),
        }
    }

    /// One permission of a container: `ALLOW ACTIONS` or `READONLY`.
    pub open spec fn permission(self, pos: int, found: ContainerOptions) -> Result<
        (ContainerOptions, int),
        ParseFailure,
    > {
        if self.is(pos, Keyword::Allow) {
            match self.word(pos + 1, Keyword::Actions) {
                Err(e) => Err(e),
                Ok(p) => Ok((ContainerOptions { allow_actions: true, ..found }, p)),
            }
        } else if self.is(pos, Keyword::Readonly) {
            Ok((ContainerOptions { readonly: true, ..found }, pos + 1))
        } else {
            Err(self.fails(pos, Expected::Permission))
        }
    }

    /// The permissions that follow the first: `, <permission>` as often as
    /// it comes.
    pub open spec fn more_permissions(self, pos: int, found: ContainerOptions) -> Result<
        (ContainerOptions, int),
        ParseFailure,
    >
        decreases self.tokens.len() - pos,
    {
        if self.kind(pos) == Some(TokenKind::Comma) {
            match self.permission(pos + 1, found) {
                Err(e) => Err(e),
                Ok((options, p)) => if pos < p <= self.tokens.len() {
                    self.more_permissions(p, options)
                } else {
                    Err(self.fails(pos, Expected::Permission))
                },
            }
        } else {
            Ok((found, pos))
        }
    }

    /// `WITH <permission>, ...`, where there is one.
    pub open spec fn permissions(self, pos: int) -> Result<(ContainerOptions, int), ParseFailure> {
        let none = ContainerOptions { allow_actions: false, readonly: false };
        if self.is(pos, Keyword::With) {
            match self.permission(pos + 1, none) {
                Err(e) => Err(e),
                Ok((first, p)) => self.more_permissions(p, first),
            }
        } else {
            Ok((none, pos))
        }
    }

    /// The condition of an `IF`: `[SELECT] <target> <field> <operator>
    /// <value>`.
    pub open spec fn if_condition(self, pos: int) -> Result<(IfConditionView, int), ParseFailure> {
        let p0 = if self.is(pos, Keyword::Select) {
            pos + 1
        } else {
            pos
        };
        match self.target(p0) {
            Err(e) => Err(e),
            Ok((target, p1)) => match self.ident(p1, Expected::Field) {
                Err(e) => Err(e),
                Ok((field, p2)) => match self.operator(p2) {
                    Err(e) => Err(e),
                    Ok((operator, p3)) => match self.value(p3) {
                        Err(e) => Err(e),
                        Ok((value, p4)) => Ok(
                            (IfConditionView { target, field, operator, value }, p4),
                        ),
                    },
                },
            },
        }
    }

    /// `SELECT ...`, from the keyword on.
    pub open spec fn select_statement(self, pos: int) -> Result<(CommandView, int), ParseFailure> {
        match self.query(pos + 1) {
            Err(e) => Err(e),
            Ok((q, p)) => Ok((CommandView::Query(q), p)),
        }
    }

    /// `DELETE ...` or `KILL ...`, from the keyword on.
    pub open spec fn action_statement(self, pos: int) -> Result<(CommandView, int), ParseFailure> {
        let action = if self.is(pos, Keyword::Delete) {
            self.delete(pos + 1)
        } else {
            self.kill(pos + 1)
        };
        match action {
            Err(e) => Err(e),
            Ok((a, p)) => Ok((CommandView::Action(a), p)),
        }
    }

    /// `LET ...`, from the keyword on.
    pub open spec fn let_statement(self, pos: int) -> Result<(CommandView, int), ParseFailure> {
        match self.binding(pos + 1) {
            Err(e) => Err(e),
            Ok((l, p)) => Ok((CommandView::Let(l), p)),
        }
    }

    /// `ENTER ...`, `EXIT [CONTEXT]`, `RESET [CONTEXT]` or `SHOW ...`, from
    /// the keyword on.
    pub open spec fn context_statement(self, pos: int) -> Result<(CommandView, int), ParseFailure> {
        let after = if self.is(pos + 1, Keyword::Context) {
            pos + 2
        } else {
            pos + 1
        };
        if self.is(pos, Keyword::Exit) {
            Ok((CommandView::Context(ContextCommandView::Exit), after))
        } else if self.is(pos, Keyword::Reset) {
            Ok((CommandView::Context(ContextCommandView::Reset), after))
        } else {
            let command = if self.is(pos, Keyword::Enter) {
                self.enter(pos + 1)
            } else {
                self.show(pos + 1)
            };
            match command {
                Err(e) => Err(e),
                Ok((c, p)) => Ok((CommandView::Context(c), p)),
            }
        }
    }

    /// `PRINT ...`, from the keyword on.
    pub open spec fn print_statement(self, pos: int) -> Result<(CommandView, int), ParseFailure> {
        match self.print(pos + 1) {
            Err(e) => Err(e),
            Ok((exprs, p)) => Ok((CommandView::Print(exprs), p)),
        }
    }

    /// `EXPLAIN` and the query or action that it explains, from the keyword
    /// on.
    pub open spec fn explain_statement(self, pos: int) -> Result<(CommandView, int), ParseFailure> {
        if self.is(pos + 1, Keyword::Select) {
            match self.query(pos + 2) {
                Err(e) => Err(e),
                Ok((q, p)) => Ok((CommandView::Explain(Box::new(CommandView::Query(q))), p)),
            }
        } else if self.is(pos + 1, Keyword::Delete) || self.is(pos + 1, Keyword::Kill) {
            match self.action_statement(pos + 1) {
                Err(e) => Err(e),
                Ok((a, p)) => Ok((CommandView::Explain(Box::new(a)), p)),
            }
        } else {
            Err(self.fails(pos + 1, Expected::Explainable))
        }
    }

    /// `SWITCH CONTAINER <name>`, `DESTROY CONTAINER <name>`, `LIST
    /// CONTAINERS` or `EXPORT CONTAINER <name> TO <path>`, from the keyword
    /// on.
    pub open spec fn container_statement(self, pos: int) -> Result<
        (CommandView, int),
        ParseFailure,
    > {
        if self.is(pos, Keyword::List) {
            match self.word(pos + 1, Keyword::Containers) {
                Err(e) => Err(e),
                Ok(p) => Ok((CommandView::Container(ContainerCommandView::List), p)),
            }
        } else {
            match self.word(pos + 1, Keyword::Container) {
                Err(e) => Err(e),
                Ok(p1) => match self.name(p1) {
                    Err(e) => Err(e),
                    Ok((name, p2)) => if self.is(pos, Keyword::Switch) {
                        Ok((CommandView::Container(ContainerCommandView::Switch(name)), p2))
                    } else if self.is(pos, Keyword::Destroy) {
                        Ok((CommandView::Container(ContainerCommandView::Destroy(name)), p2))
                    } else {
                        match self.word(p2, Keyword::To) {
                            Err(e) => Err(e),
                            Ok(p3) => match self.path(p3) {
                                Err(e) => Err(e),
                                Ok((path, p4)) => Ok(
                                    (
                                        CommandView::Container(
                                            ContainerCommandView::Export { name, path },
                                        ),
                                        p4,
                                    ),
                                ),
                            },
                        }
                    },
                },
            }
        }
    }

    /// A statement that holds no block, from its first keyword on; `None`
    /// where the keyword at `pos` opens no such statement.
    pub open spec fn simple(self, pos: int) -> Option<Result<(CommandView, int), ParseFailure>> {
        if self.is(pos, Keyword::Select) {
            Some(self.select_statement(pos))
        } else if self.is(pos, Keyword::Delete) || self.is(pos, Keyword::Kill) {
            Some(self.action_statement(pos))
        } else if self.is(pos, Keyword::Let) {
            Some(self.let_statement(pos))
        } else if self.is(pos, Keyword::Enter) || self.is(pos, Keyword::Exit) || self.is(
            pos,
            Keyword::Reset,
        ) || self.is(pos, Keyword::Show) {
            Some(self.context_statement(pos))
        } else if self.is(pos, Keyword::Print) {
            Some(self.print_statement(pos))
        } else if self.is(pos, Keyword::Explain) {
            Some(self.explain_statement(pos))
        } else if self.is(pos, Keyword::Switch) || self.is(pos, Keyword::Destroy) || self.is(
            pos,
            Keyword::List,
        ) || self.is(pos, Keyword::Export) {
            Some(self.container_statement(pos))
        } else {
            None
        }
    }

    /// The end of a block: `END` and the keyword that opened the block.
    pub open spec fn closes(self, pos: int, opener: Keyword) -> Result<int, ParseFailure> {
        match self.word(pos, Keyword::End) {
            Err(e) => Err(e),
            Ok(p) => self.word(p, opener),
        }
    }

    /// One statement.
    pub open spec fn statement(self, pos: int) -> Result<(CommandView, int), ParseFailure>
        decreases self.tokens.len() - pos, 1nat,
    {
        if pos < 0 || pos >= self.tokens.len() {
            Err(self.fails(pos, Expected::Statement))
        } else if self.is(pos, Keyword::For) {
            match self.for_loop(pos + 1) {
                Err(e) => Err(e),
                Ok((f, p)) => Ok((CommandView::For(f), p)),
            }
        } else if self.is(pos, Keyword::If) {
            match self.conditional(pos + 1) {
                Err(e) => Err(e),
                Ok((i, p)) => Ok((CommandView::If(i), p)),
            }
        } else if self.is(pos, Keyword::Life) {
            match self.life(pos + 1) {
                Err(e) => Err(e),
                Ok((l, p)) => Ok((CommandView::Life(l), p)),
            }
        } else if self.is(pos, Keyword::Create) {
            match self.create(pos + 1) {
                Err(e) => Err(e),
                Ok((c, p)) => Ok((CommandView::Container(ContainerCommandView::Create(c)), p)),
            }
        } else {
            match self.simple(pos) {
                Some(r) => r,
                None => Err(self.fails(pos, Expected::Statement)),
            }
        }
    }

    /// The statements of a block, up to the `END` or `ELSE` that follows
    /// them or to the end of the text. Each may be followed by one `;`.
    pub open spec fn block(self, pos: int, found: Seq<CommandView>) -> Result<
        (Seq<CommandView>, int),
        ParseFailure,
    >
        decreases self.tokens.len() - pos, 2nat,
    {
        if pos < 0 || pos >= self.tokens.len() || self.is(pos, Keyword::End) || self.is(
            pos,
            Keyword::Else,
        ) {
            Ok((found, pos))
        } else {
            match self.statement(pos) {
                Err(e) => Err(e),
                Ok((cmd, p)) => {
                    let q = if self.kind(p) == Some(TokenKind::Semicolon) {
                        p + 1
                    } else {
                        p
                    };
                    if pos < q <= self.tokens.len() {
                        self.block(q, found.push(cmd))
                    } else {
                        Err(self.fails(pos, Expected::Statement))
                    }
                },
            }
        }
    }

    /// A block that starts at `pos`, which has to lie behind `from`.
    pub open spec fn body(self, from: int, pos: int) -> Result<
        (Seq<CommandView>, int),
        ParseFailure,
    >
        decreases self.tokens.len() - from, 0nat,
    {
        if from < pos <= self.tokens.len() {
            self.block(pos, Seq::empty())
        } else {
            Err(self.fails(pos, Expected::Statement))
        }
    }

    /// What follows `FOR`: `<name> IN SELECT <query> DO <block> END FOR`.
    pub open spec fn for_loop(self, pos: int) -> Result<(ForView, int), ParseFailure>
        decreases self.tokens.len() - pos, 1nat,
    {
        match self.ident(pos, Expected::Name) {
            Err(e) => Err(e),
            Ok((iterator_var, p1)) => match self.word(p1, Keyword::In) {
                Err(e) => Err(e),
                Ok(p2) => match self.word(p2, Keyword::Select) {
                    Err(e) => Err(e),
                    Ok(p3) => match self.query(p3) {
                        Err(e) => Err(e),
                        Ok((source_query, p4)) => match self.word(p4, Keyword::Do) {
                            Err(e) => Err(e),
                            Ok(p5) => match self.body(pos, p5) {
                                Err(e) => Err(e),
                                Ok((body, p6)) => match self.closes(p6, Keyword::For) {
                                    Err(e) => Err(e),
                                    Ok(p7) => Ok((ForView { iterator_var, source_query, body }, p7)),
                                },
                            },
                        },
                    },
                },
            },
        }
    }

    /// What follows `IF`: `<condition> THEN <block> [ELSE <block>] END IF`.
    pub open spec fn conditional(self, pos: int) -> Result<(IfView, int), ParseFailure>
        decreases self.tokens.len() - pos, 1nat,
    {
        match self.if_condition(pos) {
            Err(e) => Err(e),
            Ok((condition, p1)) => match self.word(p1, Keyword::Then) {
                Err(e) => Err(e),
                Ok(p2) => match self.body(pos, p2) {
                    Err(e) => Err(e),
                    Ok((then_body, p3)) => {
                        let otherwise = if self.is(p3, Keyword::Else) {
                            match self.body(pos, p3 + 1) {
                                Err(e) => Err(e),
                                Ok((else_body, p)) => Ok((Some(else_body), p)),
                            }
                        } else {
                            Ok((None, p3))
                        };
                        match otherwise {
                            Err(e) => Err(e),
                            Ok((else_body, p4)) => match self.closes(p4, Keyword::If) {
                                Err(e) => Err(e),
                                Ok(p5) => Ok((IfView { condition, then_body, else_body }, p5)),
                            },
                        }
                    },
                },
            },
        }
    }

    /// What follows `LIFE`: `MONITOR <target> DO <block> END LIFE`.
    pub open spec fn life(self, pos: int) -> Result<(LifeView, int), ParseFailure>
        decreases self.tokens.len() - pos, 1nat,
    {
        match self.word(pos, Keyword::Monitor) {
            Err(e) => Err(e),
            Ok(p1) => {
                let target = match self.kind(p1) {
                    Some(TokenKind::Word(k)) => life_target_of(k),
                    _ => None,
                };
                match target {
                    None => Err(self.fails(p1, Expected::LifeTarget)),
                    Some(target) => match self.word(p1 + 1, Keyword::Do) {
                        Err(e) => Err(e),
                        Ok(p2) => match self.body(pos, p2) {
                            Err(e) => Err(e),
                            Ok((body, p3)) => match self.closes(p3, Keyword::Life) {
                                Err(e) => Err(e),
                                Ok(p4) => Ok((LifeView { target, body }, p4)),
                            },
                        },
                    },
                }
            },
        }
    }

    /// What follows `CREATE`: `CONTAINER <name> [WITH ...] DO <block> END
    /// CONTAINER`.
    pub open spec fn create(self, pos: int) -> Result<(CreateView, int), ParseFailure>
        decreases self.tokens.len() - pos, 1nat,
    {
        match self.word(pos, Keyword::Container) {
            Err(e) => Err(e),
            Ok(p1) => match self.name(p1) {
                Err(e) => Err(e),
                Ok((name, p2)) => match self.permissions(p2) {
                    Err(e) => Err(e),
                    Ok((options, p3)) => match self.word(p3, Keyword::Do) {
                        Err(e) => Err(e),
                        Ok(p4) => match self.body(pos, p4) {
                            Err(e) => Err(e),
                            Ok((body, p5)) => match self.closes(p5, Keyword::Container) {
                                Err(e) => Err(e),
                                Ok(p6) => Ok((CreateView { name, options, body }, p6)),
                            },
                        },
                    },
                },
            },
        }
    }

    /// A script: statements to the end of the text.
    pub open spec fn script(self) -> Result<Seq<CommandView>, ParseFailure> {
        match self.block(0, Seq::empty()) {
            Err(e) => Err(e),
            Ok((commands, p)) => if p >= self.tokens.len() {
                Ok(commands)
            } else {
                Err(self.fails(p, Expected::Statement))
            },
        }
    }

    /// A command: one statement, one `;` where there is one, and the end of
    /// the text.
    pub open spec fn command(self) -> Result<CommandView, ParseFailure> {
        match self.statement(0) {
            Err(e) => Err(e),
            Ok((cmd, p)) => {
                let q = if self.kind(p) == Some(TokenKind::Semicolon) {
                    p + 1
                } else {
                    p
                };
                if q >= self.tokens.len() {
                    Ok(cmd)
                } else {
                    Err(self.fails(q, Expected::End))
                }
            },
        }
    }
}

} // verus!
