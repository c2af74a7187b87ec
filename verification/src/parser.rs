//! The parser: from a text to a command, or to a script of commands.

use vstd::prelude::*;
use vstd::string::StringExecFns;
use crate::ast::{
    body_view, texts_view, ActionCommand, Command, CommandView, CompareOp, Condition,
    ConditionExpr, ContainerCommand, ContainerOptions, ContextCommand, CreateContainer,
    DeleteFilesCommand, ExportContainer, FieldList, ForLoop, IfCondition, IfStatement,
    KillProcessCommand, LetStatement, LetValue, LifeMonitor, LifeTarget, LogicalOp, PrintCommand,
    PrintExpr, QueryCommand, QueryTarget, Script, ShowTarget, Value, WhereClause,
};
use crate::error::{ArtaError, ErrorView};
use crate::lexer::{tokenize, tokens_fit, tokens_of, Keyword, Token, TokenKind};
use crate::number::{copy_range, parse_number};
use crate::size::read_size;
use crate::syntax::{life_target_of, opens_statement, target_of, Expected, ParseFailure, Source};
use crate::text::{chars_of, decimal, push_decimal, text_of, text_of_range};

verus! {

/// The parser of one text.
#[derive(Debug)]
pub struct ArtaParser<'a> {
    pub chars: &'a Vec<char>,
    pub tokens: &'a Vec<Token>,
}

fn target_for(k: Keyword) -> (r: Option<QueryTarget>)
    ensures
        r == target_of(k),
{
    match k {
        Keyword::Cpu => Some(QueryTarget::Cpu),
        Keyword::Memory => Some(QueryTarget::Memory),
        Keyword::Disk => Some(QueryTarget::Disk),
        Keyword::Network => Some(QueryTarget::Network),
        Keyword::System => Some(QueryTarget::System),
        Keyword::Battery => Some(QueryTarget::Battery),
        Keyword::Process => Some(QueryTarget::Process),
        Keyword::Processes => Some(QueryTarget::Process),
        Keyword::Files => Some(QueryTarget::Files),
        Keyword::Content => Some(QueryTarget::Content),
        _ => None,
    }
}

fn life_target_for(k: Keyword) -> (r: Option<LifeTarget>)
    ensures
        r == life_target_of(k),
{
    match k {
        Keyword::Battery => Some(LifeTarget::Battery),
        Keyword::Memory => Some(LifeTarget::Memory),
        Keyword::Cpu => Some(LifeTarget::Cpu),
        Keyword::Disk => Some(LifeTarget::Disk),
        Keyword::Network => Some(LifeTarget::Network),
        Keyword::Processes => Some(LifeTarget::Processes),
        _ => None,
    }
}

fn can_open_statement(k: Keyword) -> (r: bool)
    ensures
        r == opens_statement(k),
{
    match k {
        Keyword::Select => true,
        Keyword::Delete => true,
        Keyword::Kill => true,
        Keyword::Explain => true,
        Keyword::Let => true,
        Keyword::Enter => true,
        Keyword::Exit => true,
        Keyword::Reset => true,
        Keyword::Show => true,
        Keyword::For => true,
        Keyword::If => true,
        Keyword::Life => true,
        Keyword::Print => true,
        Keyword::Create => true,
        Keyword::Switch => true,
        Keyword::List => true,
        Keyword::Destroy => true,
        Keyword::Export => true,
        Keyword::End => true,
        Keyword::Else => true,
        _ => false,
    }
}

impl<'a> ArtaParser<'a> {
    pub open spec fn view(&self) -> Source {
        Source { text: self.chars@, tokens: self.tokens@ }
    }

    /// The tokens lie within the text.
    pub open spec fn wf(&self) -> bool {
        tokens_fit(self.chars@, self.tokens@)
    }

    fn kind(&self, pos: usize) -> (r: Option<TokenKind>)
        ensures
            r == self@.kind(pos as int),
    {
        if pos < self.tokens.len() {
            Some(self.tokens[pos].kind)
        } else {
            None
        }
    }

    fn is(&self, pos: usize, k: Keyword) -> (r: bool)
        ensures
            r == self@.is(pos as int, k),
    {
        match self.kind(pos) {
            Some(TokenKind::Word(found)) => found == k,
            _ => false,
        }
    }

    fn lexeme(&self, pos: usize) -> (r: String)
        requires
            self.wf(),
            pos < self.tokens.len(),
        ensures
            r@ == self@.lexeme(pos as int),
    {
        let t = self.tokens[pos];
        text_of_range(self.chars, t.start, t.end)
    }

    fn lexeme_chars(&self, pos: usize) -> (r: Vec<char>)
        requires
            self.wf(),
            pos < self.tokens.len(),
        ensures
            r@ == self@.lexeme(pos as int),
    {
        let t = self.tokens[pos];
        copy_range(self.chars, t.start, t.end)
    }

    fn quoted(&self, pos: usize) -> (r: String)
        requires
            self.wf(),
            pos < self.tokens.len(),
            self.tokens[pos as int].kind == TokenKind::Text,
        ensures
            r@ == self@.quoted(pos as int),
    {
        let t = self.tokens[pos];
        text_of_range(self.chars, t.start + 1, t.end - 1)
    }

    fn fails(&self, pos: usize, expected: Expected) -> (r: ParseFailure)
        ensures
            r == self@.fails(pos as int, expected),
    {
        if pos < self.tokens.len() {
            ParseFailure { start: self.tokens[pos].start, end: self.tokens[pos].end, expected }
        } else {
            ParseFailure { start: self.chars.len(), end: self.chars.len(), expected }
        }
    }

    fn word(&self, pos: usize, k: Keyword) -> (r: Result<usize, ParseFailure>)
        requires
            pos <= self.tokens.len(),
        ensures
            r == match self@.word(pos as int, k) {
                Ok(p) => Ok::<usize, ParseFailure>(p as usize),
                Err(e) => Err(e),
            },
            r matches Ok(p) ==> p == pos + 1 && p <= self.tokens.len(),
    {
        if self.is(pos, k) {
            Ok(pos + 1)
        } else {
            Err(self.fails(pos, Expected::Word(k)))
        }
    }

    fn path(&self, pos: usize) -> (r: Result<(String, usize), ParseFailure>)
        requires
            self.wf(),
            pos <= self.tokens.len(),
        ensures
            match self@.path(pos as int) {
                Ok((v, p)) => r is Ok && r->Ok_0.0@ == v && r->Ok_0.1 == p && p == pos + 1 && p
                    <= self.tokens.len(),
                Err(e) => r == Err::<(String, usize), ParseFailure>(e),
            },
    {
        match self.kind(pos) {
            Some(TokenKind::Text) => Ok((self.quoted(pos), pos + 1)),
            Some(TokenKind::Path) => Ok((self.lexeme(pos), pos + 1)),
            Some(TokenKind::Word(_)) => Ok((self.lexeme(pos), pos + 1)),
            _ => Err(self.fails(pos, Expected::Path)),
        }
    }

    fn name(&self, pos: usize) -> (r: Result<(String, usize), ParseFailure>)
        requires
            self.wf(),
            pos <= self.tokens.len(),
        ensures
            match self@.name(pos as int) {
                Ok((v, p)) => r is Ok && r->Ok_0.0@ == v && r->Ok_0.1 == p && p == pos + 1 && p
                    <= self.tokens.len(),
                Err(e) => r == Err::<(String, usize), ParseFailure>(e),
            },
    {
        match self.kind(pos) {
            Some(TokenKind::Text) => Ok((self.quoted(pos), pos + 1)),
            Some(TokenKind::Word(_)) => Ok((self.lexeme(pos), pos + 1)),
            _ => Err(self.fails(pos, Expected::Name)),
        }
    }

    fn ident(&self, pos: usize, expected: Expected) -> (r: Result<(String, usize), ParseFailure>)
        requires
            self.wf(),
            pos <= self.tokens.len(),
        ensures
            match self@.ident(pos as int, expected) {
                Ok((v, p)) => r is Ok && r->Ok_0.0@ == v && r->Ok_0.1 == p && p == pos + 1 && p
                    <= self.tokens.len(),
                Err(e) => r == Err::<(String, usize), ParseFailure>(e),
            },
    {
        match self.kind(pos) {
            Some(TokenKind::Word(_)) => Ok((self.lexeme(pos), pos + 1)),
            _ => Err(self.fails(pos, expected)),
        }
    }

    fn target(&self, pos: usize) -> (r: Result<(QueryTarget, usize), ParseFailure>)
        requires
            pos <= self.tokens.len(),
        ensures
            match self@.target(pos as int) {
                Ok((v, p)) => r == Ok::<(QueryTarget, usize), ParseFailure>((v, p as usize))
                    && p == pos + 1 && p <= self.tokens.len(),
                Err(e) => r == Err::<(QueryTarget, usize), ParseFailure>(e),
            },
    {
        match self.kind(pos) {
            Some(TokenKind::Word(k)) => match target_for(k) {
                Some(t) => Ok((t, pos + 1)),
                None => Err(self.fails(pos, Expected::Target)),
            },
            _ => Err(self.fails(pos, Expected::Target)),
        }
    }

    fn operator(&self, pos: usize) -> (r: Result<(CompareOp, usize), ParseFailure>)
        requires
            pos <= self.tokens.len(),
        ensures
            match self@.operator(pos as int) {
                Ok((v, p)) => r == Ok::<(CompareOp, usize), ParseFailure>((v, p as usize)) && p
                    == pos + 1 && p <= self.tokens.len(),
                Err(e) => r == Err::<(CompareOp, usize), ParseFailure>(e),
            },
    {
        match self.kind(pos) {
            Some(TokenKind::Equal) => Ok((CompareOp::Equal, pos + 1)),
            Some(TokenKind::NotEqual) => Ok((CompareOp::NotEqual, pos + 1)),
            Some(TokenKind::Greater) => Ok((CompareOp::GreaterThan, pos + 1)),
            Some(TokenKind::GreaterEqual) => Ok((CompareOp::GreaterThanOrEqual, pos + 1)),
            Some(TokenKind::Less) => Ok((CompareOp::LessThan, pos + 1)),
            Some(TokenKind::LessEqual) => Ok((CompareOp::LessThanOrEqual, pos + 1)),
            Some(TokenKind::Word(Keyword::Like)) => Ok((CompareOp::Like, pos + 1)),
            Some(TokenKind::Word(Keyword::Contains)) => Ok((CompareOp::Contains, pos + 1)),
            Some(TokenKind::Word(Keyword::Matches)) => Ok((CompareOp::Matches, pos + 1)),
            _ => Err(self.fails(pos, Expected::Operator)),
        }
    }

    fn value(&self, pos: usize) -> (r: Result<(Value, usize), ParseFailure>)
        requires
            self.wf(),
            pos <= self.tokens.len(),
        ensures
            match self@.value(pos as int) {
                Ok((v, p)) => r is Ok && r->Ok_0.0@ == v && r->Ok_0.1 == p && p == pos + 1 && p
                    <= self.tokens.len(),
                Err(e) => r == Err::<(Value, usize), ParseFailure>(e),
            },
    {
        match self.kind(pos) {
            Some(TokenKind::Text) => Ok((Value::String(self.quoted(pos)), pos + 1)),
            Some(TokenKind::Number) => match parse_number(&self.lexeme_chars(pos)) {
                Some(n) => Ok((Value::Number(n), pos + 1)),
                None => Err(self.fails(pos, Expected::Number)),
            },
            Some(TokenKind::Size) => match read_size(&self.lexeme_chars(pos)) {
                Ok(bytes) => Ok((Value::Size(bytes), pos + 1)),
                Err(_) => Err(self.fails(pos, Expected::Size)),
            },
            Some(TokenKind::Word(Keyword::True)) => Ok((Value::Boolean(true), pos + 1)),
            Some(TokenKind::Word(Keyword::False)) => Ok((Value::Boolean(false), pos + 1)),
            Some(TokenKind::Word(_)) => Ok((Value::Identifier(self.lexeme(pos)), pos + 1)),
            _ => Err(self.fails(pos, Expected::Value)),
        }
    }

    fn condition(&self, pos: usize) -> (r: Result<(Condition, usize), ParseFailure>)
        requires
            self.wf(),
            pos <= self.tokens.len(),
        ensures
            match self@.condition(pos as int) {
                Ok((v, p)) => r is Ok && r->Ok_0.0@ == v && r->Ok_0.1 == p && pos < p
                    <= self.tokens.len(),
                Err(e) => r == Err::<(Condition, usize), ParseFailure>(e),
            },
    {
        let (field, p1) = match self.ident(pos, Expected::Field) {
            Err(e) => {
                return Err(e);
            },
            Ok(found) => found,
        };
        let (operator, p2) = match self.operator(p1) {
            Err(e) => {
                return Err(e);
            },
            Ok(found) => found,
        };
        match self.value(p2) {
            Err(e) => Err(e),
            Ok((value, p3)) => Ok((Condition { field, operator, value }, p3)),
        }
    }

    fn condition_expr(&self, pos: usize) -> (r: Result<(ConditionExpr, usize), ParseFailure>)
        requires
            self.wf(),
            pos <= self.tokens.len(),
        ensures
            match self@.condition_expr(pos as int) {
                Ok((v, p)) => r is Ok && r->Ok_0.0@ == v && r->Ok_0.1 == p && pos < p
                    <= self.tokens.len(),
                Err(e) => r == Err::<(ConditionExpr, usize), ParseFailure>(e),
            },
        decreases self.tokens.len() - pos,
    {
        let (condition, p) = match self.condition(pos) {
            Err(e) => {
                return Err(e);
            },
            Ok(found) => found,
        };
        let link = if self.is(p, Keyword::And) {
            Some(LogicalOp::And)
        } else if self.is(p, Keyword::Or) {
            Some(LogicalOp::Or)
        } else {
            None
        };
        match link {
            Some(op) => match self.condition_expr(p + 1) {
                Err(e) => Err(e),
                Ok((rest, q)) => Ok(
                    (ConditionExpr { condition, next: Some((op, Box::new(rest))) }, q),
                ),
            },
            None => Ok((ConditionExpr { condition, next: None }, p)),
        }
    }

    fn filter(&self, pos: usize) -> (r: Result<(Option<WhereClause>, usize), ParseFailure>)
        requires
            self.wf(),
            pos <= self.tokens.len(),
        ensures
            match self@.filter(pos as int) {
                Ok((v, p)) => r is Ok && crate::ast::filter_view(r->Ok_0.0) == v && r->Ok_0.1
                    == p && pos <= p <= self.tokens.len(),
                Err(e) => r == Err::<(Option<WhereClause>, usize), ParseFailure>(e),
            },
    {
        if self.is(pos, Keyword::Where) {
            match self.condition_expr(pos + 1) {
                Err(e) => Err(e),
                Ok((expr, p)) => {
                    let mut conditions: Vec<ConditionExpr> = Vec::new();
                    conditions.push(expr);
                    let clause = WhereClause { conditions };
                    assert(clause@ =~= seq![expr@]);
                    Ok((Some(clause), p))
                },
            }
        } else {
            Ok((None, pos))
        }
    }

    fn fields(&self, pos: usize) -> (r: Result<(FieldList, usize), ParseFailure>)
        requires
            self.wf(),
            pos <= self.tokens.len(),
        ensures
            match self@.fields(pos as int) {
                Ok((v, p)) => r is Ok && r->Ok_0.0@ == v && r->Ok_0.1 == p && pos < p
                    <= self.tokens.len(),
                Err(e) => r == Err::<(FieldList, usize), ParseFailure>(e),
            },
    {
        match self.kind(pos) {
            Some(TokenKind::Star) => {
                return Ok((FieldList::All, pos + 1));
            },
            _ => {},
        }
        let (first, p) = match self.ident(pos, Expected::Field) {
            Err(e) => {
                return Err(e);
            },
            Ok(found) => found,
        };
        let mut found: Vec<String> = Vec::new();
        found.push(first);
        assert(texts_view(found) =~= seq![first@]);
        let mut at: usize = p;
        loop
            invariant
                self.wf(),
                pos < at <= self.tokens.len(),
                self@.kind(pos as int) != Some(TokenKind::Star),
                self@.ident(pos as int, Expected::Field) == Ok::<
                    (Seq<char>, int),
                    ParseFailure,
                >((first@, p as int)),
                self@.more_fields(p as int, seq![first@]) == self@.more_fields(
                    at as int,
                    texts_view(found),
                ),
            decreases self.tokens.len() - at,
        {
            match self.kind(at) {
                Some(TokenKind::Comma) => {},
                _ => {
                    return Ok((FieldList::Fields(found), at));
                },
            }
            match self.ident(at + 1, Expected::Field) {
                Err(e) => {
                    return Err(e);
                },
                Ok((field, next)) => {
                    let ghost before = texts_view(found);
                    found.push(field);
                    assert(texts_view(found) =~= before.push(field@));
                    at = next;
                },
            }
        }
    }

    fn query(&self, pos: usize) -> (r: Result<(QueryCommand, usize), ParseFailure>)
        requires
            self.wf(),
            pos <= self.tokens.len(),
        ensures
            match self@.query(pos as int) {
                Ok((v, p)) => r is Ok && r->Ok_0.0@ == v && r->Ok_0.1 == p && pos < p
                    <= self.tokens.len(),
                Err(e) => r == Err::<(QueryCommand, usize), ParseFailure>(e),
            },
    {
        let (target, p1) = match self.target(pos) {
            Err(e) => {
                return Err(e);
            },
            Ok(found) => found,
        };
        let (fields, p2) = match self.fields(p1) {
            Err(e) => {
                return Err(e);
            },
            Ok(found) => found,
        };
        let (from_path, p3) = if self.is(p2, Keyword::From) {
            match self.path(p2 + 1) {
                Err(e) => {
                    return Err(e);
                },
                Ok((path, p)) => (Some(path), p),
            }
        } else {
            (None, p2)
        };
        match self.filter(p3) {
            Err(e) => Err(e),
            Ok((where_clause, p4)) => Ok(
                (QueryCommand { target, fields, from_path, where_clause }, p4),
            ),
        }
    }

    fn delete(&self, pos: usize) -> (r: Result<(ActionCommand, usize), ParseFailure>)
        requires
            self.wf(),
            pos <= self.tokens.len(),
        ensures
            match self@.delete(pos as int) {
                Ok((v, p)) => r is Ok && r->Ok_0.0@ == v && r->Ok_0.1 == p && pos < p
                    <= self.tokens.len(),
                Err(e) => r == Err::<(ActionCommand, usize), ParseFailure>(e),
            },
    {
        let p1 = match self.word(pos, Keyword::Files) {
            Err(e) => {
                return Err(e);
            },
            Ok(p) => p,
        };
        let p2 = match self.word(p1, Keyword::From) {
            Err(e) => {
                return Err(e);
            },
            Ok(p) => p,
        };
        let (path, p3) = match self.path(p2) {
            Err(e) => {
                return Err(e);
            },
            Ok(found) => found,
        };
        match self.filter(p3) {
            Err(e) => Err(e),
            Ok((where_clause, p4)) => Ok(
                (ActionCommand::DeleteFiles(DeleteFilesCommand { path, where_clause }), p4),
            ),
        }
    }

    fn kill(&self, pos: usize) -> (r: Result<(ActionCommand, usize), ParseFailure>)
        requires
            self.wf(),
            pos <= self.tokens.len(),
        ensures
            match self@.kill(pos as int) {
                Ok((v, p)) => r is Ok && r->Ok_0.0@ == v && r->Ok_0.1 == p && pos < p
                    <= self.tokens.len(),
                Err(e) => r == Err::<(ActionCommand, usize), ParseFailure>(e),
            },
    {
        if !(self.is(pos, Keyword::Process) || self.is(pos, Keyword::Processes)) {
            return Err(self.fails(pos, Expected::Word(Keyword::Process)));
        }
        let p = match self.word(pos + 1, Keyword::Where) {
            Err(e) => {
                return Err(e);
            },
            Ok(p) => p,
        };
        match self.condition_expr(p) {
            Err(e) => Err(e),
            Ok((expr, q)) => {
                let mut conditions: Vec<ConditionExpr> = Vec::new();
                conditions.push(expr);
                let where_clause = WhereClause { conditions };
                assert(where_clause@ =~= seq![expr@]);
                Ok((ActionCommand::KillProcess(KillProcessCommand { where_clause }), q))
            },
        }
    }

    fn let_value(&self, pos: usize) -> (r: Result<(LetValue, usize), ParseFailure>)
        requires
            self.wf(),
            pos <= self.tokens.len(),
        ensures
            match self@.let_value(pos as int) {
                Ok((v, p)) => r is Ok && r->Ok_0.0@ == v && r->Ok_0.1 == p && p == pos + 1 && p
                    <= self.tokens.len(),
                Err(e) => r == Err::<(LetValue, usize), ParseFailure>(e),
            },
    {
        match self.kind(pos) {
            Some(TokenKind::Text) => {
                let t = self.tokens[pos];
                let content = copy_range(self.chars, t.start + 1, t.end - 1);
                let is_path = (content.len() >= 1 && content[0] == '/') || (content.len() >= 2
                    && content[0] == '~' && content[1] == '/');
                proof {
                    let c = content@;
                    if c.len() >= 1 {
                        assert(c.subrange(0, 1) =~= seq![c[0]]);
                    }
                    if c.len() >= 2 {
                        assert(c.subrange(0, 2) =~= seq![c[0], c[1]]);
                    }
                    assert(seq!['/'].len() == 1);
                    assert(seq!['~', '/'].len() == 2);
                    assert(seq!['/'][0] == '/');
                    assert(seq!['~', '/'][0] == '~' && seq!['~', '/'][1] == '/');
                }
                if is_path {
                    Ok((LetValue::Path(text_of(&content)), pos + 1))
                } else {
                    Ok((LetValue::String(text_of(&content)), pos + 1))
                }
            },
            Some(TokenKind::Number) => match parse_number(&self.lexeme_chars(pos)) {
                Some(n) => Ok((LetValue::Number(n), pos + 1)),
                None => Err(self.fails(pos, Expected::Number)),
            },
            Some(TokenKind::Size) => match read_size(&self.lexeme_chars(pos)) {
                Ok(bytes) => Ok((LetValue::Size(bytes), pos + 1)),
                Err(_) => Err(self.fails(pos, Expected::Size)),
            },
            Some(TokenKind::Word(Keyword::True)) => Ok((LetValue::Boolean(true), pos + 1)),
            Some(TokenKind::Word(Keyword::False)) => Ok((LetValue::Boolean(false), pos + 1)),
            Some(TokenKind::Path) => Ok((LetValue::Path(self.lexeme(pos)), pos + 1)),
            Some(TokenKind::Word(_)) => Ok((LetValue::String(self.lexeme(pos)), pos + 1)),
            _ => Err(self.fails(pos, Expected::Value)),
        }
    }

    fn binding(&self, pos: usize) -> (r: Result<(LetStatement, usize), ParseFailure>)
        requires
            self.wf(),
            pos <= self.tokens.len(),
        ensures
            match self@.binding(pos as int) {
                Ok((v, p)) => r is Ok && r->Ok_0.0@ == v && r->Ok_0.1 == p && pos < p
                    <= self.tokens.len(),
                Err(e) => r == Err::<(LetStatement, usize), ParseFailure>(e),
            },
    {
        let (name, p1) = match self.ident(pos, Expected::Name) {
            Err(e) => {
                return Err(e);
            },
            Ok(found) => found,
        };
        match self.kind(p1) {
            Some(TokenKind::Equal) => {},
            _ => {
                return Err(self.fails(p1, Expected::Operator));
            },
        }
        match self.let_value(p1 + 1) {
            Err(e) => Err(e),
            Ok((value, p2)) => Ok((LetStatement { name, value }, p2)),
        }
    }

    fn enter(&self, pos: usize) -> (r: Result<(ContextCommand, usize), ParseFailure>)
        requires
            self.wf(),
            pos <= self.tokens.len(),
        ensures
            match self@.enter(pos as int) {
                Ok((v, p)) => r is Ok && r->Ok_0.0@ == v && r->Ok_0.1 == p && pos < p
                    <= self.tokens.len(),
                Err(e) => r == Err::<(ContextCommand, usize), ParseFailure>(e),
            },
    {
        if self.is(pos, Keyword::Folder) {
            match self.path(pos + 1) {
                Err(e) => Err(e),
                Ok((path, p)) => Ok((ContextCommand::EnterFolder(path), p)),
            }
        } else if self.is(pos, Keyword::File) {
            match self.path(pos + 1) {
                Err(e) => Err(e),
                Ok((path, p)) => Ok((ContextCommand::EnterFile(path), p)),
            }
        } else {
            Err(self.fails(pos, Expected::Word(Keyword::Folder)))
        }
    }

    fn show(&self, pos: usize) -> (r: Result<(ContextCommand, usize), ParseFailure>)
        requires
            pos <= self.tokens.len(),
        ensures
            match self@.show(pos as int) {
                Ok((v, p)) => r is Ok && r->Ok_0.0@ == v && r->Ok_0.1 == p && pos < p
                    <= self.tokens.len(),
                Err(e) => r == Err::<(ContextCommand, usize), ParseFailure>(e),
            },
    {
        if self.is(pos, Keyword::Context) {
            Ok((ContextCommand::Show(ShowTarget::Context), pos + 1))
        } else if self.is(pos, Keyword::Variables) {
            Ok((ContextCommand::Show(ShowTarget::Variables), pos + 1))
        } else if self.is(pos, Keyword::History) {
            Ok((ContextCommand::Show(ShowTarget::History), pos + 1))
        } else {
            Err(self.fails(pos, Expected::ShowTarget))
        }
    }

    fn print_expr(&self, pos: usize) -> (r: Result<(PrintExpr, usize), ParseFailure>)
        requires
            self.wf(),
            pos <= self.tokens.len(),
        ensures
            match self@.print_expr(pos as int) {
                Ok((v, p)) => r is Ok && r->Ok_0.0@ == v && r->Ok_0.1 == p && pos < p
                    <= self.tokens.len(),
                Err(e) => r == Err::<(PrintExpr, usize), ParseFailure>(e),
            },
    {
        match self.kind(pos) {
            Some(TokenKind::Text) => Ok((PrintExpr::String(self.quoted(pos)), pos + 1)),
            Some(TokenKind::Word(k)) => match (target_for(k), self.kind(pos + 1)) {
                (Some(target), Some(TokenKind::Word(next))) => if can_open_statement(next) {
                    Ok((PrintExpr::Variable(self.lexeme(pos)), pos + 1))
                } else {
                    Ok((PrintExpr::QueryField { target, field: self.lexeme(pos + 1) }, pos + 2))
                },
                _ => Ok((PrintExpr::Variable(self.lexeme(pos)), pos + 1)),
            },
            _ => Err(self.fails(pos, Expected::Expression)),
        }
    }

    fn print(&self, pos: usize) -> (r: Result<(PrintCommand, usize), ParseFailure>)
        requires
            self.wf(),
            pos <= self.tokens.len(),
        ensures
            match self@.print(pos as int) {
                Ok((v, p)) => r is Ok && r->Ok_0.0@ == v && r->Ok_0.1 == p && pos < p
                    <= self.tokens.len(),
                Err(e) => r == Err::<(PrintCommand, usize), ParseFailure>(e),
            },
    {
        let (first, p) = match self.print_expr(pos) {
            Err(e) => {
                return Err(e);
            },
            Ok(found) => found,
        };
        let mut expressions: Vec<PrintExpr> = Vec::new();
        expressions.push(first);
        let mut at: usize = p;
        assert((PrintCommand { expressions })@ =~= seq![first@]);
        loop
            invariant
                self.wf(),
                pos < at <= self.tokens.len(),
                self@.print_expr(pos as int) == Ok::<(crate::ast::PrintExprView, int), ParseFailure>(
                    (first@, p as int),
                ),
                self@.more_exprs(p as int, seq![first@]) == self@.more_exprs(
                    at as int,
                    (PrintCommand { expressions })@,
                ),
            decreases self.tokens.len() - at,
        {
            match self.kind(at) {
                Some(TokenKind::Comma) => {},
                _ => {
                    return Ok((PrintCommand { expressions }, at));
                },
            }
            match self.print_expr(at + 1) {
                Err(e) => {
                    return Err(e);
                },
                Ok((expr, next)) => {
                    let ghost before = (PrintCommand { expressions })@;
                    expressions.push(expr);
                    assert((PrintCommand { expressions })@ =~= before.push(expr@));
                    at = next;
                },
            }
        }
    }

    fn permission(&self, pos: usize, found: ContainerOptions) -> (r: Result<
        (ContainerOptions, usize),
        ParseFailure,
    >)
        requires
            pos <= self.tokens.len(),
        ensures
            match self@.permission(pos as int, found) {
                Ok((v, p)) => r == Ok::<(ContainerOptions, usize), ParseFailure>((v, p as usize))
                    && pos < p <= self.tokens.len(),
                Err(e) => r == Err::<(ContainerOptions, usize), ParseFailure>(e),
            },
    {
        if self.is(pos, Keyword::Allow) {
            match self.word(pos + 1, Keyword::Actions) {
                Err(e) => Err(e),
                Ok(p) => Ok(
                    (ContainerOptions { allow_actions: true, readonly: found.readonly }, p),
                ),
            }
        } else if self.is(pos, Keyword::Readonly) {
            Ok((ContainerOptions { allow_actions: found.allow_actions, readonly: true }, pos + 1))
        } else {
            Err(self.fails(pos, Expected::Permission))
        }
    }

    fn permissions(&self, pos: usize) -> (r: Result<(ContainerOptions, usize), ParseFailure>)
        requires
            pos <= self.tokens.len(),
        ensures
            match self@.permissions(pos as int) {
                Ok((v, p)) => r == Ok::<(ContainerOptions, usize), ParseFailure>((v, p as usize))
                    && pos <= p <= self.tokens.len(),
                Err(e) => r == Err::<(ContainerOptions, usize), ParseFailure>(e),
            },
    {
        let none = ContainerOptions { allow_actions: false, readonly: false };
        if !self.is(pos, Keyword::With) {
            return Ok((none, pos));
        }
        let (first, p) = match self.permission(pos + 1, none) {
            Err(e) => {
                return Err(e);
            },
            Ok(found) => found,
        };
        let mut options = first;
        let mut at: usize = p;
        loop
            invariant
                pos < at <= self.tokens.len(),
                self@.is(pos as int, Keyword::With),
                self@.permission(
                    pos + 1,
                    ContainerOptions { allow_actions: false, readonly: false },
                ) == Ok::<(ContainerOptions, int), ParseFailure>((first, p as int)),
                self@.more_permissions(p as int, first) == self@.more_permissions(
                    at as int,
                    options,
                ),
            decreases self.tokens.len() - at,
        {
            match self.kind(at) {
                Some(TokenKind::Comma) => {},
                _ => {
                    return Ok((options, at));
                },
            }
            match self.permission(at + 1, options) {
                Err(e) => {
                    return Err(e);
                },
                Ok((more, next)) => {
                    options = more;
                    at = next;
                },
            }
        }
    }

    fn if_condition(&self, pos: usize) -> (r: Result<(IfCondition, usize), ParseFailure>)
        requires
            self.wf(),
            pos <= self.tokens.len(),
        ensures
            match self@.if_condition(pos as int) {
                Ok((v, p)) => r is Ok && r->Ok_0.0@ == v && r->Ok_0.1 == p && pos < p
                    <= self.tokens.len(),
                Err(e) => r == Err::<(IfCondition, usize), ParseFailure>(e),
            },
    {
        let p0 = if self.is(pos, Keyword::Select) {
            pos + 1
        } else {
            pos
        };
        let (target, p1) = match self.target(p0) {
            Err(e) => {
                return Err(e);
            },
            Ok(found) => found,
        };
        let (field, p2) = match self.ident(p1, Expected::Field) {
            Err(e) => {
                return Err(e);
            },
            Ok(found) => found,
        };
        let (operator, p3) = match self.operator(p2) {
            Err(e) => {
                return Err(e);
            },
            Ok(found) => found,
        };
        match self.value(p3) {
            Err(e) => Err(e),
            Ok((value, p4)) => Ok((IfCondition { target, field, operator, value }, p4)),
        }
    }

    fn select_statement(&self, pos: usize) -> (r: Result<(Command, usize), ParseFailure>)
        requires
            self.wf(),
            pos < self.tokens.len(),
        ensures
            match self@.select_statement(pos as int) {
                Ok((v, p)) => r is Ok && r->Ok_0.0@ == v && r->Ok_0.1 == p && pos < p
                    <= self.tokens.len(),
                Err(e) => r == Err::<(Command, usize), ParseFailure>(e),
            },
    {
        match self.query(pos + 1) {
            Err(e) => Err(e),
            Ok((q, p)) => Ok((Command::Query(q), p)),
        }
    }

    fn action_statement(&self, pos: usize) -> (r: Result<(Command, usize), ParseFailure>)
        requires
            self.wf(),
            pos < self.tokens.len(),
        ensures
            match self@.action_statement(pos as int) {
                Ok((v, p)) => r is Ok && r->Ok_0.0@ == v && r->Ok_0.1 == p && pos < p
                    <= self.tokens.len(),
                Err(e) => r == Err::<(Command, usize), ParseFailure>(e),
            },
    {
        let action = if self.is(pos, Keyword::Delete) {
            self.delete(pos + 1)
        } else {
            self.kill(pos + 1)
        };
        match action {
            Err(e) => Err(e),
            Ok((a, p)) => Ok((Command::Action(a), p)),
        }
    }

    fn let_statement(&self, pos: usize) -> (r: Result<(Command, usize), ParseFailure>)
        requires
            self.wf(),
            pos < self.tokens.len(),
        ensures
            match self@.let_statement(pos as int) {
                Ok((v, p)) => r is Ok && r->Ok_0.0@ == v && r->Ok_0.1 == p && pos < p
                    <= self.tokens.len(),
                Err(e) => r == Err::<(Command, usize), ParseFailure>(e),
            },
    {
        match self.binding(pos + 1) {
            Err(e) => Err(e),
            Ok((l, p)) => Ok((Command::Let(l), p)),
        }
    }

    fn context_statement(&self, pos: usize) -> (r: Result<(Command, usize), ParseFailure>)
        requires
            self.wf(),
            pos < self.tokens.len(),
        ensures
            match self@.context_statement(pos as int) {
                Ok((v, p)) => r is Ok && r->Ok_0.0@ == v && r->Ok_0.1 == p && pos < p
                    <= self.tokens.len(),
                Err(e) => r == Err::<(Command, usize), ParseFailure>(e),
            },
    {
        let after = if self.is(pos + 1, Keyword::Context) {
            pos + 2
        } else {
            pos + 1
        };
        if self.is(pos, Keyword::Exit) {
            Ok((Command::Context(ContextCommand::Exit), after))
        } else if self.is(pos, Keyword::Reset) {
            Ok((Command::Context(ContextCommand::Reset), after))
        } else {
            let command = if self.is(pos, Keyword::Enter) {
                self.enter(pos + 1)
            } else {
                self.show(pos + 1)
            };
            match command {
                Err(e) => Err(e),
                Ok((c, p)) => Ok((Command::Context(c), p)),
            }
        }
    }

    fn print_statement(&self, pos: usize) -> (r: Result<(Command, usize), ParseFailure>)
        requires
            self.wf(),
            pos < self.tokens.len(),
        ensures
            match self@.print_statement(pos as int) {
                Ok((v, p)) => r is Ok && r->Ok_0.0@ == v && r->Ok_0.1 == p && pos < p
                    <= self.tokens.len(),
                Err(e) => r == Err::<(Command, usize), ParseFailure>(e),
            },
    {
        match self.print(pos + 1) {
            Err(e) => Err(e),
            Ok((command, p)) => Ok((Command::Print(command), p)),
        }
    }

    fn explain_statement(&self, pos: usize) -> (r: Result<(Command, usize), ParseFailure>)
        requires
            self.wf(),
            pos < self.tokens.len(),
        ensures
            match self@.explain_statement(pos as int) {
                Ok((v, p)) => r is Ok && r->Ok_0.0@ == v && r->Ok_0.1 == p && pos < p
                    <= self.tokens.len(),
                Err(e) => r == Err::<(Command, usize), ParseFailure>(e),
            },
    {
        if self.is(pos + 1, Keyword::Select) {
            match self.query(pos + 2) {
                Err(e) => Err(e),
                Ok((q, p)) => {
                    let inner = Command::Query(q);
                    let ghost model = inner@;
                    let cmd = Command::Explain(Box::new(inner));
                    assert(cmd@ == CommandView::Explain(Box::new(model)));
                    Ok((cmd, p))
                },
            }
        } else if self.is(pos + 1, Keyword::Delete) || self.is(pos + 1, Keyword::Kill) {
            match self.action_statement(pos + 1) {
                Err(e) => Err(e),
                Ok((inner, p)) => {
                    let ghost model = inner@;
                    let cmd = Command::Explain(Box::new(inner));
                    assert(cmd@ == CommandView::Explain(Box::new(model)));
                    Ok((cmd, p))
                },
            }
        } else {
            Err(self.fails(pos + 1, Expected::Explainable))
        }
    }

    fn container_statement(&self, pos: usize) -> (r: Result<(Command, usize), ParseFailure>)
        requires
            self.wf(),
            pos < self.tokens.len(),
        ensures
            match self@.container_statement(pos as int) {
                Ok((v, p)) => r is Ok && r->Ok_0.0@ == v && r->Ok_0.1 == p && pos < p
                    <= self.tokens.len(),
                Err(e) => r == Err::<(Command, usize), ParseFailure>(e),
            },
    {
        if self.is(pos, Keyword::List) {
            return match self.word(pos + 1, Keyword::Containers) {
                Err(e) => Err(e),
                Ok(p) => Ok((Command::Container(ContainerCommand::List), p)),
            };
        }
        let p1 = match self.word(pos + 1, Keyword::Container) {
            Err(e) => {
                return Err(e);
            },
            Ok(p) => p,
        };
        let (name, p2) = match self.name(p1) {
            Err(e) => {
                return Err(e);
            },
            Ok(found) => found,
        };
        if self.is(pos, Keyword::Switch) {
            Ok((Command::Container(ContainerCommand::Switch(name)), p2))
        } else if self.is(pos, Keyword::Destroy) {
            Ok((Command::Container(ContainerCommand::Destroy(name)), p2))
        } else {
            let p3 = match self.word(p2, Keyword::To) {
                Err(e) => {
                    return Err(e);
                },
                Ok(p) => p,
            };
            match self.path(p3) {
                Err(e) => Err(e),
                Ok((path, p4)) => Ok(
                    (Command::Container(ContainerCommand::Export(ExportContainer { name, path })), p4),
                ),
            }
        }
    }

    fn simple(&self, pos: usize) -> (r: Option<Result<(Command, usize), ParseFailure>>)
        requires
            self.wf(),
            pos < self.tokens.len(),
        ensures
            match self@.simple(pos as int) {
                None => r is None,
                Some(Ok((v, p))) => r is Some && r->Some_0 is Ok && r->Some_0->Ok_0.0@ == v
                    && r->Some_0->Ok_0.1 == p && pos < p <= self.tokens.len(),
                Some(Err(e)) => r == Some(Err::<(Command, usize), ParseFailure>(e)),
            },
    {
        if self.is(pos, Keyword::Select) {
            Some(self.select_statement(pos))
        } else if self.is(pos, Keyword::Delete) || self.is(pos, Keyword::Kill) {
            Some(self.action_statement(pos))
        } else if self.is(pos, Keyword::Let) {
            Some(self.let_statement(pos))
        } else if self.is(pos, Keyword::Enter) || self.is(pos, Keyword::Exit) || self.is(
            pos,
            Keyword::Reset,
        ) || self.is(pos, Keyword::Show) {
            Some(self.context_statement(pos))
        } else if self.is(pos, Keyword::Print) {
            Some(self.print_statement(pos))
        } else if self.is(pos, Keyword::Explain) {
            Some(self.explain_statement(pos))
        } else if self.is(pos, Keyword::Switch) || self.is(pos, Keyword::Destroy) || self.is(
            pos,
            Keyword::List,
        ) || self.is(pos, Keyword::Export) {
            Some(self.container_statement(pos))
        } else {
            None
        }
    }

    fn closes(&self, pos: usize, opener: Keyword) -> (r: Result<usize, ParseFailure>)
        requires
            pos <= self.tokens.len(),
        ensures
            r == match self@.closes(pos as int, opener) {
                Ok(p) => Ok::<usize, ParseFailure>(p as usize),
                Err(e) => Err(e),
            },
            r matches Ok(p) ==> pos < p <= self.tokens.len(),
    {
        match self.word(pos, Keyword::End) {
            Err(e) => Err(e),
            Ok(p) => self.word(p, opener),
        }
    }

    /// Reads one statement.
    pub fn statement(&self, pos: usize) -> (r: Result<(Command, usize), ParseFailure>)
        requires
            self.wf(),
            pos <= self.tokens.len(),
        ensures
            match self@.statement(pos as int) {
                Ok((v, p)) => r is Ok && r->Ok_0.0@ == v && r->Ok_0.1 == p && pos < p
                    <= self.tokens.len(),
                Err(e) => r == Err::<(Command, usize), ParseFailure>(e),
            },
        decreases self.tokens.len() - pos, 1nat,
    {
        if pos >= self.tokens.len() {
            Err(self.fails(pos, Expected::Statement))
        } else if self.is(pos, Keyword::For) {
            match self.for_loop(pos + 1) {
                Err(e) => Err(e),
                Ok((f, p)) => Ok((Command::For(f), p)),
            }
        } else if self.is(pos, Keyword::If) {
            match self.conditional(pos + 1) {
                Err(e) => Err(e),
                Ok((i, p)) => Ok((Command::If(i), p)),
            }
        } else if self.is(pos, Keyword::Life) {
            match self.life(pos + 1) {
                Err(e) => Err(e),
                Ok((l, p)) => Ok((Command::Life(l), p)),
            }
        } else if self.is(pos, Keyword::Create) {
            match self.create(pos + 1) {
                Err(e) => Err(e),
                Ok((c, p)) => Ok((Command::Container(ContainerCommand::Create(c)), p)),
            }
        } else {
            match self.simple(pos) {
                Some(r) => r,
                None => Err(self.fails(pos, Expected::Statement)),
            }
        }
    }

    /// Reads the statements of a block.
    pub fn block(&self, pos: usize) -> (r: Result<(Vec<Command>, usize), ParseFailure>)
        requires
            self.wf(),
            pos <= self.tokens.len(),
        ensures
            match self@.block(pos as int, Seq::empty()) {
                Ok((v, p)) => r is Ok && body_view(r->Ok_0.0) == v && r->Ok_0.1 == p && pos <= p
                    <= self.tokens.len(),
                Err(e) => r == Err::<(Vec<Command>, usize), ParseFailure>(e),
            },
        decreases self.tokens.len() - pos, 2nat,
    {
        let mut commands: Vec<Command> = Vec::new();
        let mut at: usize = pos;
        assert(body_view(commands) =~= Seq::empty());
        loop
            invariant
                self.wf(),
                pos <= at <= self.tokens.len(),
                self@.block(pos as int, Seq::empty()) == self@.block(
                    at as int,
                    body_view(commands),
                ),
            decreases self.tokens.len() - at,
        {
            if at >= self.tokens.len() || self.is(at, Keyword::End) || self.is(
                at,
                Keyword::Else,
            ) {
                return Ok((commands, at));
            }
            match self.statement(at) {
                Err(e) => {
                    return Err(e);
                },
                Ok((cmd, p)) => {
                    let next = match self.kind(p) {
                        Some(TokenKind::Semicolon) => p + 1,
                        _ => p,
                    };
                    let ghost before = body_view(commands);
                    commands.push(cmd);
                    assert(body_view(commands) =~= before.push(cmd@));
                    at = next;
                },
            }
        }
    }

    fn for_loop(&self, pos: usize) -> (r: Result<(ForLoop, usize), ParseFailure>)
        requires
            self.wf(),
            pos <= self.tokens.len(),
        ensures
            match self@.for_loop(pos as int) {
                Ok((v, p)) => r is Ok && r->Ok_0.0@ == v && r->Ok_0.1 == p && pos < p
                    <= self.tokens.len(),
                Err(e) => r == Err::<(ForLoop, usize), ParseFailure>(e),
            },
        decreases self.tokens.len() - pos, 1nat,
    {
        let (iterator_var, p1) = match self.ident(pos, Expected::Name) {
            Err(e) => {
                return Err(e);
            },
            Ok(found) => found,
        };
        let p2 = match self.word(p1, Keyword::In) {
            Err(e) => {
                return Err(e);
            },
            Ok(p) => p,
        };
        let p3 = match self.word(p2, Keyword::Select) {
            Err(e) => {
                return Err(e);
            },
            Ok(p) => p,
        };
        let (source_query, p4) = match self.query(p3) {
            Err(e) => {
                return Err(e);
            },
            Ok(found) => found,
        };
        let p5 = match self.word(p4, Keyword::Do) {
            Err(e) => {
                return Err(e);
            },
            Ok(p) => p,
        };
        let (body, p6) = match self.block(p5) {
            Err(e) => {
                return Err(e);
            },
            Ok(found) => found,
        };
        match self.closes(p6, Keyword::For) {
            Err(e) => Err(e),
            Ok(p7) => Ok((ForLoop { iterator_var, source_query, body }, p7)),
        }
    }

    fn conditional(&self, pos: usize) -> (r: Result<(IfStatement, usize), ParseFailure>)
        requires
            self.wf(),
            pos <= self.tokens.len(),
        ensures
            match self@.conditional(pos as int) {
                Ok((v, p)) => r is Ok && r->Ok_0.0@ == v && r->Ok_0.1 == p && pos < p
                    <= self.tokens.len(),
                Err(e) => r == Err::<(IfStatement, usize), ParseFailure>(e),
            },
        decreases self.tokens.len() - pos, 1nat,
    {
        let (condition, p1) = match self.if_condition(pos) {
            Err(e) => {
                return Err(e);
            },
            Ok(found) => found,
        };
        let p2 = match self.word(p1, Keyword::Then) {
            Err(e) => {
                return Err(e);
            },
            Ok(p) => p,
        };
        let (then_body, p3) = match self.block(p2) {
            Err(e) => {
                return Err(e);
            },
            Ok(found) => found,
        };
        let (else_body, p4) = if self.is(p3, Keyword::Else) {
            match self.block(p3 + 1) {
                Err(e) => {
                    return Err(e);
                },
                Ok((body, p)) => (Some(body), p),
            }
        } else {
            (None, p3)
        };
        match self.closes(p4, Keyword::If) {
            Err(e) => Err(e),
            Ok(p5) => Ok((IfStatement { condition, then_body, else_body }, p5)),
        }
    }

    fn life(&self, pos: usize) -> (r: Result<(LifeMonitor, usize), ParseFailure>)
        requires
            self.wf(),
            pos <= self.tokens.len(),
        ensures
            match self@.life(pos as int) {
                Ok((v, p)) => r is Ok && r->Ok_0.0@ == v && r->Ok_0.1 == p && pos < p
                    <= self.tokens.len(),
                Err(e) => r == Err::<(LifeMonitor, usize), ParseFailure>(e),
            },
        decreases self.tokens.len() - pos, 1nat,
    {
        let p1 = match self.word(pos, Keyword::Monitor) {
            Err(e) => {
                return Err(e);
            },
            Ok(p) => p,
        };
        let found = match self.kind(p1) {
            Some(TokenKind::Word(k)) => life_target_for(k),
            _ => None,
        };
        let target = match found {
            None => {
                return Err(self.fails(p1, Expected::LifeTarget));
            },
            Some(target) => target,
        };
        let p2 = match self.word(p1 + 1, Keyword::Do) {
            Err(e) => {
                return Err(e);
            },
            Ok(p) => p,
        };
        let (body, p3) = match self.block(p2) {
            Err(e) => {
                return Err(e);
            },
            Ok(found) => found,
        };
        match self.closes(p3, Keyword::Life) {
            Err(e) => Err(e),
            Ok(p4) => Ok((LifeMonitor { target, body }, p4)),
        }
    }

    fn create(&self, pos: usize) -> (r: Result<(CreateContainer, usize), ParseFailure>)
        requires
            self.wf(),
            pos <= self.tokens.len(),
        ensures
            match self@.create(pos as int) {
                Ok((v, p)) => r is Ok && r->Ok_0.0@ == v && r->Ok_0.1 == p && pos < p
                    <= self.tokens.len(),
                Err(e) => r == Err::<(CreateContainer, usize), ParseFailure>(e),
            },
        decreases self.tokens.len() - pos, 1nat,
    {
        let p1 = match self.word(pos, Keyword::Container) {
            Err(e) => {
                return Err(e);
            },
            Ok(p) => p,
        };
        let (name, p2) = match self.name(p1) {
            Err(e) => {
                return Err(e);
            },
            Ok(found) => found,
        };
        let (options, p3) = match self.permissions(p2) {
            Err(e) => {
                return Err(e);
            },
            Ok(found) => found,
        };
        let p4 = match self.word(p3, Keyword::Do) {
            Err(e) => {
                return Err(e);
            },
            Ok(p) => p,
        };
        let (body, p5) = match self.block(p4) {
            Err(e) => {
                return Err(e);
            },
            Ok(found) => found,
        };
        match self.closes(p5, Keyword::Container) {
            Err(e) => Err(e),
            Ok(p6) => Ok((CreateContainer { name, options, body }, p6)),
        }
    }

    /// Reads a script: statements to the end of the text.
    pub fn script(&self) -> (r: Result<Script, ParseFailure>)
        requires
            self.wf(),
        ensures
            match self@.script() {
                Ok(v) => r is Ok && r->Ok_0@ == v,
                Err(e) => r == Err::<Script, ParseFailure>(e),
            },
    {
        match self.block(0) {
            Err(e) => Err(e),
            Ok((statements, p)) => if p >= self.tokens.len() {
                Ok(Script { statements })
            } else {
                Err(self.fails(p, Expected::Statement))
            },
        }
    }

    /// Reads a command: one statement and nothing after it but one `;`.
    pub fn command(&self) -> (r: Result<Command, ParseFailure>)
        requires
            self.wf(),
        ensures
            match self@.command() {
                Ok(v) => r is Ok && r->Ok_0@ == v,
                Err(e) => r == Err::<Command, ParseFailure>(e),
            },
    {
        match self.statement(0) {
            Err(e) => Err(e),
            Ok((cmd, p)) => {
                let q = match self.kind(p) {
                    Some(TokenKind::Semicolon) => p + 1,
                    _ => p,
                };
                if q >= self.tokens.len() {
                    Ok(cmd)
                } else {
                    Err(self.fails(q, Expected::End))
                }
            },
        }
    }
}

/// A keyword in capitals.
pub open spec fn keyword_text(k: Keyword) -> Seq<char> {
    match k {
        Keyword::Other => "a word"@,
        Keyword::Select => "SELECT"@,
        Keyword::From => "FROM"@,
        Keyword::Where => "WHERE"@,
        Keyword::And => "AND"@,
        Keyword::Or => "OR"@,
        Keyword::Delete => "DELETE"@,
        Keyword::Files => "FILES"@,
        Keyword::Kill => "KILL"@,
        Keyword::Process => "PROCESS"@,
        Keyword::Processes => "PROCESSES"@,
        Keyword::Explain => "EXPLAIN"@,
        Keyword::Let => "LET"@,
        Keyword::Enter => "ENTER"@,
        Keyword::Folder => "FOLDER"@,
        Keyword::File => "FILE"@,
        Keyword::Exit => "EXIT"@,
        Keyword::Reset => "RESET"@,
        Keyword::Show => "SHOW"@,
        Keyword::Context => "CONTEXT"@,
        Keyword::Variables => "VARIABLES"@,
        Keyword::History => "HISTORY"@,
        Keyword::For => "FOR"@,
        Keyword::In => "IN"@,
        Keyword::Do => "DO"@,
        Keyword::End => "END"@,
        Keyword::If => "IF"@,
        Keyword::Then => "THEN"@,
        Keyword::Else => "ELSE"@,
        Keyword::Life => "LIFE"@,
        Keyword::Monitor => "MONITOR"@,
        Keyword::Print => "PRINT"@,
        Keyword::Create => "CREATE"@,
        Keyword::Container => "CONTAINER"@,
        Keyword::Containers => "CONTAINERS"@,
        Keyword::Switch => "SWITCH"@,
        Keyword::List => "LIST"@,
        Keyword::Destroy => "DESTROY"@,
        Keyword::Export => "EXPORT"@,
        Keyword::To => "TO"@,
        Keyword::With => "WITH"@,
        Keyword::Allow => "ALLOW"@,
        Keyword::Actions => "ACTIONS"@,
        Keyword::Readonly => "READONLY"@,
        Keyword::True => "TRUE"@,
        Keyword::False => "FALSE"@,
        Keyword::Like => "LIKE"@,
        Keyword::Contains => "CONTAINS"@,
        Keyword::Matches => "MATCHES"@,
        Keyword::Cpu => "CPU"@,
        Keyword::Memory => "MEMORY"@,
        Keyword::Disk => "DISK"@,
        Keyword::Network => "NETWORK"@,
        Keyword::System => "SYSTEM"@,
        Keyword::Battery => "BATTERY"@,
        Keyword::Content => "CONTENT"@,
    }
}

/// What the parser looked for, in words.
pub open spec fn expected_text(expected: Expected) -> Seq<char> {
    match expected {
        Expected::Character => "a token"@,
        Expected::Statement => "a statement"@,
        Expected::Explainable => "SELECT, DELETE or KILL"@,
        Expected::Target => "a query target"@,
        Expected::LifeTarget => "a resource to monitor"@,
        Expected::ShowTarget => "CONTEXT, VARIABLES or HISTORY"@,
        Expected::Field => "a field"@,
        Expected::Path => "a path"@,
        Expected::Name => "a name"@,
        Expected::Operator => "an operator"@,
        Expected::Value => "a value"@,
        Expected::Number => "a number within range"@,
        Expected::Size => "a size with a number and one of the units B, KB, MB, GB, TB"@,
        Expected::Permission => "ALLOW ACTIONS or READONLY"@,
        Expected::Expression => "an expression"@,
        Expected::End => "the end of the command"@,
        Expected::Word(k) => keyword_text(k),
    }
}

/// The fragment that the parser gave up on, in quotes, or a note that the
/// text ended.
pub open spec fn fragment(text: Seq<char>, failure: ParseFailure) -> Seq<char> {
    if failure.start < failure.end <= text.len() {
        "'"@ + text.subrange(failure.start as int, failure.end as int) + "'"@
    } else {
        "end of input"@
    }
}

/// The message of a failure: what was expected, what was found, and where.
pub open spec fn failure_text(text: Seq<char>, failure: ParseFailure) -> Seq<char> {
    "Expected "@ + expected_text(failure.expected) + ", found "@ + fragment(text, failure)
        + " at offset "@ + decimal(failure.start as nat)
}

/// The failure on a character that no token can start with.
pub open spec fn bad_character(at: int) -> ParseFailure {
    ParseFailure { start: at as usize, end: (at + 1) as usize, expected: Expected::Character }
}

/// The command that a text holds, or where and why it holds none.
pub open spec fn parsed_command(text: Seq<char>) -> Result<CommandView, ParseFailure> {
    match tokens_of(text) {
        Err(at) => Err(bad_character(at)),
        Ok(tokens) => (Source { text, tokens }).command(),
    }
}

/// The statements that a text holds, or where and why it is no script.
pub open spec fn parsed_script(text: Seq<char>) -> Result<Seq<CommandView>, ParseFailure> {
    match tokens_of(text) {
        Err(at) => Err(bad_character(at)),
        Ok(tokens) => (Source { text, tokens }).script(),
    }
}

fn keyword_name(k: Keyword) -> (r: &'static str)
    ensures
        r@ == keyword_text(k),
{
    match k {
        Keyword::Other => "a word",
        Keyword::Select => "SELECT",
        Keyword::From => "FROM",
        Keyword::Where => "WHERE",
        Keyword::And => "AND",
        Keyword::Or => "OR",
        Keyword::Delete => "DELETE",
        Keyword::Files => "FILES",
        Keyword::Kill => "KILL",
        Keyword::Process => "PROCESS",
        Keyword::Processes => "PROCESSES",
        Keyword::Explain => "EXPLAIN",
        Keyword::Let => "LET",
        Keyword::Enter => "ENTER",
        Keyword::Folder => "FOLDER",
        Keyword::File => "FILE",
        Keyword::Exit => "EXIT",
        Keyword::Reset => "RESET",
        Keyword::Show => "SHOW",
        Keyword::Context => "CONTEXT",
        Keyword::Variables => "VARIABLES",
        Keyword::History => "HISTORY",
        Keyword::For => "FOR",
        Keyword::In => "IN",
        Keyword::Do => "DO",
        Keyword::End => "END",
        Keyword::If => "IF",
        Keyword::Then => "THEN",
        Keyword::Else => "ELSE",
        Keyword::Life => "LIFE",
        Keyword::Monitor => "MONITOR",
        Keyword::Print => "PRINT",
        Keyword::Create => "CREATE",
        Keyword::Container => "CONTAINER",
        Keyword::Containers => "CONTAINERS",
        Keyword::Switch => "SWITCH",
        Keyword::List => "LIST",
        Keyword::Destroy => "DESTROY",
        Keyword::Export => "EXPORT",
        Keyword::To => "TO",
        Keyword::With => "WITH",
        Keyword::Allow => "ALLOW",
        Keyword::Actions => "ACTIONS",
        Keyword::Readonly => "READONLY",
        Keyword::True => "TRUE",
        Keyword::False => "FALSE",
        Keyword::Like => "LIKE",
        Keyword::Contains => "CONTAINS",
        Keyword::Matches => "MATCHES",
        Keyword::Cpu => "CPU",
        Keyword::Memory => "MEMORY",
        Keyword::Disk => "DISK",
        Keyword::Network => "NETWORK",
        Keyword::System => "SYSTEM",
        Keyword::Battery => "BATTERY",
        Keyword::Content => "CONTENT",
    }
}

fn expected_name(expected: Expected) -> (r: &'static str)
    ensures
        r@ == expected_text(expected),
{
    match expected {
        Expected::Character => "a token",
        Expected::Statement => "a statement",
        Expected::Explainable => "SELECT, DELETE or KILL",
        Expected::Target => "a query target",
        Expected::LifeTarget => "a resource to monitor",
        Expected::ShowTarget => "CONTEXT, VARIABLES or HISTORY",
        Expected::Field => "a field",
        Expected::Path => "a path",
        Expected::Name => "a name",
        Expected::Operator => "an operator",
        Expected::Value => "a value",
        Expected::Number => "a number within range",
        Expected::Size => "a size with a number and one of the units B, KB, MB, GB, TB",
        Expected::Permission => "ALLOW ACTIONS or READONLY",
        Expected::Expression => "an expression",
        Expected::End => "the end of the command",
        Expected::Word(k) => keyword_name(k),
    }
}

/// Writes the message of a failure.
pub fn describe(chars: &Vec<char>, failure: &ParseFailure) -> (r: String)
    ensures
        r@ == failure_text(chars@, *failure),
{
    let found = if failure.start < failure.end && failure.end <= chars.len() {
        let mut quoted = String::from_str("'");
        quoted.append(text_of_range(chars, failure.start, failure.end).as_str());
        quoted.append("'");
        quoted
    } else {
        String::from_str("end of input")
    };
    let mut out = String::from_str("Expected ");
    out.append(expected_name(failure.expected));
    out.append(", found ");
    out.append(found.as_str());
    out.append(" at offset ");
    push_decimal(&mut out, failure.start as u128);
    out
}

/// Parses one command. The text has to hold one statement and nothing
/// after it but one `;`.
pub fn parse_command(input: &str) -> (r: Result<Command, ArtaError>)
    ensures
        match parsed_command(input@) {
            Ok(command) => r is Ok && r->Ok_0@ == command,
            Err(failure) => r is Err && r->Err_0@ == ErrorView::ParseError(
                failure_text(input@, failure),
            ),
        },
{
    let chars = chars_of(input);
    let tokens = match tokenize(&chars) {
        Err(at) => {
            let failure = ParseFailure { start: at, end: at + 1, expected: Expected::Character };
            return Err(ArtaError::ParseError(describe(&chars, &failure)));
        },
        Ok(tokens) => tokens,
    };
    let parser = ArtaParser { chars: &chars, tokens: &tokens };
    match parser.command() {
        Ok(command) => Ok(command),
        Err(failure) => Err(ArtaError::ParseError(describe(&chars, &failure))),
    }
}

/// Parses a script: statements, each followed by one `;` or by none. The
/// first statement that is malformed fails the whole script.
pub fn parse_script(input: &str) -> (r: Result<Script, ArtaError>)
    ensures
        match parsed_script(input@) {
            Ok(statements) => r is Ok && r->Ok_0@ == statements,
            Err(failure) => r is Err && r->Err_0@ == ErrorView::ParseError(
                failure_text(input@, failure),
            ),
        },
{
    let chars = chars_of(input);
    let tokens = match tokenize(&chars) {
        Err(at) => {
            let failure = ParseFailure { start: at, end: at + 1, expected: Expected::Character };
            return Err(ArtaError::ParseError(describe(&chars, &failure)));
        },
        Ok(tokens) => tokens,
    };
    let parser = ArtaParser { chars: &chars, tokens: &tokens };
    match parser.script() {
        Ok(script) => Ok(script),
        Err(failure) => Err(ArtaError::ParseError(describe(&chars, &failure))),
    }
}

} // verus!
