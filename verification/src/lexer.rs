//! From characters to tokens. Blanks and the three kinds of comment (`--`,
//! `#` and `//`, each to the end of its line) stand between tokens and are
//! dropped.

use vstd::prelude::*;
use crate::text::{chars_eq, chars_of, is_digit, is_letter, is_space, upper, upper_chars};
use crate::number::copy_range;

verus! {

/// The words that the grammar knows. Which of them is meant as a keyword is
/// decided by the place where it stands.
#[derive(Clone, Copy, Debug, PartialEq, Eq, Structural)]
pub enum Keyword {
    /// A word that the grammar does not know.
    Other,
    Select,
    From,
    Where,
    And,
    Or,
    Delete,
    Files,
    Kill,
    Process,
    Processes,
    Explain,
    Let,
    Enter,
    Folder,
    File,
    Exit,
    Reset,
    Show,
    Context,
    Variables,
    History,
    For,
    In,
    Do,
    End,
    If,
    Then,
    Else,
    Life,
    Monitor,
    Print,
    Create,
    Container,
    Containers,
    Switch,
    List,
    Destroy,
    Export,
    To,
    With,
    Allow,
    Actions,
    Readonly,
    True,
    False,
    Like,
    Contains,
    Matches,
    Cpu,
    Memory,
    Disk,
    Network,
    System,
    Battery,
    Content,
}

/// The kinds of token.
#[derive(Clone, Copy, Debug, PartialEq, Eq, Structural)]
pub enum TokenKind {
    /// A name or a keyword.
    Word(Keyword),
    /// A text in double quotes.
    Text,
    Number,
    /// A number with a unit right behind it.
    Size,
    /// A path without quotes.
    Path,
    Star,
    Comma,
    Semicolon,
    Equal,
    NotEqual,
    Greater,
    GreaterEqual,
    Less,
    LessEqual,
}

/// A token: its kind and the characters `start..end` that it is made of.
#[derive(Clone, Copy, Debug, PartialEq, Eq, Structural)]
pub struct Token {
    pub kind: TokenKind,
    pub start: usize,
    pub end: usize,
}

/// The sets of characters that tokens are made of.
#[derive(Clone, Copy, Debug, PartialEq, Eq, Structural)]
pub enum CharClass {
    Digit,
    /// Letters, digits, `_` and `.`.
    Word,
    /// Anything but blanks, `;`, `,` and `"`.
    Path,
    /// Anything but the end of the line.
    Line,
    /// Anything but `"`.
    Quoted,
}

/// Whether a character belongs to a class.
pub open spec fn in_class(c: char, class: CharClass) -> bool {
    match class {
        CharClass::Digit => is_digit(c),
        CharClass::Word => is_letter(c) || is_digit(c) || c == '_' || c == '.',
        CharClass::Path => !is_space(c) && c != ';' && c != ',' && c != '"',
        CharClass::Line => c != '\n',
        CharClass::Quoted => c != '"',
    }
}

/// Where the run of characters of `class` that starts at `from` ends.
pub open spec fn run_end(s: Seq<char>, from: int, class: CharClass) -> int
    decreases s.len() - from,
{
    if 0 <= from < s.len() && in_class(s[from], class) {
        run_end(s, from + 1, class)
    } else {
        from
    }
}

/// A run ends within the text, at or after its start.
pub proof fn lemma_run_end(s: Seq<char>, from: int, class: CharClass)
    requires
        0 <= from <= s.len(),
    ensures
        from <= run_end(s, from, class) <= s.len(),
    decreases s.len() - from,
{
    if from < s.len() && in_class(s[from], class) {
        lemma_run_end(s, from + 1, class);
    }
}

/// The keyword that a word is, whatever the case of its letters.
pub open spec fn keyword_of(word: Seq<char>) -> Keyword {
    let w = upper(word);
    if w == "SELECT"@ {
        Keyword::Select
    } else if w == "FROM"@ {
        Keyword::From
    } else if w == "WHERE"@ {
        Keyword::Where
    } else if w == "AND"@ {
        Keyword::And
    } else if w == "OR"@ {
        Keyword::Or
    } else if w == "DELETE"@ {
        Keyword::Delete
    } else if w == "FILES"@ {
        Keyword::Files
    } else if w == "KILL"@ {
        Keyword::Kill
    } else if w == "PROCESS"@ {
        Keyword::Process
    } else if w == "PROCESSES"@ {
        Keyword::Processes
    } else if w == "EXPLAIN"@ {
        Keyword::Explain
    } else if w == "LET"@ {
        Keyword::Let
    } else if w == "ENTER"@ {
        Keyword::Enter
    } else if w == "FOLDER"@ {
        Keyword::Folder
    } else if w == "FILE"@ {
        Keyword::File
    } else if w == "EXIT"@ {
        Keyword::Exit
    } else if w == "RESET"@ {
        Keyword::Reset
    } else if w == "SHOW"@ {
        Keyword::Show
    } else if w == "CONTEXT"@ {
        Keyword::Context
    } else if w == "VARIABLES"@ {
        Keyword::Variables
    } else if w == "HISTORY"@ {
        Keyword::History
    } else if w == "FOR"@ {
        Keyword::For
    } else if w == "IN"@ {
        Keyword::In
    } else if w == "DO"@ {
        Keyword::Do
    } else if w == "END"@ {
        Keyword::End
    } else if w == "IF"@ {
        Keyword::If
    } else if w == "THEN"@ {
        Keyword::Then
    } else if w == "ELSE"@ {
        Keyword::Else
    } else if w == "LIFE"@ {
        Keyword::Life
    } else if w == "MONITOR"@ {
        Keyword::Monitor
    } else if w == "PRINT"@ {
        Keyword::Print
    } else if w == "CREATE"@ {
        Keyword::Create
    } else if w == "CONTAINER"@ {
        Keyword::Container
    } else if w == "CONTAINERS"@ {
        Keyword::Containers
    } else if w == "SWITCH"@ {
        Keyword::Switch
    } else if w == "LIST"@ {
        Keyword::List
    } else if w == "DESTROY"@ {
        Keyword::Destroy
    } else if w == "EXPORT"@ {
        Keyword::Export
    } else if w == "TO"@ {
        Keyword::To
    } else if w == "WITH"@ {
        Keyword::With
    } else if w == "ALLOW"@ {
        Keyword::Allow
    } else if w == "ACTIONS"@ {
        Keyword::Actions
    } else if w == "READONLY"@ {
        Keyword::Readonly
    } else if w == "TRUE"@ {
        Keyword::True
    } else if w == "FALSE"@ {
        Keyword::False
    } else if w == "LIKE"@ {
        Keyword::Like
    } else if w == "CONTAINS"@ {
        Keyword::Contains
    } else if w == "MATCHES"@ {
        Keyword::Matches
    } else if w == "CPU"@ {
        Keyword::Cpu
    } else if w == "MEMORY"@ {
        Keyword::Memory
    } else if w == "DISK"@ {
        Keyword::Disk
    } else if w == "NETWORK"@ {
        Keyword::Network
    } else if w == "SYSTEM"@ {
        Keyword::System
    } else if w == "BATTERY"@ {
        Keyword::Battery
    } else if w == "CONTENT"@ {
        Keyword::Content
    } else {
        Keyword::Other
    }
}

/// A word is the same keyword in either case.
pub proof fn lemma_keywords_ignore_case(word: Seq<char>)
    ensures
        keyword_of(upper(word)) == keyword_of(word),
        keyword_of(crate::text::lower(word)) == keyword_of(word),
{
    assert(upper(upper(word)) =~= upper(word));
    assert(upper(crate::text::lower(word)) =~= upper(word));
}

/// Whether a comment starts at `pos`.
pub open spec fn comment_at(s: Seq<char>, pos: int) -> bool {
    0 <= pos < s.len() && (s[pos] == '#' || (pos + 1 < s.len() && ((s[pos] == '-' && s[pos + 1]
        == '-') || (s[pos] == '/' && s[pos + 1] == '/'))))
}

/// Where the blanks and comments that start at `pos` end.
pub open spec fn blank_end(s: Seq<char>, pos: int) -> int
    decreases s.len() - pos,
{
    if pos < 0 || pos >= s.len() {
        pos
    } else if is_space(s[pos]) {
        blank_end(s, pos + 1)
    } else if comment_at(s, pos) {
        let e = run_end(s, pos + 1, CharClass::Line);
        if pos < e <= s.len() {
            blank_end(s, e)
        } else {
            pos
        }
    } else {
        pos
    }
}

/// The token of a kind between two places.
pub open spec fn token(kind: TokenKind, start: int, end: int) -> Token {
    Token { kind, start: start as usize, end: end as usize }
}

/// The token that starts at `pos`, where `pos` is neither a blank nor the
/// start of a comment; `None` where no token can start with that character.
pub open spec fn token_at(s: Seq<char>, pos: int) -> Option<Token>
    recommends
        0 <= pos < s.len(),
{
    let c = s[pos];
    let follows = if pos + 1 < s.len() {
        s[pos + 1]
    } else {
        ' '
    };
    if c == '"' {
        let e = run_end(s, pos + 1, CharClass::Quoted);
        if e < s.len() {
            Some(token(TokenKind::Text, pos, e + 1))
        } else {
            None
        }
    } else if c == '*' {
        Some(token(TokenKind::Star, pos, pos + 1))
    } else if c == ',' {
        Some(token(TokenKind::Comma, pos, pos + 1))
    } else if c == ';' {
        Some(token(TokenKind::Semicolon, pos, pos + 1))
    } else if c == '=' {
        Some(token(TokenKind::Equal, pos, pos + 1))
    } else if c == '!' {
        if follows == '=' {
            Some(token(TokenKind::NotEqual, pos, pos + 2))
        } else {
            None
        }
    } else if c == '>' {
        if follows == '=' {
            Some(token(TokenKind::GreaterEqual, pos, pos + 2))
        } else {
            Some(token(TokenKind::Greater, pos, pos + 1))
        }
    } else if c == '<' {
        if follows == '=' {
            Some(token(TokenKind::LessEqual, pos, pos + 2))
        } else {
            Some(token(TokenKind::Less, pos, pos + 1))
        }
    } else if is_digit(c) || (c == '-' && is_digit(follows)) {
        let whole = run_end(s, pos + 1, CharClass::Digit);
        let number = if whole + 1 < s.len() && s[whole] == '.' && is_digit(s[whole + 1]) {
            run_end(s, whole + 1, CharClass::Digit)
        } else {
            whole
        };
        let unit = run_end(s, number, CharClass::Word);
        if unit == number {
            Some(token(TokenKind::Number, pos, number))
        } else {
            Some(token(TokenKind::Size, pos, unit))
        }
    } else if is_letter(c) || c == '_' {
        let e = run_end(s, pos + 1, CharClass::Word);
        if e < s.len() && s[e] == '/' {
            Some(token(TokenKind::Path, pos, run_end(s, e, CharClass::Path)))
        } else {
            Some(token(TokenKind::Word(keyword_of(s.subrange(pos, e))), pos, e))
        }
    } else if c == '/' || c == '~' || c == '.' {
        Some(token(TokenKind::Path, pos, run_end(s, pos + 1, CharClass::Path)))
    } else {
        None
    }
}

/// The tokens of `s` from `pos` on, or the place of the first character
/// that no token can start with.
pub open spec fn tokens_from(s: Seq<char>, pos: int) -> Result<Seq<Token>, int>
    decreases s.len() - pos,
{
    let p = blank_end(s, pos);
    if p < pos || p >= s.len() {
        Ok(Seq::empty())
    } else {
        match token_at(s, p) {
            None => Err(p),
            Some(t) => if p < t.end <= s.len() {
                match tokens_from(s, t.end as int) {
                    Ok(rest) => Ok(seq![t] + rest),
                    Err(e) => Err(e),
                }
            } else {
                Err(p)
            },
        }
    }
}

/// The tokens of a text.
pub open spec fn tokens_of(s: Seq<char>) -> Result<Seq<Token>, int> {
    tokens_from(s, 0)
}

/// Every token lies within the text, and a quoted text holds its two
/// quotes.
pub open spec fn tokens_fit(s: Seq<char>, tokens: Seq<Token>) -> bool {
    forall|i: int|
        0 <= i < tokens.len() ==> {
            let t = #[trigger] tokens[i];
            t.start < t.end <= s.len() && (t.kind == TokenKind::Text ==> t.start + 2 <= t.end)
        }
}

/// Whether a character belongs to a class.
pub fn char_in_class(c: char, class: CharClass) -> (r: bool)
    ensures
        r == in_class(c, class),
{
    match class {
        CharClass::Digit => '0' <= c && c <= '9',
        CharClass::Word => ('a' <= c && c <= 'z') || ('A' <= c && c <= 'Z') || ('0' <= c && c
            <= '9') || c == '_' || c == '.',
        CharClass::Path => !(c == ' ' || c == '\t' || c == '\r' || c == '\n') && c != ';' && c
            != ',' && c != '"',
        CharClass::Line => c != '\n',
        CharClass::Quoted => c != '"',
    }
}

/// Finds where the run of characters of `class` that starts at `from` ends.
pub fn scan(s: &Vec<char>, from: usize, class: CharClass) -> (r: usize)
    requires
        from <= s.len(),
    ensures
        r == run_end(s@, from as int, class),
        from <= r <= s.len(),
{
    let mut i: usize = from;
    while i < s.len() && char_in_class(s[i], class)
        invariant
            from <= i <= s.len(),
            run_end(s@, from as int, class) == run_end(s@, i as int, class),
        decreases s.len() - i,
    {
        i = i + 1;
    }
    i
}

fn word_is(word: &Vec<char>, keyword: &str) -> (r: bool)
    ensures
        r == (word@ == keyword@),
{
    chars_eq(word, &chars_of(keyword))
}

/// Finds the keyword that a word is.
pub fn classify(word: &Vec<char>) -> (r: Keyword)
    ensures
        r == keyword_of(word@),
{
    let w = upper_chars(word);
    if word_is(&w, "SELECT") {
        Keyword::Select
    } else if word_is(&w, "FROM") {
        Keyword::From
    } else if word_is(&w, "WHERE") {
        Keyword::Where
    } else if word_is(&w, "AND") {
        Keyword::And
    } else if word_is(&w, "OR") {
        Keyword::Or
    } else if word_is(&w, "DELETE") {
        Keyword::Delete
    } else if word_is(&w, "FILES") {
        Keyword::Files
    } else if word_is(&w, "KILL") {
        Keyword::Kill
    } else if word_is(&w, "PROCESS") {
        Keyword::Process
    } else if word_is(&w, "PROCESSES") {
        Keyword::Processes
    } else if word_is(&w, "EXPLAIN") {
        Keyword::Explain
    } else if word_is(&w, "LET") {
        Keyword::Let
    } else if word_is(&w, "ENTER") {
        Keyword::Enter
    } else if word_is(&w, "FOLDER") {
        Keyword::Folder
    } else if word_is(&w, "FILE") {
        Keyword::File
    } else if word_is(&w, "EXIT") {
        Keyword::Exit
    } else if word_is(&w, "RESET") {
        Keyword::Reset
    } else if word_is(&w, "SHOW") {
        Keyword::Show
    } else if word_is(&w, "CONTEXT") {
        Keyword::Context
    } else if word_is(&w, "VARIABLES") {
        Keyword::Variables
    } else if word_is(&w, "HISTORY") {
        Keyword::History
    } else if word_is(&w, "FOR") {
        Keyword::For
    } else if word_is(&w, "IN") {
        Keyword::In
    } else if word_is(&w, "DO") {
        Keyword::Do
    } else if word_is(&w, "END") {
        Keyword::End
    } else if word_is(&w, "IF") {
        Keyword::If
    } else if word_is(&w, "THEN") {
        Keyword::Then
    } else if word_is(&w, "ELSE") {
        Keyword::Else
    } else if word_is(&w, "LIFE") {
        Keyword::Life
    } else if word_is(&w, "MONITOR") {
        Keyword::Monitor
    } else if word_is(&w, "PRINT") {
        Keyword::Print
    } else if word_is(&w, "CREATE") {
        Keyword::Create
    } else if word_is(&w, "CONTAINER") {
        Keyword::Container
    } else if word_is(&w, "CONTAINERS") {
        Keyword::Containers
    } else if word_is(&w, "SWITCH") {
        Keyword::Switch
    } else if word_is(&w, "LIST") {
        Keyword::List
    } else if word_is(&w, "DESTROY") {
        Keyword::Destroy
    } else if word_is(&w, "EXPORT") {
        Keyword::Export
    } else if word_is(&w, "TO") {
        Keyword::To
    } else if word_is(&w, "WITH") {
        Keyword::With
    } else if word_is(&w, "ALLOW") {
        Keyword::Allow
    } else if word_is(&w, "ACTIONS") {
        Keyword::Actions
    } else if word_is(&w, "READONLY") {
        Keyword::Readonly
    } else if word_is(&w, "TRUE") {
        Keyword::True
    } else if word_is(&w, "FALSE") {
        Keyword::False
    } else if word_is(&w, "LIKE") {
        Keyword::Like
    } else if word_is(&w, "CONTAINS") {
        Keyword::Contains
    } else if word_is(&w, "MATCHES") {
        Keyword::Matches
    } else if word_is(&w, "CPU") {
        Keyword::Cpu
    } else if word_is(&w, "MEMORY") {
        Keyword::Memory
    } else if word_is(&w, "DISK") {
        Keyword::Disk
    } else if word_is(&w, "NETWORK") {
        Keyword::Network
    } else if word_is(&w, "SYSTEM") {
        Keyword::System
    } else if word_is(&w, "BATTERY") {
        Keyword::Battery
    } else if word_is(&w, "CONTENT") {
        Keyword::Content
    } else {
        Keyword::Other
    }
}

/// Skips the blanks and comments that start at `pos`.
pub fn skip_blank(s: &Vec<char>, pos: usize) -> (r: usize)
    requires
        pos <= s.len(),
    ensures
        r == blank_end(s@, pos as int),
        pos <= r <= s.len(),
{
    let mut i: usize = pos;
    loop
        invariant
            pos <= i <= s.len(),
            blank_end(s@, pos as int) == blank_end(s@, i as int),
        ensures
            i == blank_end(s@, pos as int),
            pos <= i <= s.len(),
        decreases s.len() - i,
    {
        if i >= s.len() {
            break ;
        }
        let c = s[i];
        if c == ' ' || c == '\t' || c == '\r' || c == '\n' {
            i = i + 1;
        } else if c == '#' || (i + 1 < s.len() && ((c == '-' && s[i + 1] == '-') || (c == '/'
            && s[i + 1] == '/'))) {
            i = scan(s, i + 1, CharClass::Line);
        } else {
            break ;
        }
    }
    i
}

/// Reads the token that starts at `pos`.
pub fn read_token(s: &Vec<char>, pos: usize) -> (r: Option<Token>)
    requires
        pos < s.len(),
    ensures
        r == token_at(s@, pos as int),
        r matches Some(t) ==> pos == t.start && t.start < t.end <= s.len() && (t.kind
            == TokenKind::Text ==> t.start + 2 <= t.end),
{
    let c = s[pos];
    let follows = if pos + 1 < s.len() {
        s[pos + 1]
    } else {
        ' '
    };
    if c == '"' {
        let e = scan(s, pos + 1, CharClass::Quoted);
        if e < s.len() {
            Some(Token { kind: TokenKind::Text, start: pos, end: e + 1 })
        } else {
            None
        }
    } else if c == '*' {
        Some(Token { kind: TokenKind::Star, start: pos, end: pos + 1 })
    } else if c == ',' {
        Some(Token { kind: TokenKind::Comma, start: pos, end: pos + 1 })
    } else if c == ';' {
        Some(Token { kind: TokenKind::Semicolon, start: pos, end: pos + 1 })
    } else if c == '=' {
        Some(Token { kind: TokenKind::Equal, start: pos, end: pos + 1 })
    } else if c == '!' {
        if follows == '=' {
            Some(Token { kind: TokenKind::NotEqual, start: pos, end: pos + 2 })
        } else {
            None
        }
    } else if c == '>' {
        if follows == '=' {
            Some(Token { kind: TokenKind::GreaterEqual, start: pos, end: pos + 2 })
        } else {
            Some(Token { kind: TokenKind::Greater, start: pos, end: pos + 1 })
        }
    } else if c == '<' {
        if follows == '=' {
            Some(Token { kind: TokenKind::LessEqual, start: pos, end: pos + 2 })
        } else {
            Some(Token { kind: TokenKind::Less, start: pos, end: pos + 1 })
        }
    } else if ('0' <= c && c <= '9') || (c == '-' && '0' <= follows && follows <= '9') {
        let whole = scan(s, pos + 1, CharClass::Digit);
        let number = if whole < s.len() && whole + 1 < s.len() && s[whole] == '.' && '0'
            <= s[whole + 1] && s[whole + 1] <= '9' {
            scan(s, whole + 1, CharClass::Digit)
        } else {
            whole
        };
        let unit = scan(s, number, CharClass::Word);
        if unit == number {
            Some(Token { kind: TokenKind::Number, start: pos, end: number })
        } else {
            Some(Token { kind: TokenKind::Size, start: pos, end: unit })
        }
    } else if ('a' <= c && c <= 'z') || ('A' <= c && c <= 'Z') || c == '_' {
        let e = scan(s, pos + 1, CharClass::Word);
        if e < s.len() && s[e] == '/' {
            Some(Token { kind: TokenKind::Path, start: pos, end: scan(s, e, CharClass::Path) })
        } else {
            let word = copy_range(s, pos, e);
            Some(Token { kind: TokenKind::Word(classify(&word)), start: pos, end: e })
        }
    } else if c == '/' || c == '~' || c == '.' {
        Some(Token { kind: TokenKind::Path, start: pos, end: scan(s, pos + 1, CharClass::Path) })
    } else {
        None
    }
}

/// What is known of the tokens once the first `done` are read.
pub open spec fn joined_tokens(done: Seq<Token>, rest: Result<Seq<Token>, int>) -> Result<
    Seq<Token>,
    int,
> {
    match rest {
        Ok(more) => Ok(done + more),
        Err(e) => Err(e),
    }
}

/// Splits a text into its tokens, or says where a character stands that no
/// token can start with.
pub fn tokenize(s: &Vec<char>) -> (r: Result<Vec<Token>, usize>)
    ensures
        match tokens_of(s@) {
            Ok(tokens) => r is Ok && r->Ok_0@ == tokens && tokens_fit(s@, tokens),
            Err(at) => r == Err::<Vec<Token>, usize>(at as usize) && 0 <= at < s.len(),
        },
{
    let mut tokens: Vec<Token> = Vec::new();
    let mut pos: usize = 0;
    assert(joined_tokens(tokens@, tokens_from(s@, 0)) == tokens_from(s@, 0)) by {
        match tokens_from(s@, 0) {
            Ok(more) => {
                assert(Seq::<Token>::empty() + more =~= more);
            },
            Err(_) => {},
        }
    }
    loop
        invariant
            pos <= s.len(),
            tokens_fit(s@, tokens@),
            tokens_of(s@) == joined_tokens(tokens@, tokens_from(s@, pos as int)),
        decreases s.len() - pos,
    {
        let p = skip_blank(s, pos);
        if p >= s.len() {
            assert(tokens@ + Seq::<Token>::empty() =~= tokens@);
            return Ok(tokens);
        }
        match read_token(s, p) {
            None => {
                return Err(p);
            },
            Some(t) => {
                proof {
                    match tokens_from(s@, t.end as int) {
                        Ok(rest) => {
                            assert(tokens@ + (seq![t] + rest) =~= tokens@.push(t) + rest);
                        },
                        Err(_) => {},
                    }
                }
                tokens.push(t);
                pos = t.end;
            },
        }
    }
}

} // verus!
