//! The interactive front end without its terminal: shortcuts, built-in
//! commands, and the gathering of a block that spans several lines.

use vstd::prelude::*;
use vstd::string::StringExecFns;
use crate::bridge::{lowercase, to_lowercase, to_uppercase, uppercase};
use crate::text::{chars_contain, chars_eq, chars_of, contains, is_space, text_of, text_of_range};

verus! {

/// `s` without the blanks at its end.
pub open spec fn trim_end(s: Seq<char>) -> Seq<char>
    decreases s.len(),
{
    if s.len() > 0 && is_space(s.last()) {
        trim_end(s.drop_last())
    } else {
        s
    }
}

/// Where the blanks that start at `from` end.
pub open spec fn blanks_end(s: Seq<char>, from: int) -> int
    decreases s.len() - from,
{
    if 0 <= from < s.len() && is_space(s[from]) {
        blanks_end(s, from + 1)
    } else {
        from
    }
}

/// `s` without the blanks at its start and at its end.
pub open spec fn trimmed(s: Seq<char>) -> Seq<char> {
    trim_end(s.skip(blanks_end(s, 0)))
}

/// Whether `s` starts with the characters `prefix`.
pub open spec fn begins(s: Seq<char>, prefix: Seq<char>) -> bool {
    s.len() >= prefix.len() && s.take(prefix.len() as int) == prefix
}

/// `s` without its first `n` characters, and nothing where it has fewer.
pub open spec fn behind(s: Seq<char>, n: nat) -> Seq<char> {
    if n <= s.len() {
        s.skip(n as int)
    } else {
        Seq::empty()
    }
}

/// The command that a shortcut stands for; any other input stands for
/// itself. Shortcuts count in either case: the input is looked at in its
/// lower-case form.
pub open spec fn expanded(input: Seq<char>) -> Seq<char> {
    expanded_by(input, lowercase(input))
}

/// The same, where `l` is the input in lower case.
pub open spec fn expanded_by(input: Seq<char>, l: Seq<char>) -> Seq<char> {
    if begins(l, seq!['c', 'd', ' ']) {
        "ENTER FOLDER "@ + behind(input, 3)
    } else if l == seq!['c', 'd'] || l == seq!['.', '.'] {
        "EXIT"@
    } else if l == seq!['l', 's'] {
        "SELECT FILES *"@
    } else if begins(l, seq!['l', 's', ' ']) {
        "SELECT FILES * FROM "@ + behind(input, 3)
    } else if begins(l, seq!['c', 'a', 't', ' ']) {
        "ENTER FILE "@ + behind(input, 4)
    } else if l == seq!['c', 'a', 't'] {
        "SELECT CONTENT *"@
    } else if l == "vars"@ || l == "variables"@ {
        "SHOW VARIABLES"@
    } else if l == "ctx"@ || l == "context"@ {
        "SHOW CONTEXT"@
    } else {
        input
    }
}

fn has_prefix(s: &Vec<char>, a: char, b: char, c: char) -> (r: bool)
    ensures
        r == begins(s@, seq![a, b, c]),
{
    let r = s.len() >= 3 && s[0] == a && s[1] == b && s[2] == c;
    proof {
        if s.len() >= 3 {
            assert(s@.take(3) =~= seq![s@[0], s@[1], s@[2]]);
            assert(seq![a, b, c][0] == a && seq![a, b, c][1] == b && seq![a, b, c][2] == c);
        }
    }
    r
}

fn is_chars(s: &Vec<char>, word: &str) -> (r: bool)
    ensures
        r == (s@ == word@),
{
    chars_eq(s, &chars_of(word))
}

fn after(text: &str, chars: &Vec<char>, from: usize) -> (r: String)
    ensures
        r@ == text@ + behind(chars@, from as nat),
{
    let mut out = String::from_str(text);
    if from <= chars.len() {
        let rest = text_of_range(chars, from, chars.len());
        assert(chars@.skip(from as int) =~= chars@.subrange(from as int, chars.len() as int));
        out.append(rest.as_str());
    } else {
        assert(text@ + Seq::<char>::empty() =~= text@);
    }
    out
}

/// Expands a shortcut to the command that it stands for.
pub fn expand_shortcuts(input: &str) -> (r: String)
    ensures
        r@ == expanded(input@),
{
    let lowered = to_lowercase(input);
    expand_lowered(input, lowered.as_str())
}

/// Expands a shortcut to the command that it stands for, where `lowered` is
/// the input in lower case.
pub fn expand_lowered(input: &str, lowered: &str) -> (r: String)
    ensures
        r@ == expanded_by(input@, lowered@),
{
    let chars = chars_of(input);
    let l = chars_of(lowered);
    let n = l.len();
    if has_prefix(&l, 'c', 'd', ' ') {
        return after("ENTER FOLDER ", &chars, 3);
    }
    let two = n == 2 && ((l[0] == 'c' && l[1] == 'd') || (l[0] == '.' && l[1] == '.'));
    proof {
        if n == 2 {
            assert(l@ =~= seq![l@[0], l@[1]]);
        }
        assert(seq!['c', 'd'].len() == 2 && seq!['.', '.'].len() == 2 && seq!['l', 's'].len()
            == 2);
        assert(seq!['c', 'd'][0] == 'c' && seq!['c', 'd'][1] == 'd');
        assert(seq!['.', '.'][0] == '.' && seq!['.', '.'][1] == '.');
        assert(seq!['l', 's'][0] == 'l' && seq!['l', 's'][1] == 's');
    }
    if two {
        return String::from_str("EXIT");
    }
    if n == 2 && l[0] == 'l' && l[1] == 's' {
        return String::from_str("SELECT FILES *");
    }
    if has_prefix(&l, 'l', 's', ' ') {
        return after("SELECT FILES * FROM ", &chars, 3);
    }
    let cat = n >= 3 && l[0] == 'c' && l[1] == 'a' && l[2] == 't';
    proof {
        if n >= 4 {
            assert(l@.take(4) =~= seq![l@[0], l@[1], l@[2], l@[3]]);
        }
        if n == 3 {
            assert(l@ =~= seq![l@[0], l@[1], l@[2]]);
        }
        let p = seq!['c', 'a', 't', ' '];
        assert(p.len() == 4 && p[0] == 'c' && p[1] == 'a' && p[2] == 't' && p[3] == ' ');
        let q = seq!['c', 'a', 't'];
        assert(q.len() == 3 && q[0] == 'c' && q[1] == 'a' && q[2] == 't');
    }
    if cat && n >= 4 && l[3] == ' ' {
        return after("ENTER FILE ", &chars, 4);
    }
    if cat && n == 3 {
        return String::from_str("SELECT CONTENT *");
    }
    if is_chars(&l, "vars") || is_chars(&l, "variables") {
        return String::from_str("SHOW VARIABLES");
    }
    if is_chars(&l, "ctx") || is_chars(&l, "context") {
        return String::from_str("SHOW CONTEXT");
    }
    String::from_str(input)
}

/// What the front end is to do after a line.
#[derive(Debug)]
pub enum ReplStep {
    /// Ask for the next line.
    Nothing,
    Quit,
    Help,
    Clear,
    /// Show the current folder.
    Pwd,
    /// List the containers.
    Containers,
    /// Parse and run the command.
    Run(String),
}

/// The model of `ReplStep`.
pub ghost enum ReplStepView {
    Nothing,
    Quit,
    Help,
    Clear,
    Pwd,
    Containers,
    Run(Seq<char>),
}

impl ReplStep {
    pub open spec fn view(&self) -> ReplStepView {
        match self {
            ReplStep::Nothing => ReplStepView::Nothing,
            ReplStep::Quit => ReplStepView::Quit,
            ReplStep::Help => ReplStepView::Help,
            ReplStep::Clear => ReplStepView::Clear,
            ReplStep::Pwd => ReplStepView::Pwd,
            ReplStep::Containers => ReplStepView::Containers,
            ReplStep::Run(command) => ReplStepView::Run(command@),
        }
    }
}

/// The input that is being gathered: the lines so far and the number of
/// blocks that are open.
#[derive(Debug)]
pub struct ReplSession {
    buffer: String,
    depth: usize,
}

/// The model of `ReplSession`.
pub ghost struct ReplView {
    pub buffer: Seq<char>,
    pub depth: nat,
}

/// The command that a line is where no block is open, if it is one of the
/// built-in commands.
pub open spec fn builtin(line: Seq<char>) -> Option<ReplStepView> {
    builtin_by(lowercase(line))
}

/// The built-in command that a line in lower case is, if it is one.
pub open spec fn builtin_by(l: Seq<char>) -> Option<ReplStepView> {
    if l == "exit"@ || l == "quit"@ || l == "q"@ {
        Some(ReplStepView::Quit)
    } else if l == "help"@ || l == "?"@ {
        Some(ReplStepView::Help)
    } else if l == "clear"@ || l == "cls"@ {
        Some(ReplStepView::Clear)
    } else if l == "pwd"@ {
        Some(ReplStepView::Pwd)
    } else if l == "containers"@ {
        Some(ReplStepView::Containers)
    } else {
        None
    }
}

/// One block more, as far as the count reaches.
pub open spec fn one_more(depth: nat) -> nat {
    if depth < usize::MAX {
        depth + 1
    } else {
        depth
    }
}

/// One block less, and none below none.
pub open spec fn one_less(depth: nat) -> nat {
    if depth > 0 {
        (depth - 1) as nat
    } else {
        0
    }
}

/// The number of open blocks after a line: `DO` and `THEN` open one, each
/// of `END FOR`, `END IF`, `END CONTAINER` and `END LIFE` closes one.
pub open spec fn depth_after(depth: nat, line: Seq<char>) -> nat {
    depth_by(depth, uppercase(line))
}

/// The same, where `u` is the line in upper case.
pub open spec fn depth_by(depth: nat, u: Seq<char>) -> nat {
    let d1 = if contains(u, " DO"@) {
        one_more(depth)
    } else {
        depth
    };
    let d2 = if contains(u, " THEN"@) {
        one_more(d1)
    } else {
        d1
    };
    let d3 = if contains(u, "END FOR"@) {
        one_less(d2)
    } else {
        d2
    };
    let d4 = if contains(u, "END IF"@) {
        one_less(d3)
    } else {
        d3
    };
    let d5 = if contains(u, "END CONTAINER"@) {
        one_less(d4)
    } else {
        d4
    };
    if contains(u, "END LIFE"@) {
        one_less(d5)
    } else {
        d5
    }
}

impl ReplView {
    /// The state after a line, and what the front end is to do.
    pub open spec fn fed(self, line: Seq<char>) -> (ReplView, ReplStepView) {
        let t = trimmed(line);
        if t.len() == 0 {
            if self.depth == 0 {
                (self, ReplStepView::Nothing)
            } else {
                (ReplView { buffer: self.buffer.push(' '), ..self }, ReplStepView::Nothing)
            }
        } else if self.depth == 0 && builtin(t) is Some {
            (self, builtin(t)->Some_0)
        } else {
            let text = if self.depth == 0 {
                expanded(t)
            } else {
                t
            };
            let depth = depth_after(self.depth, text);
            let buffer = if self.buffer.len() > 0 {
                self.buffer.push(' ') + text
            } else {
                text
            };
            if depth == 0 && buffer.len() > 0 {
                (ReplView { buffer: Seq::empty(), depth }, ReplStepView::Run(buffer))
            } else {
                (ReplView { buffer, depth }, ReplStepView::Nothing)
            }
        }
    }

    /// The prompt: dots where a block is open, and else the container,
    /// where it is not `default`, and the place.
    pub open spec fn prompt(self, container: Seq<char>, place: Seq<char>) -> Seq<char> {
        if self.depth > 0 {
            indent(self.depth) + "...> "@
        } else {
            let shown = if container == "default"@ {
                ""@
            } else {
                "["@ + container + "] "@
            };
            "arta "@ + shown + "["@ + place + "]> "@
        }
    }
}

/// Two blanks for each open block.
pub open spec fn indent(depth: nat) -> Seq<char>
    decreases depth,
{
    if depth == 0 {
        Seq::empty()
    } else {
        indent((depth - 1) as nat) + "  "@
    }
}

fn trim(line: &Vec<char>) -> (r: Vec<char>)
    ensures
        r@ == trimmed(line@),
{
    let mut start: usize = 0;
    while start < line.len() && (line[start] == ' ' || line[start] == '\t' || line[start] == '\r'
        || line[start] == '\n')
        invariant
            start <= line.len(),
            blanks_end(line@, 0) == blanks_end(line@, start as int),
        decreases line.len() - start,
    {
        start = start + 1;
    }
    let mut end: usize = line.len();
    assert(line@.skip(start as int) =~= line@.subrange(start as int, end as int));
    while end > start && (line[end - 1] == ' ' || line[end - 1] == '\t' || line[end - 1] == '\r'
        || line[end - 1] == '\n')
        invariant
            start <= end <= line.len(),
            trim_end(line@.skip(start as int)) == trim_end(
                line@.subrange(start as int, end as int),
            ),
        decreases end,
    {
        assert(line@.subrange(start as int, end as int).drop_last() =~= line@.subrange(
            start as int,
            end - 1,
        ));
        end = end - 1;
    }
    crate::number::copy_range(line, start, end)
}

fn holds(line: &Vec<char>, word: &str) -> (r: bool)
    ensures
        r == contains(line@, word@),
{
    chars_contain(line, &chars_of(word))
}

/// The built-in command that a line in lower case is, if it is one.
pub fn builtin_command(lowered: &str) -> (r: Option<ReplStep>)
    ensures
        match builtin_by(lowered@) {
            Some(step) => r is Some && r->Some_0@ == step,
            None => r is None,
        },
{
    let l = chars_of(lowered);
    if is_chars(&l, "exit") || is_chars(&l, "quit") || is_chars(&l, "q") {
        Some(ReplStep::Quit)
    } else if is_chars(&l, "help") || is_chars(&l, "?") {
        Some(ReplStep::Help)
    } else if is_chars(&l, "clear") || is_chars(&l, "cls") {
        Some(ReplStep::Clear)
    } else if is_chars(&l, "pwd") {
        Some(ReplStep::Pwd)
    } else if is_chars(&l, "containers") {
        Some(ReplStep::Containers)
    } else {
        None
    }
}

fn more(depth: usize) -> (r: usize)
    ensures
        r == one_more(depth as nat),
{
    if depth < usize::MAX {
        depth + 1
    } else {
        depth
    }
}

fn less(depth: usize) -> (r: usize)
    ensures
        r == one_less(depth as nat),
{
    if depth > 0 {
        depth - 1
    } else {
        0
    }
}

/// The number of open blocks after a line, where `upper` is the line in
/// upper case.
pub fn next_depth(depth: usize, upper: &str) -> (r: usize)
    ensures
        r == depth_by(depth as nat, upper@),
{
    let u = chars_of(upper);
    let d1 = if holds(&u, " DO") {
        more(depth)
    } else {
        depth
    };
    let d2 = if holds(&u, " THEN") {
        more(d1)
    } else {
        d1
    };
    let d3 = if holds(&u, "END FOR") {
        less(d2)
    } else {
        d2
    };
    let d4 = if holds(&u, "END IF") {
        less(d3)
    } else {
        d3
    };
    let d5 = if holds(&u, "END CONTAINER") {
        less(d4)
    } else {
        d4
    };
    if holds(&u, "END LIFE") {
        less(d5)
    } else {
        d5
    }
}

impl ReplSession {
    pub closed spec fn view(&self) -> ReplView {
        ReplView { buffer: self.buffer@, depth: self.depth as nat }
    }

    /// A session with nothing gathered.
    pub fn new() -> (r: Self)
        ensures
            r@ == (ReplView { buffer: Seq::empty(), depth: 0 }),
    {
        ReplSession { buffer: String::new(), depth: 0 }
    }

    /// Whether a block is open.
    pub fn in_block(&self) -> (r: bool)
        ensures
            r == (self@.depth > 0),
    {
        self.depth > 0
    }

    /// Takes a line of input.
    pub fn feed(&mut self, line: &str) -> (r: ReplStep)
        ensures
            final(self)@ == old(self)@.fed(line@).0,
            r@ == old(self)@.fed(line@).1,
    {
        let t = trim(&chars_of(line));
        if t.len() == 0 {
            if self.depth > 0 {
                self.buffer.push(' ');
            }
            return ReplStep::Nothing;
        }
        let line = text_of(&t);
        if self.depth == 0 {
            match builtin_command(to_lowercase(line.as_str()).as_str()) {
                Some(step) => {
                    return step;
                },
                None => {},
            }
        }
        let text = if self.depth == 0 {
            expand_shortcuts(line.as_str())
        } else {
            line
        };
        self.depth = next_depth(self.depth, to_uppercase(text.as_str()).as_str());
        let ghost before = self.buffer@;
        let empty = chars_of(self.buffer.as_str()).len() == 0;
        if !empty {
            self.buffer.push(' ');
            self.buffer.append(text.as_str());
        } else {
            self.buffer = text;
        }
        let gathered = chars_of(self.buffer.as_str()).len() > 0;
        if self.depth == 0 && gathered {
            let mut command = String::new();
            core::mem::swap(&mut command, &mut self.buffer);
            ReplStep::Run(command)
        } else {
            ReplStep::Nothing
        }
    }

    /// Drops what was gathered, as after an interrupt, and says whether
    /// there was an open block.
    pub fn interrupt(&mut self) -> (r: bool)
        ensures
            r == (old(self)@.depth > 0),
            final(self)@ == if r {
                ReplView { buffer: Seq::empty(), depth: 0 }
            } else {
                old(self)@
            },
    {
        if self.depth > 0 {
            self.buffer = String::new();
            self.depth = 0;
            true
        } else {
            false
        }
    }

    /// The prompt for the next line.
    pub fn prompt(&self, container: &str, place: &str) -> (r: String)
        ensures
            r@ == self@.prompt(container@, place@),
    {
        if self.depth > 0 {
            let mut out = String::new();
            let mut i: usize = 0;
            while i < self.depth
                invariant
                    i <= self.depth,
                    out@ == indent(i as nat),
                decreases self.depth - i,
            {
                out.append("  ");
                i = i + 1;
            }
            out.append("...> ");
            out
        } else {
            let shown = if crate::text::text_eq(container, "default") {
                String::from_str("")
            } else {
                crate::text::join3("[", container, "] ")
            };
            let mut out = String::from_str("arta ");
            out.append(shown.as_str());
            out.append("[");
            out.append(place);
            out.append("]> ");
            out
        }
    }
}

/// The interactive front end needs a terminal: the library offers
/// `ReplSession` for the decisions, and reports that it cannot run the loop
/// itself.
pub fn run_repl() -> (r: Result<(), crate::error::ArtaError>)
    ensures
        r is Err,
        r->Err_0@ == crate::error::ErrorView::ExecutionError(
            "REPL not enabled. Rebuild with --features repl"@,
        ),
{
    Err(
        crate::error::ArtaError::ExecutionError(
            String::from_str("REPL not enabled. Rebuild with --features repl"),
        ),
    )
}

} // verus!
