//! The state of a session: the stack of entered folders, the focused file,
//! the variables and the log of what was entered and left.

use vstd::prelude::*;
use vstd::string::StringExecFns;
use crate::ast::opt_text_view;
use crate::bridge::{format_size, size_text, Timestamp};
use crate::error::{ArtaError, ErrorView};
use crate::number::Number;
use crate::text::{
    chars_of, chars_start_with, decimal, join, join3, push_decimal, starts_with, text_eq,
    text_of_range,
};

verus! {

/// The value of a variable.
#[derive(Debug)]
pub enum VariableValue {
    String(String),
    Number(Number),
    /// A byte count.
    Size(u64),
    Boolean(bool),
    Path(String),
}

/// The model of `VariableValue`.
pub ghost enum VariableView {
    String(Seq<char>),
    Number(Number),
    Size(u64),
    Boolean(bool),
    Path(Seq<char>),
}

impl VariableView {
    /// How the value is shown.
    pub open spec fn text(self) -> Seq<char> {
        match self {
            VariableView::String(s) => "\""@ + s + "\""@,
            VariableView::Number(n) => n.text(),
            VariableView::Size(s) => size_text(s),
            VariableView::Boolean(b) => if b {
                "true"@
            } else {
                "false"@
            },
            VariableView::Path(p) => p,
        }
    }
}

impl VariableValue {
    pub open spec fn view(&self) -> VariableView {
        match self {
            VariableValue::String(s) => VariableView::String(s@),
            VariableValue::Number(n) => VariableView::Number(*n),
            VariableValue::Size(s) => VariableView::Size(*s),
            VariableValue::Boolean(b) => VariableView::Boolean(*b),
            VariableValue::Path(p) => VariableView::Path(p@),
        }
    }

    /// How the value is shown.
    pub fn to_text(&self) -> (r: String)
        ensures
            r@ == self@.text(),
    {
        match self {
            VariableValue::String(s) => join3("\"", s.as_str(), "\""),
            VariableValue::Number(n) => n.to_text(),
            VariableValue::Size(s) => format_size(*s),
            VariableValue::Boolean(b) => if *b {
                String::from_str("true")
            } else {
                String::from_str("false")
            },
            VariableValue::Path(p) => p.clone(),
        }
    }

    /// A copy of the value.
    pub fn duplicate(&self) -> (r: VariableValue)
        ensures
            r@ == self@,
    {
        match self {
            VariableValue::String(s) => VariableValue::String(s.clone()),
            VariableValue::Number(n) => VariableValue::Number(*n),
            VariableValue::Size(s) => VariableValue::Size(*s),
            VariableValue::Boolean(b) => VariableValue::Boolean(*b),
            VariableValue::Path(p) => VariableValue::Path(p.clone()),
        }
    }
}

/// One line of the log.
#[derive(Debug)]
pub struct ContextHistoryEntry {
    pub action: String,
    pub path: Option<String>,
    pub timestamp: Timestamp,
}

/// The model of `ContextHistoryEntry`.
pub ghost struct HistoryView {
    pub action: Seq<char>,
    pub path: Option<Seq<char>>,
    pub timestamp: Timestamp,
}

impl ContextHistoryEntry {
    pub open spec fn view(&self) -> HistoryView {
        HistoryView {
            action: self.action@,
            path: opt_text_view(self.path),
            timestamp: self.timestamp,
        }
    }
}

/// What a path was found to be.
#[derive(Debug, Clone, Copy, PartialEq, Eq, Structural)]
pub enum PathKind {
    Missing,
    Folder,
    File,
    Other,
}

/// What the file system says of a path.
#[derive(Debug)]
pub struct PathProbe {
    /// The path that was inspected.
    pub path: String,
    pub kind: PathKind,
    /// The absolute, symlink-free form of the path, or the message of the
    /// failure to compute it.
    pub canonical: Result<String, String>,
}

/// The model of `PathProbe`.
pub ghost struct ProbeView {
    pub path: Seq<char>,
    pub kind: PathKind,
    pub canonical: Result<Seq<char>, Seq<char>>,
}

impl PathProbe {
    pub open spec fn view(&self) -> ProbeView {
        ProbeView {
            path: self.path@,
            kind: self.kind,
            canonical: match self.canonical {
                Ok(p) => Ok(p@),
                Err(e) => Err(e@),
            },
        }
    }
}

/// The state of a session.
#[derive(Debug)]
pub struct Context {
    folder_stack: Vec<String>,
    current_file: Option<String>,
    variables: Vec<(String, VariableValue)>,
    history: Vec<ContextHistoryEntry>,
}

/// The model of `Context`.
pub ghost struct ContextView {
    /// The entered folders, the start folder first.
    pub folders: Seq<Seq<char>>,
    pub file: Option<Seq<char>>,
    /// The bindings, in the order in which the names were first bound.
    pub variables: Seq<(Seq<char>, VariableView)>,
    pub history: Seq<HistoryView>,
}

/// The index of the binding of `name` among `bindings`.
pub open spec fn find_binding(bindings: Seq<(Seq<char>, VariableView)>, name: Seq<char>) -> Option<
    int,
>
    decreases bindings.len(),
{
    if bindings.len() == 0 {
        None
    } else {
        match find_binding(bindings.drop_last(), name) {
            Some(i) => Some(i),
            None => if bindings.last().0 == name {
                Some(bindings.len() - 1)
            } else {
                None
            },
        }
    }
}

/// No name is bound twice.
pub open spec fn distinct_names(bindings: Seq<(Seq<char>, VariableView)>) -> bool {
    forall|i: int, j: int|
        0 <= i < j < bindings.len() ==> (#[trigger] bindings[i]).0 != (#[trigger] bindings[j]).0
}

/// What a name finds is the first binding of that name; what it does not find is
/// bound nowhere.
pub proof fn lemma_find_binding(bindings: Seq<(Seq<char>, VariableView)>, name: Seq<char>)
    ensures
        match find_binding(bindings, name) {
            Some(i) => 0 <= i < bindings.len() && bindings[i].0 == name && forall|j: int|
                0 <= j < i ==> (#[trigger] bindings[j]).0 != name,
            None => forall|j: int| 0 <= j < bindings.len() ==> (#[trigger] bindings[j]).0 != name,
        },
    decreases bindings.len(),
{
    if bindings.len() > 0 {
        lemma_find_binding(bindings.drop_last(), name);
        assert forall|j: int| 0 <= j < bindings.len() - 1 implies bindings[j]
            == bindings.drop_last()[j] by {}
    }
}

/// What a name finds among the first bindings it finds among all of them.
pub proof fn lemma_find_binding_prefix(
    bindings: Seq<(Seq<char>, VariableView)>,
    n: int,
    name: Seq<char>,
)
    requires
        0 <= n <= bindings.len(),
        find_binding(bindings.take(n), name) is Some,
    ensures
        find_binding(bindings, name) == find_binding(bindings.take(n), name),
    decreases bindings.len() - n,
{
    if n == bindings.len() {
        assert(bindings.take(n) == bindings);
    } else {
        assert(bindings.take(n + 1).drop_last() == bindings.take(n));
        lemma_find_binding_prefix(bindings, n + 1, name);
    }
}

/// A line of the log.
pub open spec fn history_line(action: Seq<char>, path: Option<Seq<char>>, now: Timestamp) -> HistoryView {
    HistoryView { action, path, timestamp: now }
}

impl ContextView {
    /// A session always stands in a folder, and no name is bound twice.
    pub open spec fn wf(self) -> bool {
        self.folders.len() >= 1 && distinct_names(self.variables)
    }

    /// The folder that the session stands in: the last entered one.
    pub open spec fn current_folder(self) -> Seq<char> {
        self.folders.last()
    }

    /// An absolute path stands for itself; any other is taken from the
    /// current folder.
    pub open spec fn resolved(self, path: Seq<char>) -> Seq<char> {
        if path.len() > 0 && path[0] == '/' {
            path
        } else if self.current_folder().len() > 0 && self.current_folder().last() == '/' {
            self.current_folder() + path
        } else {
            self.current_folder() + "/"@ + path
        }
    }

    /// The session with one more line in its log.
    pub open spec fn logged(self, action: Seq<char>, path: Option<Seq<char>>, now: Timestamp) -> ContextView {
        ContextView { history: self.history.push(history_line(action, path, now)), ..self }
    }

    /// The state after `ENTER FOLDER` on what `probe` reports, or why the
    /// state stays as it is.
    pub open spec fn enter_folder(self, probe: ProbeView, now: Timestamp) -> Result<
        ContextView,
        ErrorView,
    > {
        if probe.kind == PathKind::Missing {
            Err(ErrorView::PathNotFound(probe.path))
        } else if probe.kind != PathKind::Folder {
            Err(ErrorView::ExecutionError("'"@ + probe.path + "' is not a directory"@))
        } else {
            match probe.canonical {
                Err(e) => Err(ErrorView::IoError(e)),
                Ok(p) => Ok(
                    ContextView { folders: self.folders.push(p), file: None, ..self }.logged(
                        "ENTER FOLDER"@,
                        Some(p),
                        now,
                    ),
                ),
            }
        }
    }

    /// The state after `ENTER FILE` on what `probe` reports, or why the state
    /// stays as it is.
    pub open spec fn enter_file(self, probe: ProbeView, now: Timestamp) -> Result<
        ContextView,
        ErrorView,
    > {
        if probe.kind == PathKind::Missing {
            Err(ErrorView::PathNotFound(probe.path))
        } else if probe.kind != PathKind::File {
            Err(ErrorView::ExecutionError("'"@ + probe.path + "' is not a file"@))
        } else {
            match probe.canonical {
                Err(e) => Err(ErrorView::IoError(e)),
                Ok(p) => Ok(
                    ContextView { file: Some(p), ..self }.logged("ENTER FILE"@, Some(p), now),
                ),
            }
        }
    }

    /// The state after `EXIT`: the focused file goes first, then the last
    /// entered folder; the start folder stays.
    pub open spec fn exit(self, now: Timestamp) -> Result<ContextView, ErrorView> {
        if self.file is Some {
            Ok(ContextView { file: None, ..self }.logged("EXIT FILE"@, None, now))
        } else if self.folders.len() > 1 {
            Ok(
                ContextView { folders: self.folders.drop_last(), ..self }.logged(
                    "EXIT FOLDER"@,
                    Some(self.folders.last()),
                    now,
                ),
            )
        } else {
            Err(ErrorView::ExecutionError("Already at root context, cannot exit further"@))
        }
    }

    /// The state after `RESET`: back in the start folder, with no file.
    pub open spec fn reset(self, now: Timestamp) -> ContextView {
        ContextView { folders: self.folders.take(1), file: None, ..self }.logged(
            "RESET CONTEXT"@,
            None,
            now,
        )
    }

    /// The value bound to `name`.
    pub open spec fn lookup(self, name: Seq<char>) -> Option<VariableView> {
        match find_binding(self.variables, name) {
            Some(i) => Some(self.variables[i].1),
            None => None,
        }
    }

    /// The state after `name` is bound to `value`, in place of what it was
    /// bound to before.
    pub open spec fn bind(self, name: Seq<char>, value: VariableView) -> ContextView {
        ContextView {
            variables: match find_binding(self.variables, name) {
                Some(i) => self.variables.update(i, (name, value)),
                None => self.variables.push((name, value)),
            },
            ..self
        }
    }

    /// The lines `  name = value`, one for each binding.
    pub open spec fn variable_lines(self, count: nat) -> Seq<char>
        decreases count,
    {
        if count == 0 || count > self.variables.len() {
            Seq::empty()
        } else {
            self.variable_lines((count - 1) as nat) + "  "@ + self.variables[count - 1].0 + " = "@
                + self.variables[count - 1].1.text() + "\n"@
        }
    }

    /// The state as a few lines of text.
    pub open spec fn display(self) -> Seq<char> {
        "Current Context\n"@ + "---------------\n"@ + "Folder: "@ + self.current_folder() + "\n"@
            + match self.file {
            Some(f) => "File:   "@ + f + "\n"@,
            None => Seq::empty(),
        } + "Depth:  "@ + decimal(self.folders.len()) + "\n"@ + if self.variables.len() > 0 {
            "\nVariables:\n"@ + self.variable_lines(self.variables.len())
        } else {
            Seq::empty()
        }
    }
}

/// Entering a folder and leaving it again restores the stack of folders, and
/// with it its depth and its top.
pub proof fn lemma_enter_then_exit(c: ContextView, probe: ProbeView, entered: Timestamp, left: Timestamp)
    requires
        c.wf(),
        c.enter_folder(probe, entered) is Ok,
    ensures
        c.enter_folder(probe, entered)->Ok_0.exit(left) is Ok,
        c.enter_folder(probe, entered)->Ok_0.exit(left)->Ok_0.folders == c.folders,
        c.enter_folder(probe, entered)->Ok_0.exit(left)->Ok_0.wf(),
{
    let inside = c.enter_folder(probe, entered)->Ok_0;
    assert(inside.folders.drop_last() == c.folders);
}

/// In the start folder with no file in focus there is nothing to leave.
pub proof fn lemma_exit_at_root(c: ContextView, now: Timestamp)
    requires
        c.folders.len() == 1,
        c.file is None,
    ensures
        c.exit(now) is Err,
{
}

/// The models of a list of bindings, in order.
pub open spec fn bindings_view(bindings: Seq<(String, VariableValue)>) -> Seq<
    (Seq<char>, VariableView),
> {
    Seq::new(bindings.len(), |i: int| (bindings[i].0@, bindings[i].1@))
}

/// The models of a list of log lines, in order.
pub open spec fn history_view(lines: Seq<ContextHistoryEntry>) -> Seq<HistoryView> {
    Seq::new(lines.len(), |i: int| lines[i]@)
}

impl Context {
    pub closed spec fn view(&self) -> ContextView {
        ContextView {
            folders: Seq::new(self.folder_stack.len() as nat, |i: int| self.folder_stack[i]@),
            file: opt_text_view(self.current_file),
            variables: bindings_view(self.variables@),
            history: history_view(self.history@),
        }
    }

    pub open spec fn wf(&self) -> bool {
        self@.wf()
    }

    /// A session that stands in `start_folder`, with nothing bound and
    /// nothing logged.
    pub fn new(start_folder: String) -> (r: Context)
        ensures
            r.wf(),
            r@.folders == seq![start_folder@],
            r@.file is None,
            r@.variables.len() == 0,
            r@.history.len() == 0,
    {
        let mut folder_stack: Vec<String> = Vec::new();
        folder_stack.push(start_folder);
        let r = Context {
            folder_stack,
            current_file: None,
            variables: Vec::new(),
            history: Vec::new(),
        };
        assert(r@.folders =~= seq![start_folder@]);
        r
    }

    /// The folder that the session stands in.
    pub fn current_folder(&self) -> (r: &str)
        requires
            self.wf(),
        ensures
            r@ == self@.current_folder(),
    {
        self.folder_stack[self.folder_stack.len() - 1].as_str()
    }

    /// The file in focus.
    pub fn current_file(&self) -> (r: Option<&str>)
        ensures
            match r {
                Some(f) => self@.file == Some(f@),
                None => self@.file is None,
            },
    {
        match &self.current_file {
            Some(f) => Some(f.as_str()),
            None => None,
        }
    }

    /// The folder that the session started in.
    pub fn start_folder(&self) -> (r: &str)
        requires
            self.wf(),
        ensures
            r@ == self@.folders[0],
    {
        self.folder_stack[0].as_str()
    }

    /// How many folders are on the stack.
    pub fn folder_depth(&self) -> (r: usize)
        ensures
            r == self@.folders.len(),
    {
        self.folder_stack.len()
    }

    /// The path that `path` stands for in this session.
    pub fn resolve_path(&self, path: &str) -> (r: Result<String, ArtaError>)
        requires
            self.wf(),
        ensures
            r is Ok,
            r->Ok_0@ == self@.resolved(path@),
    {
        let chars = chars_of(path);
        if chars.len() > 0 && chars[0] == '/' {
            return Ok(String::from_str(path));
        }
        let folder = self.current_folder();
        let folder_chars = chars_of(folder);
        if folder_chars.len() > 0 && folder_chars[folder_chars.len() - 1] == '/' {
            Ok(join(folder, path))
        } else {
            Ok(join3(folder, "/", path))
        }
    }

    fn log(&mut self, action: &str, path: Option<String>, now: Timestamp)
        ensures
            final(self)@ == old(self)@.logged(action@, opt_text_view(path), now),
    {
        self.history.push(
            ContextHistoryEntry { action: String::from_str(action), path, timestamp: now },
        );
        assert(final(self)@.history =~= old(self)@.history.push(
            history_line(action@, opt_text_view(path), now),
        ));
        assert(final(self)@.folders =~= old(self)@.folders);
    }

    /// Enters the folder that `probe` reports on.
    pub fn enter_folder(&mut self, probe: &PathProbe, now: Timestamp) -> (r: Result<(), ArtaError>)
        requires
            old(self).wf(),
        ensures
            final(self).wf(),
            match old(self)@.enter_folder(probe@, now) {
                Ok(next) => r is Ok && final(self)@ == next,
                Err(e) => r is Err && r->Err_0@ == e && final(self)@ == old(self)@,
            },
    {
        if probe.kind == PathKind::Missing {
            return Err(ArtaError::PathNotFound(probe.path.clone()));
        }
        if probe.kind != PathKind::Folder {
            return Err(
                ArtaError::ExecutionError(join3("'", probe.path.as_str(), "' is not a directory")),
            );
        }
        match &probe.canonical {
            Err(e) => Err(ArtaError::IoError(e.clone())),
            Ok(p) => {
                self.folder_stack.push(p.clone());
                self.current_file = None;
                assert(self@.folders =~= old(self)@.folders.push(p@));
                self.log("ENTER FOLDER", Some(p.clone()), now);
                Ok(())
            },
        }
    }

    /// Puts the file that `probe` reports on into focus.
    pub fn enter_file(&mut self, probe: &PathProbe, now: Timestamp) -> (r: Result<(), ArtaError>)
        requires
            old(self).wf(),
        ensures
            final(self).wf(),
            match old(self)@.enter_file(probe@, now) {
                Ok(next) => r is Ok && final(self)@ == next,
                Err(e) => r is Err && r->Err_0@ == e && final(self)@ == old(self)@,
            },
    {
        if probe.kind == PathKind::Missing {
            return Err(ArtaError::PathNotFound(probe.path.clone()));
        }
        if probe.kind != PathKind::File {
            return Err(
                ArtaError::ExecutionError(join3("'", probe.path.as_str(), "' is not a file")),
            );
        }
        match &probe.canonical {
            Err(e) => Err(ArtaError::IoError(e.clone())),
            Ok(p) => {
                self.current_file = Some(p.clone());
                assert(self@.folders =~= old(self)@.folders);
                self.log("ENTER FILE", Some(p.clone()), now);
                Ok(())
            },
        }
    }

    /// Leaves the focused file or, where there is none, the last entered
    /// folder.
    pub fn exit_context(&mut self, now: Timestamp) -> (r: Result<(), ArtaError>)
        requires
            old(self).wf(),
        ensures
            final(self).wf(),
            match old(self)@.exit(now) {
                Ok(next) => r is Ok && final(self)@ == next,
                Err(e) => r is Err && r->Err_0@ == e && final(self)@ == old(self)@,
            },
    {
        if self.current_file.is_some() {
            self.current_file = None;
            assert(self@.folders =~= old(self)@.folders);
            self.log("EXIT FILE", None, now);
            return Ok(());
        }
        if self.folder_stack.len() > 1 {
            let exited = self.folder_stack.pop();
            assert(self@.folders =~= old(self)@.folders.drop_last());
            self.log("EXIT FOLDER", exited, now);
            return Ok(());
        }
        Err(
            ArtaError::ExecutionError(
                String::from_str("Already at root context, cannot exit further"),
            ),
        )
    }

    /// Goes back to the start folder and drops the focus.
    pub fn reset(&mut self, now: Timestamp)
        requires
            old(self).wf(),
        ensures
            final(self).wf(),
            final(self)@ == old(self)@.reset(now),
    {
        self.folder_stack.truncate(1);
        self.current_file = None;
        assert(self@.folders =~= old(self)@.folders.take(1));
        self.log("RESET CONTEXT", None, now);
    }

    fn position(&self, name: &str) -> (r: Option<usize>)
        ensures
            match r {
                Some(i) => find_binding(self@.variables, name@) == Some(i as int) && i
                    < self.variables.len(),
                None => find_binding(self@.variables, name@) is None,
            },
    {
        let ghost model = self@.variables;
        let mut i: usize = 0;
        assert(model.take(0) =~= Seq::empty());
        while i < self.variables.len()
            invariant
                i <= self.variables.len(),
                model == self@.variables,
                find_binding(model.take(i as int), name@) is None,
            decreases self.variables.len() - i,
        {
            proof {
                assert(model.take(i + 1).drop_last() =~= model.take(i as int));
                assert(model.take(i + 1).last() == model[i as int]);
            }
            if text_eq(self.variables[i].0.as_str(), name) {
                proof {
                    lemma_find_binding_prefix(model, i + 1, name@);
                }
                return Some(i);
            }
            i = i + 1;
        }
        assert(model.take(self.variables.len() as int) =~= model);
        None
    }

    /// Binds `name` to `value`, in place of what it was bound to before.
    pub fn set_variable(&mut self, name: String, value: VariableValue)
        requires
            old(self).wf(),
        ensures
            final(self).wf(),
            final(self)@ == old(self)@.bind(name@, value@),
    {
        proof {
            lemma_find_binding(self@.variables, name@);
        }
        match self.position(name.as_str()) {
            Some(i) => {
                self.variables[i] = (name, value);
                assert(self@.variables =~= old(self)@.variables.update(i as int, (name@, value@)));
            },
            None => {
                self.variables.push((name, value));
                assert(self@.variables =~= old(self)@.variables.push((name@, value@)));
            },
        }
        assert(self@.folders =~= old(self)@.folders);
        assert(self@.history =~= old(self)@.history);
    }

    /// The value bound to `name`.
    pub fn get_variable(&self, name: &str) -> (r: Option<&VariableValue>)
        ensures
            match r {
                Some(v) => self@.lookup(name@) == Some(v@),
                None => self@.lookup(name@) is None,
            },
    {
        match self.position(name) {
            Some(i) => Some(&self.variables[i].1),
            None => None,
        }
    }

    /// The bindings, in the order in which the names were first bound.
    pub fn variables(&self) -> (r: &Vec<(String, VariableValue)>)
        ensures
            bindings_view(r@) == self@.variables,
    {
        &self.variables
    }

    /// The log, oldest line first.
    pub fn history(&self) -> (r: &Vec<ContextHistoryEntry>)
        ensures
            history_view(r@) == self@.history,
    {
        &self.history
    }

    /// The state as a few lines of text.
    pub fn display(&self) -> (r: String)
        requires
            self.wf(),
        ensures
            r@ == self@.display(),
    {
        let mut out = String::from_str("Current Context\n");
        out.append("---------------\n");
        out.append("Folder: ");
        out.append(self.current_folder());
        out.append("\n");
        match &self.current_file {
            Some(f) => {
                out.append("File:   ");
                out.append(f.as_str());
                out.append("\n");
                assert(out@ =~= "Current Context\n"@ + "---------------\n"@ + "Folder: "@
                    + self@.current_folder() + "\n"@ + ("File:   "@ + f@ + "\n"@));
            },
            None => {
                assert(out@ =~= "Current Context\n"@ + "---------------\n"@ + "Folder: "@
                    + self@.current_folder() + "\n"@ + Seq::<char>::empty());
            },
        }
        out.append("Depth:  ");
        push_decimal(&mut out, self.folder_stack.len() as u128);
        out.append("\n");
        let ghost head = out@;
        if self.variables.len() > 0 {
            out.append("\nVariables:\n");
            let mut i: usize = 0;
            while i < self.variables.len()
                invariant
                    i <= self.variables.len(),
                    out@ =~= head + ("\nVariables:\n"@ + self@.variable_lines(i as nat)),
                decreases self.variables.len() - i,
            {
                out.append("  ");
                out.append(self.variables[i].0.as_str());
                out.append(" = ");
                let shown = self.variables[i].1.to_text();
                out.append(shown.as_str());
                out.append("\n");
                i = i + 1;
            }
        } else {
            assert(out@ =~= head + Seq::<char>::empty());
        }
        out
    }

    /// A short form of where the session stands, with `~` for the home
    /// folder: the folder and, after a colon, the name of the focused file.
    pub fn prompt(&self, home: Option<&str>) -> (r: String)
        requires
            self.wf(),
        ensures
            r@ == prompt_text(
                self@.current_folder(),
                self@.file,
                match home {
                    Some(h) => Some(h@),
                    None => None,
                },
            ),
    {
        let folder = self.current_folder();
        let folder_chars = chars_of(folder);
        let shown = match home {
            Some(h) => {
                let mut prefix = chars_of(h);
                if text_eq(folder, h) {
                    String::from_str("~/")
                } else {
                    prefix.push('/');
                    if chars_start_with(&folder_chars, &prefix) {
                        let rest = text_of_range(&folder_chars, prefix.len(), folder_chars.len());
                        join("~/", rest.as_str())
                    } else {
                        String::from_str(folder)
                    }
                }
            },
            None => String::from_str(folder),
        };
        match &self.current_file {
            Some(f) => {
                let name = file_name(f.as_str());
                join3(shown.as_str(), ":", name.as_str())
            },
            None => shown,
        }
    }
}

/// Where the last `/` of `path` stands, plus one; 0 where it has none.
pub open spec fn name_start(path: Seq<char>) -> int
    decreases path.len(),
{
    if path.len() == 0 {
        0
    } else if path.last() == '/' {
        path.len() as int
    } else {
        name_start(path.drop_last())
    }
}

/// The last component of a path: what follows its last `/`.
pub open spec fn last_component(path: Seq<char>) -> Seq<char> {
    path.skip(name_start(path))
}

/// The last component starts within the path.
pub proof fn lemma_name_start(path: Seq<char>)
    ensures
        0 <= name_start(path) <= path.len(),
    decreases path.len(),
{
    if path.len() > 0 && path.last() != '/' {
        lemma_name_start(path.drop_last());
    }
}

/// The last component of a path.
pub fn file_name(path: &str) -> (r: String)
    ensures
        r@ == last_component(path@),
{
    let chars = chars_of(path);
    let mut i: usize = chars.len();
    assert(chars@.take(i as int) == chars@);
    while i > 0 && chars[i - 1] != '/'
        invariant
            i <= chars.len(),
            name_start(chars@) == name_start(chars@.take(i as int)),
        decreases i,
    {
        assert(chars@.take(i as int).drop_last() == chars@.take(i - 1));
        i = i - 1;
    }
    let r = text_of_range(&chars, i, chars.len());
    assert(chars@.skip(i as int) == chars@.subrange(i as int, chars.len() as int));
    r
}

/// The short form of a folder, with `~` for the home folder.
pub open spec fn short_folder(folder: Seq<char>, home: Option<Seq<char>>) -> Seq<char> {
    match home {
        Some(h) => if folder == h {
            "~/"@
        } else if starts_with(folder, h.push('/')) {
            "~/"@ + folder.subrange(h.len() as int + 1, folder.len() as int)
        } else {
            folder
        },
        None => folder,
    }
}

/// The short form of where a session stands: the folder and, after a colon, the name
/// of the focused file.
pub open spec fn prompt_text(folder: Seq<char>, file: Option<Seq<char>>, home: Option<Seq<char>>) -> Seq<
    char,
> {
    match file {
        Some(f) => short_folder(folder, home) + ":"@ + last_component(f),
        None => short_folder(folder, home),
    }
}

} // verus!
