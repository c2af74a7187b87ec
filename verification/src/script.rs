//! Running a script: its arguments, and the book that is kept of its
//! statements.

use vstd::prelude::*;
use vstd::string::StringExecFns;
use crate::ast::{opt_text_view, Command};
use crate::context::{last_component, name_start, Context, ContextView, VariableValue, VariableView};
use crate::error::{ArtaError, ErrorView};
use crate::number::{number_of, parse_number};
use crate::policy::{ExecutionContext, OutputFormat};
use crate::results::{results_view, ExecutionResult, ResultData, ResultView};
use crate::bridge::{lowercase, to_lowercase};
use crate::text::{chars_eq, chars_of, join, text_eq, text_of_range};

verus! {

/// What a run of a script came to.
#[derive(Debug)]
pub struct ScriptResult {
    /// The outcomes of the statements that ran, in order.
    pub results: Vec<ExecutionResult>,
    /// How many statements ran before the script ended or failed.
    pub statements_executed: usize,
    pub success: bool,
    /// The message of the error that ended the run.
    pub error: Option<String>,
}

/// The model of `ScriptResult`.
pub ghost struct ScriptResultView {
    pub results: Seq<ResultView>,
    pub statements_executed: nat,
    pub success: bool,
    pub error: Option<Seq<char>>,
}

impl ScriptResult {
    pub open spec fn view(&self) -> ScriptResultView {
        ScriptResultView {
            results: results_view(self.results),
            statements_executed: self.statements_executed as nat,
            success: self.success,
            error: opt_text_view(self.error),
        }
    }
}

/// The runner of a script: the policy, the arguments, and the outcomes so
/// far.
#[derive(Debug)]
pub struct ScriptRunner {
    exec_ctx: ExecutionContext,
    script_args: Vec<(String, String)>,
    results: Vec<ExecutionResult>,
}

/// Where the first `=` of `s` stands at or after `from`, or the length of
/// `s`.
pub open spec fn equals_at(s: Seq<char>, from: int) -> int
    decreases s.len() - from,
{
    if 0 <= from < s.len() && s[from] != '=' {
        equals_at(s, from + 1)
    } else {
        from
    }
}

/// The name and the value of an argument `name=value`, or `None` where it
/// holds no `=`.
pub open spec fn split_argument(arg: Seq<char>) -> Option<(Seq<char>, Seq<char>)> {
    let at = equals_at(arg, 0);
    if 0 <= at < arg.len() {
        Some((arg.take(at), arg.skip(at + 1)))
    } else {
        None
    }
}

/// The index of the argument named `name`.
pub open spec fn find_argument(args: Seq<(Seq<char>, Seq<char>)>, name: Seq<char>) -> Option<int>
    decreases args.len(),
{
    if args.len() == 0 {
        None
    } else {
        match find_argument(args.drop_last(), name) {
            Some(i) => Some(i),
            None => if args.last().0 == name {
                Some(args.len() - 1)
            } else {
                None
            },
        }
    }
}

/// The arguments with `name` set to `value`, in place of what it was.
pub open spec fn with_argument(
    args: Seq<(Seq<char>, Seq<char>)>,
    name: Seq<char>,
    value: Seq<char>,
) -> Seq<(Seq<char>, Seq<char>)> {
    match find_argument(args, name) {
        Some(i) => args.update(i, (name, value)),
        None => args.push((name, value)),
    }
}

/// The arguments after the first `count` of `given` are taken in; those
/// without `=` are dropped.
pub open spec fn taken_arguments(
    args: Seq<(Seq<char>, Seq<char>)>,
    given: Seq<Seq<char>>,
    count: nat,
) -> Seq<(Seq<char>, Seq<char>)>
    decreases count,
{
    if count == 0 || count > given.len() {
        args
    } else {
        let before = taken_arguments(args, given, (count - 1) as nat);
        match split_argument(given[count - 1]) {
            Some((name, value)) => with_argument(before, name, value),
            None => before,
        }
    }
}

/// The value that the text of an argument stands for: a number, a truth
/// value, a path where it starts with `/`, and else the text itself.
pub open spec fn sniffed(value: Seq<char>) -> VariableView {
    sniffed_by(value, lowercase(value))
}

/// The same, where `lowered` is the text in lower case.
pub open spec fn sniffed_by(value: Seq<char>, lowered: Seq<char>) -> VariableView {
    match number_of(value) {
        Some(n) => VariableView::Number(n),
        None => if lowered == "true"@ {
            VariableView::Boolean(true)
        } else if lowered == "false"@ {
            VariableView::Boolean(false)
        } else if value.len() > 0 && value[0] == '/' {
            VariableView::Path(value)
        } else {
            VariableView::String(value)
        },
    }
}

/// The session after the first `count` arguments are bound.
pub open spec fn injected(c: ContextView, args: Seq<(Seq<char>, Seq<char>)>, count: nat) -> ContextView
    decreases count,
{
    if count == 0 || count > args.len() {
        c
    } else {
        injected(c, args, (count - 1) as nat).bind(args[count - 1].0, sniffed(args[count - 1].1))
    }
}

/// Whether a path names a script: its last component is a name, then
/// `.arta`.
pub open spec fn is_script_path(path: Seq<char>) -> bool {
    let name = last_component(path);
    name.len() > 5 && name.subrange(name.len() - 5, name.len() as int) == seq![
        '.',
        'a',
        'r',
        't',
        'a',
    ]
}

/// The models of a list of arguments.
pub open spec fn arguments_view(args: Seq<(String, String)>) -> Seq<(Seq<char>, Seq<char>)> {
    Seq::new(args.len(), |i: int| (args[i].0@, args[i].1@))
}

/// Finds the value that the text of an argument stands for.
pub fn sniff(value: &str) -> (r: VariableValue)
    ensures
        r@ == sniffed(value@),
{
    let lowered = to_lowercase(value);
    sniff_lowered(value, lowered.as_str())
}

/// Finds the value that the text of an argument stands for, where `lowered`
/// is the text in lower case.
pub fn sniff_lowered(value: &str, lowered: &str) -> (r: VariableValue)
    ensures
        r@ == sniffed_by(value@, lowered@),
{
    let chars = chars_of(value);
    match parse_number(&chars) {
        Some(n) => VariableValue::Number(n),
        None => {
            let lowered = chars_of(lowered);
            if chars_eq(&lowered, &chars_of("true")) {
                VariableValue::Boolean(true)
            } else if chars_eq(&lowered, &chars_of("false")) {
                VariableValue::Boolean(false)
            } else if chars.len() > 0 && chars[0] == '/' {
                VariableValue::Path(String::from_str(value))
            } else {
                VariableValue::String(String::from_str(value))
            }
        },
    }
}

/// Whether a path names a script.
pub fn has_script_extension(path: &str) -> (r: bool)
    ensures
        r == is_script_path(path@),
{
    let chars = chars_of(path);
    let mut i: usize = chars.len();
    assert(chars@.take(i as int) == chars@);
    while i > 0 && chars[i - 1] != '/'
        invariant
            i <= chars.len(),
            name_start(chars@) == name_start(chars@.take(i as int)),
        decreases i,
    {
        assert(chars@.take(i as int).drop_last() == chars@.take(i - 1));
        i = i - 1;
    }
    let n = chars.len();
    assert(last_component(chars@) =~= chars@.subrange(i as int, n as int));
    if n - i <= 5 {
        return false;
    }
    let ghost name = chars@.subrange(i as int, n as int);
    assert(name.subrange(name.len() - 5, name.len() as int) =~= seq![
        chars@[n - 5],
        chars@[n - 4],
        chars@[n - 3],
        chars@[n - 2],
        chars@[n - 1],
    ]);
    chars[n - 5] == '.' && chars[n - 4] == 'a' && chars[n - 3] == 'r' && chars[n - 2] == 't'
        && chars[n - 1] == 'a'
}

/// The error for a path that names no script.
pub fn not_a_script(path: &str) -> (r: ArtaError)
    ensures
        r@ == ErrorView::ExecutionError("Script file must have .arta extension: "@ + path@),
{
    ArtaError::ExecutionError(join("Script file must have .arta extension: ", path))
}

impl ScriptRunner {
    /// The policy of the run.
    pub closed spec fn policy(&self) -> ExecutionContext {
        self.exec_ctx
    }

    /// The arguments, each name once, in the order in which the names came
    /// first.
    pub closed spec fn arguments(&self) -> Seq<(Seq<char>, Seq<char>)> {
        arguments_view(self.script_args@)
    }

    /// The outcomes of the statements that ran.
    pub closed spec fn recorded(&self) -> Seq<ResultView> {
        results_view(self.results)
    }

    /// A runner without arguments.
    pub fn new(exec_ctx: ExecutionContext) -> (r: Self)
        ensures
            r.policy() == exec_ctx,
            r.arguments().len() == 0,
            r.recorded().len() == 0,
    {
        ScriptRunner { exec_ctx, script_args: Vec::new(), results: Vec::new() }
    }

    fn position(&self, name: &str) -> (r: Option<usize>)
        ensures
            match r {
                Some(i) => find_argument(self.arguments(), name@) == Some(i as int) && i
                    < self.script_args.len(),
                None => find_argument(self.arguments(), name@) is None,
            },
    {
        let ghost model = self.arguments();
        let mut i: usize = 0;
        assert(model.take(0) =~= Seq::empty());
        while i < self.script_args.len()
            invariant
                i <= self.script_args.len(),
                model == self.arguments(),
                find_argument(model.take(i as int), name@) is None,
            decreases self.script_args.len() - i,
        {
            proof {
                assert(model.take(i + 1).drop_last() =~= model.take(i as int));
                assert(model.take(i + 1).last() == model[i as int]);
            }
            if text_eq(self.script_args[i].0.as_str(), name) {
                proof {
                    lemma_find_argument_prefix(model, i + 1, name@);
                }
                return Some(i);
            }
            i = i + 1;
        }
        assert(model.take(self.script_args.len() as int) =~= model);
        None
    }

    /// Takes the arguments of the form `name=value` in; the others are
    /// dropped. A name that comes again gets the later value.
    pub fn with_args(self, args: Vec<String>) -> (r: Self)
        ensures
            r.policy() == self.policy(),
            r.recorded() == self.recorded(),
            r.arguments() == taken_arguments(
                self.arguments(),
                crate::ast::texts_view(args),
                args.len() as nat,
            ),
    {
        let mut runner = self;
        let ghost given = crate::ast::texts_view(args);
        let mut i: usize = 0;
        while i < args.len()
            invariant
                i <= args.len(),
                given == crate::ast::texts_view(args),
                runner.policy() == self.policy(),
                runner.recorded() == self.recorded(),
                runner.arguments() == taken_arguments(self.arguments(), given, i as nat),
            decreases args.len() - i,
        {
            let chars = chars_of(args[i].as_str());
            let mut at: usize = 0;
            while at < chars.len() && chars[at] != '='
                invariant
                    at <= chars.len(),
                    equals_at(chars@, 0) == equals_at(chars@, at as int),
                decreases chars.len() - at,
            {
                at = at + 1;
            }
            if at < chars.len() {
                let name = text_of_range(&chars, 0, at);
                let value = text_of_range(&chars, at + 1, chars.len());
                assert(name@ =~= chars@.take(at as int));
                assert(value@ =~= chars@.skip(at + 1));
                let ghost before = runner.arguments();
                match runner.position(name.as_str()) {
                    Some(k) => {
                        runner.script_args[k] = (name, value);
                        assert(runner.arguments() =~= before.update(k as int, (name@, value@)));
                    },
                    None => {
                        runner.script_args.push((name, value));
                        assert(runner.arguments() =~= before.push((name@, value@)));
                    },
                }
            }
            i = i + 1;
        }
        runner
    }

    /// Binds every argument in the session, each to the value that its text
    /// stands for.
    pub fn inject_script_args(&self, context: &mut Context)
        requires
            old(context).wf(),
        ensures
            final(context).wf(),
            final(context)@ == injected(
                old(context)@,
                self.arguments(),
                self.arguments().len(),
            ),
    {
        let mut i: usize = 0;
        while i < self.script_args.len()
            invariant
                i <= self.script_args.len(),
                context.wf(),
                context@ == injected(old(context)@, self.arguments(), i as nat),
            decreases self.script_args.len() - i,
        {
            let value = sniff(self.script_args[i].1.as_str());
            context.set_variable(self.script_args[i].0.clone(), value);
            i = i + 1;
        }
    }

    /// Keeps the outcome of a statement of the script that ran.
    pub fn record(&mut self, result: ExecutionResult)
        ensures
            final(self).policy() == old(self).policy(),
            final(self).arguments() == old(self).arguments(),
            final(self).recorded() == old(self).recorded().push(result@),
    {
        let ghost before = results_view(self.results);
        self.results.push(result);
        assert(results_view(self.results) =~= before.push(result@));
    }

    /// Ends the run: with `None` where every statement ran, and else with
    /// the error that a statement failed with. The statements that ran are
    /// counted by their outcomes: a run yields one outcome for each
    /// statement of the script that completes, and the host records each.
    pub fn run_script(self, error: Option<&ArtaError>) -> (r: ScriptResult)
        ensures
            r@ == (ScriptResultView {
                results: self.recorded(),
                statements_executed: self.recorded().len(),
                success: error is None,
                error: match error {
                    Some(e) => Some(e@.message()),
                    None => None,
                },
            }),
    {
        let count = self.results.len();
        let failure = match error {
            Some(e) => Some(e.message()),
            None => None,
        };
        ScriptResult {
            results: self.results,
            statements_executed: count,
            success: failure.is_none(),
            error: failure,
        }
    }

    /// The value of the argument named `name`.
    pub fn argument(&self, name: &str) -> (r: Option<&String>)
        ensures
            match r {
                Some(v) => find_argument(self.arguments(), name@) is Some && v@
                    == self.arguments()[find_argument(self.arguments(), name@)->Some_0].1,
                None => find_argument(self.arguments(), name@) is None,
            },
    {
        match self.position(name) {
            Some(i) => Some(&self.script_args[i].1),
            None => None,
        }
    }

    /// How many arguments there are.
    pub fn argument_count(&self) -> (r: usize)
        ensures
            r == self.arguments().len(),
    {
        self.script_args.len()
    }

    /// How the outcomes are to be rendered.
    pub fn output_format(&self) -> (r: &OutputFormat)
        ensures
            *r == self.policy().output_format,
    {
        &self.exec_ctx.output_format
    }

    /// The policy of the run.
    pub fn exec_ctx(&self) -> (r: ExecutionContext)
        ensures
            r == self.policy(),
    {
        self.exec_ctx
    }
}

/// What a name finds among the first arguments it finds among all of them.
pub proof fn lemma_find_argument_prefix(args: Seq<(Seq<char>, Seq<char>)>, n: int, name: Seq<char>)
    requires
        0 <= n <= args.len(),
        find_argument(args.take(n), name) is Some,
    ensures
        find_argument(args, name) == find_argument(args.take(n), name),
    decreases args.len() - n,
{
    if n == args.len() {
        assert(args.take(n) == args);
    } else {
        assert(args.take(n + 1).drop_last() == args.take(n));
        lemma_find_argument_prefix(args, n + 1, name);
    }
}

/// Whether the outcome of a statement is shown: every outcome is, but the
/// empty one.
pub fn is_shown(result: &ExecutionResult) -> (r: bool)
    ensures
        r == !(result.data is Empty),
{
    match &result.data {
        ResultData::Empty => false,
        _ => true,
    }
}

/// The validation of one command before it runs. Every command passes.
pub fn validate_command(_cmd: &Command) -> (r: Result<(), ArtaError>)
    ensures
        r is Ok,
{
    Ok(())
}

} // verus!
