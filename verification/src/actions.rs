//! The decisions of the two actions: which files a `DELETE` removes, which
//! processes a `KILL` ends, when either is refused, and what is reported
//! afterwards. Nothing here touches a file or a process.

use vstd::prelude::*;
use vstd::string::StringExecFns;
use crate::ast::{texts_view, ConditionExprView, WhereClause};
use crate::context::PathKind;
use crate::error::{ArtaError, ErrorView};
use crate::filters::{
    file_passes, is_protected, is_protected_process, matches_file_where_clause,
    matches_process_where_clause, process_passes, FileInfo, ProcessMatch,
};
use crate::results::{ActionResult, ActionResultView};
use crate::text::{decimal, join, push_decimal};

verus! {

/// The most files that one `DELETE` removes.
pub const MAX_FILES_PER_OPERATION: usize = 100;

/// The most processes that one `KILL` ends.
pub const MAX_PROCESSES_PER_OPERATION: usize = 10;

/// How the attempt to end a process went.
#[derive(Debug, Clone, Copy, PartialEq, Eq, Structural)]
pub enum KillOutcome {
    Killed,
    Failed,
    /// The process was gone before the attempt.
    Gone,
}

/// The indices of those among the first `count` files that pass the filter.
pub open spec fn picked_files(listing: Seq<FileInfo>, filter: Seq<ConditionExprView>, count: nat) -> Seq<
    usize,
>
    decreases count,
{
    if count == 0 || count > listing.len() {
        Seq::empty()
    } else {
        let rest = picked_files(listing, filter, (count - 1) as nat);
        if file_passes(listing[count - 1], filter) {
            rest.push((count - 1) as usize)
        } else {
            rest
        }
    }
}

/// The indices of those among the first `count` processes that pass the
/// filter and are not protected.
pub open spec fn picked_processes(
    processes: Seq<ProcessMatch>,
    filter: Seq<ConditionExprView>,
    count: nat,
) -> Seq<usize>
    decreases count,
{
    if count == 0 || count > processes.len() {
        Seq::empty()
    } else {
        let rest = picked_processes(processes, filter, (count - 1) as nat);
        let p = processes[count - 1];
        if process_passes(p.pid, p.name@, p.cpu, p.memory, filter, true) && !is_protected(
            p.name@,
        ) {
            rest.push((count - 1) as usize)
        } else {
            rest
        }
    }
}

/// The refusal of an action that picks more than its limit.
pub open spec fn too_many(what: Seq<char>, verb: Seq<char>, found: nat, limit: nat) -> ErrorView {
    ErrorView::SecurityError(
        "Too many "@ + what + " to "@ + verb + " ("@ + decimal(found) + " > "@ + decimal(limit)
            + "). Please use a more specific WHERE clause."@,
    )
}

/// Which of the listed files a `DELETE` on `path` removes, or why it is
/// refused: the path has to be a folder, a filter is required, and no more
/// than `MAX_FILES_PER_OPERATION` files may pass it.
pub open spec fn delete_selection(
    path: Seq<char>,
    kind: PathKind,
    listing: Seq<FileInfo>,
    filter: Option<Seq<ConditionExprView>>,
) -> Result<Seq<usize>, ErrorView> {
    if kind == PathKind::Missing {
        Err(ErrorView::PathNotFound(path))
    } else if kind != PathKind::Folder {
        Err(ErrorView::ExecutionError(path + " is not a directory"@))
    } else {
        match filter {
            None => Err(
                ErrorView::SecurityError(
                    "DELETE without WHERE clause is too dangerous. Add a WHERE clause to filter files."@,
                ),
            ),
            Some(f) => {
                let picked = picked_files(listing, f, listing.len());
                if picked.len() > MAX_FILES_PER_OPERATION {
                    Err(
                        too_many(
                            "files"@,
                            "delete"@,
                            picked.len(),
                            MAX_FILES_PER_OPERATION as nat,
                        ),
                    )
                } else {
                    Ok(picked)
                }
            },
        }
    }
}

/// Which of the listed processes a `KILL` ends, or why it is refused: no
/// more than `MAX_PROCESSES_PER_OPERATION` processes may be picked.
pub open spec fn kill_selection(processes: Seq<ProcessMatch>, filter: Seq<ConditionExprView>) -> Result<
    Seq<usize>,
    ErrorView,
> {
    let picked = picked_processes(processes, filter, processes.len());
    if picked.len() > MAX_PROCESSES_PER_OPERATION {
        Err(
            too_many(
                "processes"@,
                "kill"@,
                picked.len(),
                MAX_PROCESSES_PER_OPERATION as nat,
            ),
        )
    } else {
        Ok(picked)
    }
}

fn refusal(what: &str, verb: &str, found: usize, limit: usize) -> (r: ArtaError)
    ensures
        r@ == too_many(what@, verb@, found as nat, limit as nat),
{
    let mut message = String::from_str("Too many ");
    message.append(what);
    message.append(" to ");
    message.append(verb);
    message.append(" (");
    push_decimal(&mut message, found as u128);
    message.append(" > ");
    push_decimal(&mut message, limit as u128);
    message.append("). Please use a more specific WHERE clause.");
    ArtaError::SecurityError(message)
}

/// Decides which of the files listed in the folder `path` a `DELETE`
/// removes. `kind` says what the path was found to be; `listing` holds the
/// plain files of the folder.
pub fn delete_files(
    path: &str,
    kind: PathKind,
    listing: &Vec<FileInfo>,
    where_clause: Option<&WhereClause>,
) -> (r: Result<Vec<usize>, ArtaError>)
    ensures
        match delete_selection(
            path@,
            kind,
            listing@,
            match where_clause {
                Some(w) => Some(w@),
                None => None,
            },
        ) {
            Ok(picked) => r is Ok && r->Ok_0@ == picked,
            Err(e) => r is Err && r->Err_0@ == e,
        },
        r is Ok ==> forall|i: int|
            0 <= i < r->Ok_0.len() ==> (#[trigger] r->Ok_0[i]) < listing.len(),
{
    if kind == PathKind::Missing {
        return Err(ArtaError::PathNotFound(String::from_str(path)));
    }
    if kind != PathKind::Folder {
        return Err(ArtaError::ExecutionError(join(path, " is not a directory")));
    }
    let filter = match where_clause {
        None => {
            return Err(
                ArtaError::SecurityError(
                    String::from_str(
                        "DELETE without WHERE clause is too dangerous. Add a WHERE clause to filter files.",
                    ),
                ),
            );
        },
        Some(w) => w,
    };
    let mut picked: Vec<usize> = Vec::new();
    let mut i: usize = 0;
    while i < listing.len()
        invariant
            i <= listing.len(),
            picked@ == picked_files(listing@, filter@, i as nat),
            forall|k: int| 0 <= k < picked.len() ==> (#[trigger] picked[k]) < listing.len(),
        decreases listing.len() - i,
    {
        if matches_file_where_clause(&listing[i], filter) {
            picked.push(i);
        }
        i = i + 1;
    }
    if picked.len() > MAX_FILES_PER_OPERATION {
        return Err(refusal("files", "delete", picked.len(), MAX_FILES_PER_OPERATION));
    }
    Ok(picked)
}

/// Decides which of the running processes a `KILL` ends.
pub fn kill_processes(processes: &Vec<ProcessMatch>, where_clause: &WhereClause) -> (r: Result<
    Vec<usize>,
    ArtaError,
>)
    ensures
        match kill_selection(processes@, where_clause@) {
            Ok(picked) => r is Ok && r->Ok_0@ == picked,
            Err(e) => r is Err && r->Err_0@ == e,
        },
        r is Ok ==> forall|i: int|
            0 <= i < r->Ok_0.len() ==> (#[trigger] r->Ok_0[i]) < processes.len(),
{
    let mut picked: Vec<usize> = Vec::new();
    let mut i: usize = 0;
    while i < processes.len()
        invariant
            i <= processes.len(),
            picked@ == picked_processes(processes@, where_clause@, i as nat),
            forall|k: int| 0 <= k < picked.len() ==> (#[trigger] picked[k]) < processes.len(),
        decreases processes.len() - i,
    {
        if matches_process_where_clause(&processes[i], where_clause) && !is_protected_process(
            processes[i].name.as_str(),
        ) {
            picked.push(i);
        }
        i = i + 1;
    }
    if picked.len() > MAX_PROCESSES_PER_OPERATION {
        return Err(refusal("processes", "kill", picked.len(), MAX_PROCESSES_PER_OPERATION));
    }
    Ok(picked)
}

/// The line that reports on one picked file.
pub open spec fn delete_line(file: FileInfo, dry_run: bool, failure: Option<Seq<char>>) -> Seq<char> {
    if dry_run {
        "Would delete: "@ + file.path@ + " ("@ + decimal(file.size as nat) + " bytes)"@
    } else {
        match failure {
            None => "Deleted: "@ + file.path@,
            Some(e) => "Failed to delete "@ + file.path@ + ": "@ + e,
        }
    }
}

/// The lines that report on the first `count` picked files.
pub open spec fn delete_lines(
    listing: Seq<FileInfo>,
    picked: Seq<usize>,
    dry_run: bool,
    failures: Seq<Option<String>>,
    count: nat,
) -> Seq<Seq<char>>
    decreases count,
{
    if count == 0 || count > picked.len() {
        Seq::empty()
    } else {
        delete_lines(listing, picked, dry_run, failures, (count - 1) as nat).push(
            delete_line(
                listing[picked[count - 1] as int],
                dry_run,
                if dry_run {
                    None
                } else {
                    match failures[count - 1] {
                        Some(e) => Some(e@),
                        None => None,
                    }
                },
            ),
        )
    }
}

/// How many of the first `count` removals went through.
pub open spec fn removed(failures: Seq<Option<String>>, count: nat) -> nat
    decreases count,
{
    if count == 0 || count > failures.len() {
        0
    } else {
        removed(failures, (count - 1) as nat) + if failures[count - 1] is None {
            1nat
        } else {
            0nat
        }
    }
}

/// No more removals went through than were tried.
pub proof fn lemma_removed_bound(failures: Seq<Option<String>>, count: nat)
    ensures
        removed(failures, count) <= count,
    decreases count,
{
    if count > 0 && count <= failures.len() {
        lemma_removed_bound(failures, (count - 1) as nat);
    }
}

/// What a `DELETE` reports.
pub open spec fn delete_outcome(
    listing: Seq<FileInfo>,
    picked: Seq<usize>,
    dry_run: bool,
    failures: Seq<Option<String>>,
) -> ActionResultView {
    ActionResultView {
        action_type: "DELETE FILES"@,
        affected_count: if dry_run {
            picked.len()
        } else {
            removed(failures, picked.len())
        },
        dry_run,
        details: delete_lines(listing, picked, dry_run, failures, picked.len()),
    }
}

/// Reports on a `DELETE`. Under a dry run every picked file counts and
/// `failures` is not read; otherwise `failures` says of each picked file, in
/// order, why it could not be removed, or `None` where it was.
pub fn delete_report(
    listing: &Vec<FileInfo>,
    picked: &Vec<usize>,
    dry_run: bool,
    failures: &Vec<Option<String>>,
) -> (r: ActionResult)
    requires
        forall|i: int| 0 <= i < picked.len() ==> (#[trigger] picked[i]) < listing.len(),
        !dry_run ==> failures.len() == picked.len(),
    ensures
        r@ == delete_outcome(listing@, picked@, dry_run, failures@),
{
    let mut details: Vec<String> = Vec::new();
    let mut done: usize = 0;
    let mut i: usize = 0;
    assert(texts_view(details) =~= delete_lines(listing@, picked@, dry_run, failures@, 0));
    while i < picked.len()
        invariant
            i <= picked.len(),
            forall|k: int| 0 <= k < picked.len() ==> (#[trigger] picked[k]) < listing.len(),
            !dry_run ==> failures.len() == picked.len(),
            texts_view(details) =~= delete_lines(listing@, picked@, dry_run, failures@, i as nat),
            !dry_run ==> done == removed(failures@, i as nat),
            done <= i,
        decreases picked.len() - i,
    {
        let file = &listing[picked[i]];
        if dry_run {
            let mut line = String::from_str("Would delete: ");
            line.append(file.path.as_str());
            line.append(" (");
            push_decimal(&mut line, file.size as u128);
            line.append(" bytes)");
            details.push(line);
        } else {
            match &failures[i] {
                None => {
                    details.push(join("Deleted: ", file.path.as_str()));
                    done = done + 1;
                },
                Some(e) => {
                    let mut line = String::from_str("Failed to delete ");
                    line.append(file.path.as_str());
                    line.append(": ");
                    line.append(e.as_str());
                    details.push(line);
                },
            }
        }
        i = i + 1;
    }
    ActionResult {
        action_type: String::from_str("DELETE FILES"),
        affected_count: if dry_run {
            picked.len()
        } else {
            done
        },
        dry_run,
        details,
    }
}

/// The line that reports on one picked process.
pub open spec fn kill_line(process: ProcessMatch, dry_run: bool, outcome: KillOutcome) -> Seq<char> {
    let head = if dry_run {
        "Would kill: "@
    } else {
        match outcome {
            KillOutcome::Killed => "Killed: "@,
            KillOutcome::Failed => "Failed to kill: "@,
            KillOutcome::Gone => "Process no longer exists: "@,
        }
    };
    head + process.name@ + " (PID "@ + decimal(process.pid as nat) + ")"@
}

/// The lines that report on the first `count` picked processes.
pub open spec fn kill_lines(
    processes: Seq<ProcessMatch>,
    picked: Seq<usize>,
    dry_run: bool,
    outcomes: Seq<KillOutcome>,
    count: nat,
) -> Seq<Seq<char>>
    decreases count,
{
    if count == 0 || count > picked.len() {
        Seq::empty()
    } else {
        kill_lines(processes, picked, dry_run, outcomes, (count - 1) as nat).push(
            kill_line(
                processes[picked[count - 1] as int],
                dry_run,
                if dry_run {
                    KillOutcome::Killed
                } else {
                    outcomes[count - 1]
                },
            ),
        )
    }
}

/// How many of the first `count` processes were killed.
pub open spec fn killed(outcomes: Seq<KillOutcome>, count: nat) -> nat
    decreases count,
{
    if count == 0 || count > outcomes.len() {
        0
    } else {
        killed(outcomes, (count - 1) as nat) + if outcomes[count - 1] == KillOutcome::Killed {
            1nat
        } else {
            0nat
        }
    }
}

/// What a `KILL` reports.
pub open spec fn kill_outcome(
    processes: Seq<ProcessMatch>,
    picked: Seq<usize>,
    dry_run: bool,
    outcomes: Seq<KillOutcome>,
) -> ActionResultView {
    let lines = kill_lines(processes, picked, dry_run, outcomes, picked.len());
    ActionResultView {
        action_type: "KILL PROCESS"@,
        affected_count: if dry_run {
            picked.len()
        } else {
            killed(outcomes, picked.len())
        },
        dry_run,
        details: if picked.len() == 0 {
            lines.push("No matching processes found"@)
        } else {
            lines
        },
    }
}

/// Reports on a `KILL`. Under a dry run every picked process counts and
/// `outcomes` is not read; otherwise `outcomes` says of each picked process,
/// in order, how the attempt went.
pub fn kill_report(
    processes: &Vec<ProcessMatch>,
    picked: &Vec<usize>,
    dry_run: bool,
    outcomes: &Vec<KillOutcome>,
) -> (r: ActionResult)
    requires
        forall|i: int| 0 <= i < picked.len() ==> (#[trigger] picked[i]) < processes.len(),
        !dry_run ==> outcomes.len() == picked.len(),
    ensures
        r@ == kill_outcome(processes@, picked@, dry_run, outcomes@),
{
    let mut details: Vec<String> = Vec::new();
    let mut done: usize = 0;
    let mut i: usize = 0;
    assert(texts_view(details) =~= kill_lines(processes@, picked@, dry_run, outcomes@, 0));
    while i < picked.len()
        invariant
            i <= picked.len(),
            forall|k: int| 0 <= k < picked.len() ==> (#[trigger] picked[k]) < processes.len(),
            !dry_run ==> outcomes.len() == picked.len(),
            texts_view(details) =~= kill_lines(processes@, picked@, dry_run, outcomes@, i as nat),
            !dry_run ==> done == killed(outcomes@, i as nat),
            done <= i,
        decreases picked.len() - i,
    {
        let process = &processes[picked[i]];
        let head = if dry_run {
            "Would kill: "
        } else {
            match outcomes[i] {
                KillOutcome::Killed => "Killed: ",
                KillOutcome::Failed => "Failed to kill: ",
                KillOutcome::Gone => "Process no longer exists: ",
            }
        };
        if !dry_run && outcomes[i] == KillOutcome::Killed {
            done = done + 1;
        }
        let mut line = String::from_str(head);
        line.append(process.name.as_str());
        line.append(" (PID ");
        push_decimal(&mut line, process.pid as u128);
        line.append(")");
        details.push(line);
        i = i + 1;
    }
    if picked.len() == 0 {
        details.push(String::from_str("No matching processes found"));
        assert(texts_view(details) =~= kill_lines(
            processes@,
            picked@,
            dry_run,
            outcomes@,
            0,
        ).push("No matching processes found"@));
    }
    ActionResult {
        action_type: String::from_str("KILL PROCESS"),
        affected_count: if dry_run {
            picked.len()
        } else {
            done
        },
        dry_run,
        details,
    }
}

} // verus!
