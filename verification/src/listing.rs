//! The order of listings: files by name, processes by load.

use vstd::prelude::*;
use crate::ast::{ConditionExprView, WhereClause};
use crate::filters::{matches_where_clause, process_passes};
use crate::results::{FileEntry, ProcessInfo};
use crate::text::chars_of;

verus! {

/// Whether `a` comes before `b`, or is `b`, in the order of their
/// characters.
pub open spec fn text_le(a: Seq<char>, b: Seq<char>) -> bool
    decreases a.len(),
{
    if a.len() == 0 {
        true
    } else if b.len() == 0 {
        false
    } else if a[0] != b[0] {
        a[0] < b[0]
    } else {
        text_le(a.drop_first(), b.drop_first())
    }
}

/// Where `x` goes among `sorted`: behind every item from `from` on that it
/// does not come before.
pub open spec fn place<T>(sorted: Seq<T>, x: T, le: spec_fn(T, T) -> bool, from: int) -> int
    decreases sorted.len() - from,
{
    if 0 <= from < sorted.len() && le(sorted[from], x) {
        place(sorted, x, le, from + 1)
    } else {
        from
    }
}

/// The first `count` of `items` in the order `le`; items that the order
/// does not tell apart stay in the order in which they came.
pub open spec fn arranged<T>(items: Seq<T>, le: spec_fn(T, T) -> bool, count: nat) -> Seq<T>
    decreases count,
{
    if count == 0 || count > items.len() {
        Seq::empty()
    } else {
        let before = arranged(items, le, (count - 1) as nat);
        before.insert(place(before, items[count - 1], le, 0), items[count - 1])
    }
}

/// Whether every item comes before or with every item behind it.
pub open spec fn ordered<T>(s: Seq<T>, le: spec_fn(T, T) -> bool) -> bool {
    forall|i: int, j: int| 0 <= i < j < s.len() ==> le(s[i], s[j])
}

/// Whether `le` compares any two items, and compares them in a line.
pub open spec fn is_order<T>(le: spec_fn(T, T) -> bool) -> bool {
    &&& forall|a: T, b: T| #[trigger] le(a, b) || le(b, a)
    &&& forall|a: T, b: T, c: T| #[trigger] le(a, b) && #[trigger] le(b, c) ==> le(a, c)
}

pub proof fn lemma_place<T>(sorted: Seq<T>, x: T, le: spec_fn(T, T) -> bool, from: int)
    requires
        0 <= from <= sorted.len(),
    ensures
        from <= place(sorted, x, le, from) <= sorted.len(),
        forall|i: int| from <= i < place(sorted, x, le, from) ==> le(sorted[i], x),
        place(sorted, x, le, from) < sorted.len() ==> !le(
            sorted[place(sorted, x, le, from)],
            x,
        ),
    decreases sorted.len() - from,
{
    if from < sorted.len() && le(sorted[from], x) {
        lemma_place(sorted, x, le, from + 1);
    }
}

/// What is arranged is in order, and holds what was given and nothing
/// else.
pub proof fn lemma_arranged<T>(items: Seq<T>, le: spec_fn(T, T) -> bool, count: nat)
    requires
        is_order(le),
        count <= items.len(),
    ensures
        ordered(arranged(items, le, count), le),
        arranged(items, le, count).len() == count,
        arranged(items, le, count).to_multiset() == items.take(count as int).to_multiset(),
    decreases count,
{
    if count == 0 {
        assert(items.take(0) =~= Seq::empty());
    } else {
        lemma_arranged(items, le, (count - 1) as nat);
        let before = arranged(items, le, (count - 1) as nat);
        let x = items[count - 1];
        let p = place(before, x, le, 0);
        lemma_place(before, x, le, 0);
        let after = before.insert(p, x);
        assert forall|i: int, j: int| 0 <= i < j < after.len() implies le(after[i], after[j]) by {
            if j < p {
                assert(after[i] == before[i] && after[j] == before[j]);
            } else if j == p {
                assert(after[i] == before[i]);
            } else if i == p {
                assert(after[j] == before[j - 1]);
                assert(!le(before[p], x));
                assert(le(x, before[p]));
                if j - 1 > p {
                    assert(le(before[p], before[j - 1]));
                }
            } else if i < p {
                assert(after[i] == before[i] && after[j] == before[j - 1]);
            } else {
                assert(after[i] == before[i - 1] && after[j] == before[j - 1]);
            }
        }
        vstd::seq_lib::to_multiset_remove(after, p);
        assert(after.remove(p) =~= before);
        after.to_multiset_ensures();
        assert(after[p] == x);
        assert(after.contains(x));
        assert(after.to_multiset() =~= before.to_multiset().insert(x));
        assert(items.take(count as int) =~= items.take(count - 1).push(x));
        vstd::seq_lib::to_multiset_build(items.take(count - 1), x);
    }
}

/// Files in the order of their names.
pub open spec fn by_name() -> spec_fn(FileEntry, FileEntry) -> bool {
    |a: FileEntry, b: FileEntry| text_le(a.name@, b.name@)
}

/// Processes in the order of their load, the highest first.
pub open spec fn by_load() -> spec_fn(ProcessInfo, ProcessInfo) -> bool {
    |a: ProcessInfo, b: ProcessInfo| a.cpu.micros >= b.cpu.micros
}

/// Those among the first `count` processes that pass the filter; all of
/// them where there is no filter.
pub open spec fn passing(
    processes: Seq<ProcessInfo>,
    filter: Option<Seq<ConditionExprView>>,
    count: nat,
) -> Seq<ProcessInfo>
    decreases count,
{
    if count == 0 || count > processes.len() {
        Seq::empty()
    } else {
        let before = passing(processes, filter, (count - 1) as nat);
        let p = processes[count - 1];
        let passes = match filter {
            Some(f) => process_passes(p.pid, p.name@, p.cpu, p.memory, f, false),
            None => true,
        };
        if passes {
            before.push(p)
        } else {
            before
        }
    }
}

fn chars_le(a: &Vec<char>, b: &Vec<char>) -> (r: bool)
    ensures
        r == text_le(a@, b@),
{
    let mut i: usize = 0;
    assert(a@.skip(0) =~= a@ && b@.skip(0) =~= b@);
    loop
        invariant
            i <= a.len(),
            i <= b.len(),
            text_le(a@, b@) == text_le(a@.skip(i as int), b@.skip(i as int)),
        decreases a.len() - i,
    {
        if i >= a.len() {
            return true;
        }
        if i >= b.len() {
            return false;
        }
        proof {
            assert(a@.skip(i as int)[0] == a@[i as int]);
            assert(b@.skip(i as int)[0] == b@[i as int]);
            assert(a@.skip(i as int).drop_first() =~= a@.skip(i + 1));
            assert(b@.skip(i as int).drop_first() =~= b@.skip(i + 1));
        }
        if a[i] != b[i] {
            return a[i] < b[i];
        }
        i = i + 1;
    }
}

fn copy_text(text: &Option<String>) -> (r: Option<String>)
    ensures
        r == *text,
{
    match text {
        Some(t) => Some(t.clone()),
        None => None,
    }
}

fn copy_file(file: &FileEntry) -> (r: FileEntry)
    ensures
        r == *file,
{
    FileEntry {
        name: file.name.clone(),
        path: file.path.clone(),
        size: file.size,
        is_dir: file.is_dir,
        modified: copy_text(&file.modified),
        extension: copy_text(&file.extension),
    }
}

fn copy_process(process: &ProcessInfo) -> (r: ProcessInfo)
    ensures
        r == *process,
{
    ProcessInfo {
        pid: process.pid,
        name: process.name.clone(),
        cpu: process.cpu,
        memory: process.memory,
        status: process.status.clone(),
        user: copy_text(&process.user),
    }
}

/// Puts the entries of a folder in the order of their names.
pub fn arrange_files(entries: &Vec<FileEntry>) -> (r: Vec<FileEntry>)
    ensures
        r@ == arranged(entries@, by_name(), entries.len() as nat),
{
    let mut sorted: Vec<FileEntry> = Vec::new();
    let ghost le = by_name();
    let mut i: usize = 0;
    while i < entries.len()
        invariant
            i <= entries.len(),
            le == by_name(),
            sorted@ == arranged(entries@, le, i as nat),
        decreases entries.len() - i,
    {
        let name = chars_of(entries[i].name.as_str());
        let mut p: usize = 0;
        while p < sorted.len() && chars_le(&chars_of(sorted[p].name.as_str()), &name)
            invariant
                p <= sorted.len(),
                i < entries.len(),
                le == by_name(),
                name@ == entries[i as int].name@,
                place(sorted@, entries[i as int], le, 0) == place(
                    sorted@,
                    entries[i as int],
                    le,
                    p as int,
                ),
            decreases sorted.len() - p,
        {
            p = p + 1;
        }
        sorted.insert(p, copy_file(&entries[i]));
        i = i + 1;
    }
    sorted
}

/// Keeps the processes that pass the filter and puts them in the order of
/// their load, the highest first.
pub fn arrange_processes(processes: &Vec<ProcessInfo>, where_clause: Option<&WhereClause>) -> (r:
    Vec<ProcessInfo>)
    ensures
        r@ == arranged(
            passing(
                processes@,
                match where_clause {
                    Some(f) => Some(f@),
                    None => None,
                },
                processes.len() as nat,
            ),
            by_load(),
            passing(
                processes@,
                match where_clause {
                    Some(f) => Some(f@),
                    None => None,
                },
                processes.len() as nat,
            ).len(),
        ),
{
    let ghost filter = match where_clause {
        Some(f) => Some(f@),
        None => None,
    };
    let ghost le = by_load();
    let mut sorted: Vec<ProcessInfo> = Vec::new();
    let ghost mut kept: Seq<ProcessInfo> = Seq::empty();
    let mut i: usize = 0;
    while i < processes.len()
        invariant
            i <= processes.len(),
            le == by_load(),
            filter == match where_clause {
                Some(f) => Some(f@),
                None => None,
            },
            kept == passing(processes@, filter, i as nat),
            sorted@ == arranged(kept, le, kept.len()),
        decreases processes.len() - i,
    {
        let passes = match where_clause {
            Some(f) => matches_where_clause(&processes[i], f),
            None => true,
        };
        if passes {
            let load = processes[i].cpu.micros;
            let mut p: usize = 0;
            while p < sorted.len() && sorted[p].cpu.micros >= load
                invariant
                    p <= sorted.len(),
                    i < processes.len(),
                    le == by_load(),
                    load == processes[i as int].cpu.micros,
                    place(sorted@, processes[i as int], le, 0) == place(
                        sorted@,
                        processes[i as int],
                        le,
                        p as int,
                    ),
                decreases sorted.len() - p,
            {
                p = p + 1;
            }
            sorted.insert(p, copy_process(&processes[i]));
            proof {
                let next = kept.push(processes[i as int]);
                assert(next.take(kept.len() as int) =~= kept);
                lemma_arranged_prefix(next, kept, le, kept.len());
                kept = next;
            }
        }
        i = i + 1;
    }
    sorted
}

/// What is arranged of the first items does not depend on the items behind
/// them.
pub proof fn lemma_arranged_prefix<T>(
    items: Seq<T>,
    first: Seq<T>,
    le: spec_fn(T, T) -> bool,
    count: nat,
)
    requires
        count <= first.len() <= items.len(),
        items.take(first.len() as int) == first,
    ensures
        arranged(items, le, count) == arranged(first, le, count),
    decreases count,
{
    if count > 0 {
        lemma_arranged_prefix(items, first, le, (count - 1) as nat);
        assert(items[count - 1] == first[count - 1]);
    }
}

/// The order of texts compares any two texts.
pub proof fn lemma_text_le_total(a: Seq<char>, b: Seq<char>)
    ensures
        text_le(a, b) || text_le(b, a),
    decreases a.len(),
{
    if a.len() > 0 && b.len() > 0 && a[0] == b[0] {
        lemma_text_le_total(a.drop_first(), b.drop_first());
    }
}

/// The order of texts compares in a line.
pub proof fn lemma_text_le_transitive(a: Seq<char>, b: Seq<char>, c: Seq<char>)
    requires
        text_le(a, b),
        text_le(b, c),
    ensures
        text_le(a, c),
    decreases a.len(),
{
    if a.len() > 0 && b.len() > 0 && c.len() > 0 && a[0] == b[0] && b[0] == c[0] {
        lemma_text_le_transitive(a.drop_first(), b.drop_first(), c.drop_first());
    }
}

/// A listing of files is in the order of the names, and holds every entry
/// that was given and no other.
pub proof fn lemma_files_in_order(entries: Seq<FileEntry>)
    ensures
        ordered(arranged(entries, by_name(), entries.len()), by_name()),
        arranged(entries, by_name(), entries.len()).to_multiset() == entries.to_multiset(),
{
    let le = by_name();
    assert forall|a: FileEntry, b: FileEntry| #[trigger] le(a, b) || le(b, a) by {
        lemma_text_le_total(a.name@, b.name@);
    }
    assert forall|a: FileEntry, b: FileEntry, c: FileEntry| #[trigger]
        le(a, b) && #[trigger] le(b, c) implies le(a, c) by {
        lemma_text_le_transitive(a.name@, b.name@, c.name@);
    }
    lemma_arranged(entries, le, entries.len());
    assert(entries.take(entries.len() as int) =~= entries);
}

/// A listing of processes is in the order of the loads, the highest first,
/// and holds every process that passed and no other.
pub proof fn lemma_processes_in_order(processes: Seq<ProcessInfo>)
    ensures
        ordered(arranged(processes, by_load(), processes.len()), by_load()),
        arranged(processes, by_load(), processes.len()).to_multiset()
            == processes.to_multiset(),
{
    let le = by_load();
    assert(is_order(le));
    lemma_arranged(processes, le, processes.len());
    assert(processes.take(processes.len() as int) =~= processes);
}

} // verus!
