//! Which lines of a file a content query shows.

use vstd::prelude::*;
use vstd::string::StringExecFns;
use crate::ast::{texts_view, ConditionExprView, Value, ValueView, WhereClause};
use crate::output::{pad_left, padded_left};
use crate::results::ContentInfo;
use crate::bridge::{lowercase, to_lowercase};
use crate::text::{
    chars_contain, chars_eq, chars_of, contains, decimal, decimal_text,
};

verus! {

/// The most lines that are shown where nothing is searched.
pub const MAX_SHOWN_LINES: usize = 100;

/// Whether the name of a field, in lower case, stands for the line itself.
pub open spec fn names_the_line(lowered: Seq<char>) -> bool {
    lowered == "content"@ || lowered == "line"@
}

/// The text that a filter searches the lines for: the value of its first
/// comparison, where that compares the field `content` or `line` with a
/// text.
pub open spec fn searched(filter: Option<Seq<ConditionExprView>>) -> Option<Seq<char>> {
    match filter {
        Some(f) => if f.len() > 0 && names_the_line(lowercase(f[0].condition.field)) {
            match f[0].condition.value {
                ValueView::String(s) => Some(s),
                _ => None,
            }
        } else {
            None
        },
        None => None,
    }
}

/// A line that was found, with its number in front of it.
pub open spec fn numbered(number: nat, line: Seq<char>) -> Seq<char> {
    padded_left(decimal(number), 4) + ": "@ + line
}

/// What is shown of the first `count` lines: under a search the lines that
/// hold the text, each with its number; and else the first
/// `MAX_SHOWN_LINES` lines as they are.
pub open spec fn shown_lines(lines: Seq<Seq<char>>, search: Option<Seq<char>>, count: nat) -> Seq<
    Seq<char>,
>
    decreases count,
{
    if count == 0 || count > lines.len() {
        Seq::empty()
    } else {
        let before = shown_lines(lines, search, (count - 1) as nat);
        let line = lines[count - 1];
        match search {
            Some(text) => if contains(line, text) {
                before.push(numbered(count, line))
            } else {
                before
            },
            None => if before.len() < MAX_SHOWN_LINES {
                before.push(line)
            } else {
                before
            },
        }
    }
}

/// Whether the name of a field, in lower case, stands for the line itself.
pub fn is_line_field(lowered: &str) -> (r: bool)
    ensures
        r == names_the_line(lowered@),
{
    let field = chars_of(lowered);
    chars_eq(&field, &chars_of("content")) || chars_eq(&field, &chars_of("line"))
}

fn search_of(filter: Option<&WhereClause>) -> (r: Option<Vec<char>>)
    ensures
        match searched(
            match filter {
                Some(f) => Some(f@),
                None => None,
            },
        ) {
            Some(text) => r is Some && r->Some_0@ == text,
            None => r is None,
        },
{
    match filter {
        None => None,
        Some(f) => {
            if f.conditions.len() == 0 {
                return None;
            }
            assert(f@[0] == f.conditions[0]@);
            let field = to_lowercase(f.conditions[0].condition.field.as_str());
            if is_line_field(field.as_str()) {
                match &f.conditions[0].condition.value {
                    Value::String(s) => Some(chars_of(s.as_str())),
                    _ => None,
                }
            } else {
                None
            }
        },
    }
}

/// Picks the lines of a file that a content query shows.
pub fn query_content(
    file_path: &str,
    lines: &Vec<String>,
    file_size: u64,
    where_clause: Option<&WhereClause>,
) -> (r: ContentInfo)
    ensures
        r.file_path@ == file_path@,
        r.total_lines == lines.len(),
        r.file_size == file_size,
        texts_view(r.lines) == shown_lines(
            texts_view(*lines),
            searched(
                match where_clause {
                    Some(f) => Some(f@),
                    None => None,
                },
            ),
            lines.len() as nat,
        ),
{
    let search = search_of(where_clause);
    let ghost wanted = searched(
        match where_clause {
            Some(f) => Some(f@),
            None => None,
        },
    );
    let mut shown: Vec<String> = Vec::new();
    let mut i: usize = 0;
    assert(texts_view(shown) =~= shown_lines(texts_view(*lines), wanted, 0));
    while i < lines.len()
        invariant
            i <= lines.len(),
            match wanted {
                Some(text) => search is Some && search->Some_0@ == text,
                None => search is None,
            },
            texts_view(shown) =~= shown_lines(texts_view(*lines), wanted, i as nat),
        decreases lines.len() - i,
    {
        assert(texts_view(*lines)[i as int] == lines[i as int]@);
        let ghost before = texts_view(shown);
        match &search {
            Some(text) => {
                if chars_contain(&chars_of(lines[i].as_str()), text) {
                    let number = decimal_text((i + 1) as u128);
                    let mut line = pad_left(number.as_str(), 4);
                    line.append(": ");
                    line.append(lines[i].as_str());
                    shown.push(line);
                    assert(texts_view(shown) =~= before.push(numbered((i + 1) as nat, lines[i as int]@)));
                }
            },
            None => {
                if shown.len() < MAX_SHOWN_LINES {
                    shown.push(lines[i].clone());
                    assert(texts_view(shown) =~= before.push(lines[i as int]@));
                }
            },
        }
        i = i + 1;
    }
    ContentInfo {
        file_path: String::from_str(file_path),
        lines: shown,
        total_lines: lines.len(),
        file_size,
    }
}

} // verus!
