//! Small pieces of text that results are shown with.

use vstd::prelude::*;
use vstd::string::StringExecFns;
use crate::text::{chars_of, decimal, push_decimal, text_of_range};

verus! {

/// A span of seconds as hours and minutes: `2h 5m`, or `5m` under an hour.
pub open spec fn duration_text(seconds: u64) -> Seq<char> {
    let hours = seconds / 3600;
    let minutes = (seconds % 3600) / 60;
    if hours > 0 {
        decimal(hours as nat) + "h "@ + decimal(minutes as nat) + "m"@
    } else {
        decimal(minutes as nat) + "m"@
    }
}

/// Writes a span of seconds as hours and minutes.
pub fn format_duration(seconds: u64) -> (r: String)
    ensures
        r@ == duration_text(seconds),
{
    let hours = seconds / 3600;
    let minutes = (seconds % 3600) / 60;
    let mut out = String::new();
    if hours > 0 {
        push_decimal(&mut out, hours as u128);
        out.append("h ");
        push_decimal(&mut out, minutes as u128);
        out.append("m");
        assert(out@ =~= duration_text(seconds));
    } else {
        push_decimal(&mut out, minutes as u128);
        out.append("m");
        assert(out@ =~= duration_text(seconds));
    }
    out
}

/// A text cut to `max_len` characters: a text that is longer keeps its
/// first `max_len - 3` characters, followed by three dots.
pub open spec fn truncated(s: Seq<char>, max_len: nat) -> Seq<char> {
    if s.len() <= max_len {
        s
    } else {
        s.take(
            if max_len >= 3 {
                max_len - 3
            } else {
                0
            },
        ) + "..."@
    }
}

/// Cuts a text to `max_len` characters.
pub fn truncate(s: &str, max_len: usize) -> (r: String)
    ensures
        r@ == truncated(s@, max_len as nat),
{
    let chars = chars_of(s);
    if chars.len() <= max_len {
        String::from_str(s)
    } else {
        let keep = if max_len >= 3 {
            max_len - 3
        } else {
            0
        };
        let mut out = text_of_range(&chars, 0, keep);
        assert(chars@.subrange(0, keep as int) =~= chars@.take(keep as int));
        out.append("...");
        out
    }
}

} // verus!
