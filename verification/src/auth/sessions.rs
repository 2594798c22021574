//! The pure half of the session listing: platform labels, relative
//! timestamps and field truncation. Fetching the sessions and laying out
//! the table are the caller's business.

use vstd::prelude::*;

use crate::text::{contains_seq, dec_digits, fmt_u64, lower_of, lowercase, str_contains, str_eq};

verus! {

/// The platform label shown for a session: the well-known operating
/// systems are recognised in the folded name, the bare token `cli` is
/// spelled out, anything else is shown as reported, and an absent platform
/// reads as unknown.
pub open spec fn spec_platform_label(p: Option<Seq<char>>) -> Seq<char> {
    match p {
        Some(s) => if contains_seq(lower_of(s), "darwin"@) {
            "macOS"@
        } else if contains_seq(lower_of(s), "linux"@) {
            "Linux"@
        } else if contains_seq(lower_of(s), "win"@) {
            "Windows"@
        } else if s == "cli"@ {
            "CLI"@
        } else {
            s
        },
        None => "Unknown"@,
    }
}

/// Renders the platform label of a session.
pub fn format_platform(platform: Option<&str>) -> (r: String)
    ensures
        r@ == spec_platform_label(
            match platform {
                Some(p) => Some(p@),
                None => None,
            },
        ),
{
    match platform {
        Some(p) => {
            let folded = lowercase(p);
            if str_contains(folded.as_str(), "darwin") {
                String::from_str("macOS")
            } else if str_contains(folded.as_str(), "linux") {
                String::from_str("Linux")
            } else if str_contains(folded.as_str(), "win") {
                String::from_str("Windows")
            } else if str_eq(p, "cli") {
                String::from_str("CLI")
            } else {
                String::from_str(p)
            }
        },
        None => String::from_str("Unknown"),
    }
}

/// A text cut to fit a column: kept whole when it fits, else its head with
/// a three-dot tail.
pub open spec fn spec_truncated(s: Seq<char>, max_len: int) -> Seq<char> {
    if s.len() > max_len {
        s.take(max_len - 3) + "..."@
    } else {
        s
    }
}

/// Cuts a text to fit a column of `max_len` characters.
pub fn truncate_string(s: &str, max_len: usize) -> (r: String)
    requires
        max_len >= 3,
    ensures
        r@ == spec_truncated(s@, max_len as int),
{
    let len = s.unicode_len();
    if len > max_len {
        let head = s.substring_char(0, max_len - 3);
        let mut out = String::from_str(head);
        out.append("...");
        proof {
            assert(head@ =~= s@.take(max_len - 3));
        }
        out
    } else {
        String::from_str(s)
    }
}

/// How long ago a moment lies, in the coarsest sensible unit: months past
/// thirty days, else days, hours or minutes, and `Just now` within the
/// minute or for moments not in the past.
pub open spec fn spec_relative_time(then: i64, now: i64) -> Seq<char> {
    let secs = if now > then {
        now - then
    } else {
        0
    };
    let days = secs / 86400;
    let hours = secs / 3600;
    let mins = secs / 60;
    if days > 30 {
        dec_digits(days / 30) + " months ago"@
    } else if days > 0 {
        dec_digits(days) + " days ago"@
    } else if hours > 0 {
        dec_digits(hours) + " hours ago"@
    } else if mins > 0 {
        dec_digits(mins) + " mins ago"@
    } else {
        "Just now"@
    }
}

/// Renders how long ago the moment `then` lies, seen from `now` (both unix
/// seconds).
pub fn format_relative_time(then: i64, now: i64) -> (r: String)
    ensures
        r@ == spec_relative_time(then, now),
{
    let diff: i128 = (now as i128) - (then as i128);
    let secs: u64 = if diff <= 0 {
        0
    } else {
        diff as u64
    };
    let days = secs / 86400;
    let hours = secs / 3600;
    let mins = secs / 60;
    if days > 30 {
        let mut out = fmt_u64(days / 30);
        out.append(" months ago");
        out
    } else if days > 0 {
        let mut out = fmt_u64(days);
        out.append(" days ago");
        out
    } else if hours > 0 {
        let mut out = fmt_u64(hours);
        out.append(" hours ago");
        out
    } else if mins > 0 {
        let mut out = fmt_u64(mins);
        out.append(" mins ago");
        out
    } else {
        String::from_str("Just now")
    }
}

} // verus!
