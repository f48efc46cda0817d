//! What the logger computes from a log record: the configured level, the
//! short module name shown on the console and the location written to the
//! log file.
use vstd::prelude::*;

use crate::text::{chars_of, concat, decimal, decimal_text, find_chars_from, find_from, lemma_find_from_sound, occurs_at, string_from_range};

verus! {

/// A record kept in the log collection of the database.
pub struct LogEntry {
    pub timestamp: String,
    pub level: String,
    pub thread: String,
    pub target: String,
    pub line: Option<u32>,
    pub message: String,
}

/// The most detailed level of record that is logged.
#[derive(Clone, Copy, Debug, PartialEq, Eq, Structural)]
pub enum LogLevel {
    Off,
    Error,
    Warn,
    Info,
    Debug,
    Trace,
}

pub open spec fn ascii_lower(c: char) -> char {
    if 'A' <= c && c <= 'Z' {
        ((c as u32) + 32) as char
    } else {
        c
    }
}

/// Whether two texts are equal when ASCII letters are compared without case.
pub open spec fn eq_ignore_ascii_case(a: Seq<char>, b: Seq<char>) -> bool {
    a.len() == b.len() && forall|i: int| 0 <= i < a.len() ==> ascii_lower(a[i]) == ascii_lower(b[i])
}

/// The level a text names, as `log::LevelFilter` reads it: one of `off`,
/// `error`, `warn`, `info`, `debug`, `trace`, in any ASCII case.
pub open spec fn level_named(t: Seq<char>) -> Option<LogLevel> {
    if eq_ignore_ascii_case(t, "OFF"@) {
        Some(LogLevel::Off)
    } else if eq_ignore_ascii_case(t, "ERROR"@) {
        Some(LogLevel::Error)
    } else if eq_ignore_ascii_case(t, "WARN"@) {
        Some(LogLevel::Warn)
    } else if eq_ignore_ascii_case(t, "INFO"@) {
        Some(LogLevel::Info)
    } else if eq_ignore_ascii_case(t, "DEBUG"@) {
        Some(LogLevel::Debug)
    } else if eq_ignore_ascii_case(t, "TRACE"@) {
        Some(LogLevel::Trace)
    } else {
        None
    }
}

fn lower(c: char) -> (r: char)
    ensures
        r == ascii_lower(c),
{
    if 'A' <= c && c <= 'Z' {
        ((c as u8) + 32) as char
    } else {
        c
    }
}

fn same_ignoring_case(a: &Vec<char>, b: &str) -> (r: bool)
    ensures
        r == eq_ignore_ascii_case(a@, b@),
{
    let w = chars_of(b);
    if a.len() != w.len() {
        return false;
    }
    let mut i: usize = 0;
    while i < a.len()
        invariant
            w@ == b@,
            a@.len() == w@.len(),
            i <= a@.len(),
            forall|j: int| 0 <= j < i ==> ascii_lower(a@[j]) == ascii_lower(w@[j]),
        decreases a@.len() - i,
    {
        if lower(a[i]) != lower(w[i]) {
            return false;
        }
        i = i + 1;
    }
    true
}

impl LogLevel {
    /// The level a configuration text names, or `None`.
    pub fn parse(text: &str) -> (r: Option<LogLevel>)
        ensures
            r == level_named(text@),
    {
        let v = chars_of(text);
        if same_ignoring_case(&v, "OFF") {
            Some(LogLevel::Off)
        } else if same_ignoring_case(&v, "ERROR") {
            Some(LogLevel::Error)
        } else if same_ignoring_case(&v, "WARN") {
            Some(LogLevel::Warn)
        } else if same_ignoring_case(&v, "INFO") {
            Some(LogLevel::Info)
        } else if same_ignoring_case(&v, "DEBUG") {
            Some(LogLevel::Debug)
        } else if same_ignoring_case(&v, "TRACE") {
            Some(LogLevel::Trace)
        } else {
            None
        }
    }
}

/// Level names are read without regard to ASCII case: two texts that differ
/// only in the case of ASCII letters name the same level.
pub proof fn law_level_case_insensitive(a: Seq<char>, b: Seq<char>)
    requires
        eq_ignore_ascii_case(a, b),
    ensures
        level_named(a) == level_named(b),
{
    assert forall|n: Seq<char>| eq_ignore_ascii_case(a, n) <==> eq_ignore_ascii_case(b, n) by {
        if eq_ignore_ascii_case(a, n) {
            assert forall|i: int| 0 <= i < b.len() implies ascii_lower(b[i]) == ascii_lower(n[i]) by {
                assert(ascii_lower(a[i]) == ascii_lower(b[i]));
            }
        }
        if eq_ignore_ascii_case(b, n) {
            assert forall|i: int| 0 <= i < a.len() implies ascii_lower(a[i]) == ascii_lower(n[i]) by {
                assert(ascii_lower(a[i]) == ascii_lower(b[i]));
            }
        }
    }
}

/// The last piece of `s[p..]` when it is split at `::`.
pub open spec fn last_piece_from(s: Seq<char>, p: int) -> Seq<char>
    decreases s.len() - p,
{
    match find_from(s, "::"@, p) {
        None => s.subrange(p, s.len() as int),
        Some(i) => {
            proof {
                lemma_find_from_sound(s, "::"@, p);
            }
            if p < i + 2 <= s.len() {
                last_piece_from(s, i + 2)
            } else {
                s.subrange(p, s.len() as int)
            }
        },
    }
}

/// The module name shown on the console: what follows the last `::` of the
/// target (`target.split("::").last()`).
pub open spec fn short_target(target: Seq<char>) -> Seq<char> {
    last_piece_from(target, 0)
}

/// The module name shown on the console for a target.
pub fn short_module(target: &str) -> (r: String)
    ensures
        r@ == short_target(target@),
{
    let v = chars_of(target);
    let sep = chars_of("::");
    proof {
        reveal_strlit("::");
    }
    let mut p: usize = 0;
    let n = v.len();
    loop
        invariant
            n == v@.len(),
            v@ == target@,
            sep@ == "::"@,
            sep@.len() == 2,
            p <= v@.len(),
            last_piece_from(v@, p as int) == last_piece_from(v@, 0),
        decreases v@.len() - p,
    {
        match find_chars_from(&v, &sep, p) {
            None => {
                return string_from_range(&v, p, v.len());
            },
            Some(i) => {
                assert(occurs_at(v@, sep@, i as int));
                p = i + 2;
            },
        }
    }
}

/// Where a record was made, as the log file shows it: `target:line`, or the
/// target alone when the line is not known.
pub open spec fn location_text(target: Seq<char>, line: Option<u32>) -> Seq<char> {
    match line {
        Some(l) => target + ":"@ + decimal(l as nat),
        None => target,
    }
}

pub fn log_location(target: &str, line: Option<u32>) -> (r: String)
    ensures
        r@ == location_text(target@, line),
{
    match line {
        Some(l) => {
            let head = concat(target, ":");
            concat(head.as_str(), decimal_text(l as u64).as_str())
        },
        None => target.to_owned(),
    }
}

} // verus!
