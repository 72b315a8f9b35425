//! FFmpeg log verbosity levels: their `AV_LOG_*` numbers and their names.
//!
//! The crate silences FFmpeg by default ([`Level::Quiet`]); the `MEDIA_LOG` environment
//! variable may name another level, case-insensitively and with surrounding whitespace
//! ignored: `quiet`, `panic`, `fatal`, `error`, `warning` (or `warn`), `info`, `verbose`,
//! `debug`, `trace`.

use vstd::prelude::*;
use crate::extract::types::{ascii_lower, ascii_lower_seq};

verus! {

/// `AV_LOG_QUIET`: print nothing.
pub const AV_LOG_QUIET: i32 = -8;
/// `AV_LOG_PANIC`.
pub const AV_LOG_PANIC: i32 = 0;
/// `AV_LOG_FATAL`.
pub const AV_LOG_FATAL: i32 = 8;
/// `AV_LOG_ERROR`.
pub const AV_LOG_ERROR: i32 = 16;
/// `AV_LOG_WARNING`.
pub const AV_LOG_WARNING: i32 = 24;
/// `AV_LOG_INFO`.
pub const AV_LOG_INFO: i32 = 32;
/// `AV_LOG_VERBOSE`.
pub const AV_LOG_VERBOSE: i32 = 40;
/// `AV_LOG_DEBUG`.
pub const AV_LOG_DEBUG: i32 = 48;
/// `AV_LOG_TRACE`.
pub const AV_LOG_TRACE: i32 = 56;

/// FFmpeg log verbosity, from most to least restrictive.
#[derive(Clone, Copy, Debug, PartialEq, Eq, Structural)]
pub enum Level {
    /// Print nothing (`AV_LOG_QUIET`). This is the crate default.
    Quiet,
    /// Something went so wrong the process cannot continue (`AV_LOG_PANIC`).
    Panic,
    /// Unrecoverable errors (`AV_LOG_FATAL`).
    Fatal,
    /// Errors after which processing may still continue (`AV_LOG_ERROR`).
    Error,
    /// Warnings about likely-incorrect or unexpected situations (`AV_LOG_WARNING`).
    Warning,
    /// Standard informational output (`AV_LOG_INFO`), FFmpeg's own default.
    Info,
    /// Verbose informational output (`AV_LOG_VERBOSE`).
    Verbose,
    /// Debugging output (`AV_LOG_DEBUG`).
    Debug,
    /// Extremely verbose tracing output (`AV_LOG_TRACE`).
    Trace,
}

/// The `AV_LOG_*` number of each level.
pub open spec fn spec_level_to_av(l: Level) -> i32 {
    match l {
        Level::Quiet => AV_LOG_QUIET,
        Level::Panic => AV_LOG_PANIC,
        Level::Fatal => AV_LOG_FATAL,
        Level::Error => AV_LOG_ERROR,
        Level::Warning => AV_LOG_WARNING,
        Level::Info => AV_LOG_INFO,
        Level::Verbose => AV_LOG_VERBOSE,
        Level::Debug => AV_LOG_DEBUG,
        Level::Trace => AV_LOG_TRACE,
    }
}

/// The least verbose level whose number is at least `v`.
pub open spec fn spec_level_from_av(v: i32) -> Level {
    if v <= AV_LOG_QUIET {
        Level::Quiet
    } else if v <= AV_LOG_PANIC {
        Level::Panic
    } else if v <= AV_LOG_FATAL {
        Level::Fatal
    } else if v <= AV_LOG_ERROR {
        Level::Error
    } else if v <= AV_LOG_WARNING {
        Level::Warning
    } else if v <= AV_LOG_INFO {
        Level::Info
    } else if v <= AV_LOG_VERBOSE {
        Level::Verbose
    } else if v <= AV_LOG_DEBUG {
        Level::Debug
    } else {
        Level::Trace
    }
}

/// Unicode `White_Space`, the characters `str::trim` removes.
pub open spec fn is_white_space(c: char) -> bool {
    ||| '\u{9}' <= c <= '\u{d}'
    ||| c == ' '
    ||| c == '\u{85}'
    ||| c == '\u{a0}'
    ||| c == '\u{1680}'
    ||| '\u{2000}' <= c <= '\u{200a}'
    ||| c == '\u{2028}'
    ||| c == '\u{2029}'
    ||| c == '\u{202f}'
    ||| c == '\u{205f}'
    ||| c == '\u{3000}'
}

/// `s` without its leading white space.
pub open spec fn trim_start(s: Seq<char>) -> Seq<char>
    decreases s.len(),
{
    if s.len() > 0 && is_white_space(s[0]) {
        trim_start(s.drop_first())
    } else {
        s
    }
}

/// `s` without its trailing white space.
pub open spec fn trim_end(s: Seq<char>) -> Seq<char>
    decreases s.len(),
{
    if s.len() > 0 && is_white_space(s.last()) {
        trim_end(s.drop_last())
    } else {
        s
    }
}

/// `s` without its leading and trailing white space.
pub open spec fn trim(s: Seq<char>) -> Seq<char> {
    trim_end(trim_start(s))
}

/// The level a name denotes: one of the level names, or `warn`, in any ASCII case, with
/// surrounding white space ignored.
pub open spec fn spec_parse_level(s: Seq<char>) -> Option<Level> {
    let l = ascii_lower_seq(trim(s));
    if l == "quiet"@ {
        Some(Level::Quiet)
    } else if l == "panic"@ {
        Some(Level::Panic)
    } else if l == "fatal"@ {
        Some(Level::Fatal)
    } else if l == "error"@ {
        Some(Level::Error)
    } else if l == "warning"@ || l == "warn"@ {
        Some(Level::Warning)
    } else if l == "info"@ {
        Some(Level::Info)
    } else if l == "verbose"@ {
        Some(Level::Verbose)
    } else if l == "debug"@ {
        Some(Level::Debug)
    } else if l == "trace"@ {
        Some(Level::Trace)
    } else {
        None
    }
}

fn white_space(c: char) -> (b: bool)
    ensures
        b == is_white_space(c),
{
    ('\u{9}' <= c && c <= '\u{d}') || c == ' ' || c == '\u{85}' || c == '\u{a0}' || c == '\u{1680}'
        || ('\u{2000}' <= c && c <= '\u{200a}') || c == '\u{2028}' || c == '\u{2029}' || c
        == '\u{202f}' || c == '\u{205f}' || c == '\u{3000}'
}

/// The bounds `[a, b)` of `s` without its surrounding white space.
fn trim_bounds(s: &str) -> (r: (usize, usize))
    ensures
        r.0 <= r.1 <= s@.len(),
        s@.subrange(r.0 as int, r.1 as int) == trim(s@),
{
    let n = s.unicode_len();
    assert(s@.subrange(0, n as int) =~= s@);
    let mut a: usize = 0;
    while a < n
        invariant
            n == s@.len(),
            a <= n,
            trim_start(s@) == trim_start(s@.subrange(a as int, n as int)),
        ensures
            a <= n,
            trim_start(s@) == s@.subrange(a as int, n as int),
        decreases n - a,
    {
        if !white_space(s.get_char(a)) {
            assert(s@.subrange(a as int, n as int)[0] == s@[a as int]);
            break;
        }
        assert(s@.subrange(a as int, n as int).drop_first() =~= s@.subrange(a + 1, n as int));
        a = a + 1;
    }
    let mut b: usize = n;
    while b > a
        invariant
            n == s@.len(),
            a <= b <= n,
            trim_start(s@) == s@.subrange(a as int, n as int),
            trim_end(s@.subrange(a as int, n as int)) == trim_end(s@.subrange(a as int, b as int)),
        ensures
            a <= b <= n,
            trim_end(s@.subrange(a as int, n as int)) == s@.subrange(a as int, b as int),
        decreases b - a,
    {
        if !white_space(s.get_char(b - 1)) {
            assert(s@.subrange(a as int, b as int).last() == s@[b - 1]);
            break;
        }
        assert(s@.subrange(a as int, b as int).drop_last() =~= s@.subrange(a as int, b - 1));
        b = b - 1;
    }
    (a, b)
}

/// `true` when `s[a..b]`, with ASCII letters lower-cased, equals `lit`.
fn range_eq_ascii_lowercase(s: &str, a: usize, b: usize, lit: &str) -> (r: bool)
    requires
        a <= b <= s@.len(),
    ensures
        r == (ascii_lower_seq(s@.subrange(a as int, b as int)) == lit@),
{
    let ghost t = s@.subrange(a as int, b as int);
    let m = lit.unicode_len();
    if b - a != m {
        assert(ascii_lower_seq(t).len() != lit@.len());
        return false;
    }
    let mut i: usize = 0;
    while i < m
        invariant
            t == s@.subrange(a as int, b as int),
            a <= b <= s@.len(),
            b - a == m,
            m == lit@.len(),
            i <= m,
            forall|j: int| 0 <= j < i ==> ascii_lower(t[j]) == lit@[j],
        decreases m - i,
    {
        let c = s.get_char(a + i);
        let l = lit.get_char(i);
        assert(t[i as int] == c);
        let same = if 'A' <= c && c <= 'Z' {
            (c as u32) + 32 == (l as u32)
        } else {
            c == l
        };
        if !same {
            assert(ascii_lower_seq(t)[i as int] != lit@[i as int]);
            return false;
        }
        i = i + 1;
    }
    assert(ascii_lower_seq(t) =~= lit@);
    true
}

impl Level {
    /// The corresponding FFmpeg `AV_LOG_*` number.
    pub fn as_av(self) -> (v: i32)
        ensures
            v == spec_level_to_av(self),
    {
        match self {
            Level::Quiet => AV_LOG_QUIET,
            Level::Panic => AV_LOG_PANIC,
            Level::Fatal => AV_LOG_FATAL,
            Level::Error => AV_LOG_ERROR,
            Level::Warning => AV_LOG_WARNING,
            Level::Info => AV_LOG_INFO,
            Level::Verbose => AV_LOG_VERBOSE,
            Level::Debug => AV_LOG_DEBUG,
            Level::Trace => AV_LOG_TRACE,
        }
    }

    /// Map a raw FFmpeg level to the nearest [`Level`]: the least verbose one whose number
    /// is at least `value`.
    pub fn from_av(value: i32) -> (l: Level)
        ensures
            l == spec_level_from_av(value),
    {
        if value <= AV_LOG_QUIET {
            Level::Quiet
        } else if value <= AV_LOG_PANIC {
            Level::Panic
        } else if value <= AV_LOG_FATAL {
            Level::Fatal
        } else if value <= AV_LOG_ERROR {
            Level::Error
        } else if value <= AV_LOG_WARNING {
            Level::Warning
        } else if value <= AV_LOG_INFO {
            Level::Info
        } else if value <= AV_LOG_VERBOSE {
            Level::Verbose
        } else if value <= AV_LOG_DEBUG {
            Level::Debug
        } else {
            Level::Trace
        }
    }

    /// The level a name denotes (see [`spec_parse_level`]); `Err(())` for anything else.
    pub fn parse(s: &str) -> (r: Result<Level, ()>)
        ensures
            match spec_parse_level(s@) {
                Some(l) => r == Ok::<Level, ()>(l),
                None => r is Err,
            },
    {
        proof {
            reveal_strlit("quiet");
            reveal_strlit("panic");
            reveal_strlit("fatal");
            reveal_strlit("error");
            reveal_strlit("warning");
            reveal_strlit("warn");
            reveal_strlit("info");
            reveal_strlit("verbose");
            reveal_strlit("debug");
            reveal_strlit("trace");
        }
        let (a, b) = trim_bounds(s);
        if range_eq_ascii_lowercase(s, a, b, "quiet") {
            Ok(Level::Quiet)
        } else if range_eq_ascii_lowercase(s, a, b, "panic") {
            Ok(Level::Panic)
        } else if range_eq_ascii_lowercase(s, a, b, "fatal") {
            Ok(Level::Fatal)
        } else if range_eq_ascii_lowercase(s, a, b, "error") {
            Ok(Level::Error)
        } else if range_eq_ascii_lowercase(s, a, b, "warning") || range_eq_ascii_lowercase(
            s,
            a,
            b,
            "warn",
        ) {
            Ok(Level::Warning)
        } else if range_eq_ascii_lowercase(s, a, b, "info") {
            Ok(Level::Info)
        } else if range_eq_ascii_lowercase(s, a, b, "verbose") {
            Ok(Level::Verbose)
        } else if range_eq_ascii_lowercase(s, a, b, "debug") {
            Ok(Level::Debug)
        } else if range_eq_ascii_lowercase(s, a, b, "trace") {
            Ok(Level::Trace)
        } else {
            Err(())
        }
    }
}

impl std::str::FromStr for Level {
    type Err = ();

    fn from_str(s: &str) -> (r: Result<Level, ()>)
        ensures
            match spec_parse_level(s@) {
                Some(l) => r == Ok::<Level, ()>(l),
                None => r is Err,
            },
    {
        Level::parse(s)
    }
}

/// The name of each level, as `MEDIA_LOG` spells it.
pub open spec fn level_name(l: Level) -> Seq<char> {
    match l {
        Level::Quiet => "quiet"@,
        Level::Panic => "panic"@,
        Level::Fatal => "fatal"@,
        Level::Error => "error"@,
        Level::Warning => "warning"@,
        Level::Info => "info"@,
        Level::Verbose => "verbose"@,
        Level::Debug => "debug"@,
        Level::Trace => "trace"@,
    }
}

/// A lower-case word without white space is its own trimmed, lower-cased form.
proof fn lemma_plain_word(w: Seq<char>)
    requires
        w.len() > 0,
        forall|i: int| 0 <= i < w.len() ==> 'a' <= #[trigger] w[i] <= 'z',
    ensures
        ascii_lower_seq(trim(w)) == w,
{
    assert(!is_white_space(w[0]));
    assert(trim_start(w) == w);
    assert(!is_white_space(w.last()));
    assert(trim_end(w) == w);
    assert(ascii_lower_seq(w) =~= w);
}

/// Every level's name parses back to that level, and `warn` names warnings too.
pub proof fn lemma_level_names_round_trip(l: Level)
    ensures
        spec_parse_level(level_name(l)) == Some(l),
        spec_parse_level("warn"@) == Some(Level::Warning),
{
    reveal_strlit("quiet");
    reveal_strlit("panic");
    reveal_strlit("fatal");
    reveal_strlit("error");
    reveal_strlit("warning");
    reveal_strlit("warn");
    reveal_strlit("info");
    reveal_strlit("verbose");
    reveal_strlit("debug");
    reveal_strlit("trace");
    lemma_plain_word(level_name(l));
    lemma_plain_word("warn"@);
}

/// Every level survives a round trip through its `AV_LOG_*` number.
pub proof fn lemma_level_av_round_trip(l: Level)
    ensures
        spec_level_from_av(spec_level_to_av(l)) == l,
{
}

/// Raw levels map monotonically: a more verbose FFmpeg number never maps to a less verbose
/// level.
pub proof fn lemma_level_from_av_monotone(v: i32, w: i32)
    requires
        v <= w,
    ensures
        spec_level_to_av(spec_level_from_av(v)) <= spec_level_to_av(spec_level_from_av(w)),
{
}

} // verus!
