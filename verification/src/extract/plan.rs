//! The sampling planner behind frame extraction.
//!
//! A [`Plan`] says *which* timestamps (or which decoded frames) to emit; a [`SampledFrames`] holds a
//! plan plus the decode position and makes the per-frame decisions of the sampling loop: when
//! to seek, which decoded frames to skip, which to emit (with their running index and
//! timestamp), and when sampling is over. Reading packets, seeking and decoding happen
//! outside; the sampler is told what was decoded and answers what to do next.

use vstd::prelude::*;
use crate::rational::{Rational, spec_ts_from_nanos, spec_duration_from_ts, i64_max, round_div, saturate_i64};
use crate::time::{Duration, NANOS_LIMIT};

verus! {

broadcast use vstd::seq_lib::group_seq_properties;

/// If the next target lies more than this many seconds ahead of the decode position, seeking
/// to it is cheaper than decoding forward.
pub const SEEK_THRESHOLD_SECS: u64 = 2;

/// `s` is in ascending order (repeats allowed).
pub open spec fn nondecreasing(s: Seq<i64>) -> bool {
    forall|i: int, j: int| 0 <= i <= j < s.len() ==> s[i] <= s[j]
}

/// `s` is in strictly ascending order.
pub open spec fn strictly_increasing(s: Seq<i64>) -> bool {
    forall|i: int, j: int| 0 <= i < j < s.len() ==> s[i] < s[j]
}

/// The resolved sampling strategy.
#[derive(Debug)]
pub enum Plan {
    /// Fixed-step targets from `next`, advancing by `step_ts` while `< end_ts`.
    Step { step_ts: i64, next: i64, end_ts: i64 },
    /// A precomputed ascending list of target timestamps, consumed from `cursor`.
    Targets { targets: Vec<i64>, cursor: usize },
    /// Every `n`-th decoded frame within `[start_ts, end_ts)`. `frame_no` counts the in-range
    /// frames decoded so far; `sought` records the one-time seek to the range start.
    EveryN { n: u64, start_ts: i64, end_ts: i64, frame_no: u64, sought: bool },
}

impl Plan {
    /// The plan's own invariant: a positive step, an ascending target list with the cursor
    /// within it, a positive `n`.
    pub open spec fn wf(&self) -> bool {
        match self {
            Plan::Step { step_ts, .. } => *step_ts >= 1,
            Plan::Targets { targets, cursor } => *cursor <= targets@.len() && nondecreasing(
                targets@,
            ),
            Plan::EveryN { n, .. } => *n >= 1,
        }
    }

    /// The next target timestamp of a seek-based plan.
    pub open spec fn spec_peek(&self) -> Option<i64> {
        match self {
            Plan::Step { next, end_ts, .. } => if *next < *end_ts {
                Some(*next)
            } else {
                None
            },
            Plan::Targets { targets, cursor } => if *cursor < targets@.len() {
                Some(targets@[*cursor as int])
            } else {
                None
            },
            Plan::EveryN { .. } => None,
        }
    }

    /// The next target timestamp for the seek-based strategies (`Step`/`Targets`).
    pub fn peek_target(&self) -> (t: Option<i64>)
        ensures
            t == self.spec_peek(),
    {
        match self {
            Plan::Step { next, end_ts, .. } => if *next < *end_ts {
                Some(*next)
            } else {
                None
            },
            Plan::Targets { targets, cursor } => if *cursor < targets.len() {
                Some(targets[*cursor])
            } else {
                None
            },
            Plan::EveryN { .. } => None,
        }
    }

    /// Consume the current target so the next peek advances: a step plan moves on by one
    /// step (a step past `i64::MAX` ends it), a target list moves its cursor on by one.
    pub fn advance_target(&mut self)
        requires
            old(self).wf(),
            old(self).spec_peek() is Some,
        ensures
            final(self).wf(),
            match (*old(self), *final(self)) {
                (Plan::Step { step_ts, next, end_ts }, Plan::Step { step_ts: s2, next: n2, end_ts: e2 }) =>
                    s2 == step_ts && e2 == end_ts && n2 == (if next + step_ts > i64_max() {
                        i64_max()
                    } else {
                        next + step_ts
                    }),
                (Plan::Targets { targets, cursor }, Plan::Targets { targets: t2, cursor: c2 }) =>
                    t2@ == targets@ && c2 == cursor + 1,
                _ => false,
            },
    {
        match self {
            Plan::Step { step_ts, next, .. } => {
                if *next > i64::MAX - *step_ts {
                    *next = i64::MAX;
                } else {
                    *next = *next + *step_ts;
                }
            },
            Plan::Targets { targets, cursor } => {
                if *cursor < targets.len() {
                    *cursor = *cursor + 1;
                }
            },
            Plan::EveryN { .. } => {},
        }
    }
}

/// Calls `slice::sort_unstable` on the vector's elements: afterwards they are a permutation of
/// the elements before (same multiset, hence same length and same elements), in ascending
/// order.
#[verifier::external_body]
fn sort_ascending(v: &mut Vec<i64>)
    ensures
        final(v)@.to_multiset() == old(v)@.to_multiset(),
        final(v)@.len() == old(v)@.len(),
        forall|x: i64| final(v)@.contains(x) <==> old(v)@.contains(x),
        forall|i: int, j: int| 0 <= i <= j < final(v)@.len() ==> final(v)@[i] <= final(v)@[j],
{
    v.sort_unstable();
}

/// A target-list plan over `list`: the distinct timestamps of the list, ascending.
pub fn targets_plan(list: Vec<i64>) -> (p: Plan)
    ensures
        p.wf(),
        (p matches Plan::Targets { targets, cursor } && cursor == 0 && strictly_increasing(
            targets@,
        ) && forall|x: i64| targets@.contains(x) <==> list@.contains(x)),
{
    let mut sorted = list;
    sort_ascending(&mut sorted);
    let mut targets: Vec<i64> = Vec::new();
    let mut i: usize = 0;
    while i < sorted.len()
        invariant
            i <= sorted@.len(),
            forall|a: int, b: int| 0 <= a <= b < sorted@.len() ==> sorted@[a] <= sorted@[b],
            strictly_increasing(targets@),
            forall|x: i64| targets@.contains(x) <==> sorted@.take(i as int).contains(x),
            targets@.len() > 0 ==> i > 0 && targets@.last() == sorted@[i - 1],
        decreases sorted.len() - i,
    {
        let x = sorted[i];
        let ghost prev = sorted@.take(i as int);
        assert(sorted@.take(i + 1) =~= prev.push(x));
        if targets.len() == 0 || targets[targets.len() - 1] != x {
            proof {
                if targets@.len() > 0 {
                    assert(targets@.last() <= x);
                }
            }
            targets.push(x);
        } else {
            assert(prev.contains(x));
        }
        i = i + 1;
    }
    assert(sorted@.take(sorted@.len() as int) =~= sorted@);
    Plan::Targets { targets, cursor: 0 }
}

/// A fixed-step plan: one target every `step` from `start_ts` while below `end_ts`, the step
/// expressed in `tb` and at least one tick. A zero step yields no targets.
pub fn step_plan(step: Duration, start_ts: i64, end_ts: i64, tb: Rational) -> (p: Plan)
    requires
        tb.num > 0,
    ensures
        p.wf(),
        step@ == 0 ==> (p matches Plan::Targets { targets, cursor } && targets@.len() == 0
            && cursor == 0),
        step@ > 0 ==> (p == Plan::Step {
            step_ts: if spec_ts_from_nanos(step@, tb) < 1 {
                1
            } else {
                spec_ts_from_nanos(step@, tb) as i64
            },
            next: start_ts,
            end_ts,
        }),
{
    if step.as_nanos() == 0 {
        return Plan::Targets { targets: Vec::new(), cursor: 0 };
    }
    let ts = tb.ts_from_duration(step);
    let step_ts = if ts < 1 {
        1
    } else {
        ts
    };
    Plan::Step { step_ts, next: start_ts, end_ts }
}

/// Every `n`-th in-range frame (`n` of zero counts as one).
pub fn every_n_plan(n: u32, start_ts: i64, end_ts: i64) -> (p: Plan)
    ensures
        p.wf(),
        p == (Plan::EveryN {
            n: if n == 0 {
                1
            } else {
                n as u64
            },
            start_ts,
            end_ts,
            frame_no: 0,
            sought: false,
        }),
{
    Plan::EveryN { n: if n == 0 { 1 } else { n as u64 }, start_ts, end_ts, frame_no: 0, sought: false }
}

/// Rounding to the nearest tick of a positive time base keeps the order of instants.
pub proof fn lemma_ts_monotone(a: nat, b: nat, tb: Rational)
    requires
        a <= b,
        tb.num > 0,
        tb.den > 0,
    ensures
        spec_ts_from_nanos(a, tb) <= spec_ts_from_nanos(b, tb),
{
    let q = tb.num * 1_000_000_000;
    assert(0 <= a * tb.den <= b * tb.den) by (nonlinear_arith)
        requires a <= b, tb.den > 0;
    assert((2 * (a * tb.den) + q) / (2 * q) <= (2 * (b * tb.den) + q) / (2 * q)) by (nonlinear_arith)
        requires 0 <= a * tb.den <= b * tb.den, q > 0;
}

/// The sampling window: where sampling starts, where it ends (if the end is known), and both
/// bounds as timestamps. `end_ts` is exclusive.
#[derive(Clone, Copy, Debug)]
pub struct Window {
    /// Start of the window.
    pub start: Duration,
    /// End of the window, when known.
    pub end: Option<Duration>,
    /// `start` in the stream's time base.
    pub start_ts: i64,
    /// Exclusive end in the stream's time base (`i64::MAX` when unbounded).
    pub end_ts: i64,
}

/// The end of the window: an explicit range end, clamped to the known duration, else the
/// known duration, else unknown. A zero `duration` means the duration is unknown.
pub open spec fn spec_window_end(range: Option<(Duration, Duration)>, duration: Duration) -> Option<nat> {
    match range {
        Some((_, e)) => if duration@ > 0 && duration@ < e@ {
            Some(duration@)
        } else {
            Some(e@)
        },
        None => if duration@ > 0 {
            Some(duration@)
        } else {
            None
        },
    }
}

/// Resolve the sampling window for an optional inclusive `range` over a stream of (possibly
/// unknown, i.e. zero) `duration`. An explicit range end is inclusive, so its timestamp is
/// nudged one tick past; a duration-derived end stays exclusive.
pub fn resolve_window(range: Option<(Duration, Duration)>, duration: Duration, tb: Rational) -> (w: Window)
    requires
        tb.num > 0,
    ensures
        w.start@ == (match range {
            Some((s, _)) => s@,
            None => 0,
        }),
        w.end matches Some(e) ==> spec_window_end(range, duration) == Some(e@),
        w.end is None ==> spec_window_end(range, duration) is None,
        w.start_ts == spec_ts_from_nanos(w.start@, tb),
        w.end_ts == (match w.end {
            Some(e) => if range is Some {
                saturate_i64(spec_ts_from_nanos(e@, tb) + 1)
            } else {
                spec_ts_from_nanos(e@, tb)
            },
            None => i64_max(),
        }),
{
    let start = match range {
        Some((s, _)) => s,
        None => Duration::zero(),
    };
    let known = duration.as_nanos() > 0;
    let end = match range {
        Some((_, e)) => if known && duration.as_nanos() < e.as_nanos() {
            Some(duration)
        } else {
            Some(e)
        },
        None => if known {
            Some(duration)
        } else {
            None
        },
    };
    let start_ts = tb.ts_from_duration(start);
    let end_ts = match end {
        Some(e) => {
            let base = tb.ts_from_duration(e);
            if range.is_some() {
                if base == i64::MAX {
                    i64::MAX
                } else {
                    base + 1
                }
            } else {
                base
            }
        },
        None => i64::MAX,
    };
    Window { start, end, start_ts, end_ts }
}

/// The instant (in nanoseconds) of the `i`-th of `n` evenly spread samples over
/// `[start, end)`: the midpoint of the `i`-th of `n` equal slices, rounded down.
pub open spec fn count_instant(i: nat, n: nat, start: nat, end: nat) -> nat {
    let span: nat = if end > start {
        (end - start) as nat
    } else {
        0
    };
    start + ((2 * i + 1) * span) / (2 * n)
}

/// Evenly spread samples stay inside their window: each of `n` instants over `[start, end)`
/// lies at or after `start` and before `end` (a window with no length puts them all at
/// `start`), they come in order, and the `i`-th lies in the `i`-th of `n` equal slices of the
/// window (up to the rounding down to whole nanoseconds): its offset from `start` is the
/// midpoint `(2i+1)/(2n)` of the window's length, rounded down.
pub proof fn lemma_count_instant_in_window(i: nat, j: nat, n: nat, start: nat, end: nat)
    requires
        i <= j < n,
    ensures
        start <= count_instant(i, n, start, end),
        end > start ==> count_instant(i, n, start, end) < end,
        end <= start ==> count_instant(i, n, start, end) == start,
        count_instant(i, n, start, end) <= count_instant(j, n, start, end),
        ({
            let span: int = if end > start { end - start } else { 0 };
            let off: int = count_instant(i, n, start, end) - start;
            &&& n * off <= (i + 1) * span && i * span < n * off + n
            &&& 2 * n * off <= (2 * i + 1) * span < 2 * n * off + 2 * n
        }),
{
    let span: nat = if end > start { (end - start) as nat } else { 0 };
    let x: int = ((2 * i + 1) * span) as int;
    let q: int = x / ((2 * n) as int);
    assert(2 * n * q <= x < 2 * n * q + 2 * n) by (nonlinear_arith)
        requires
            n > 0,
            x >= 0,
            q == x / ((2 * n) as int),
    ;
    assert(n * q <= (i + 1) * span && i * span < n * q + n) by (nonlinear_arith)
        requires
            2 * n * q <= x < 2 * n * q + 2 * n,
            x == (2 * i + 1) * span,
            span >= 0,
    ;
    assert(0 <= ((2 * i + 1) * span) / (2 * n)) by (nonlinear_arith)
        requires
            n > 0,
    ;
    assert((2 * i + 1) * span <= (2 * j + 1) * span) by (nonlinear_arith)
        requires
            i <= j,
            span >= 0,
    ;
    assert(((2 * i + 1) * span) / (2 * n) <= ((2 * j + 1) * span) / (2 * n)) by (nonlinear_arith)
        requires
            (2 * i + 1) * span <= (2 * j + 1) * span,
            n > 0,
    ;
    if end > start {
        assert(((2 * i + 1) * span) / (2 * n) < span) by (nonlinear_arith)
            requires
                i < n,
                span > 0,
                n > 0,
        {
            assert((2 * i + 1) * span < (2 * n) * span) by (nonlinear_arith)
                requires
                    2 * i + 1 < 2 * n,
                    span > 0,
            ;
        }
    }
}

/// `n` timestamps evenly spread across `[start, end)` at the midpoints of `n` equal slices, so
/// neither the very first nor the very last instant is forced. Empty when `n` is zero or the
/// end is unknown.
pub fn count_targets(n: u32, start: Duration, end: Option<Duration>, tb: Rational) -> (v: Vec<i64>)
    requires
        tb.num > 0,
        tb.den > 0,
    ensures
        n == 0 || end is None ==> v@.len() == 0,
        end matches Some(e) ==> n > 0 ==> v@.len() == n && forall|i: int|
            0 <= i < n ==> v@[i] == spec_ts_from_nanos(count_instant(i as nat, n as nat, start@, e@), tb),
        nondecreasing(v@),
{
    let mut v: Vec<i64> = Vec::new();
    let e = match end {
        Some(e) => e,
        None => return v,
    };
    if n == 0 {
        return v;
    }
    let s_n: u128 = start.as_nanos();
    let e_n: u128 = e.as_nanos();
    let span: u128 = if e_n > s_n {
        e_n - s_n
    } else {
        0
    };
    let mut i: u32 = 0;
    while i < n
        invariant
            0 < n,
            i <= n,
            end == Some(e),
            s_n == start@,
            e_n == e@,
            span == (if e@ > start@ { (e@ - start@) as nat } else { 0 }),
            s_n < NANOS_LIMIT,
            e_n < NANOS_LIMIT,
            tb.num > 0,
            tb.den > 0,
            v@.len() == i,
            forall|k: int|
                0 <= k < i ==> v@[k] == spec_ts_from_nanos(count_instant(k as nat, n as nat, start@, e@), tb),
        decreases n - i,
    {
        assert((2 * i + 1) * span <= (2 * 0xffff_ffffu64 + 1) * span) by (nonlinear_arith)
            requires i <= 0xffff_ffffu64;
        assert((2 * 0xffff_ffffu64 + 1) * span < 0x2_0000_0000 * 18_446_744_073_709_551_616_000_000_000)
            by (nonlinear_arith)
            requires span < 18_446_744_073_709_551_616_000_000_000;
        let off: u128 = ((2 * i as u128 + 1) * span) / (2 * n as u128);
        assert(off <= span) by (nonlinear_arith)
            requires off == ((2 * i + 1) * span) / (2 * n), i < n;
        let t = Duration::from_total_nanos(s_n + off);
        v.push(tb.ts_from_duration(t));
        i = i + 1;
    }
    assert forall|a: int, b: int| 0 <= a <= b < v@.len() implies v@[a] <= v@[b] by {
        let ia = count_instant(a as nat, n as nat, start@, e@);
        let ib = count_instant(b as nat, n as nat, start@, e@);
        assert((2 * a + 1) * span <= (2 * b + 1) * span) by (nonlinear_arith)
            requires 0 <= a <= b, span >= 0;
        assert(((2 * a + 1) * span) / (2 * n) <= ((2 * b + 1) * span) / (2 * n)) by (nonlinear_arith)
            requires (2 * a + 1) * span <= (2 * b + 1) * span, n > 0, span >= 0, a >= 0;
        lemma_ts_monotone(ia, ib, tb);
    }
    v
}

/// A plan over `n` evenly spread targets (see [`count_targets`]).
pub fn count_plan(n: u32, window: Window, tb: Rational) -> (p: Plan)
    requires
        tb.num > 0,
        tb.den > 0,
    ensures
        p.wf(),
        (p matches Plan::Targets { targets, cursor } && cursor == 0 && (n == 0 || window.end is None
            ==> targets@.len() == 0) && (window.end matches Some(e) ==> n > 0 ==> targets@.len()
            == n && forall|i: int|
            0 <= i < n ==> targets@[i] == spec_ts_from_nanos(
                count_instant(i as nat, n as nat, window.start@, e@),
                tb,
            ))),
{
    Plan::Targets { targets: count_targets(n, window.start, window.end, tb), cursor: 0 }
}

/// A plan over explicit timestamps: each converted to the stream's time base, then sorted
/// and de-duplicated.
pub fn timestamps_plan(list: &Vec<Duration>, tb: Rational) -> (p: Plan)
    requires
        tb.num > 0,
    ensures
        p.wf(),
        (p matches Plan::Targets { targets, cursor } && cursor == 0 && strictly_increasing(
            targets@,
        ) && forall|x: i64|
            targets@.contains(x) <==> exists|i: int|
                0 <= i < list@.len() && x == spec_ts_from_nanos(#[trigger] list@[i]@, tb)),
{
    let mut ts: Vec<i64> = Vec::new();
    let mut i: usize = 0;
    while i < list.len()
        invariant
            i <= list@.len(),
            tb.num > 0,
            ts@.len() == i,
            forall|k: int| 0 <= k < i ==> ts@[k] == spec_ts_from_nanos(#[trigger] list@[k]@, tb),
        decreases list.len() - i,
    {
        ts.push(tb.ts_from_duration(list[i]));
        i = i + 1;
    }
    let ghost converted = ts@;
    let p = targets_plan(ts);
    proof {
        assert forall|x: i64| converted.contains(x) <==> exists|i: int|
            0 <= i < list@.len() && x == spec_ts_from_nanos(#[trigger] list@[i]@, tb) by {
            if converted.contains(x) {
                let k = choose|k: int| 0 <= k < converted.len() && converted[k] == x;
                assert(x == spec_ts_from_nanos(list@[k]@, tb));
            }
            if exists|i: int| 0 <= i < list@.len() && x == spec_ts_from_nanos(#[trigger] list@[i]@, tb) {
                let k = choose|k: int| 0 <= k < list@.len() && x == spec_ts_from_nanos(#[trigger] list@[k]@, tb);
                assert(converted[k] == x);
            }
        }
    }
    p
}

/// What the sampling loop should do before decoding toward the next sample.
#[derive(Clone, Copy, Debug, PartialEq, Eq, Structural)]
pub enum SampleStep {
    /// Sampling is over.
    Finished,
    /// Seek the stream to this timestamp (and discard decoder state), then decode.
    Seek(i64),
    /// Decode forward from the current position.
    Decode,
}

/// What to do with one decoded frame.
#[derive(Clone, Copy, Debug, PartialEq, Eq)]
pub enum FrameVerdict {
    /// Discard it and decode the next one.
    Skip,
    /// Emit it as the sample with this running index and timestamp.
    Emit {
        /// Zero-based position in the run.
        index: u32,
        /// When the frame occurs in the source.
        timestamp: Duration,
    },
    /// Sampling is over; emit nothing more.
    Stop,
}

/// How often to sample, in exact quantities (a floating-point spacing or rate is turned into
/// a [`Duration`] before it reaches here).
#[derive(Clone, Debug)]
pub enum SamplingInterval {
    /// One frame every `step` of video time (a zero step samples nothing).
    Every(Duration),
    /// Every `n`-th decoded frame.
    EveryNFrames(u32),
    /// Exactly this many frames, evenly spaced across the window.
    Count(u32),
    /// Frames at these timestamps.
    Timestamps(Vec<Duration>),
}

/// The window's start in time base `tb`.
pub open spec fn spec_window_start_ts(range: Option<(Duration, Duration)>, tb: Rational) -> int {
    spec_ts_from_nanos(
        match range {
            Some((s, _)) => s@,
            None => 0,
        },
        tb,
    )
}

/// The window's exclusive end in time base `tb` (an explicit, inclusive range end nudged one
/// tick past; `i64::MAX` when unbounded).
pub open spec fn spec_window_end_ts(range: Option<(Duration, Duration)>, duration: Duration, tb: Rational) -> int {
    match spec_window_end(range, duration) {
        Some(e) => if range is Some {
            saturate_i64(spec_ts_from_nanos(e, tb) + 1)
        } else {
            spec_ts_from_nanos(e, tb)
        },
        None => i64_max(),
    }
}

/// The targets of a count plan lie inside its window: none before the window's start and,
/// unless the range ends before it starts, none after its end.
proof fn lemma_count_plan_in_window(
    n: u32,
    p: Plan,
    range: Option<(Duration, Duration)>,
    duration: Duration,
    tb: Rational,
)
    requires
        tb.num > 0,
        tb.den > 0,
        p matches Plan::Targets { targets, cursor } && match spec_window_end(range, duration) {
            None => targets@.len() == 0,
            Some(e) => targets@.len() == n && forall|i: int|
                0 <= i < n ==> targets@[i] == spec_ts_from_nanos(
                    count_instant(
                        i as nat,
                        n as nat,
                        match range {
                            Some((s, _)) => s@,
                            None => 0,
                        },
                        e,
                    ),
                    tb,
                ),
        },
    ensures
        p matches Plan::Targets { targets, cursor } && (forall|i: int|
            0 <= i < targets@.len() ==> spec_window_start_ts(range, tb) <= #[trigger] targets@[i])
            && (forall|i: int|
            0 <= i < targets@.len() ==> (match spec_window_end(range, duration) {
                Some(e) => e >= (match range {
                    Some((s, _)) => s@,
                    None => 0,
                }),
                None => true,
            }) ==> #[trigger] targets@[i] <= spec_window_end_ts(range, duration, tb)),
{
    let start: nat = match range {
        Some((s, _)) => s@,
        None => 0,
    };
    if let Plan::Targets { targets, cursor } = p {
        if let Some(e) = spec_window_end(range, duration) {
            assert forall|i: int| 0 <= i < targets@.len() implies spec_window_start_ts(range, tb)
                <= #[trigger] targets@[i] && (e >= start ==> targets@[i] <= spec_window_end_ts(
                range,
                duration,
                tb,
            )) by {
                let inst = count_instant(i as nat, n as nat, start, e);
                lemma_count_instant_in_window(i as nat, i as nat, n as nat, start, e);
                lemma_ts_monotone(start, inst, tb);
                if e >= start {
                    lemma_ts_monotone(inst, e, tb);
                }
            }
        }
    }
}

/// The sampling plan for `interval` over a stream of `duration` (zero when unknown) in time
/// base `tb`, restricted to the inclusive `range`: fixed steps from the window's start, every
/// `n`-th in-window frame, `n` midpoints of the window, or the given timestamps sorted and
/// de-duplicated.
pub fn resolve_plan(
    interval: &SamplingInterval,
    range: Option<(Duration, Duration)>,
    duration: Duration,
    tb: Rational,
) -> (p: Plan)
    requires
        tb.num > 0,
        tb.den > 0,
    ensures
        p.wf(),
        match *interval {
            SamplingInterval::Every(step) => {
                &&& step@ == 0 ==> (p matches Plan::Targets { targets, cursor } && targets@.len() == 0
                    && cursor == 0)
                &&& step@ > 0 ==> (p == Plan::Step {
                    step_ts: if spec_ts_from_nanos(step@, tb) < 1 {
                        1
                    } else {
                        spec_ts_from_nanos(step@, tb) as i64
                    },
                    next: spec_window_start_ts(range, tb) as i64,
                    end_ts: spec_window_end_ts(range, duration, tb) as i64,
                })
            },
            SamplingInterval::EveryNFrames(n) => p == (Plan::EveryN {
                n: if n == 0 {
                    1
                } else {
                    n as u64
                },
                start_ts: spec_window_start_ts(range, tb) as i64,
                end_ts: spec_window_end_ts(range, duration, tb) as i64,
                frame_no: 0,
                sought: false,
            }),
            SamplingInterval::Count(n) => p matches Plan::Targets { targets, cursor } && cursor == 0
                && (forall|i: int|
                0 <= i < targets@.len() ==> spec_window_start_ts(range, tb) <= #[trigger] targets@[i])
                && (forall|i: int|
                0 <= i < targets@.len() ==> (match spec_window_end(range, duration) {
                    Some(e) => e >= (match range {
                        Some((s, _)) => s@,
                        None => 0,
                    }),
                    None => true,
                }) ==> #[trigger] targets@[i] <= spec_window_end_ts(range, duration, tb))
                && match spec_window_end(range, duration) {
                None => targets@.len() == 0,
                Some(e) => targets@.len() == n && forall|i: int|
                    0 <= i < n ==> targets@[i] == spec_ts_from_nanos(
                        count_instant(
                            i as nat,
                            n as nat,
                            match range {
                                Some((s, _)) => s@,
                                None => 0,
                            },
                            e,
                        ),
                        tb,
                    ),
            },
            SamplingInterval::Timestamps(list) => p matches Plan::Targets { targets, cursor } && cursor
                == 0 && strictly_increasing(targets@) && forall|x: i64|
                targets@.contains(x) <==> exists|i: int|
                    0 <= i < list@.len() && x == spec_ts_from_nanos(#[trigger] list@[i]@, tb),
        },
{
    let window = resolve_window(range, duration, tb);
    match interval {
        SamplingInterval::Every(step) => step_plan(*step, window.start_ts, window.end_ts, tb),
        SamplingInterval::EveryNFrames(n) => every_n_plan(*n, window.start_ts, window.end_ts),
        SamplingInterval::Count(n) => {
            let p = count_plan(*n, window, tb);
            proof {
                lemma_count_plan_in_window(*n, p, range, duration, tb);
            }
            p
        },
        SamplingInterval::Timestamps(list) => timestamps_plan(list, tb),
    }
}

/// What became of one decoded frame in a sampling run.
#[derive(Clone, Copy, Debug, PartialEq, Eq, Structural)]
pub enum FrameFate {
    /// Passed over.
    Skipped,
    /// Emitted as a sample.
    Emitted,
    /// Ended the run.
    Stopped,
}

/// The fate a verdict gives its frame.
pub open spec fn fate_of(v: FrameVerdict) -> FrameFate {
    match v {
        FrameVerdict::Skip => FrameFate::Skipped,
        FrameVerdict::Emit { .. } => FrameFate::Emitted,
        FrameVerdict::Stop => FrameFate::Stopped,
    }
}

/// `ts` lies in the every-n-th window `[start, end)`.
pub open spec fn in_window(ts: i64, start: i64, end: i64) -> bool {
    start <= ts && ts < end
}

/// The number of timestamps of `ts` inside `[start, end)`.
pub open spec fn window_count(ts: Seq<i64>, start: i64, end: i64) -> nat
    decreases ts.len(),
{
    if ts.len() == 0 {
        0
    } else {
        (if in_window(ts[0], start, end) { 1nat } else { 0nat }) + window_count(ts.drop_first(), start, end)
    }
}

/// What an every-n-th plan over `[start, end)` does with a frame at `ts` when `frame_no`
/// in-window frames came before it: frames before the window are skipped, a frame at or after
/// its end stops the run, and in-window frames are emitted when their count is a multiple of
/// `n`.
pub open spec fn every_n_fate(n: u64, start: i64, end: i64, frame_no: nat, ts: i64) -> FrameFate {
    if ts < start {
        FrameFate::Skipped
    } else if ts >= end {
        FrameFate::Stopped
    } else if frame_no % (n as nat) == 0 {
        FrameFate::Emitted
    } else {
        FrameFate::Skipped
    }
}

/// The fates of the frames `ts`, decoded in this order, fed one by one to an every-n-th plan
/// that has already counted `frame_no` in-window frames; the run ends at the first frame that
/// stops it.
pub open spec fn every_n_run(n: u64, start: i64, end: i64, frame_no: nat, ts: Seq<i64>) -> Seq<FrameFate>
    decreases ts.len(),
{
    if ts.len() == 0 {
        Seq::empty()
    } else {
        let f = every_n_fate(n, start, end, frame_no, ts[0]);
        if f == FrameFate::Stopped {
            seq![FrameFate::Stopped]
        } else {
            let next = if in_window(ts[0], start, end) { frame_no + 1 } else { frame_no };
            seq![f] + every_n_run(n, start, end, next, ts.drop_first())
        }
    }
}

/// Every-n-th sampling over successive frames: of the frames fed in decode order, exactly
/// those inside `[start, end)` whose position among the in-window frames (counting from
/// `frame_no`, zero for a fresh plan) is a multiple of `n` are emitted; a frame at or after
/// the end (and not before the start) stops the run, the first such frame ends it, and every
/// frame before it gets a fate. [`SampledFrames::on_frame`] gives each frame the fate
/// [`every_n_fate`] names, counting in-window frames as this run does (its counter saturates
/// only after `u64::MAX` of them).
pub proof fn lemma_every_n_run(n: u64, start: i64, end: i64, frame_no: nat, ts: Seq<i64>)
    requires
        n >= 1,
    ensures
        every_n_run(n, start, end, frame_no, ts).len() <= ts.len(),
        every_n_run(n, start, end, frame_no, ts).len() == ts.len() || every_n_run(
            n,
            start,
            end,
            frame_no,
            ts,
        ).last() == FrameFate::Stopped,
        forall|k: int|
            0 <= k < every_n_run(n, start, end, frame_no, ts).len() ==> (#[trigger] every_n_run(
                n,
                start,
                end,
                frame_no,
                ts,
            )[k] == FrameFate::Stopped <==> (ts[k] >= start && ts[k] >= end)),
        forall|k: int|
            0 <= k < every_n_run(n, start, end, frame_no, ts).len() ==> (#[trigger] every_n_run(
                n,
                start,
                end,
                frame_no,
                ts,
            )[k] == FrameFate::Emitted <==> (in_window(ts[k], start, end) && (frame_no
                + window_count(ts.take(k), start, end)) % (n as nat) == 0)),
        forall|k: int|
            0 <= k < every_n_run(n, start, end, frame_no, ts).len() - 1 ==> #[trigger] every_n_run(
                n,
                start,
                end,
                frame_no,
                ts,
            )[k] != FrameFate::Stopped,
    decreases ts.len(),
{
    let out = every_n_run(n, start, end, frame_no, ts);
    if ts.len() == 0 {
        return;
    }
    let f = every_n_fate(n, start, end, frame_no, ts[0]);
    assert(ts.take(0) =~= Seq::<i64>::empty());
    if f == FrameFate::Stopped {
        assert(out =~= seq![FrameFate::Stopped]);
        return;
    }
    let next = if in_window(ts[0], start, end) { frame_no + 1 } else { frame_no };
    let rest_ts = ts.drop_first();
    lemma_every_n_run(n, start, end, next, rest_ts);
    let rest = every_n_run(n, start, end, next, rest_ts);
    assert(out =~= seq![f] + rest);
    assert forall|k: int| 1 <= k < out.len() implies window_count(ts.take(k), start, end) == (if in_window(
        ts[0],
        start,
        end,
    ) {
        1nat
    } else {
        0nat
    }) + window_count(rest_ts.take(k - 1), start, end) by {
        assert(ts.take(k).drop_first() =~= rest_ts.take(k - 1));
        assert(ts.take(k)[0] == ts[0]);
    }
    assert forall|k: int| 0 <= k < out.len() implies (#[trigger] out[k] == FrameFate::Stopped <==> (
    ts[k] >= start && ts[k] >= end)) && (out[k] == FrameFate::Emitted <==> (in_window(
        ts[k],
        start,
        end,
    ) && (frame_no + window_count(ts.take(k), start, end)) % (n as nat) == 0)) by {
        if k > 0 {
            assert(out[k] == rest[k - 1]);
            assert(ts[k] == rest_ts[k - 1]);
        }
    }
    assert forall|k: int| 0 <= k < out.len() - 1 implies #[trigger] out[k] != FrameFate::Stopped by {
        if k > 0 {
            assert(out[k] == rest[k - 1]);
        }
    }
    if out.len() != ts.len() {
        assert(out.last() == rest.last());
    }
}

/// The decision state of a sampling run over one video stream.
#[derive(Debug)]
pub struct SampledFrames {
    /// What to sample.
    pub plan: Plan,
    /// The stream's time base.
    pub time_base: Rational,
    /// Timestamp of the last decoded frame since the last seek, if any.
    pub current_ts: Option<i64>,
    /// Index the next emitted sample gets.
    pub next_index: u32,
    /// Set once sampling is over.
    pub done: bool,
}

/// `ts` lies more than [`SEEK_THRESHOLD_SECS`] seconds after zero in time base `tb`.
pub open spec fn beyond_threshold(ts: int, tb: Rational) -> bool {
    ts * tb.num > SEEK_THRESHOLD_SECS * tb.den
}

impl SampledFrames {
    /// The sampler's invariant: a well-formed plan over a positive time base.
    pub open spec fn wf(&self) -> bool {
        &&& self.plan.wf()
        &&& self.time_base.num > 0
        &&& self.time_base.den > 0
    }

    /// A sampler at the start of a run.
    pub fn new(plan: Plan, time_base: Rational) -> (s: SampledFrames)
        requires
            plan.wf(),
            time_base.num > 0,
            time_base.den > 0,
        ensures
            s.wf(),
            s.plan == plan,
            s.time_base == time_base,
            s.current_ts is None,
            s.next_index == 0,
            !s.done,
    {
        SampledFrames { plan, time_base, current_ts: None, next_index: 0, done: false }
    }

    /// Decide how to approach the next sample. A finished run stays finished. An every-n-th
    /// plan seeks to its range start once, and only when that lies beyond the threshold. A
    /// seek-based plan with no target left finishes; otherwise it seeks when the target lies
    /// beyond the threshold from the start (nothing decoded yet) or from the last decoded
    /// frame, and decodes forward when it is close.
    pub fn begin(&mut self) -> (step: SampleStep)
        requires
            old(self).wf(),
        ensures
            final(self).wf(),
            final(self).time_base == old(self).time_base,
            final(self).next_index == old(self).next_index,
            old(self).done ==> step == SampleStep::Finished && final(self).done,
            !old(self).done ==> match old(self).plan {
                Plan::EveryN { n, start_ts, end_ts, frame_no, sought } => {
                    &&& final(self).plan == (Plan::EveryN { n, start_ts, end_ts, frame_no, sought: true })
                    &&& !final(self).done
                    &&& if !sought && beyond_threshold(start_ts as int, old(self).time_base) {
                        step == SampleStep::Seek(start_ts) && final(self).current_ts is None
                    } else {
                        step == SampleStep::Decode && final(self).current_ts == old(self).current_ts
                    }
                },
                _ => match old(self).plan.spec_peek() {
                    None => step == SampleStep::Finished && final(self).done,
                    Some(t) => {
                        &&& final(self).plan == old(self).plan
                        &&& !final(self).done
                        &&& if (match old(self).current_ts {
                            None => beyond_threshold(t as int, old(self).time_base),
                            Some(cur) => beyond_threshold(t - cur, old(self).time_base),
                        }) {
                            step == SampleStep::Seek(t) && final(self).current_ts is None
                        } else {
                            step == SampleStep::Decode && final(self).current_ts == old(self).current_ts
                        }
                    },
                },
            },
    {
        if self.done {
            return SampleStep::Finished;
        }
        let tb = self.time_base;
        let every_n = match &self.plan {
            Plan::EveryN { n, start_ts, end_ts, frame_no, sought } => Some(
                (*n, *start_ts, *end_ts, *frame_no, *sought),
            ),
            _ => None,
        };
        match every_n {
            Some((n, start_ts, end_ts, frame_no, sought)) => {
                self.plan = Plan::EveryN { n, start_ts, end_ts, frame_no, sought: true };
                if !sought && tb.ts_after_secs(start_ts, SEEK_THRESHOLD_SECS) {
                    self.current_ts = None;
                    SampleStep::Seek(start_ts)
                } else {
                    SampleStep::Decode
                }
            },
            None => match self.plan.peek_target() {
                None => {
                    self.done = true;
                    SampleStep::Finished
                },
                Some(target) => {
                    let need_seek = match self.current_ts {
                        None => tb.ts_after_secs(target, SEEK_THRESHOLD_SECS),
                        Some(cur) => gap_after_secs(tb, target, cur, SEEK_THRESHOLD_SECS),
                    };
                    if need_seek {
                        self.current_ts = None;
                        SampleStep::Seek(target)
                    } else {
                        SampleStep::Decode
                    }
                },
            },
        }
    }
}

impl SampledFrames {
    /// Emit the frame at `ts` as the next sample: it takes the running index, which then moves
    /// on (a run that has used every `u32` index ends after this sample).
    fn emit(&mut self, ts: i64) -> (v: FrameVerdict)
        requires
            old(self).wf(),
        ensures
            final(self).plan == old(self).plan,
            final(self).time_base == old(self).time_base,
            final(self).current_ts == old(self).current_ts,
            v == (FrameVerdict::Emit {
                index: old(self).next_index,
                timestamp: v->timestamp,
            }),
            v->timestamp@ == spec_duration_from_ts(ts as int, old(self).time_base),
            old(self).next_index < u32::MAX ==> final(self).next_index == old(self).next_index + 1
                && final(self).done == old(self).done,
            old(self).next_index == u32::MAX ==> final(self).done,
    {
        let index = self.next_index;
        if self.next_index < u32::MAX {
            self.next_index = self.next_index + 1;
        } else {
            self.done = true;
        }
        FrameVerdict::Emit { index, timestamp: self.time_base.duration_from_ts(ts) }
    }

    /// Judge the decoded frame at `ts`. For a seek-based plan the frame becomes the decode
    /// position; it is emitted (and the target consumed) when it lies at or after the current
    /// target, and skipped otherwise. For an every-n-th plan, frames before the range are
    /// skipped, a frame at or after its end stops the run, and of the frames inside it every
    /// `n`-th (counting from the first) is emitted.
    pub fn on_frame(&mut self, ts: i64) -> (v: FrameVerdict)
        requires
            old(self).wf(),
            !old(self).done,
        ensures
            final(self).wf(),
            final(self).time_base == old(self).time_base,
            v is Emit ==> v->index == old(self).next_index
                && v->timestamp@ == spec_duration_from_ts(ts as int, old(self).time_base)
                && (old(self).next_index < u32::MAX ==> final(self).next_index == old(self).next_index + 1),
            !(v is Emit) ==> final(self).next_index == old(self).next_index,
            old(self).plan matches Plan::EveryN { n, start_ts, end_ts, frame_no, .. } ==> fate_of(v)
                == every_n_fate(n, start_ts, end_ts, frame_no as nat, ts),
            match old(self).plan {
                Plan::EveryN { n, start_ts, end_ts, frame_no, sought } => if ts < start_ts {
                    v == FrameVerdict::Skip && final(self).plan == old(self).plan
                } else if ts >= end_ts {
                    v == FrameVerdict::Stop && final(self).done
                } else {
                    &&& final(self).plan == (Plan::EveryN {
                        n,
                        start_ts,
                        end_ts,
                        frame_no: if frame_no < u64::MAX { (frame_no + 1) as u64 } else { frame_no },
                        sought,
                    })
                    &&& (v is Emit <==> frame_no % n == 0)
                    &&& !(v is Emit) ==> v == FrameVerdict::Skip
                },
                _ => match old(self).plan.spec_peek() {
                    None => v == FrameVerdict::Stop && final(self).done,
                    Some(t) => {
                        &&& final(self).current_ts == Some(ts)
                        &&& if ts >= t {
                            &&& v is Emit
                            &&& old(self).plan.spec_peek() is Some
                            &&& match (old(self).plan, final(self).plan) {
                                (Plan::Step { step_ts, next, end_ts }, Plan::Step { step_ts: s2, next: n2, end_ts: e2 }) =>
                                    s2 == step_ts && e2 == end_ts && n2 == (if next + step_ts > i64_max() {
                                        i64_max()
                                    } else {
                                        next + step_ts
                                    }),
                                (Plan::Targets { targets, cursor }, Plan::Targets { targets: t2, cursor: c2 }) =>
                                    t2@ == targets@ && c2 == cursor + 1,
                                _ => false,
                            }
                        } else {
                            v == FrameVerdict::Skip && final(self).plan == old(self).plan
                        }
                    },
                },
            },
    {
        let every_n = match &self.plan {
            Plan::EveryN { n, start_ts, end_ts, frame_no, sought } => Some(
                (*n, *start_ts, *end_ts, *frame_no, *sought),
            ),
            _ => None,
        };
        match every_n {
            Some((n, start_ts, end_ts, frame_no, sought)) => {
                if ts < start_ts {
                    return FrameVerdict::Skip;
                }
                if ts >= end_ts {
                    self.done = true;
                    return FrameVerdict::Stop;
                }
                let emit = frame_no % n == 0;
                let next_no = if frame_no < u64::MAX {
                    frame_no + 1
                } else {
                    frame_no
                };
                self.plan = Plan::EveryN { n, start_ts, end_ts, frame_no: next_no, sought };
                if emit {
                    self.emit(ts)
                } else {
                    FrameVerdict::Skip
                }
            },
            None => match self.plan.peek_target() {
                None => {
                    self.done = true;
                    FrameVerdict::Stop
                },
                Some(target) => {
                    self.current_ts = Some(ts);
                    if ts >= target {
                        self.plan.advance_target();
                        self.emit(ts)
                    } else {
                        FrameVerdict::Skip
                    }
                },
            },
        }
    }

    /// The stream ran out of frames (or the run failed): sampling is over.
    pub fn finish(&mut self)
        ensures
            final(self).done,
            final(self).plan == old(self).plan,
            final(self).time_base == old(self).time_base,
            final(self).next_index == old(self).next_index,
            final(self).current_ts == old(self).current_ts,
    {
        self.done = true;
    }
}

/// `true` when `target - cur` ticks of `tb` exceed `secs` seconds (computed exactly).
fn gap_after_secs(tb: Rational, target: i64, cur: i64, secs: u64) -> (after: bool)
    requires
        tb.den > 0,
    ensures
        after == ((target - cur) * tb.num > secs * tb.den),
{
    let gap: i128 = target as i128 - cur as i128;
    assert(-0x1_0000_0000_0000_0000 * 0x8000_0000 <= gap * tb.num <= 0x1_0000_0000_0000_0000 * 0x8000_0000) by (nonlinear_arith)
        requires
            -0x1_0000_0000_0000_0000 <= gap <= 0x1_0000_0000_0000_0000,
            -0x8000_0000 <= tb.num <= 0x7fff_ffff,
    ;
    assert(0 <= secs * tb.den <= 0xffff_ffff_ffff_ffff * 0x7fff_ffff) by (nonlinear_arith)
        requires
            0 <= secs <= 0xffff_ffff_ffff_ffff,
            0 < tb.den <= 0x7fff_ffff,
    ;
    gap * (tb.num as i128) > (secs as i128) * (tb.den as i128)
}

/// The progress bounds of an extraction: where the sampled span starts and how long it is
/// (the range's length, never negative, else the stream's duration).
pub fn progress_bounds(range: Option<(Duration, Duration)>, duration: Duration) -> (b: (Duration, Duration))
    ensures
        match range {
            Some((s, e)) => b.0@ == s@ && b.1@ == (if e@ > s@ { (e@ - s@) as nat } else { 0 }),
            None => b.0@ == 0 && b.1@ == duration@,
        },
{
    match range {
        Some((s, e)) => {
            let sn = s.as_nanos();
            let en = e.as_nanos();
            let span = if en > sn { Duration::from_total_nanos(en - sn) } else { Duration::zero() };
            (s, span)
        },
        None => (Duration::zero(), duration),
    }
}

} // verus!
