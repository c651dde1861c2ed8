//! Processor utilisation between two readings of the aggregate counters.

use crate::color::PrintColor;
use crate::decimal::{decimal_text, parse_bounded, parse_unsigned, push_decimal};
use crate::scan::{after_token, after_word, next_token, pass_word, token_at};
use crate::segment::{block_of, Segment, SegmentView};
use crate::text::{chars_of, text_of};
use vstd::prelude::*;
use vstd::string::*;

verus! {

/// The aggregate processor counters, in jiffies since boot.
#[derive(Clone, Copy, Debug, PartialEq, Eq, Structural)]
pub struct CpuCounters {
    pub user: u64,
    pub user_low: u64,
    pub system: u64,
    pub idle: u64,
}

/// The counters of a line of the form `cpu <user> <user_low> <system>
/// <idle>`. Blanks before and inside the word `cpu` and around the numbers
/// are ignored; each number is one token, an unsigned 64-bit number; what
/// follows the fourth is not looked at.
pub open spec fn cpu_fields(line: Seq<char>) -> Option<CpuCounters> {
    match after_word(line, 0, "cpu"@) {
        None => None,
        Some(word_end) => {
            let first_end = after_token(line, word_end);
            let second_end = after_token(line, first_end);
            let third_end = after_token(line, second_end);
            match (
                parse_unsigned(token_at(line, word_end), u64::MAX as nat),
                parse_unsigned(token_at(line, first_end), u64::MAX as nat),
                parse_unsigned(token_at(line, second_end), u64::MAX as nat),
                parse_unsigned(token_at(line, third_end), u64::MAX as nat),
            ) {
                (Some(user), Some(user_low), Some(system), Some(idle)) => Some(
                    CpuCounters {
                        user: user as u64,
                        user_low: user_low as u64,
                        system: system as u64,
                        idle: idle as u64,
                    },
                ),
                _ => None,
            }
        },
    }
}

/// The reading that the counter source gives: its counters, or nothing
/// where it could not be read or holds no such line.
pub open spec fn reading_of(line: Option<Seq<char>>) -> Option<CpuCounters> {
    match line {
        Some(l) => cpu_fields(l),
        None => None,
    }
}

/// Whether some counter of `cur` lies below its predecessor in `prev`.
pub open spec fn regressed(prev: CpuCounters, cur: CpuCounters) -> bool {
    cur.user < prev.user || cur.user_low < prev.user_low || cur.system < prev.system || cur.idle
        < prev.idle
}

/// The jiffies spent at work between two readings.
pub open spec fn active_delta(prev: CpuCounters, cur: CpuCounters) -> int {
    (cur.user - prev.user) + (cur.user_low - prev.user_low) + (cur.system - prev.system)
}

/// All jiffies between two readings, at work or idle.
pub open spec fn total_delta(prev: CpuCounters, cur: CpuCounters) -> int {
    active_delta(prev, cur) + (cur.idle - prev.idle)
}

/// The integer nearest to `num / den`, a half rounded up; 0 where `den` is
/// 0.
pub open spec fn rounded_ratio(num: nat, den: nat) -> nat {
    if den == 0 {
        0
    } else {
        (2 * num + den) / (2 * den)
    }
}

/// The utilisation between two readings in percent, rounded to the nearest
/// integer.
pub open spec fn percent_of(prev: CpuCounters, cur: CpuCounters) -> nat {
    rounded_ratio((100 * active_delta(prev, cur)) as nat, total_delta(prev, cur) as nat)
}

/// The utilisation that a reading shows against its predecessor: none where
/// a counter regressed.
pub open spec fn usage_of(prev: CpuCounters, cur: CpuCounters) -> Option<nat> {
    if regressed(prev, cur) {
        None
    } else {
        Some(percent_of(prev, cur))
    }
}

/// One step of the tracker: the counters it holds afterwards and the
/// utilisation it reports. Without a reading it keeps what it holds and
/// reports nothing; with one it takes the reading over, regressed or not,
/// and reports the utilisation unless a counter regressed.
pub open spec fn advance(prev: CpuCounters, reading: Option<CpuCounters>) -> (
    CpuCounters,
    Option<nat>,
) {
    match reading {
        None => (prev, None),
        Some(cur) => (cur, usage_of(prev, cur)),
    }
}

/// The text of the utilisation segment.
pub open spec fn usage_text(percent: Option<nat>) -> Seq<char> {
    match percent {
        Some(p) => "CPU "@ + decimal_text(p),
        None => "CPU NA"@,
    }
}

/// The utilisation segment: always white.
pub open spec fn usage_segment_of(percent: Option<nat>) -> SegmentView {
    SegmentView { text: usage_text(percent), color: PrintColor::White }
}

/// The nearest integer to a ratio lies within a half of it, and a ratio of
/// at most one, taken in percent, gives at most 100.
pub proof fn lemma_rounded_ratio(num: nat, den: nat)
    requires
        den > 0,
    ensures
        2 * rounded_ratio(num, den) * den <= 2 * num + den,
        2 * num + den < 2 * (rounded_ratio(num, den) + 1) * den,
        num <= 100 * den ==> rounded_ratio(num, den) <= 100,
{
    let q = rounded_ratio(num, den);
    let a = (2 * num + den) as int;
    let b = (2 * den) as int;
    assert(q == a / b);
    assert(b * (a / b) <= a && a < b * (a / b) + b && (a <= 201 * den ==> a / b <= 100))
        by (nonlinear_arith)
        requires
            b == 2 * den,
            den > 0,
            a >= 0,
    ;
    assert(2 * q * den == b * q) by (nonlinear_arith)
        requires
            b == 2 * den,
    ;
    assert(2 * (q + 1) * den == b * q + b) by (nonlinear_arith)
        requires
            b == 2 * den,
    ;
}

/// For counters that did not regress, the reported percentage is the
/// integer nearest to `100 * active / total`, and lies between 0 and 100.
pub proof fn lemma_percent_is_rounded(prev: CpuCounters, cur: CpuCounters)
    requires
        !regressed(prev, cur),
    ensures
        0 <= percent_of(prev, cur) <= 100,
        total_delta(prev, cur) > 0 ==> {
            let p = percent_of(prev, cur);
            let active = active_delta(prev, cur);
            let total = total_delta(prev, cur);
            &&& 2 * p * total <= 200 * active + total
            &&& 200 * active + total < 2 * (p + 1) * total
        },
{
    let active = active_delta(prev, cur);
    let total = total_delta(prev, cur);
    if total > 0 {
        lemma_rounded_ratio((100 * active) as nat, total as nat);
    }
}

/// After a reading that regressed, the tracker holds that reading: it
/// reports nothing for it, and for the next reading that does not fall
/// below it, it reports the utilisation since the regressed one.
pub proof fn lemma_regression_resynchronises(
    prev: CpuCounters,
    cur: CpuCounters,
    next: CpuCounters,
)
    requires
        regressed(prev, cur),
        !regressed(cur, next),
    ensures
        advance(prev, Some(cur)) == (cur, None::<nat>),
        usage_text(advance(prev, Some(cur)).1) == "CPU NA"@,
        advance(advance(prev, Some(cur)).0, Some(next)) == (next, Some(percent_of(cur, next))),
{
}

impl CpuCounters {
    /// The counters before the first reading: all zero.
    pub fn new() -> (zero: CpuCounters)
        ensures
            zero == (CpuCounters { user: 0, user_low: 0, system: 0, idle: 0 }),
    {
        CpuCounters { user: 0, user_low: 0, system: 0, idle: 0 }
    }
}

/// Reads the counters of the aggregate line of the counter source.
pub fn parse_cpu_line(line: &str) -> (counters: Option<CpuCounters>)
    ensures
        counters == cpu_fields(line@),
{
    let chars = chars_of(line);
    let word = chars_of("cpu");
    match pass_word(&chars, 0, &word) {
        None => None,
        Some(word_end) => {
            let (first, first_end) = next_token(&chars, word_end);
            let (second, second_end) = next_token(&chars, first_end);
            let (third, third_end) = next_token(&chars, second_end);
            let (fourth, fourth_end) = next_token(&chars, third_end);
            let user = parse_bounded(&chars, first, first_end, u64::MAX);
            let user_low = parse_bounded(&chars, second, second_end, u64::MAX);
            let system = parse_bounded(&chars, third, third_end, u64::MAX);
            let idle = parse_bounded(&chars, fourth, fourth_end, u64::MAX);
            match (user, user_low, system, idle) {
                (Some(user), Some(user_low), Some(system), Some(idle)) => Some(
                    CpuCounters { user, user_low, system, idle },
                ),
                _ => None,
            }
        },
    }
}

/// The percentage as a number of the model.
pub open spec fn percent_view(percent: Option<u32>) -> Option<nat> {
    match percent {
        Some(p) => Some(p as nat),
        None => None,
    }
}

/// The utilisation between two readings: the share of the jiffies since
/// `prev` that were spent at work, in percent, rounded to the nearest
/// integer; nothing where a counter of `cur` lies below its predecessor.
pub fn cpu_usage(prev: CpuCounters, cur: CpuCounters) -> (percent: Option<u32>)
    ensures
        percent_view(percent) == usage_of(prev, cur),
        percent is None <==> regressed(prev, cur),
        percent matches Some(p) ==> p <= 100,
        percent matches Some(p) ==> total_delta(prev, cur) > 0 ==> {
            &&& 2 * p * total_delta(prev, cur) <= 200 * active_delta(prev, cur) + total_delta(
                prev,
                cur,
            )
            &&& 200 * active_delta(prev, cur) + total_delta(prev, cur) < 2 * (p + 1) * total_delta(
                prev,
                cur,
            )
        },
{
    if cur.user < prev.user || cur.user_low < prev.user_low || cur.system < prev.system
        || cur.idle < prev.idle {
        None
    } else {
        let active: u128 = (cur.user - prev.user) as u128 + (cur.user_low - prev.user_low) as u128
            + (cur.system - prev.system) as u128;
        let total: u128 = active + (cur.idle - prev.idle) as u128;
        proof {
            lemma_percent_is_rounded(prev, cur);
        }
        if total == 0 {
            Some(0)
        } else {
            Some(((200 * active + total) / (2 * total)) as u32)
        }
    }
}

/// Advances the tracker by one tick: `line` is what the counter source
/// holds, `None` where it could not be read. Returns the counters to keep
/// for the next tick and the utilisation to show.
pub fn cpu_step(prev: CpuCounters, line: Option<&str>) -> (next: (CpuCounters, Option<u32>))
    ensures
        (next.0, percent_view(next.1)) == advance(prev, reading_of(text_of(line))),
{
    let reading = match line {
        Some(l) => parse_cpu_line(l),
        None => None,
    };
    match reading {
        None => (prev, None),
        Some(cur) => (cur, cpu_usage(prev, cur)),
    }
}

/// Builds the utilisation segment.
pub fn cpu_usage_segment(percent: Option<u32>) -> (segment: Segment)
    ensures
        segment@ == usage_segment_of(percent_view(percent)),
{
    match percent {
        Some(p) => {
            let mut text = String::from_str("CPU ");
            push_decimal(&mut text, p as u64);
            Segment { text, color: PrintColor::White }
        },
        None => Segment { text: String::from_str("CPU NA"), color: PrintColor::White },
    }
}

/// One tick of the utilisation display: the counters to keep for the next
/// tick, and the segment in wire form. `line` is what the counter source
/// holds, `None` where it could not be read.
pub fn p_cpu_usage(last: CpuCounters, line: Option<&str>) -> (next: (CpuCounters, String))
    ensures
        next.0 == advance(last, reading_of(text_of(line))).0,
        next.1@ == block_of(usage_segment_of(advance(last, reading_of(text_of(line))).1)),
{
    let (counters, percent) = cpu_step(last, line);
    (counters, cpu_usage_segment(percent).render())
}

} // verus!
