//! Memory and swap usage, read from fixed line positions of the memory-info
//! source.

use crate::color::PrintColor;
use crate::decimal::{decimal_text, int_text, parse_bounded, parse_unsigned, push_decimal, push_int};
use crate::scan::{after_token, after_word, agrees, next_token, pass_word, tail_agrees, token_at};
use crate::segment::{block_of, Segment, SegmentView};
use crate::text::{chars_of, line_chars, nth_line, text_of};
use vstd::prelude::*;
use vstd::string::*;

verus! {

/// The three counters of the memory-info source that the status line shows,
/// in kilobytes.
#[derive(Clone, Copy, Debug, PartialEq, Eq, Structural)]
pub struct MemInfo {
    pub total: u32,
    pub available: u32,
    pub swap_cached: u32,
}

/// The number of a line of the form `<key> <number> kB`. Blanks before and
/// inside the key and around the number are ignored; the number is one
/// token, an unsigned 32-bit number; what follows it must not contradict the
/// unit `kB`, but may stop short of it or go on after it.
pub open spec fn field_value(line: Seq<char>, key: Seq<char>) -> Option<nat> {
    match after_word(line, 0, key) {
        None => None,
        Some(p) => match parse_unsigned(token_at(line, p), u32::MAX as nat) {
            None => None,
            Some(v) => if tail_agrees(line, after_token(line, p), "kB"@) {
                Some(v)
            } else {
                None
            },
        },
    }
}

/// The counters that a memory-info text holds: the total on its first line,
/// the available memory on its third, the cached swap on its sixth. `None`
/// where one of the three lines does not hold its counter.
pub open spec fn meminfo_of(content: Seq<char>) -> Option<MemInfo> {
    match (
        field_value(nth_line(content, 0), "MemTotal:"@),
        field_value(nth_line(content, 2), "MemAvailable:"@),
        field_value(nth_line(content, 5), "SwapCached:"@),
    ) {
        (Some(total), Some(available), Some(swap_cached)) => Some(
            MemInfo {
                total: total as u32,
                available: available as u32,
                swap_cached: swap_cached as u32,
            },
        ),
        _ => None,
    }
}

/// The share of memory in use, in percent: 100 less the available share,
/// which is rounded down.
pub open spec fn used_percent(total: nat, available: nat) -> int
    recommends
        total > 0,
{
    100 - ((available * 100) / total) as int
}

/// The memory segment. With no counters, or a total of zero, the reading is
/// unavailable. Without cached swap it shows the used share alone, in white;
/// with cached swap also the swap in whole megabytes, in red.
pub open spec fn mem_segment_of(info: Option<MemInfo>) -> SegmentView {
    match info {
        Some(m) => if m.total == 0 {
            SegmentView { text: "RAM NA"@, color: PrintColor::White }
        } else if m.swap_cached == 0 {
            SegmentView {
                text: "RAM "@ + int_text(used_percent(m.total as nat, m.available as nat)),
                color: PrintColor::White,
            }
        } else {
            SegmentView {
                text: "RAM "@ + int_text(used_percent(m.total as nat, m.available as nat))
                    + "% SWAP "@ + decimal_text((m.swap_cached / 1024) as nat) + "Mb"@,
                color: PrintColor::Red,
            }
        },
        None => SegmentView { text: "RAM NA"@, color: PrintColor::White },
    }
}

/// The memory segment of what the memory-info source holds.
pub open spec fn mem_usage_of(content: Option<Seq<char>>) -> SegmentView {
    mem_segment_of(
        match content {
            Some(c) => meminfo_of(c),
            None => None,
        },
    )
}

/// Reads the number of a line of the form `<key> <number> kB`.
pub fn parse_field(line: &Vec<char>, key: &str) -> (value: Option<u32>)
    ensures
        match value {
            Some(v) => field_value(line@, key@) == Some(v as nat),
            None => field_value(line@, key@) is None,
        },
{
    let key_chars = chars_of(key);
    match pass_word(line, 0, &key_chars) {
        None => None,
        Some(p) => {
            let (start, end) = next_token(line, p);
            match parse_bounded(line, start, end, u32::MAX as u64) {
                None => None,
                Some(v) => {
                    let unit = chars_of("kB");
                    if agrees(line, end, &unit) {
                        Some(v as u32)
                    } else {
                        None
                    }
                },
            }
        },
    }
}

/// Reads the three counters from the text of the memory-info source.
pub fn parse_meminfo(content: &str) -> (info: Option<MemInfo>)
    ensures
        info == meminfo_of(content@),
{
    let chars = chars_of(content);
    let total = parse_field(&line_chars(&chars, 0), "MemTotal:");
    let available = parse_field(&line_chars(&chars, 2), "MemAvailable:");
    let swap_cached = parse_field(&line_chars(&chars, 5), "SwapCached:");
    match (total, available, swap_cached) {
        (Some(total), Some(available), Some(swap_cached)) => Some(
            MemInfo { total, available, swap_cached },
        ),
        _ => None,
    }
}

/// The share of memory in use, in percent.
pub fn mem_used_percent(total: u32, available: u32) -> (percent: i64)
    requires
        total > 0,
    ensures
        percent == used_percent(total as nat, available as nat),
        percent <= 100,
        available <= total ==> 0 <= percent,
{
    let scaled: u64 = available as u64 * 100;
    let share: u64 = scaled / total as u64;
    assert(share <= scaled && (available <= total ==> share <= 100)) by (nonlinear_arith)
        requires
            share == scaled / total as u64,
            scaled == available * 100,
            total > 0,
    ;
    100 - share as i64
}

/// Builds the memory segment from the counters, if there are any.
pub fn mem_segment(info: Option<MemInfo>) -> (segment: Segment)
    ensures
        segment@ == mem_segment_of(info),
{
    match info {
        Some(m) => {
            if m.total == 0 {
                Segment { text: String::from_str("RAM NA"), color: PrintColor::White }
            } else {
                let mut text = String::from_str("RAM ");
                push_int(&mut text, mem_used_percent(m.total, m.available));
                if m.swap_cached == 0 {
                    Segment { text, color: PrintColor::White }
                } else {
                    text.append("% SWAP ");
                    push_decimal(&mut text, (m.swap_cached / 1024) as u64);
                    text.append("Mb");
                    Segment { text, color: PrintColor::Red }
                }
            }
        },
        None => Segment { text: String::from_str("RAM NA"), color: PrintColor::White },
    }
}

/// The memory segment, in wire form, of what the memory-info source holds;
/// `None` stands for a source that could not be read.
pub fn p_mem_usage(content: Option<&str>) -> (p: String)
    ensures
        p@ == block_of(mem_usage_of(text_of(content))),
{
    let info = match content {
        Some(c) => parse_meminfo(c),
        None => None,
    };
    mem_segment(info).render()
}

} // verus!
