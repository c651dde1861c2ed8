//! One tick of the status line: nine segments in a fixed order, whatever the
//! sources gave.

use crate::battery::{bat_of, battery_segment, classify_status, parse_capacity};
use crate::clock::{date_segment, date_segment_of, now, time_segment, time_segment_of, WallClock};
use crate::cpu::{advance, cpu_step, cpu_usage_segment, reading_of, usage_segment_of, CpuCounters};
use crate::color::PrintColor;
use crate::layout::{layout_name, layout_name_of, layout_segment, layout_segment_of, short_name};
use crate::memory::{mem_segment, mem_usage_of, parse_meminfo};
use crate::power::{ac_segment, ac_segment_of};
use crate::record::views_of;
use crate::segment::{Segment, SegmentView};
use crate::text::text_of;
use crate::thermal::{parse_temp, temp_of, temp_segment, temp_segment_of};
use vstd::prelude::*;
use vstd::string::*;

verus! {

/// The path of the thermal source.
pub const CPU_TEMP_PATH: &'static str = "/sys/class/thermal/thermal_zone0/temp";

/// The path of the online flag of the mains adapter.
pub const AC_ONLINE_PATH: &'static str = "/sys/class/power_supply/AC/online";

/// The path of the capacity of the internal battery.
pub const BAT_CAP_PATH: &'static str = "/sys/class/power_supply/BAT0/capacity";

/// The path of the status of the internal battery.
pub const BAT_STAT_PATH: &'static str = "/sys/class/power_supply/BAT0/status";

/// The path of the capacity of the external battery.
pub const BAT1_CAP_PATH: &'static str = "/sys/class/power_supply/BAT1/capacity";

/// The path of the status of the external battery.
pub const BAT1_STAT_PATH: &'static str = "/sys/class/power_supply/BAT1/status";

/// The path of the processor counters.
pub const CPU_STAT_PATH: &'static str = "/proc/stat";

/// The path of the memory-info source.
pub const MEMINFO_PATH: &'static str = "/proc/meminfo";

/// The time between two ticks, in milliseconds.
pub const TICK_MILLIS: u64 = 500;

/// The number of segments of every record.
pub const SEGMENTS: usize = 9;

/// What the sources gave in one tick. `None` stands for a source that could
/// not be read; of the line sources each text is the first line without its
/// line feed, of the memory-info source it is the text from its start on.
#[derive(Debug)]
pub struct Sources {
    pub cpu_temp: Option<String>,
    pub cpu_stat: Option<String>,
    pub meminfo: Option<String>,
    pub external_capacity: Option<String>,
    pub external_status: Option<String>,
    pub internal_capacity: Option<String>,
    pub internal_status: Option<String>,
    pub ac_online: Option<String>,
    /// The input devices of the window manager, each with its active layout
    /// name if it has one; `None` without a connection or an answer.
    pub inputs: Option<Vec<Option<String>>>,
}

/// The text of a source, if it was read.
pub open spec fn source_view(source: Option<String>) -> Option<Seq<char>> {
    match source {
        Some(s) => Some(s@),
        None => None,
    }
}

/// The answer of the window manager, if there was one.
pub open spec fn devices_view(inputs: Option<Vec<Option<String>>>) -> Option<Seq<Option<String>>> {
    match inputs {
        Some(devices) => Some(devices@),
        None => None,
    }
}

/// The counters that the tracker holds after a tick.
pub open spec fn counters_after(prev: CpuCounters, sources: Sources) -> CpuCounters {
    advance(prev, reading_of(source_view(sources.cpu_stat))).0
}

/// The record of a tick: processor temperature, processor utilisation,
/// memory, external battery, internal battery, mains adapter, keyboard
/// layout, date and time, in this order.
pub open spec fn record_of(prev: CpuCounters, sources: Sources, clock: WallClock) -> Seq<
    SegmentView,
> {
    seq![
        temp_segment_of(temp_of(source_view(sources.cpu_temp))),
        usage_segment_of(advance(prev, reading_of(source_view(sources.cpu_stat))).1),
        mem_usage_of(source_view(sources.meminfo)),
        bat_of(
            source_view(sources.external_capacity),
            source_view(sources.external_status),
            "E"@,
        ),
        bat_of(
            source_view(sources.internal_capacity),
            source_view(sources.internal_status),
            "I"@,
        ),
        ac_segment_of(source_view(sources.ac_online)),
        layout_segment_of(layout_name_of(devices_view(sources.inputs))),
        date_segment_of(clock),
        time_segment_of(clock),
    ]
}

impl Sources {
    /// A tick in which no source could be read.
    pub fn unavailable() -> (sources: Sources)
        ensures
            sources.cpu_temp is None,
            sources.cpu_stat is None,
            sources.meminfo is None,
            sources.external_capacity is None,
            sources.external_status is None,
            sources.internal_capacity is None,
            sources.internal_status is None,
            sources.ac_online is None,
            sources.inputs is None,
    {
        Sources {
            cpu_temp: None,
            cpu_stat: None,
            meminfo: None,
            external_capacity: None,
            external_status: None,
            internal_capacity: None,
            internal_status: None,
            ac_online: None,
            inputs: None,
        }
    }
}

/// The text of a source as the segment builders take it.
pub fn as_text(source: &Option<String>) -> (text: Option<&str>)
    ensures
        text_of(text) == source_view(*source),
{
    match source {
        Some(s) => Some(s.as_str()),
        None => None,
    }
}

/// Every record has nine segments, whatever the sources gave, with date
/// and time in the last two places as read from the clock.
pub proof fn lemma_record_has_nine_segments(prev: CpuCounters, sources: Sources, clock: WallClock)
    ensures
        record_of(prev, sources, clock).len() == SEGMENTS,
        record_of(prev, sources, clock)[7] == date_segment_of(clock),
        record_of(prev, sources, clock)[8] == time_segment_of(clock),
{
}

/// With no source readable, the first seven segments are the unavailable
/// ones, the last two are date and time, and the tracker keeps its counters.
pub proof fn lemma_record_without_sources(prev: CpuCounters, sources: Sources, clock: WallClock)
    requires
        sources.cpu_temp is None,
        sources.cpu_stat is None,
        sources.meminfo is None,
        sources.external_capacity is None,
        sources.internal_capacity is None,
        sources.ac_online is None,
        sources.inputs is None,
    ensures
        record_of(prev, sources, clock) == seq![
            SegmentView { text: "CPU NA°C"@, color: PrintColor::Red2 },
            SegmentView { text: "CPU NA"@, color: PrintColor::White },
            SegmentView { text: "RAM NA"@, color: PrintColor::White },
            SegmentView { text: "E NA"@, color: PrintColor::Red2 },
            SegmentView { text: "I NA"@, color: PrintColor::Red2 },
            SegmentView { text: "AC NA"@, color: PrintColor::Red2 },
            SegmentView { text: "NaN"@, color: PrintColor::Red },
            date_segment_of(clock),
            time_segment_of(clock),
        ],
        counters_after(prev, sources) == prev,
{
    reveal_strlit("E");
    reveal_strlit("I");
    reveal_strlit(" NA");
    reveal_strlit("E NA");
    reveal_strlit("I NA");
    reveal_strlit("NaN");
    reveal_strlit("Russian");
    assert("E"@ + " NA"@ =~= "E NA"@);
    assert("I"@ + " NA"@ =~= "I NA"@);
    assert(short_name("NaN"@) =~= "NaN"@);
    assert("NaN"@ != "Russian"@) by {
        assert("NaN"@.len() != "Russian"@.len());
    }
    let record = record_of(prev, sources, clock);
    assert(record[3].text == "E NA"@);
    assert(record[4].text == "I NA"@);
    assert(record[6] == (SegmentView { text: "NaN"@, color: PrintColor::Red }));
}

/// One tick for a given reading of the clock: the counters to keep for the
/// next tick, and the nine segments of the record.
pub fn tick_at(prev: CpuCounters, sources: &Sources, clock: &WallClock) -> (next: (
    CpuCounters,
    Vec<Segment>,
))
    requires
        clock.wf(),
    ensures
        next.0 == counters_after(prev, *sources),
        views_of(next.1@) == record_of(prev, *sources, *clock),
        next.1@.len() == SEGMENTS,
{
    let mut record: Vec<Segment> = Vec::new();
    record.push(temp_segment(parse_temp(as_text(&sources.cpu_temp))));
    let (counters, percent) = cpu_step(prev, as_text(&sources.cpu_stat));
    record.push(cpu_usage_segment(percent));
    let info = match as_text(&sources.meminfo) {
        Some(content) => parse_meminfo(content),
        None => None,
    };
    record.push(mem_segment(info));
    record.push(
        battery_segment(
            parse_capacity(as_text(&sources.external_capacity)),
            classify_status(as_text(&sources.external_status)),
            "E",
        ),
    );
    record.push(
        battery_segment(
            parse_capacity(as_text(&sources.internal_capacity)),
            classify_status(as_text(&sources.internal_status)),
            "I",
        ),
    );
    record.push(ac_segment(as_text(&sources.ac_online)));
    let name = layout_name(sources.inputs.as_ref());
    record.push(layout_segment(name.as_str()));
    record.push(date_segment(clock));
    record.push(time_segment(clock));
    assert(views_of(record@) =~= record_of(prev, *sources, *clock));
    (counters, record)
}

/// One tick at the current local time: the counters to keep for the next
/// tick, and the nine segments of the record.
pub fn tick(prev: CpuCounters, sources: &Sources) -> (next: (CpuCounters, Vec<Segment>))
    ensures
        next.0 == counters_after(prev, *sources),
        next.1@.len() == SEGMENTS,
        exists|clock: WallClock|
            clock.wf() && views_of(next.1@) == #[trigger] record_of(prev, *sources, clock),
{
    let clock = now();
    tick_at(prev, sources, &clock)
}

} // verus!
