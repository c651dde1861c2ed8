//! The state of one battery slot: capacity, direction of flow, and the
//! colour tier that follows from both.

use crate::color::PrintColor;
use crate::decimal::{decimal_text, parse_u32, parse_unsigned, push_decimal};
use crate::segment::{block_of, Segment, SegmentView};
use crate::text::{chars_of, starts_with, text_of};
use vstd::prelude::*;
use vstd::string::*;

verus! {

/// What the status text of a battery says of the flow of charge.
#[derive(Clone, Copy, Debug, PartialEq, Eq, Structural)]
pub enum BatteryFlow {
    /// The status begins with `Dis`.
    Discharging,
    /// The status begins with `Cha`.
    Charging,
    /// The status begins with `Unk`, or could not be read.
    Unknown,
    /// Any other status.
    Other,
}

impl BatteryFlow {
    /// Every flow but charging counts as discharging.
    pub open spec fn is_discharging(self) -> bool {
        self != BatteryFlow::Charging
    }

    /// The glyph between prefix and capacity: an arrow for a known
    /// direction, a space for an unknown one, a question mark otherwise.
    pub open spec fn glyph(self) -> Seq<char> {
        match self {
            BatteryFlow::Discharging => "↓"@,
            BatteryFlow::Charging => "↑"@,
            BatteryFlow::Unknown => " "@,
            BatteryFlow::Other => "?"@,
        }
    }

    /// The glyph between prefix and capacity.
    pub fn symbol(self) -> (s: &'static str)
        ensures
            s@ == self.glyph(),
    {
        match self {
            BatteryFlow::Discharging => "↓",
            BatteryFlow::Charging => "↑",
            BatteryFlow::Unknown => " ",
            BatteryFlow::Other => "?",
        }
    }
}

/// The flow that a status text stands for, by its first three characters.
pub open spec fn flow_of(status: Option<Seq<char>>) -> BatteryFlow {
    match status {
        None => BatteryFlow::Unknown,
        Some(s) => if "Dis"@.is_prefix_of(s) {
            BatteryFlow::Discharging
        } else if "Unk"@.is_prefix_of(s) {
            BatteryFlow::Unknown
        } else if "Cha"@.is_prefix_of(s) {
            BatteryFlow::Charging
        } else {
            BatteryFlow::Other
        },
    }
}

/// The capacity that a capacity text holds: an unsigned 32-bit number.
pub open spec fn capacity_of(capacity: Option<Seq<char>>) -> Option<nat> {
    match capacity {
        Some(s) => parse_unsigned(s, u32::MAX as nat),
        None => None,
    }
}

/// The colour of a battery: green while charging; else by capacity, white
/// above 50, orange above 30, yellow above 20, red below that or with no
/// capacity known.
pub open spec fn battery_color_of(flow: BatteryFlow, capacity: Option<nat>) -> PrintColor {
    if !flow.is_discharging() {
        PrintColor::Green
    } else {
        match capacity {
            Some(c) => if c > 50 {
                PrintColor::White
            } else if c > 30 {
                PrintColor::Orange
            } else if c > 20 {
                PrintColor::Yellow
            } else {
                PrintColor::Red
            },
            None => PrintColor::Red,
        }
    }
}

/// The battery segment: prefix, glyph and capacity in the battery's colour;
/// with no capacity, the prefix and ` NA` in dim red, whatever the flow.
pub open spec fn battery_segment_of(
    capacity: Option<nat>,
    flow: BatteryFlow,
    prefix: Seq<char>,
) -> SegmentView {
    match capacity {
        None => SegmentView { text: prefix + " NA"@, color: PrintColor::Red2 },
        Some(c) => SegmentView {
            text: prefix + flow.glyph() + decimal_text(c),
            color: battery_color_of(flow, capacity),
        },
    }
}

/// The battery segment of what the capacity and status sources hold.
pub open spec fn bat_of(
    capacity: Option<Seq<char>>,
    status: Option<Seq<char>>,
    prefix: Seq<char>,
) -> SegmentView {
    battery_segment_of(capacity_of(capacity), flow_of(status), prefix)
}

/// Classifies the status text of a battery; `None` stands for a status that
/// could not be read.
pub fn classify_status(status: Option<&str>) -> (flow: BatteryFlow)
    ensures
        flow == flow_of(text_of(status)),
{
    match status {
        None => BatteryFlow::Unknown,
        Some(s) => {
            let chars = chars_of(s);
            if starts_with(&chars, &chars_of("Dis")) {
                BatteryFlow::Discharging
            } else if starts_with(&chars, &chars_of("Unk")) {
                BatteryFlow::Unknown
            } else if starts_with(&chars, &chars_of("Cha")) {
                BatteryFlow::Charging
            } else {
                BatteryFlow::Other
            }
        },
    }
}

/// Reads the capacity text of a battery; `None` stands for a capacity that
/// could not be read.
pub fn parse_capacity(capacity: Option<&str>) -> (value: Option<u32>)
    ensures
        match value {
            Some(v) => capacity_of(text_of(capacity)) == Some(v as nat),
            None => capacity_of(text_of(capacity)) is None,
        },
{
    match capacity {
        Some(s) => parse_u32(s),
        None => None,
    }
}

/// The capacity as a number of the model.
pub open spec fn level_of(capacity: Option<u32>) -> Option<nat> {
    match capacity {
        Some(c) => Some(c as nat),
        None => None,
    }
}

/// The colour tier of a battery.
pub fn battery_color(flow: BatteryFlow, capacity: Option<u32>) -> (color: PrintColor)
    ensures
        color == battery_color_of(flow, level_of(capacity)),
{
    match flow {
        BatteryFlow::Charging => PrintColor::Green,
        _ => match capacity {
            Some(c) => {
                if c > 50 {
                    PrintColor::White
                } else if c > 30 {
                    PrintColor::Orange
                } else if c > 20 {
                    PrintColor::Yellow
                } else {
                    PrintColor::Red
                }
            },
            None => PrintColor::Red,
        },
    }
}

/// Builds the segment of one battery slot.
pub fn battery_segment(capacity: Option<u32>, flow: BatteryFlow, prefix: &str) -> (segment:
    Segment)
    ensures
        segment@ == battery_segment_of(level_of(capacity), flow, prefix@),
{
    let mut text = String::from_str(prefix);
    match capacity {
        None => {
            text.append(" NA");
            Segment { text, color: PrintColor::Red2 }
        },
        Some(c) => {
            text.append(flow.symbol());
            push_decimal(&mut text, c as u64);
            Segment { text, color: battery_color(flow, capacity) }
        },
    }
}

/// The segment of one battery slot, in wire form, of what its capacity and
/// status sources hold; `None` stands for a source that could not be read.
pub fn p_bat(capacity: Option<&str>, status: Option<&str>, prefix: &str) -> (p: String)
    ensures
        p@ == block_of(bat_of(text_of(capacity), text_of(status), prefix@)),
{
    let level = parse_capacity(capacity);
    let flow = classify_status(status);
    battery_segment(level, flow, prefix).render()
}

} // verus!
