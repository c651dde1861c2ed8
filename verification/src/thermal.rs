//! The processor temperature and its severity tiers.

use crate::color::PrintColor;
use crate::decimal::{decimal_text, parse_u32, parse_unsigned, push_decimal};
use crate::segment::{block_of, Segment, SegmentView};
use crate::text::text_of;
use vstd::prelude::*;
use vstd::string::*;

verus! {

/// The temperature in whole degrees Celsius that the thermal source gives:
/// its text is an unsigned 32-bit number of millidegrees. Nothing where the
/// source could not be read or holds no such number.
pub open spec fn temp_of(line: Option<Seq<char>>) -> Option<nat> {
    match line {
        Some(l) => match parse_unsigned(l, u32::MAX as nat) {
            Some(millis) => Some(millis / 1000),
            None => None,
        },
        None => None,
    }
}

/// The severity of a temperature: the first threshold that it exceeds, from
/// the highest down.
pub open spec fn temp_color_of(degrees: nat) -> PrintColor {
    if degrees > 90 {
        PrintColor::Red3
    } else if degrees > 80 {
        PrintColor::Red
    } else if degrees > 70 {
        PrintColor::Orange
    } else if degrees > 65 {
        PrintColor::Yellow
    } else {
        PrintColor::Green
    }
}

/// The temperature segment: the degrees in the colour of their severity, or
/// the unavailable text in dim red.
pub open spec fn temp_segment_of(degrees: Option<nat>) -> SegmentView {
    match degrees {
        Some(d) => SegmentView {
            text: "CPU "@ + decimal_text(d) + "°C"@,
            color: temp_color_of(d),
        },
        None => SegmentView { text: "CPU NA°C"@, color: PrintColor::Red2 },
    }
}

/// The temperature as a number of the model.
pub open spec fn degrees_view(degrees: Option<u32>) -> Option<nat> {
    match degrees {
        Some(d) => Some(d as nat),
        None => None,
    }
}

/// Reads the temperature in whole degrees from the text of the thermal
/// source; `None` stands for a source that could not be read.
pub fn parse_temp(line: Option<&str>) -> (degrees: Option<u32>)
    ensures
        degrees_view(degrees) == temp_of(text_of(line)),
{
    match line {
        Some(l) => match parse_u32(l) {
            Some(millis) => Some(millis / 1000),
            None => None,
        },
        None => None,
    }
}

/// The colour tier of a temperature.
pub fn temp_color(degrees: u32) -> (color: PrintColor)
    ensures
        color == temp_color_of(degrees as nat),
{
    if degrees > 90 {
        PrintColor::Red3
    } else if degrees > 80 {
        PrintColor::Red
    } else if degrees > 70 {
        PrintColor::Orange
    } else if degrees > 65 {
        PrintColor::Yellow
    } else {
        PrintColor::Green
    }
}

/// Builds the temperature segment.
pub fn temp_segment(degrees: Option<u32>) -> (segment: Segment)
    ensures
        segment@ == temp_segment_of(degrees_view(degrees)),
{
    match degrees {
        Some(d) => {
            let mut text = String::from_str("CPU ");
            push_decimal(&mut text, d as u64);
            text.append("°C");
            Segment { text, color: temp_color(d) }
        },
        None => Segment { text: String::from_str("CPU NA°C"), color: PrintColor::Red2 },
    }
}

/// The temperature segment, in wire form, of what the thermal source holds;
/// `None` stands for a source that could not be read.
pub fn p_cpu_temp(line: Option<&str>) -> (p: String)
    ensures
        p@ == block_of(temp_segment_of(temp_of(text_of(line)))),
{
    temp_segment(parse_temp(line)).render()
}

} // verus!
