//! The state of the mains adapter.

use crate::color::PrintColor;
use crate::segment::{block_of, Segment, SegmentView};
use crate::text::{chars_of, same_chars, text_of};
use vstd::prelude::*;
use vstd::string::*;

verus! {

/// The adapter segment: a lightning glyph in green where the flag reads
/// `1`, a blank in dim red for any other flag, the unavailable text in dim
/// red where the flag could not be read.
pub open spec fn ac_segment_of(flag: Option<Seq<char>>) -> SegmentView {
    match flag {
        Some(f) => if f == "1"@ {
            SegmentView { text: "⚡"@, color: PrintColor::Green }
        } else {
            SegmentView { text: " "@, color: PrintColor::Red2 }
        },
        None => SegmentView { text: "AC NA"@, color: PrintColor::Red2 },
    }
}

/// Builds the adapter segment from the online flag; `None` stands for a flag
/// that could not be read.
pub fn ac_segment(flag: Option<&str>) -> (segment: Segment)
    ensures
        segment@ == ac_segment_of(text_of(flag)),
{
    match flag {
        Some(f) => {
            if same_chars(&chars_of(f), &chars_of("1")) {
                Segment { text: String::from_str("⚡"), color: PrintColor::Green }
            } else {
                Segment { text: String::from_str(" "), color: PrintColor::Red2 }
            }
        },
        None => Segment { text: String::from_str("AC NA"), color: PrintColor::Red2 },
    }
}

/// The adapter segment, in wire form, of what the online flag holds; `None`
/// stands for a flag that could not be read.
pub fn p_ac_online(flag: Option<&str>) -> (p: String)
    ensures
        p@ == block_of(ac_segment_of(text_of(flag))),
{
    ac_segment(flag).render()
}

} // verus!
