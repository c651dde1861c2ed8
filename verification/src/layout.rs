//! The active keyboard layout, as reported by the window manager.

use crate::color::PrintColor;
use crate::segment::{block_of, Segment, SegmentView};
use crate::text::{chars_of, same_chars};
use vstd::prelude::*;
use vstd::string::*;

verus! {

/// The layout name of the first input device that reports one.
pub open spec fn first_layout(inputs: Seq<Option<String>>) -> Option<Seq<char>>
    decreases inputs.len(),
{
    if inputs.len() == 0 {
        None
    } else {
        match inputs[0] {
            Some(name) => Some(name@),
            None => first_layout(inputs.drop_first()),
        }
    }
}

/// The layout name to show: that of the first input device that reports
/// one, or `NaN` where the query gave nothing or no device reports any.
pub open spec fn layout_name_of(inputs: Option<Seq<Option<String>>>) -> Seq<char> {
    match inputs {
        Some(devices) => match first_layout(devices) {
            Some(name) => name,
            None => "NaN"@,
        },
        None => "NaN"@,
    }
}

/// The first three characters of a name, or all of a shorter one.
pub open spec fn short_name(name: Seq<char>) -> Seq<char> {
    if name.len() >= 3 {
        name.subrange(0, 3)
    } else {
        name
    }
}

/// The layout segment: the short name, in blue for the layout `Russian`, in
/// red for any other.
pub open spec fn layout_segment_of(name: Seq<char>) -> SegmentView {
    SegmentView {
        text: short_name(name),
        color: if name == "Russian"@ {
            PrintColor::Blue
        } else {
            PrintColor::Red
        },
    }
}

/// What was handed over as the answer of the window manager.
pub open spec fn inputs_view(inputs: Option<&Vec<Option<String>>>) -> Option<Seq<Option<String>>> {
    match inputs {
        Some(devices) => Some(devices@),
        None => None,
    }
}

/// Resolves the layout name from the answer of the window manager: the list
/// of its input devices, each with its active layout name if it has one.
/// `None` stands for a missing connection or a failed query.
pub fn layout_name(inputs: Option<&Vec<Option<String>>>) -> (name: String)
    ensures
        name@ == layout_name_of(inputs_view(inputs)),
{
    match inputs {
        Some(devices) => {
            let mut i: usize = 0;
            assert(devices@.subrange(0, devices@.len() as int) =~= devices@);
            while i < devices.len()
                invariant
                    i <= devices.len(),
                    inputs == Some(devices),
                    first_layout(devices@) == first_layout(
                        devices@.subrange(i as int, devices@.len() as int),
                    ),
                decreases devices.len() - i,
            {
                let ghost rest = devices@.subrange(i as int, devices@.len() as int);
                assert(rest.drop_first() =~= devices@.subrange(i + 1, devices@.len() as int));
                assert(rest[0] == devices@[i as int]);
                match &devices[i] {
                    Some(name) => {
                        return name.clone();
                    },
                    None => {},
                }
                i = i + 1;
            }
            String::from_str("NaN")
        },
        None => String::from_str("NaN"),
    }
}

/// Builds the layout segment for a layout name.
pub fn layout_segment(name: &str) -> (segment: Segment)
    ensures
        segment@ == layout_segment_of(name@),
{
    let len = name.unicode_len();
    let shown: usize = if len >= 3 {
        3
    } else {
        len
    };
    let text = String::from_str(name.substring_char(0, shown));
    assert(text@ =~= short_name(name@));
    let color = if same_chars(&chars_of(name), &chars_of("Russian")) {
        PrintColor::Blue
    } else {
        PrintColor::Red
    };
    Segment { text, color }
}

/// The layout segment, in wire form, for the answer of the window manager;
/// `None` stands for a missing connection or a failed query.
pub fn p_lang(inputs: Option<&Vec<Option<String>>>) -> (p: String)
    ensures
        p@ == block_of(layout_segment_of(layout_name_of(inputs_view(inputs)))),
{
    let name = layout_name(inputs);
    layout_segment(name.as_str()).render()
}

} // verus!
