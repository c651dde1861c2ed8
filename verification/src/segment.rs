//! Segments, the unit of the output record, and their wire form.

use crate::color::PrintColor;
use vstd::prelude::*;
use vstd::string::*;

verus! {

/// One coloured text unit of the output record.
#[derive(Debug)]
pub struct Segment {
    pub text: String,
    pub color: PrintColor,
}

impl Clone for Segment {
    fn clone(&self) -> (copy: Self)
        ensures
            copy@ == self@,
    {
        Segment { text: self.text.clone(), color: self.color }
    }
}

/// The mathematical model of a [`Segment`].
pub ghost struct SegmentView {
    pub text: Seq<char>,
    pub color: PrintColor,
}

impl View for Segment {
    type V = SegmentView;

    open spec fn view(&self) -> SegmentView {
        SegmentView { text: self.text@, color: self.color }
    }
}

/// The wire form of one segment: a JSON object with the members `full_text`
/// and `color`, the text taken as it is.
pub open spec fn block_text(text: Seq<char>, color: PrintColor) -> Seq<char> {
    "{\"full_text\":\""@ + text + "\",\"color\":\""@ + color.hex() + "\"}"@
}

/// The wire form of a segment.
pub open spec fn block_of(segment: SegmentView) -> Seq<char> {
    block_text(segment.text, segment.color)
}

/// Renders a text and a colour as one object of the output record.
pub fn p_full(text: &str, color: PrintColor) -> (p: String)
    ensures
        p@ == block_text(text@, color),
{
    let mut p = String::from_str("{\"full_text\":\"");
    p.append(text);
    p.append("\",\"color\":\"");
    p.append(color.code());
    p.append("\"}");
    p
}

impl Segment {
    /// The segment as one object of the output record.
    pub fn render(&self) -> (p: String)
        ensures
            p@ == block_of(self@),
    {
        p_full(self.text.as_str(), self.color)
    }
}

} // verus!
