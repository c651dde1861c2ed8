//! The output record: the segments of one tick in wire form.

use crate::segment::{block_of, Segment, SegmentView};
use vstd::prelude::*;
use vstd::string::*;

verus! {

/// The models of the segments of a record, in order.
pub open spec fn views_of(segments: Seq<Segment>) -> Seq<SegmentView> {
    segments.map_values(|s: Segment| s@)
}

/// The wire forms of the segments, in order, with a comma between each two.
pub open spec fn joined_blocks(segments: Seq<SegmentView>) -> Seq<char>
    decreases segments.len(),
{
    if segments.len() == 0 {
        Seq::empty()
    } else if segments.len() == 1 {
        block_of(segments[0])
    } else {
        joined_blocks(segments.drop_last()) + ","@ + block_of(segments.last())
    }
}

/// One line of the output protocol, without its line feed: the array of the
/// segments, followed by a comma.
pub open spec fn record_text(segments: Seq<SegmentView>) -> Seq<char> {
    "["@ + joined_blocks(segments) + "],"@
}

/// The opening of the output protocol: the header object with the protocol
/// version, a line feed, and the bracket that opens the endless array of
/// records.
pub open spec fn header_text() -> Seq<char> {
    "{ \"version\": 1 }\n["@
}

/// The opening of the output protocol, sent once before the first record.
pub fn protocol_header() -> (header: String)
    ensures
        header@ == header_text(),
{
    String::from_str("{ \"version\": 1 }\n[")
}

/// Renders the segments of one tick as one line of the output protocol,
/// without its line feed.
pub fn render_record(segments: &Vec<Segment>) -> (line: String)
    ensures
        line@ == record_text(views_of(segments@)),
{
    let ghost views = views_of(segments@);
    let mut line = String::from_str("[");
    let mut i: usize = 0;
    while i < segments.len()
        invariant
            i <= segments.len(),
            views == views_of(segments@),
            line@ == "["@ + joined_blocks(views.subrange(0, i as int)),
        decreases segments.len() - i,
    {
        let ghost before = views.subrange(0, i as int);
        let ghost after = views.subrange(0, i + 1);
        assert(after.drop_last() =~= before);
        assert(after.last() == segments@[i as int]@);
        if i > 0 {
            line.append(",");
        }
        let block = segments[i].render();
        line.append(block.as_str());
        assert(line@ =~= "["@ + joined_blocks(after));
        i = i + 1;
    }
    assert(views.subrange(0, segments@.len() as int) =~= views);
    line.append("],");
    line
}

} // verus!
