//! Texts as sequences of characters: lines of a source and comparisons.

use vstd::prelude::*;
use vstd::string::*;

verus! {

/// What a reader handed over: the text of a source, or nothing where the
/// source could not be read.
pub open spec fn text_of(source: Option<&str>) -> Option<Seq<char>> {
    match source {
        Some(s) => Some(s@),
        None => None,
    }
}

/// The characters of a text, in order.
pub fn chars_of(s: &str) -> (v: Vec<char>)
    ensures
        v@ == s@,
{
    let mut v: Vec<char> = Vec::new();
    for c in it: s.chars()
        invariant
            v@ == it.seq().take(it.index() as int),
    {
        v.push(c);
    }
    v
}

/// The index of the first line feed of `s` at or after `from`, or the length
/// of `s` where there is none.
pub open spec fn line_end(s: Seq<char>, from: int) -> int
    decreases s.len() - from,
{
    if 0 <= from < s.len() && s[from] != '\n' {
        line_end(s, from + 1)
    } else {
        from
    }
}

/// The index at which line `n` of `s` starts, lines counted from 0; the
/// length of `s` where it has no such line.
pub open spec fn line_start(s: Seq<char>, n: nat) -> int
    decreases n,
{
    if n == 0 {
        0
    } else {
        let end = line_end(s, line_start(s, (n - 1) as nat));
        if end < s.len() {
            end + 1
        } else {
            end
        }
    }
}

/// Line `n` of `s` without its line feed; empty where `s` has no such line.
pub open spec fn nth_line(s: Seq<char>, n: nat) -> Seq<char> {
    s.subrange(line_start(s, n), line_end(s, line_start(s, n)))
}

/// The first line of `s` without its line feed.
pub open spec fn first_line_of(s: Seq<char>) -> Seq<char> {
    nth_line(s, 0)
}

/// `line_end` is where the line that holds `from` ends: inside the text, at
/// a line feed or at the end, with no line feed before it.
pub proof fn lemma_line_end(s: Seq<char>, from: int)
    requires
        0 <= from <= s.len(),
    ensures
        from <= line_end(s, from) <= s.len(),
        line_end(s, from) < s.len() ==> s[line_end(s, from)] == '\n',
        forall|i: int| from <= i < line_end(s, from) ==> s[i] != '\n',
    decreases s.len() - from,
{
    if from < s.len() && s[from] != '\n' {
        lemma_line_end(s, from + 1);
    }
}

/// The end of the line that holds position `from`.
pub fn find_line_end(chars: &Vec<char>, from: usize) -> (end: usize)
    requires
        from <= chars.len(),
    ensures
        end == line_end(chars@, from as int),
        from <= end <= chars.len(),
{
    let mut i: usize = from;
    while i < chars.len() && chars[i] != '\n'
        invariant
            from <= i <= chars.len(),
            line_end(chars@, from as int) == line_end(chars@, i as int),
        decreases chars.len() - i,
    {
        i = i + 1;
    }
    i
}

/// The start of line `n`.
pub fn find_line_start(chars: &Vec<char>, n: usize) -> (start: usize)
    ensures
        start == line_start(chars@, n as nat),
        start <= chars.len(),
{
    let mut start: usize = 0;
    let mut k: usize = 0;
    while k < n
        invariant
            k <= n,
            start <= chars.len(),
            start == line_start(chars@, k as nat),
        decreases n - k,
    {
        let end = find_line_end(chars, start);
        start = if end < chars.len() { end + 1 } else { end };
        k = k + 1;
    }
    start
}

/// A copy of the characters of `chars` from `from` up to `to`.
pub fn slice_chars(chars: &Vec<char>, from: usize, to: usize) -> (part: Vec<char>)
    requires
        from <= to <= chars.len(),
    ensures
        part@ == chars@.subrange(from as int, to as int),
{
    let mut part: Vec<char> = Vec::new();
    let mut i: usize = from;
    while i < to
        invariant
            from <= i <= to <= chars.len(),
            part@ == chars@.subrange(from as int, i as int),
        decreases to - i,
    {
        part.push(chars[i]);
        i = i + 1;
    }
    part
}

/// Line `n` of a text, counted from 0, without its line feed.
pub fn line_chars(chars: &Vec<char>, n: usize) -> (line: Vec<char>)
    ensures
        line@ == nth_line(chars@, n as nat),
{
    let start = find_line_start(chars, n);
    let end = find_line_end(chars, start);
    slice_chars(chars, start, end)
}

/// The first line of what a source holds, without its line feed: the text up
/// to the first line feed, or all of it where it holds none.
pub fn first_line(content: &str) -> (line: String)
    ensures
        line@ == first_line_of(content@),
        line@.is_prefix_of(content@),
        forall|i: int| 0 <= i < line@.len() ==> line@[i] != '\n',
        line@.len() < content@.len() ==> content@[line@.len() as int] == '\n',
{
    let chars = chars_of(content);
    let end = find_line_end(&chars, 0);
    proof {
        lemma_line_end(content@, 0);
    }
    String::from_str(content.substring_char(0, end))
}

/// Whether `s` begins with `prefix`.
pub fn starts_with(s: &Vec<char>, prefix: &Vec<char>) -> (b: bool)
    ensures
        b == prefix@.is_prefix_of(s@),
{
    if prefix.len() > s.len() {
        return false;
    }
    let mut i: usize = 0;
    while i < prefix.len()
        invariant
            i <= prefix.len() <= s.len(),
            forall|k: int| 0 <= k < i ==> prefix@[k] == s@[k],
        decreases prefix.len() - i,
    {
        if prefix[i] != s[i] {
            return false;
        }
        i = i + 1;
    }
    assert(prefix@ =~= s@.subrange(0, prefix@.len() as int));
    true
}

/// Whether two texts hold the same characters.
pub fn same_chars(a: &Vec<char>, b: &Vec<char>) -> (same: bool)
    ensures
        same == (a@ == b@),
{
    if a.len() != b.len() {
        return false;
    }
    let whole = starts_with(a, b);
    assert(whole ==> a@ =~= b@);
    whole
}

} // verus!
