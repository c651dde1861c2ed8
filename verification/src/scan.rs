//! The line grammar of the counter sources: words and blank-separated
//! tokens, with blanks between them ignored.

use vstd::prelude::*;

verus! {

/// The blanks of the grammar: space, tab, line feed and carriage return.
pub open spec fn is_blank(c: char) -> bool {
    c == ' ' || c == '\t' || c == '\n' || c == '\r'
}

/// The first position at or after `i` that holds no blank, or the length of
/// `s` where only blanks follow.
pub open spec fn skip_blanks(s: Seq<char>, i: int) -> int
    decreases s.len() - i,
{
    if 0 <= i < s.len() && is_blank(s[i]) {
        skip_blanks(s, i + 1)
    } else {
        i
    }
}

/// The first position at or after `i` that holds a blank, or the length of
/// `s` where none follows: the end of the token that starts at `i`.
pub open spec fn token_end(s: Seq<char>, i: int) -> int
    decreases s.len() - i,
{
    if 0 <= i < s.len() && !is_blank(s[i]) {
        token_end(s, i + 1)
    } else {
        i
    }
}

/// The token at or after `i`: the run of characters without a blank that
/// starts where the blanks from `i` on end. Empty where `s` ends first.
pub open spec fn token_at(s: Seq<char>, i: int) -> Seq<char> {
    s.subrange(skip_blanks(s, i), after_token(s, i))
}

/// The position after the token at or after `i`.
pub open spec fn after_token(s: Seq<char>, i: int) -> int {
    token_end(s, skip_blanks(s, i))
}

/// Where `s` holds the characters of `word` from `i` on, in order and each
/// after any number of blanks: the position after the last of them. `None`
/// where another character stands in the way or `s` ends before the word
/// does.
pub open spec fn after_word(s: Seq<char>, i: int, word: Seq<char>) -> Option<int>
    decreases word.len(),
{
    if word.len() == 0 {
        Some(i)
    } else {
        let j = skip_blanks(s, i);
        if 0 <= j < s.len() && s[j] == word[0] {
            after_word(s, j + 1, word.drop_first())
        } else {
            None
        }
    }
}

/// Whether what `s` holds from `i` on does not contradict `word`: each
/// character that is there, blanks aside, is the next one of `word`, until
/// `s` or `word` ends. What follows the whole word is not looked at.
pub open spec fn tail_agrees(s: Seq<char>, i: int, word: Seq<char>) -> bool
    decreases word.len(),
{
    if word.len() == 0 {
        true
    } else {
        let j = skip_blanks(s, i);
        j >= s.len() || (0 <= j && s[j] == word[0] && tail_agrees(s, j + 1, word.drop_first()))
    }
}

/// `skip_blanks` passes blanks only and stops at the first character that is
/// none, or at the end of the text.
pub proof fn lemma_skip_blanks(s: Seq<char>, i: int)
    requires
        0 <= i <= s.len(),
    ensures
        i <= skip_blanks(s, i) <= s.len(),
        skip_blanks(s, i) < s.len() ==> !is_blank(s[skip_blanks(s, i)]),
        forall|k: int| i <= k < skip_blanks(s, i) ==> is_blank(s[k]),
    decreases s.len() - i,
{
    if i < s.len() && is_blank(s[i]) {
        lemma_skip_blanks(s, i + 1);
    }
}

/// A token holds no blank and ends at a blank or at the end of the text.
pub proof fn lemma_token_end(s: Seq<char>, i: int)
    requires
        0 <= i <= s.len(),
    ensures
        i <= token_end(s, i) <= s.len(),
        token_end(s, i) < s.len() ==> is_blank(s[token_end(s, i)]),
        forall|k: int| i <= k < token_end(s, i) ==> !is_blank(s[k]),
    decreases s.len() - i,
{
    if i < s.len() && !is_blank(s[i]) {
        lemma_token_end(s, i + 1);
    }
}

/// Whether `c` is a blank.
pub fn blank(c: char) -> (b: bool)
    ensures
        b == is_blank(c),
{
    c == ' ' || c == '\t' || c == '\n' || c == '\r'
}

/// Moves from `i` past any blanks.
pub fn pass_blanks(chars: &Vec<char>, i: usize) -> (j: usize)
    requires
        i <= chars.len(),
    ensures
        j == skip_blanks(chars@, i as int),
        i <= j <= chars.len(),
{
    let mut j: usize = i;
    while j < chars.len() && blank(chars[j])
        invariant
            i <= j <= chars.len(),
            skip_blanks(chars@, i as int) == skip_blanks(chars@, j as int),
        decreases chars.len() - j,
    {
        j = j + 1;
    }
    j
}

/// Moves from `i` to the end of the token that starts there.
pub fn pass_token(chars: &Vec<char>, i: usize) -> (j: usize)
    requires
        i <= chars.len(),
    ensures
        j == token_end(chars@, i as int),
        i <= j <= chars.len(),
{
    let mut j: usize = i;
    while j < chars.len() && !blank(chars[j])
        invariant
            i <= j <= chars.len(),
            token_end(chars@, i as int) == token_end(chars@, j as int),
        decreases chars.len() - j,
    {
        j = j + 1;
    }
    j
}

/// Finds the token at or after `i`: where it starts and where it ends.
pub fn next_token(chars: &Vec<char>, i: usize) -> (bounds: (usize, usize))
    requires
        i <= chars.len(),
    ensures
        i <= bounds.0 <= bounds.1 <= chars.len(),
        bounds.1 == after_token(chars@, i as int),
        chars@.subrange(bounds.0 as int, bounds.1 as int) == token_at(chars@, i as int),
        forall|k: int| i <= k < bounds.0 ==> is_blank(chars@[k]),
        forall|k: int| bounds.0 <= k < bounds.1 ==> !is_blank(chars@[k]),
        bounds.1 < chars.len() ==> is_blank(chars@[bounds.1 as int]),
{
    let start = pass_blanks(chars, i);
    let end = pass_token(chars, start);
    proof {
        lemma_skip_blanks(chars@, i as int);
        lemma_token_end(chars@, start as int);
    }
    (start, end)
}

/// Moves from `i` past `word`, blanks ignored, where the text holds it.
pub fn pass_word(chars: &Vec<char>, i: usize, word: &Vec<char>) -> (end: Option<usize>)
    requires
        i <= chars.len(),
    ensures
        match end {
            Some(j) => after_word(chars@, i as int, word@) == Some(j as int) && i <= j
                <= chars.len(),
            None => after_word(chars@, i as int, word@) is None,
        },
{
    let mut pos: usize = i;
    let mut k: usize = 0;
    assert(word@.subrange(0, word@.len() as int) =~= word@);
    while k < word.len()
        invariant
            k <= word.len(),
            i <= pos <= chars.len(),
            after_word(chars@, i as int, word@) == after_word(
                chars@,
                pos as int,
                word@.subrange(k as int, word@.len() as int),
            ),
        decreases word.len() - k,
    {
        let ghost rest = word@.subrange(k as int, word@.len() as int);
        assert(rest.drop_first() =~= word@.subrange(k + 1, word@.len() as int));
        assert(rest[0] == word@[k as int]);
        let j = pass_blanks(chars, pos);
        if j < chars.len() && chars[j] == word[k] {
            pos = j + 1;
            k = k + 1;
        } else {
            return None;
        }
    }
    Some(pos)
}

/// Whether the text from `i` on agrees with `word` as far as it goes.
pub fn agrees(chars: &Vec<char>, i: usize, word: &Vec<char>) -> (ok: bool)
    requires
        i <= chars.len(),
    ensures
        ok == tail_agrees(chars@, i as int, word@),
{
    let mut pos: usize = i;
    let mut k: usize = 0;
    assert(word@.subrange(0, word@.len() as int) =~= word@);
    while k < word.len()
        invariant
            k <= word.len(),
            i <= pos <= chars.len(),
            tail_agrees(chars@, i as int, word@) == tail_agrees(
                chars@,
                pos as int,
                word@.subrange(k as int, word@.len() as int),
            ),
        decreases word.len() - k,
    {
        let ghost rest = word@.subrange(k as int, word@.len() as int);
        assert(rest.drop_first() =~= word@.subrange(k + 1, word@.len() as int));
        assert(rest[0] == word@[k as int]);
        let j = pass_blanks(chars, pos);
        if j >= chars.len() {
            return true;
        }
        if chars[j] != word[k] {
            return false;
        }
        pos = j + 1;
        k = k + 1;
    }
    true
}

} // verus!
