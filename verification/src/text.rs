//! Tests on the first character and on the ending of a piece of text.
//!
//! Text is modelled by its characters, `Seq<char>`, which is what `@` gives
//! for `str` and `String`.

use vstd::prelude::*;

verus! {

/// Whether `text` is non-empty and its first character is `first`.
pub open spec fn begins_with(text: Seq<char>, first: char) -> bool {
    text.len() > 0 && text[0] == first
}

/// The characters of `text`, in order.
fn chars_of(text: &str) -> (chars: Vec<char>)
    ensures
        chars@ == text@,
{
    let mut chars: Vec<char> = Vec::new();
    for c in it: text.chars()
        invariant
            it.seq() == text@,
            chars@ == it.seq().take(it.index()),
    {
        chars.push(c);
    }
    chars
}

/// Tells whether `text` begins with the character `first`.
pub fn starts_with(text: &str, first: char) -> (found: bool)
    ensures
        found == begins_with(text@, first),
{
    !text.is_empty() && text.get_char(0) == first
}

/// Tells whether the characters of `suffix` are the last characters of `text`.
///
/// Every text ends with the empty suffix and with itself.
pub fn ends_with(text: &str, suffix: &str) -> (found: bool)
    ensures
        found == suffix@.is_suffix_of(text@),
{
    let whole = chars_of(text);
    let tail = chars_of(suffix);
    if tail.len() > whole.len() {
        return false;
    }
    let offset: usize = whole.len() - tail.len();
    let mut i: usize = 0;
    while i < tail.len()
        invariant
            whole@ == text@,
            tail@ == suffix@,
            offset + tail.len() == whole.len(),
            i <= tail.len(),
            forall|k: int| 0 <= k < i ==> whole[offset + k] == tail[k],
        decreases tail.len() - i,
    {
        if whole[offset + i] != tail[i] {
            return false;
        }
        i += 1;
    }
    assert(text@.subrange(offset as int, text@.len() as int) =~= suffix@);
    true
}

} // verus!
