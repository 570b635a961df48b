use vstd::prelude::*;
use vstd::utf8::encode_utf8;

verus! {

/// Every character takes at least one byte, so a text has no more characters
/// than its encoding has bytes.
proof fn lemma_encoding_no_shorter(chars: Seq<char>)
    ensures
        chars.len() <= encode_utf8(chars).len(),
    decreases chars.len(),
{
    if chars.len() > 0 {
        lemma_encoding_no_shorter(chars.drop_first());
    }
}

/// An upper bound on the number of characters of `text`, found without
/// walking it: the length of its encoding.
pub(crate) fn char_count_bound(text: &str) -> (bound: usize)
    ensures
        text@.len() <= bound,
{
    proof {
        lemma_encoding_no_shorter(text@);
    }
    text.as_bytes().len()
}

} // verus!
