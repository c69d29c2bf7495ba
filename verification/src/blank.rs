//! Texts made of white space alone.
//!
//! The evaluator skips white space between tokens, but it cannot be handed a
//! text that holds nothing else, so such texts are recognised here first.

use vstd::prelude::*;
use vstd::string::is_ascii_spec_bytes;

verus! {

/// The four characters that the evaluator skips between tokens: space, tab,
/// carriage return and line feed.
pub open spec fn is_space(c: char) -> bool {
    c == ' ' || c == '\t' || c == '\r' || c == '\n'
}

/// Every character of `text` is white space. This holds of the empty text.
pub open spec fn all_space(text: Seq<char>) -> bool {
    forall|i: int| 0 <= i < text.len() ==> is_space(#[trigger] text[i])
}

fn is_space_byte(b: u8) -> (space: bool)
    ensures
        space == is_space(b as char),
{
    b == 0x20 || b == 0x09 || b == 0x0d || b == 0x0a
}

/// Tells whether `text` holds white space alone, in one pass over its bytes.
pub fn is_blank(text: &str) -> (blank: bool)
    ensures
        blank == all_space(text@),
{
    if !text.is_ascii() {
        // Some character lies beyond U+007F, and that one is no white space.
        return false;
    }
    let bytes = text.as_bytes();
    proof {
        is_ascii_spec_bytes(text);
    }
    let mut i: usize = 0;
    while i < bytes.len()
        invariant
            i <= bytes.len(),
            bytes@.len() == text@.len(),
            forall|k: int| 0 <= k < text@.len() ==> bytes@[k] == #[trigger] text@[k] as u8,
            forall|k: int| 0 <= k < text@.len() ==> '\0' <= #[trigger] text@[k] <= '\u{7f}',
            forall|k: int| 0 <= k < i ==> is_space(#[trigger] text@[k]),
        decreases bytes.len() - i,
    {
        if !is_space_byte(bytes[i]) {
            assert(!is_space(text@[i as int]));
            return false;
        }
        i += 1;
    }
    true
}

} // verus!
