//! Comparing and trimming text.

use vstd::prelude::*;
use vstd::string::*;
use vstd::utf8::*;

verus! {

/// Whether `str::trim` takes `c` for white space: the Unicode property
/// `White_Space`.
pub uninterp spec fn white_space(c: char) -> bool;

/// A text is blank when every character of it is white space. The empty text
/// is blank.
pub open spec fn blank(text: Seq<char>) -> bool {
    forall|i: int| 0 <= i < text.len() ==> white_space(#[trigger] text[i])
}

/// `trimmed` lies in `text` from position `from` on, and all that `text` holds
/// before and after it is white space.
pub open spec fn trimmed_at(text: Seq<char>, trimmed: Seq<char>, from: int) -> bool {
    &&& 0 <= from
    &&& from + trimmed.len() <= text.len()
    &&& text.subrange(from, from + trimmed.len()) == trimmed
    &&& forall|i: int| 0 <= i < from ==> white_space(#[trigger] text[i])
    &&& forall|i: int| from + trimmed.len() <= i < text.len() ==> white_space(#[trigger] text[i])
}

/// Calls `str::trim`. The result is the part of `text` from its first to its last
/// character that is not white space, and the empty text where it has no such
/// character.
#[verifier::external_body]
fn trim(text: &str) -> (trimmed: &str)
    ensures
        exists|from: int| trimmed_at(text@, trimmed@, from),
        trimmed@.len() > 0 ==> !white_space(trimmed@.first()) && !white_space(trimmed@.last()),
{
    text.trim()
}

/// Whether nothing is left of `text` once it is trimmed.
pub fn is_blank(text: &str) -> (b: bool)
    ensures
        b == blank(text@),
{
    let trimmed = trim(text);
    proof {
        let from = choose|from: int| trimmed_at(text@, trimmed@, from);
        if trimmed@.len() > 0 {
            assert(text@[from] == trimmed@.first());
        }
    }
    trimmed.is_empty()
}

/// Whether two texts hold the same characters.
pub fn text_eq(a: &str, b: &str) -> (same: bool)
    ensures
        same == (a@ == b@),
{
    let x = a.as_bytes();
    let y = b.as_bytes();
    proof {
        encode_utf8_decode_utf8(a@);
        encode_utf8_decode_utf8(b@);
    }
    if x.len() != y.len() {
        return false;
    }
    let mut i: usize = 0;
    while i < x.len()
        invariant
            i <= x.len(),
            x.len() == y.len(),
            x@ == a.spec_bytes(),
            y@ == b.spec_bytes(),
            forall|k: int| 0 <= k < i ==> x@[k] == y@[k],
        decreases x.len() - i,
    {
        if x[i] != y[i] {
            return false;
        }
        i += 1;
    }
    assert(x@ =~= y@);
    true
}

} // verus!
