//! Comparisons of text that the configuration rules are stated in.

use vstd::prelude::*;
use vstd::string::StringSliceAdditionalSpecFns;
use vstd::utf8::encode_utf8_decode_utf8;

verus! {

/// Whether two texts hold the same characters.
pub fn text_eq(a: &str, b: &str) -> (same: bool)
    ensures
        same == (a@ == b@),
{
    let x = a.as_bytes();
    let y = b.as_bytes();
    proof {
        // A text is determined by its bytes.
        encode_utf8_decode_utf8(a@);
        encode_utf8_decode_utf8(b@);
    }
    if x.len() != y.len() {
        return false;
    }
    let mut i: usize = 0;
    while i < x.len()
        invariant
            i <= x.len(),
            x.len() == y.len(),
            forall|j: int| 0 <= j < i ==> x@[j] == y@[j],
            x@ != y@ ==> a@ != b@,
        decreases x.len() - i,
    {
        if x[i] != y[i] {
            return false;
        }
        i += 1;
    }
    assert(x@ =~= y@);
    true
}

/// Whether `c` is the letter `lower` in either case.
pub open spec fn is_letter(c: char, lower: char, upper: char) -> bool {
    c == lower || c == upper
}

/// Whether `text` is the word `none`, written in any mix of upper and lower case.
pub open spec fn is_none_word(text: Seq<char>) -> bool {
    &&& text.len() == 4
    &&& is_letter(text[0], 'n', 'N')
    &&& is_letter(text[1], 'o', 'O')
    &&& is_letter(text[2], 'n', 'N')
    &&& is_letter(text[3], 'e', 'E')
}

/// Tests whether `text` is the word `none` in any mix of upper and lower case.
pub fn is_none(text: &str) -> (found: bool)
    ensures
        found == is_none_word(text@),
{
    if text.unicode_len() != 4 {
        return false;
    }
    let c0 = text.get_char(0);
    let c1 = text.get_char(1);
    let c2 = text.get_char(2);
    let c3 = text.get_char(3);
    (c0 == 'n' || c0 == 'N') && (c1 == 'o' || c1 == 'O') && (c2 == 'n' || c2 == 'N') && (c3 == 'e'
        || c3 == 'E')
}

} // verus!
