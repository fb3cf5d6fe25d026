//! Small text utilities shared by the resolvers: exact string comparison
//! and the character classes used for labels.

use vstd::prelude::*;

verus! {

/// True when `c` is an ASCII decimal digit.
pub open spec fn is_ascii_digit_char(c: char) -> bool {
    48 <= c as u32 <= 57
}

/// True when `c` is an ASCII letter.
pub open spec fn is_ascii_letter_char(c: char) -> bool {
    65 <= c as u32 <= 90 || 97 <= c as u32 <= 122
}

/// True when `c` may start a label: a letter or an underscore, never a
/// digit.
pub open spec fn is_label_start_char(c: char) -> bool {
    is_ascii_letter_char(c) || c == '_'
}

/// True when `c` may continue a label: a letter, a digit or an
/// underscore.
pub open spec fn is_label_char(c: char) -> bool {
    is_ascii_letter_char(c) || is_ascii_digit_char(c) || c == '_'
}

/// Compares two strings character by character.
pub fn str_eq(a: &str, b: &str) -> (r: bool)
    ensures
        r == (a@ == b@),
{
    let a_len = a.unicode_len();
    let b_len = b.unicode_len();
    if a_len != b_len {
        return false;
    }
    let mut i: usize = 0;
    while i < a_len
        invariant
            a_len == a@.len(),
            a_len == b@.len(),
            i <= a_len,
            forall|j: int| 0 <= j < i ==> a@[j] == b@[j],
        decreases a_len - i,
    {
        if a.get_char(i) != b.get_char(i) {
            return false;
        }
        i = i + 1;
    }
    proof {
        assert(a@ =~= b@);
    }
    true
}

/// Decides membership in the label-start character class.
pub fn is_label_start(c: char) -> (r: bool)
    ensures
        r == is_label_start_char(c),
{
    let u = c as u32;
    (65 <= u && u <= 90) || (97 <= u && u <= 122) || c == '_'
}

/// Decides membership in the label-continuation character class.
pub fn is_label_continuation(c: char) -> (r: bool)
    ensures
        r == is_label_char(c),
{
    let u = c as u32;
    (65 <= u && u <= 90) || (97 <= u && u <= 122) || (48 <= u && u <= 57) || c == '_'
}

} // verus!
