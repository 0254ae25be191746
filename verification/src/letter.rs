//! Letter sound lookup: the index of the spoken-letter sample for a
//! lowercase letter. The audio collaborator holds the sample table and
//! resolves the index.

use vstd::prelude::*;

verus! {

/// The position of a lowercase letter in the spoken-letter sample table.
pub fn letter_sound(ch: char) -> (r: usize)
    requires
        'a' <= ch <= 'z',
    ensures
        r == ch as int - 'a' as int,
        r < 26,
{
    (ch as u32 as usize) - ('a' as u32 as usize)
}

} // verus!
