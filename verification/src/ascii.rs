//! Comparing text with the fixed ASCII words of the command line.

use vstd::prelude::*;
use vstd::string::*;

verus! {

/// Whether `text` is, character for character, the ASCII word `word`.
pub fn same_text(text: &str, word: &str) -> (same: bool)
    requires
        is_ascii(word),
    ensures
        same == (text@ == word@),
{
    if !text.is_ascii() {
        return false;
    }
    let left = text.as_bytes();
    let right = word.as_bytes();
    proof {
        is_ascii_spec_bytes(text);
        is_ascii_spec_bytes(word);
    }
    if left.len() != right.len() {
        return false;
    }
    let mut i: usize = 0;
    while i < left.len()
        invariant
            i <= left@.len(),
            left@.len() == right@.len(),
            left@.len() == text@.len(),
            right@.len() == word@.len(),
            forall|j: int| 0 <= j < left@.len() ==> left@[j] == text@[j] as u8,
            forall|j: int| 0 <= j < right@.len() ==> right@[j] == word@[j] as u8,
            forall|j: int| 0 <= j < i ==> left@[j] == right@[j],
        decreases left@.len() - i,
    {
        if left[i] != right[i] {
            return false;
        }
        i += 1;
    }
    assert(text@ =~= word@) by {
        assert forall|j: int| 0 <= j < text@.len() implies text@[j] == word@[j] by {
            assert(left@[j] == right@[j]);
            assert(text@[j] as u8 == word@[j] as u8);
        }
    }
    true
}

} // verus!
