//! Text checks shared by the configuration and topic paths.
//!
//! Every key, value and topic name eventually crosses into the native
//! engine as a C string, so a text holding an embedded terminator
//! character must be rejected before it reaches the engine.

use vstd::prelude::*;

verus! {

/// Whether the text holds an embedded terminator character.
pub open spec fn has_nul(s: Seq<char>) -> bool {
    s.contains('\0')
}

/// Scan a text for an embedded terminator character.
pub fn contains_nul(s: &str) -> (r: bool)
    ensures
        r == has_nul(s@),
{
    let n = s.unicode_len();
    let mut i: usize = 0;
    while i < n
        invariant
            0 <= i <= n,
            n == s@.len(),
            forall|j: int| 0 <= j < i ==> s@[j] != '\0',
        decreases n - i,
    {
        if s.get_char(i) == '\0' {
            assert(s@.contains('\0')) by {
                assert(s@[i as int] == '\0');
            }
            return true;
        }
        i += 1;
    }
    false
}

} // verus!
