//! Length in characters, as opposed to bytes.

use vstd::prelude::*;

verus! {

/// A value with a length counted in Unicode scalar values.
pub trait CharLen {
    /// The length in characters, as a specification value.
    spec fn char_len_spec(&self) -> nat;

    /// The length in characters.
    fn char_len(&self) -> (n: usize)
        ensures
            n == self.char_len_spec(),
    ;
}

impl CharLen for Vec<char> {
    open spec fn char_len_spec(&self) -> nat {
        self@.len()
    }

    fn char_len(&self) -> (n: usize) {
        self.len()
    }
}

} // verus!
