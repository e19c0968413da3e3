//! Account identities.

use vstd::prelude::*;

use crate::table::Key;

verus! {

/// An account identifier supplied by the hosting ledger: a 256-bit hash,
/// held as four 64-bit words. Two identifiers name the same account exactly
/// when all four words agree.
#[derive(Clone, Copy, Debug, PartialEq, Eq, Structural, Hash)]
pub struct Owner(pub u64, pub u64, pub u64, pub u64);

impl Owner {
    /// The identifier with the given words.
    pub fn from_words(words: [u64; 4]) -> (owner: Self)
        ensures
            owner == Owner(words@[0], words@[1], words@[2], words@[3]),
    {
        Owner(words[0], words[1], words[2], words[3])
    }

    /// The four words of the identifier.
    pub fn words(&self) -> (words: [u64; 4])
        ensures
            words@ == seq![self.0, self.1, self.2, self.3],
    {
        let words = [self.0, self.1, self.2, self.3];
        assert(words@ =~= seq![self.0, self.1, self.2, self.3]);
        words
    }
}

impl View for Owner {
    type V = Owner;

    open spec fn view(&self) -> Owner {
        *self
    }
}

impl Key for Owner {
    fn same(&self, other: &Self) -> (same: bool) {
        *self == *other
    }
}

} // verus!
