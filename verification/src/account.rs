//! Identities of ledger accounts.

use vstd::prelude::*;

verus! {

/// Identity of a ledger account: a participant, an authority, or the address
/// under which an entity such as a quiz or a topic is stored. The library
/// only ever stores and compares identities; it never derives them.
#[derive(Clone, Copy, PartialEq, Eq, Structural, Debug)]
pub struct AccountId {
    pub value: u64,
}

impl Default for AccountId {
    /// The all-zero identity, used to recognise storage that has not yet
    /// been written to.
    fn default() -> (r: Self)
        ensures
            r == (AccountId { value: 0 }),
    {
        AccountId { value: 0 }
    }
}

} // verus!
