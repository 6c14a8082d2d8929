//! Identities: the public keys that name parties and record slots.
use vstd::prelude::*;

verus! {

/// A party's identity: a 256-bit public key, held as four 64-bit words.
///
/// The processor never interprets a key; it only copies keys into records and
/// compares them against the allocator's identity.
#[derive(Clone, Copy, PartialEq, Eq, Structural, Debug, Hash)]
pub struct Pubkey {
    pub w0: u64,
    pub w1: u64,
    pub w2: u64,
    pub w3: u64,
}

/// The all-zero key. It doubles as the "empty identity" sentinel stored in an
/// unscheduled slot and as the identity of the store's built-in allocator.
pub open spec fn spec_zero_key() -> Pubkey {
    Pubkey { w0: 0, w1: 0, w2: 0, w3: 0 }
}

impl Pubkey {
    pub fn new(w0: u64, w1: u64, w2: u64, w3: u64) -> (r: Pubkey)
        ensures
            r == (Pubkey { w0, w1, w2, w3 }),
    {
        Pubkey { w0, w1, w2, w3 }
    }
}

impl Default for Pubkey {
    /// The "empty identity" sentinel: the all-zero key.
    fn default() -> (r: Self)
        ensures
            r == spec_zero_key(),
    {
        Pubkey { w0: 0, w1: 0, w2: 0, w3: 0 }
    }
}

/// The identity of the store's built-in allocator. A plain, store-native
/// account and every still-unallocated record slot are owned by it.
pub fn allocator_id() -> (r: Pubkey)
    ensures
        r == spec_zero_key(),
{
    Pubkey { w0: 0, w1: 0, w2: 0, w3: 0 }
}

} // verus!
