//! The processor's model of the host store: record handles with their
//! balances, owners and raw bytes, the rent oracle, and the account lists
//! that client-built instructions carry.
use vstd::prelude::*;

use crate::keys::Pubkey;
use crate::keys::spec_zero_key;

verus! {

/// One record handle as the processor sees it: an addressable, independently
/// funded container for one serialized record.
///
/// The signer flag is set by the host store before the processor runs; it
/// attests that the party behind `key` authorized the current batch.
#[derive(Debug)]
pub struct AccountInfo {
    /// The address (and identity) of this handle.
    pub key: Pubkey,
    /// Whether `key` cryptographically authorized the current batch.
    pub is_signer: bool,
    /// The balance funding this record's storage.
    pub lamports: u64,
    /// The program controlling writes to this record. A still-unallocated
    /// slot and a plain user identity are owned by the store's allocator.
    pub owner: Pubkey,
    /// The record's bytes; empty until the slot is allocated.
    pub data: Vec<u8>,
}

/// An unallocated slot: no funds, no bytes, still owned by the allocator.
/// Allocation fails on anything else.
pub open spec fn spec_unallocated(a: AccountInfo) -> bool {
    a.lamports == 0 && a.data@.len() == 0 && a.owner == spec_zero_key()
}

/// The rent oracle: the minimum balance a record of a given byte length must
/// hold to persist indefinitely, a pure function of the length.
#[derive(Clone, Copy, PartialEq, Eq, Structural, Debug)]
pub struct Rent {
    /// The cost, in balance units, per stored byte.
    pub lamports_per_byte: u64,
}

/// The rent owed for `len` bytes, saturating at the largest balance.
pub open spec fn spec_minimum_balance(rent: Rent, len: nat) -> u64 {
    if rent.lamports_per_byte * len > u64::MAX {
        u64::MAX
    } else {
        (rent.lamports_per_byte * len) as u64
    }
}

/// The balance a new record is funded with: the rent-exempt minimum, but at
/// least one unit.
pub open spec fn spec_fund_amount(rent: Rent, len: nat) -> u64 {
    if spec_minimum_balance(rent, len) < 1 {
        1u64
    } else {
        spec_minimum_balance(rent, len)
    }
}

impl Rent {
    /// The minimum rent-exempt balance for a record of `len` bytes.
    pub fn minimum_balance(&self, len: usize) -> (r: u64)
        ensures
            r == spec_minimum_balance(*self, len as nat),
    {
        match self.lamports_per_byte.checked_mul(len as u64) {
            Some(m) => m,
            None => u64::MAX,
        }
    }
}

/// One entry of the account list a client-built instruction carries: which
/// record handle to pass, and with which access flags.
#[derive(Clone, Copy, PartialEq, Eq, Structural, Debug)]
pub struct AccountMeta {
    pub pubkey: Pubkey,
    pub is_signer: bool,
    pub is_writable: bool,
}

impl AccountMeta {
    /// A writable entry.
    pub fn new(pubkey: Pubkey, is_signer: bool) -> (r: AccountMeta)
        ensures
            r == (AccountMeta { pubkey, is_signer, is_writable: true }),
    {
        AccountMeta { pubkey, is_signer, is_writable: true }
    }

    /// A read-only entry.
    pub fn new_readonly(pubkey: Pubkey, is_signer: bool) -> (r: AccountMeta)
        ensures
            r == (AccountMeta { pubkey, is_signer, is_writable: false }),
    {
        AccountMeta { pubkey, is_signer, is_writable: false }
    }
}

/// A client-built instruction: the processor to invoke, the record handles
/// to hand it (in the order the handlers document), and the encoded request.
#[derive(Debug)]
pub struct Instruction {
    pub program_id: Pubkey,
    pub accounts: Vec<AccountMeta>,
    pub data: Vec<u8>,
}

} // verus!
