//! The failure taxonomy. Every error is terminal for the current instruction:
//! a failed instruction leaves every record and balance exactly as it was.
use vstd::prelude::*;

verus! {

/// Why an instruction was rejected.
#[derive(Clone, Copy, PartialEq, Eq, Structural, Debug)]
pub enum ProgramError {
    /// Fewer record handles were supplied than the instruction needs.
    NotEnoughAccountKeys,
    /// An identity that must have authorized the batch carries no signer
    /// attestation.
    MissingRequiredSignature,
    /// An identity expected to be a plain, store-native account is controlled
    /// by something else.
    InvalidAccountData,
    /// A semantic precondition failed: the targeted time slot is already
    /// scheduled.
    InvalidInstructionData,
    /// The instruction byte buffer does not decode to a known request.
    MalformedInstruction,
    /// A record supplied by the caller does not hold a well-formed encoding.
    MalformedRecord,
    /// A record's serialized form would not fit the fixed-width length field.
    RecordTooLarge,
    /// The target slot of an allocation is already allocated.
    AccountAlreadyInUse,
    /// The funding identity's balance cannot cover the requested allocation.
    InsufficientFunds,
}

} // verus!
