//! The reasons for which an escrow instruction is rejected.

use vstd::prelude::*;

verus! {

/// Why an instruction was rejected. Every rejection is decided before any
/// state changes: a rejected instruction leaves its accounts as they were.
#[derive(Clone, Copy, Debug, PartialEq, Eq, Hash, Structural)]
pub enum ErrorCode {
    /// A supplied address is not the address that its derivation gives.
    AddressMismatch,
    /// A declared amount exceeds the balance of the account it is drawn from.
    InsufficientBalance,
    /// An amount does not fit in 64 bits.
    ArithmeticOverflow,
    /// A supplied identity or account is not the one on the record.
    IdentityMismatch,
    /// A record already occupies the address at which one is to be created.
    DuplicateRecord,
    /// No record lives at the given address.
    MissingRecord,
    /// The authority named for a custody operation does not own the account.
    Unauthorized,
}

} // verus!
