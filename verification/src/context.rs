//! What an instruction runs against.

use vstd::prelude::*;
use crate::address::Address;

verus! {

/// The accounts handed to one instruction, and the program that runs it.
///
/// Each asset account and each record among `accounts` stands for a ledger
/// account of its own: the ledger locks the accounts of an instruction for as
/// long as it runs, and no two of them describe the same account. The
/// accounts of each instruction say so with `distinct`.
#[derive(Debug, PartialEq, Eq)]
pub struct Context<T> {
    pub program_id: Address,
    pub accounts: T,
}

impl<T: Copy> Clone for Context<T> {
    fn clone(&self) -> (copy: Self)
        ensures
            copy == *self,
    {
        *self
    }
}

impl<T: Copy> Copy for Context<T> {

}

} // verus!
