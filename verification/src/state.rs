//! The escrow record and the account that holds it.

use vstd::prelude::*;
use crate::address::Address;
use crate::pda::ProgramAddress;
use crate::pda::derived;
use crate::pda::record_address;
use crate::pda::record_seeds;

verus! {

/// The width of a record's label.
pub const NAME_LEN: usize = 10;

/// The bumps that an initializer supplies with an escrow.
#[derive(Clone, Copy, Debug, PartialEq, Eq)]
pub struct StateBumps {
    /// The bump of the record's own address.
    pub escrow_account: u8,
}

impl Default for StateBumps {
    fn default() -> (bumps: StateBumps)
        ensures
            bumps.escrow_account == 0,
    {
        StateBumps { escrow_account: 0 }
    }
}

/// The terms of one escrow. Nothing in a record changes between its creation
/// and its cancellation.
#[derive(Clone, Copy, Debug, PartialEq, Eq)]
pub struct EscrowAccount {
    /// Who opened the escrow.
    pub initializer_key: Address,
    /// The account whose balance takers draw on.
    pub initializer_deposit_token_account: Address,
    /// The account that takers pay into.
    pub initializer_receive_token_account: Address,
    /// The amount that the initializer declared as locked. The whole deposit
    /// account is in custody, whatever this says.
    pub initializer_amount: u64,
    /// What a taker receives from the deposit for each unit paid.
    pub taker_rate: u64,
    /// The record's label, padded with spaces.
    pub state_seed_name: [u8; 10],
    /// The bump of the record's own address.
    pub bumps: StateBumps,
}

impl EscrowAccount {
    /// The size of a stored record: three addresses, two amounts, the label
    /// and the bump.
    pub const LEN: usize = 32 + 32 + 32 + 8 + 8 + 10 + 1;
}

/// A ledger address that holds an escrow record, or none.
#[derive(Clone, Copy, Debug, PartialEq, Eq)]
pub struct RecordSlot {
    pub key: Address,
    pub record: Option<EscrowAccount>,
}

impl RecordSlot {
    /// The address that the label of the record held here derives under the
    /// program `program_id`, with its bump; nothing where no record is held.
    pub open spec fn derivation(self, program_id: Address) -> Option<ProgramAddress> {
        match self.record {
            Some(record) => derived(record_seeds(record.state_seed_name@), program_id),
            None => None,
        }
    }

    /// Whether `found` is this slot's own address with the bump `bump`.
    pub open spec fn is_at(self, found: Option<ProgramAddress>, bump: u8) -> bool {
        found == Some(ProgramAddress { address: self.key, bump })
    }

    /// Derives the address of the record held here from its label.
    pub fn derive(&self, program_id: &Address) -> (r: Option<ProgramAddress>)
        ensures
            r == self.derivation(*program_id),
    {
        match &self.record {
            Some(record) => record_address(program_id, &record.state_seed_name),
            None => None,
        }
    }

    /// Tells whether `found` is this slot's own address with the bump `bump`.
    pub fn at(&self, found: &Option<ProgramAddress>, bump: u8) -> (r: bool)
        ensures
            r == self.is_at(*found, bump),
    {
        match found {
            Some(found) => found.address == self.key && found.bump == bump,
            None => false,
        }
    }
}

/// `name` followed by as many spaces as bring it to the width of a label.
pub open spec fn padded(name: Seq<u8>) -> Seq<u8>
    recommends
        name.len() <= NAME_LEN,
{
    name + Seq::new((NAME_LEN - name.len()) as nat, |i: int| 0x20u8)
}

/// The stored form of the label `name`.
pub open spec fn name_tag(name: Seq<u8>) -> [u8; 10]
    recommends
        name.len() <= NAME_LEN,
{
    choose|tag: [u8; 10]| tag@ == padded(name)
}

/// A label that holds the padded bytes of `name` is the stored form of `name`.
pub proof fn lemma_name_tag(tag: [u8; 10], name: Seq<u8>)
    requires
        tag@ == padded(name),
    ensures
        name_tag(name) == tag,
{
    assert(name_tag(name) =~= tag);
}

/// The stored form of a label holds the label's padded bytes.
pub proof fn lemma_name_tag_padded(name: Seq<u8>)
    requires
        name.len() <= NAME_LEN,
    ensures
        name_tag(name)@ == padded(name),
{
    let s = padded(name);
    let witness: [u8; 10] = [s[0], s[1], s[2], s[3], s[4], s[5], s[6], s[7], s[8], s[9]];
    assert(witness@ =~= s);
}

/// Pads `name` with spaces to the width of a label.
pub fn pad_name(name: &[u8]) -> (tag: [u8; 10])
    requires
        name@.len() <= NAME_LEN,
    ensures
        tag@ == padded(name@),
        tag == name_tag(name@),
{
    let mut tag: [u8; 10] = [0x20u8;10];
    let n = name.len();
    let mut i: usize = 0;
    while i < n
        invariant
            i <= n,
            n == name@.len(),
            n <= 10,
            forall|j: int| 0 <= j < i ==> tag@[j] == name@[j],
            forall|j: int| i <= j < 10 ==> tag@[j] == 0x20u8,
        decreases n - i,
    {
        tag[i] = name[i];
        i = i + 1;
    }
    proof {
        assert(tag@ =~= padded(name@));
        lemma_name_tag(tag, name@);
    }
    tag
}

} // verus!
