//! Keyless addresses derived from a namespace tag, an optional salt and the
//! program that owns them.
//!
//! Two addresses are derived: the one at which an escrow's record lives, which
//! is salted with the record's label, and the one custody authority that holds
//! every locked account. Nobody has a private key for either; the program
//! alone can authorise as the custody authority, by naming the tag and the
//! bump that the derivation gave.

use vstd::prelude::*;
use anchor_lang::prelude::Pubkey;
use crate::address::Address;
use crate::trim::TrimAsciiWhitespace;
use crate::trim::trimmed;

verus! {

/// The namespace tag of the custody authority: the bytes of `escrow`.
pub const ESCROW_PDA_SEED: [u8; 6] = [101, 115, 99, 114, 111, 119];

/// The namespace tag of record addresses: the bytes of `state`.
pub const STATE_PDA_SEED: [u8; 5] = [115, 116, 97, 116, 101];

/// A derived address together with the bump that makes it keyless.
#[derive(Clone, Copy, Debug, PartialEq, Eq)]
pub struct ProgramAddress {
    pub address: Address,
    pub bump: u8,
}

/// What the search for a keyless address yields for the given seeds under the
/// given program: the address and the bump found, or nothing where no bump
/// gives a keyless address or the seeds are not acceptable.
pub uninterp spec fn program_address(seeds: Seq<Seq<u8>>, program_id: Seq<u8>) -> Option<(Seq<u8>, u8)>;

/// The byte strings that a slice of seeds holds.
pub open spec fn seeds_view(seeds: Seq<&[u8]>) -> Seq<Seq<u8>> {
    seeds.map_values(|seed: &[u8]| seed@)
}

/// `program_address`, with its addresses as `Address` values.
pub open spec fn derived(seeds: Seq<Seq<u8>>, program_id: Address) -> Option<ProgramAddress> {
    match program_address(seeds, program_id@) {
        Some((bytes, bump)) => Some(ProgramAddress { address: Address::from_bytes(bytes), bump }),
        None => None,
    }
}

/// The seeds of the custody authority: its tag alone.
pub open spec fn custody_seeds() -> Seq<Seq<u8>> {
    seq![ESCROW_PDA_SEED@]
}

/// The custody authority of the program `program_id`, where there is one.
pub open spec fn custody_of(program_id: Address) -> Address {
    derived(custody_seeds(), program_id)->0.address
}

/// The bump of the custody authority of the program `program_id`.
pub open spec fn custody_bump(program_id: Address) -> u8 {
    derived(custody_seeds(), program_id)->0.bump
}

/// The seeds of the record labelled `name_tag`: the record tag, then the label
/// without the whitespace around it.
pub open spec fn record_seeds(name_tag: Seq<u8>) -> Seq<Seq<u8>> {
    seq![STATE_PDA_SEED@, trimmed(name_tag)]
}

/// Calls `Pubkey::try_find_program_address`. Trusted: the result is the one
/// that `program_address` names for these seeds and this program, the address
/// given by its 32 bytes. The call hashes the seeds, a bump and the program's
/// address, trying bumps from 255 downwards, and returns the first address
/// that is no point of the curve with its bump; it returns `None` where no
/// bump does, and for seeds it does not accept.
#[verifier::external_body]
fn find_program_address(seeds: &[&[u8]], program_id: &Address) -> (r: Option<ProgramAddress>)
    ensures
        match r {
            Some(found) => program_address(seeds_view(seeds@), program_id@) == Some(
                (found.address@, found.bump),
            ),
            None => program_address(seeds_view(seeds@), program_id@) is None,
        },
{
    let program = Pubkey::new_from_array(program_id.bytes);
    match Pubkey::try_find_program_address(seeds, &program) {
        Some((address, bump)) => Some(
            ProgramAddress { address: Address { bytes: address.to_bytes() }, bump },
        ),
        None => None,
    }
}

/// Derives the address for `seeds` under `program_id`.
fn derive(seeds: &[&[u8]], program_id: &Address) -> (r: Option<ProgramAddress>)
    ensures
        r == derived(seeds_view(seeds@), *program_id),
{
    let r = find_program_address(seeds, program_id);
    proof {
        if let Some(found) = r {
            Address::lemma_from_bytes(found.address);
        }
    }
    r
}

/// The custody authority of the program `program_id`: the one address that
/// holds every account locked in an escrow of this program.
pub fn custody_authority(program_id: &Address) -> (r: Option<ProgramAddress>)
    ensures
        r == derived(custody_seeds(), *program_id),
{
    let tag: &[u8] = ESCROW_PDA_SEED.as_slice();
    let seeds: [&[u8]; 1] = [tag];
    proof {
        assert(seeds_view(seeds@) =~= custody_seeds());
    }
    derive(seeds.as_slice(), program_id)
}

/// The address at which the record labelled `name_tag` lives under the
/// program `program_id`. The label is trimmed before it salts the derivation,
/// so a label and its space-padded form name the same record.
pub fn record_address(program_id: &Address, name_tag: &[u8; 10]) -> (r: Option<ProgramAddress>)
    ensures
        r == derived(record_seeds(name_tag@), *program_id),
{
    let tag: &[u8] = STATE_PDA_SEED.as_slice();
    let stored: &[u8] = name_tag.as_slice();
    let salt: &[u8] = stored.trim_ascii_whitespace();
    let seeds: [&[u8]; 2] = [tag, salt];
    proof {
        assert(seeds_view(seeds@) =~= record_seeds(name_tag@));
    }
    derive(seeds.as_slice(), program_id)
}

} // verus!
