//! Addresses that the ledger derives for a program from seeds. Such an
//! address has no key; the program that it was derived for signs for it by
//! naming the seeds.

use crate::cpi::seeds_view;
use crate::state::CONFIG_SEED;
use crate::state::LP_SEED;
use crate::state::Pubkey;
use vstd::prelude::*;

verus! {

/// The address that the ledger derives for a program from a list of seeds, if
/// the seeds derive one.
pub uninterp spec fn program_address(seeds: Seq<Seq<u8>>, program_id: Seq<u8>) -> Option<Seq<u8>>;

/// The bytes of an address that may be absent.
pub open spec fn address_bytes(address: Option<Pubkey>) -> Option<Seq<u8>> {
    match address {
        Some(key) => Some(key.bytes@),
        None => None,
    }
}

/// `bump` is the parameter that a search from 255 downwards finds first: with
/// it the seeds derive an address, and with no larger one they do.
pub open spec fn is_canonical_bump(seeds: Seq<Seq<u8>>, program_id: Seq<u8>, bump: u8) -> bool {
    &&& 1 <= bump
    &&& program_address(seeds.push(seq![bump]), program_id) is Some
    &&& forall|b: u8| bump < b ==> program_address(#[trigger] seeds.push(seq![b]), program_id) is None
}

/// Some parameter from 255 down to 1 makes the seeds derive an address.
pub open spec fn derivable(seeds: Seq<Seq<u8>>, program_id: Seq<u8>) -> bool {
    exists|b: u8| 1 <= b && program_address(#[trigger] seeds.push(seq![b]), program_id) is Some
}

/// What a search for an address under some seeds gives: the address and the
/// first parameter, from 255 downwards, with which the seeds derive one; or
/// nothing, if no parameter from 255 down to 1 does.
pub open spec fn found_under(seeds: Seq<Seq<u8>>, program_id: Seq<u8>, found: Option<(Pubkey, u8)>) -> bool {
    match found {
        Some((address, bump)) => {
            &&& is_canonical_bump(seeds, program_id, bump)
            &&& program_address(seeds.push(seq![bump]), program_id) == Some(address.bytes@)
        },
        None => !derivable(seeds, program_id),
    }
}

/// Calls `Pubkey::create_program_address` of solana-pubkey, which hashes the
/// seeds, the program's address and a fixed marker, and answers with the hash
/// as an address unless a seed is too long, the seeds are too many, or the
/// hash is a point of the curve. The contract only names that answer.
#[verifier::external_body]
pub(crate) fn create_program_address(seeds: &Vec<Vec<u8>>, program_id: &Pubkey) -> (r: Option<Pubkey>)
    ensures
        address_bytes(r) == program_address(seeds_view(*seeds), program_id.bytes@),
{
    let parts: Vec<&[u8]> = seeds.iter().map(|s| s.as_slice()).collect();
    let id = anchor_lang::prelude::Pubkey::new_from_array(program_id.bytes);
    match anchor_lang::prelude::Pubkey::create_program_address(&parts, &id) {
        Ok(address) => Some(Pubkey { bytes: address.to_bytes() }),
        Err(_) => None,
    }
}

/// Calls `Pubkey::try_find_program_address` of solana-pubkey. It appends a
/// one-byte seed to the seeds, tries the values 255 down to 1 for it, and
/// answers with the first that `create_program_address` accepts, together
/// with the address derived; it answers with nothing when none is accepted.
#[verifier::external_body]
pub(crate) fn try_find_program_address(seeds: &Vec<Vec<u8>>, program_id: &Pubkey) -> (r: Option<(Pubkey, u8)>)
    ensures
        found_under(seeds_view(*seeds), program_id.bytes@, r),
{
    let parts: Vec<&[u8]> = seeds.iter().map(|s| s.as_slice()).collect();
    let id = anchor_lang::prelude::Pubkey::new_from_array(program_id.bytes);
    match anchor_lang::prelude::Pubkey::try_find_program_address(&parts, &id) {
        Some((address, bump)) => Some((Pubkey { bytes: address.to_bytes() }, bump)),
        None => None,
    }
}

/// Copies a byte array into a vector.
pub(crate) fn seed_of<const N: usize>(bytes: &[u8; N]) -> (seed: Vec<u8>)
    ensures
        seed@ == bytes@,
{
    let mut seed: Vec<u8> = Vec::new();
    let mut i: usize = 0;
    while i < N
        invariant
            i <= N,
            seed@ == bytes@.subrange(0, i as int),
        decreases N - i,
    {
        seed.push(bytes[i]);
        assert(seed@ =~= bytes@.subrange(0, i + 1));
        i += 1;
    }
    assert(bytes@.subrange(0, N as int) =~= bytes@);
    seed
}

/// The seeds of the address under which the configuration is stored.
pub open spec fn config_seeds() -> Seq<Seq<u8>> {
    seq![CONFIG_SEED@]
}

/// The seeds of the address under which an owner's position in an asset is
/// stored: one address for each pair of owner and asset.
pub open spec fn position_seeds(owner: Pubkey, mint: Pubkey) -> Seq<Seq<u8>> {
    seq![LP_SEED@, owner.bytes@, mint.bytes@]
}

/// Derives the address under which the configuration is stored.
pub fn find_config_address(program_id: &Pubkey) -> (found: Option<(Pubkey, u8)>)
    ensures
        found_under(config_seeds(), program_id.bytes@, found),
{
    let mut seeds: Vec<Vec<u8>> = Vec::new();
    seeds.push(seed_of(&CONFIG_SEED));
    assert(seeds_view(seeds) =~= config_seeds());
    try_find_program_address(&seeds, program_id)
}

/// Derives the address under which an owner's position in an asset is
/// stored.
pub fn find_position_address(program_id: &Pubkey, owner: &Pubkey, mint: &Pubkey) -> (found: Option<
    (Pubkey, u8),
>)
    ensures
        found_under(position_seeds(*owner, *mint), program_id.bytes@, found),
{
    let mut seeds: Vec<Vec<u8>> = Vec::new();
    seeds.push(seed_of(&LP_SEED));
    seeds.push(seed_of(&owner.bytes));
    seeds.push(seed_of(&mint.bytes));
    assert(seeds_view(seeds) =~= position_seeds(*owner, *mint));
    try_find_program_address(&seeds, program_id)
}

} // verus!
