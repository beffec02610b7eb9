//! The vault signing authority: an address derived from a fixed seed, the
//! configuration's address and a one-byte parameter. It holds no key; whoever
//! knows the three inputs can rebuild the seeds that sign for it.

use crate::address::address_bytes;
use crate::address::create_program_address;
use crate::address::found_under;
use crate::address::program_address;
use crate::address::seed_of;
use crate::address::try_find_program_address;
use crate::cpi::seeds_view;
use crate::state::Pubkey;
use crate::state::VAULT_SEED;
use vstd::prelude::*;

verus! {

/// The seeds of the vault authority without its parameter.
pub open spec fn vault_seeds(config_key: Pubkey) -> Seq<Seq<u8>> {
    seq![VAULT_SEED@, config_key.bytes@]
}

/// The seeds that sign for the vault authority.
pub open spec fn vault_signer_seeds(config_key: Pubkey, bump: u8) -> Seq<Seq<u8>> {
    vault_seeds(config_key).push(seq![bump])
}

/// The address of the vault authority under a parameter, if it derives one.
pub open spec fn vault_address(program_id: Pubkey, config_key: Pubkey, bump: u8) -> Option<Seq<u8>> {
    program_address(vault_signer_seeds(config_key, bump), program_id.bytes@)
}

/// The seeds of the vault authority without its parameter.
fn seeds_without_bump(config_key: &Pubkey) -> (seeds: Vec<Vec<u8>>)
    ensures
        seeds_view(seeds) == vault_seeds(*config_key),
{
    let mut seeds: Vec<Vec<u8>> = Vec::new();
    seeds.push(seed_of(&VAULT_SEED));
    seeds.push(seed_of(&config_key.bytes));
    seeds
}

/// Rebuilds the seeds that sign for the vault authority.
pub fn signer_seeds(config_key: &Pubkey, bump: u8) -> (seeds: Vec<Vec<u8>>)
    ensures
        seeds_view(seeds) == vault_signer_seeds(*config_key, bump),
{
    let mut seeds = seeds_without_bump(config_key);
    let mut last: Vec<u8> = Vec::new();
    last.push(bump);
    seeds.push(last);
    seeds
}

/// Derives the vault authority from a known parameter.
pub fn derive_vault_authority(program_id: &Pubkey, config_key: &Pubkey, bump: u8) -> (authority: Option<Pubkey>)
    ensures
        address_bytes(authority) == vault_address(*program_id, *config_key, bump),
{
    let seeds = signer_seeds(config_key, bump);
    create_program_address(&seeds, program_id)
}

/// Searches the parameter of the vault authority and derives its address.
pub fn find_vault_authority(program_id: &Pubkey, config_key: &Pubkey) -> (found: Option<(Pubkey, u8)>)
    ensures
        found_under(vault_seeds(*config_key), program_id.bytes@, found),
{
    let seeds = seeds_without_bump(config_key);
    try_find_program_address(&seeds, program_id)
}

} // verus!
