//! Creation of the configuration registry.

use crate::address::derivable;
use crate::address::is_canonical_bump;
use crate::authority::find_vault_authority;
use crate::authority::vault_seeds;
use crate::state::Config;
use crate::state::ConfigView;
use crate::state::ErrorCode;
use crate::state::MAX_ALLOWED_MINTS;
use crate::state::Pubkey;
use vstd::prelude::*;

verus! {

/// The accounts of the initialization, with what the rules read of each.
#[derive(Clone, Debug, PartialEq, Eq)]
pub struct Initialize {
    /// Address of this program, under which the vault authority is derived.
    pub program_id: Pubkey,
    /// The registry to fill.
    pub config: Config,
    /// Address of the registry.
    pub config_key: Pubkey,
    /// The identity that creates the registry, and administers it from then on.
    pub admin: Pubkey,
}

/// The allowlist has a size within its bounds.
pub open spec fn allowlist_size_ok(allowed_mints: Seq<Pubkey>) -> bool {
    1 <= allowed_mints.len() <= MAX_ALLOWED_MINTS
}

/// The reason for which the initialization is refused, if it is. `found`
/// tells whether a parameter for the vault authority was found.
pub open spec fn initialize_failure(allowed_mints: Seq<Pubkey>, found: bool) -> Option<ErrorCode> {
    if !allowlist_size_ok(allowed_mints) {
        Some(ErrorCode::MintNotAllowed)
    } else if !found {
        Some(ErrorCode::BumpNotFound)
    } else {
        None
    }
}

/// The registry that the initialization writes.
pub open spec fn initial_config(
    admin: Pubkey,
    allowed_caller_authority: Pubkey,
    allowed_mints: Seq<Pubkey>,
    bump: u8,
) -> ConfigView {
    ConfigView { admin, allowed_caller_authority, allowed_mints, vault_authority_bump: bump }
}

/// The parameter that the search found, if it found one.
pub open spec fn found_bump(found: Option<(Pubkey, u8)>) -> u8 {
    match found {
        Some((_, bump)) => bump,
        None => 0,
    }
}

/// The accounts differ in the registry at most.
pub open spec fn same_but_config(pre: Initialize, post: Initialize) -> bool {
    &&& post.program_id == pre.program_id
    &&& post.config_key == pre.config_key
    &&& post.admin == pre.admin
}

/// Fills the registry, given the outcome of the search for the vault
/// authority's parameter.
///
/// An allowlist with no entry or with more than three is refused, and so is
/// a search that found nothing; the accounts are then left as they were.
/// Otherwise the registry names the creator as admin and holds the
/// authorized caller, the allowlist and the parameter found.
pub fn initialize_with_authority(
    ctx: &mut Initialize,
    allowed_caller_authority: Pubkey,
    allowed_mints: Vec<Pubkey>,
    found: Option<(Pubkey, u8)>,
) -> (r: Result<(), ErrorCode>)
    ensures
        match initialize_failure(allowed_mints@, found is Some) {
            Some(e) => r == Err::<(), ErrorCode>(e) && *final(ctx) == *old(ctx),
            None => {
                &&& r is Ok
                &&& same_but_config(*old(ctx), *final(ctx))
                &&& final(ctx).config@ == initial_config(
                    old(ctx).admin,
                    allowed_caller_authority,
                    allowed_mints@,
                    found_bump(found),
                )
                &&& final(ctx).config@.well_formed()
            },
        },
{
    if !(allowed_mints.len() >= 1 && allowed_mints.len() <= MAX_ALLOWED_MINTS) {
        return Err(ErrorCode::MintNotAllowed);
    }
    let bump: u8 = match found {
        Some((_, bump)) => bump,
        None => {
            return Err(ErrorCode::BumpNotFound);
        },
    };
    ctx.config.admin = ctx.admin;
    ctx.config.allowed_caller_authority = allowed_caller_authority;
    ctx.config.allowed_mints = allowed_mints;
    ctx.config.vault_authority_bump = bump;
    Ok(())
}

/// What the initialization is to do: it refuses an allowlist of a wrong size
/// first and a vault authority without a parameter second, and leaves the
/// accounts alone in both cases; otherwise it fills the registry, with the
/// first parameter from 255 downwards that derives an address.
pub open spec fn initialize_spec(
    pre: Initialize,
    allowed_caller_authority: Pubkey,
    allowed_mints: Seq<Pubkey>,
    post: Initialize,
    r: Result<(), ErrorCode>,
) -> bool {
    match initialize_failure(allowed_mints, derivable(vault_seeds(pre.config_key), pre.program_id.bytes@)) {
        Some(e) => r == Err::<(), ErrorCode>(e) && post == pre,
        None => {
            &&& r is Ok
            &&& same_but_config(pre, post)
            &&& post.config@ == initial_config(
                pre.admin,
                allowed_caller_authority,
                allowed_mints,
                post.config.vault_authority_bump,
            )
            &&& post.config@.well_formed()
            &&& is_canonical_bump(
                vault_seeds(pre.config_key),
                pre.program_id.bytes@,
                post.config.vault_authority_bump,
            )
        },
    }
}

/// Creates the registry: checks the allowlist's size, derives the vault
/// authority's parameter and stores it with the admin, the authorized caller
/// and the allowlist. Where the initialization is refused the accounts are
/// left as they were.
pub fn handler(ctx: &mut Initialize, allowed_caller_authority: Pubkey, allowed_mints: Vec<Pubkey>) -> (r: Result<
    (),
    ErrorCode,
>)
    ensures
        initialize_spec(*old(ctx), allowed_caller_authority, allowed_mints@, *final(ctx), r),
{
    let found = find_vault_authority(&ctx.program_id, &ctx.config_key);
    initialize_with_authority(ctx, allowed_caller_authority, allowed_mints, found)
}

} // verus!
