//! Custody vault control plane: access control, vault authority derivation,
//! deposit and withdrawal rules, and relay payload encoding.
//!
//! Each operation takes the accounts it works on as plain values, checks the
//! vault's rules against them, and either changes them as the operation
//! prescribes or leaves them untouched and names the rule that was broken.

use vstd::prelude::*;

pub mod address;
pub mod authority;
pub mod cpi;
pub mod instructions;
pub mod ledger;
pub mod state;
pub mod token;
pub mod wire;

use instructions::deposit_from_user::deposit_spec;
use instructions::deposit_from_user::DepositFromUser;
use instructions::deposit_from_user::DepositOutcome;
use instructions::deposit_from_user::ForwardingStrategy;
use instructions::initialize::initialize_spec;
use instructions::initialize::Initialize;
use instructions::lp_deposit::lp_deposit_spec;
use instructions::lp_deposit::LpDeposit;
use instructions::lp_withdraw::lp_withdraw_spec;
use instructions::lp_withdraw::LpWithdraw;
use instructions::set_allowed_caller::set_allowed_caller_spec;
use instructions::set_allowed_caller::SetAllowedCaller;
use instructions::transfer_out::transfer_out_spec;
use instructions::transfer_out::TransferOut;
use state::ErrorCode;
use state::Pubkey;
use state::VaultError;

verus! {

/// Creates the configuration registry.
pub fn initialize(ctx: &mut Initialize, allowed_caller_authority: Pubkey, allowed_mints: Vec<Pubkey>) -> (r:
    Result<(), ErrorCode>)
    ensures
        initialize_spec(*old(ctx), allowed_caller_authority, allowed_mints@, *final(ctx), r),
{
    instructions::initialize::handler(ctx, allowed_caller_authority, allowed_mints)
}

/// Moves an amount from a user's holding into custody and prepares what the
/// forwarding strategy asks for.
pub fn deposit_from_user(ctx: &mut DepositFromUser, amount: u64, strategy: ForwardingStrategy) -> (r: Result<
    DepositOutcome,
    VaultError,
>)
    ensures
        deposit_spec(
            *old(ctx),
            amount,
            strategy,
            authority::vault_address(
                old(ctx).program_id,
                old(ctx).config_key,
                old(ctx).config.vault_authority_bump,
            ) == Some(old(ctx).vault_authority.bytes@),
            *final(ctx),
            r,
        ),
{
    instructions::deposit_from_user::deposit(ctx, amount, strategy)
}

/// Moves an amount out of custody on behalf of the admin or the authorized
/// caller.
pub fn transfer_out(ctx: &mut TransferOut, amount: u64) -> (r: Result<Vec<Vec<u8>>, VaultError>)
    ensures
        transfer_out_spec(
            *old(ctx),
            amount,
            authority::vault_address(
                old(ctx).program_id,
                old(ctx).config_key,
                old(ctx).config.vault_authority_bump,
            ) == Some(old(ctx).vault_authority.bytes@),
            *final(ctx),
            r,
        ),
{
    instructions::transfer_out::handler(ctx, amount)
}

/// Moves an amount into custody and adds it to the depositor's position.
pub fn lp_deposit(ctx: &mut LpDeposit, amount: u64) -> (r: Result<(), VaultError>)
    ensures
        lp_deposit_spec(*old(ctx), amount, *final(ctx), r),
{
    instructions::lp_deposit::handler(ctx, amount)
}

/// Takes an amount off the owner's position and moves it out of custody.
pub fn lp_withdraw(ctx: &mut LpWithdraw, amount: u64) -> (r: Result<Vec<Vec<u8>>, VaultError>)
    ensures
        lp_withdraw_spec(
            *old(ctx),
            amount,
            authority::vault_address(
                old(ctx).program_id,
                old(ctx).config_key,
                old(ctx).config.vault_authority_bump,
            ) == Some(old(ctx).vault_authority.bytes@),
            *final(ctx),
            r,
        ),
{
    instructions::lp_withdraw::handler(ctx, amount)
}

/// Replaces the authorized caller, for the admin only.
pub fn set_allowed_caller(ctx: &mut SetAllowedCaller, new_allowed_caller: Pubkey) -> (r: Result<(), ErrorCode>)
    ensures
        set_allowed_caller_spec(*old(ctx), new_allowed_caller, *final(ctx), r),
{
    instructions::set_allowed_caller::handler(ctx, new_allowed_caller)
}

} // verus!
