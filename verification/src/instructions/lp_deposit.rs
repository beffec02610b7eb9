//! Liquidity deposits: an owner moves an asset into custody and keeps a
//! refundable claim on it.

use crate::state::Config;
use crate::state::ErrorCode;
use crate::state::LiquidityPosition;
use crate::state::Mint;
use crate::state::Pubkey;
use crate::state::TokenAccount;
use crate::state::VaultError;
use crate::token::credited;
use crate::token::debited;
use crate::token::transfer;
use crate::token::transfer_error;
use vstd::prelude::*;

verus! {

/// The accounts of a liquidity deposit, with what the rules read of each.
#[derive(Clone, Debug, PartialEq, Eq)]
pub struct LpDeposit {
    pub config: Config,
    /// The depositor, who signs.
    pub user: Pubkey,
    /// The depositor's position in the asset; all zero before its first use.
    pub liquidity_position: LiquidityPosition,
    pub user_source_token: TokenAccount,
    pub vault_token_account: TokenAccount,
    pub mint: Mint,
}

/// The first rule that a liquidity deposit breaks, if it breaks one.
pub open spec fn lp_deposit_check(ctx: LpDeposit) -> Option<ErrorCode> {
    if !ctx.config@.allows(ctx.mint.key) {
        Some(ErrorCode::MintNotAllowed)
    } else if ctx.user_source_token.mint != ctx.mint.key {
        Some(ErrorCode::SourceMintMismatch)
    } else if ctx.vault_token_account.mint != ctx.mint.key {
        Some(ErrorCode::VaultMintMismatch)
    } else {
        None
    }
}

/// The reason for which a liquidity deposit is aborted, if it is. The checks
/// stand in the order in which they are made.
pub open spec fn lp_deposit_failure(ctx: LpDeposit, amount: u64) -> Option<VaultError> {
    if lp_deposit_check(ctx) is Some {
        Some(VaultError::Program(lp_deposit_check(ctx)->0))
    } else if transfer_error(
        ctx.user_source_token,
        ctx.vault_token_account,
        ctx.mint,
        amount,
        ctx.mint.decimals,
    ) is Some {
        Some(
            VaultError::Transfer(
                transfer_error(
                    ctx.user_source_token,
                    ctx.vault_token_account,
                    ctx.mint,
                    amount,
                    ctx.mint.decimals,
                )->0,
            ),
        )
    } else {
        None
    }
}

/// The sum of a balance and an amount, held at the largest 64-bit value where
/// it would exceed it.
pub open spec fn clamped_sum(balance: u64, amount: u64) -> u64 {
    if balance + amount > u64::MAX {
        u64::MAX
    } else {
        (balance + amount) as u64
    }
}

/// The position after a deposit: an empty position takes the depositor and
/// the asset as its own, and the amount is added, clamped.
pub open spec fn position_after_deposit(
    position: LiquidityPosition,
    user: Pubkey,
    mint: Pubkey,
    amount: u64,
) -> LiquidityPosition {
    LiquidityPosition {
        owner: if position.amount == 0 { user } else { position.owner },
        mint: if position.amount == 0 { mint } else { position.mint },
        amount: clamped_sum(position.amount, amount),
    }
}

/// The accounts after a liquidity deposit that went through.
pub open spec fn lp_deposited(ctx: LpDeposit, amount: u64) -> LpDeposit {
    LpDeposit {
        liquidity_position: position_after_deposit(
            ctx.liquidity_position,
            ctx.user,
            ctx.mint.key,
            amount,
        ),
        user_source_token: debited(ctx.user_source_token, amount),
        vault_token_account: credited(ctx.vault_token_account, amount),
        ..ctx
    }
}

/// What a liquidity deposit is to do.
pub open spec fn lp_deposit_spec(pre: LpDeposit, amount: u64, post: LpDeposit, r: Result<(), VaultError>) -> bool {
    match lp_deposit_failure(pre, amount) {
        Some(e) => r == Err::<(), VaultError>(e) && post == pre,
        None => r is Ok && post == lp_deposited(pre, amount),
    }
}

/// A liquidity deposit leaves the registry as it is, whether it goes through
/// or not.
pub proof fn lemma_lp_deposit_keeps_registry(pre: LpDeposit, amount: u64, post: LpDeposit, r: Result<(), VaultError>)
    requires
        lp_deposit_spec(pre, amount, post, r),
    ensures
        post.config == pre.config,
{
}

/// Checks a liquidity deposit against the allowlist and the holdings' assets.
pub fn validate_lp_deposit(ctx: &LpDeposit) -> (r: Result<(), ErrorCode>)
    ensures
        match lp_deposit_check(*ctx) {
            Some(e) => r == Err::<(), ErrorCode>(e),
            None => r is Ok,
        },
{
    if !ctx.config.is_allowed_mint(&ctx.mint.key) {
        return Err(ErrorCode::MintNotAllowed);
    }
    if ctx.user_source_token.mint != ctx.mint.key {
        return Err(ErrorCode::SourceMintMismatch);
    }
    if ctx.vault_token_account.mint != ctx.mint.key {
        return Err(ErrorCode::VaultMintMismatch);
    }
    Ok(())
}

/// Moves an amount from the depositor's holding into custody and adds it to
/// the depositor's position, which is set up on its first use. The addition
/// is clamped at the largest 64-bit value. Whatever fails, the accounts are
/// left as they were.
pub fn handler(ctx: &mut LpDeposit, amount: u64) -> (r: Result<(), VaultError>)
    ensures
        lp_deposit_spec(*old(ctx), amount, *final(ctx), r),
{
    match validate_lp_deposit(ctx) {
        Err(e) => {
            return Err(VaultError::Program(e));
        },
        Ok(()) => {},
    }
    match transfer(
        &mut ctx.user_source_token,
        &mut ctx.vault_token_account,
        &ctx.mint,
        amount,
        ctx.mint.decimals,
    ) {
        Err(e) => {
            return Err(VaultError::Transfer(e));
        },
        Ok(()) => {},
    }
    if ctx.liquidity_position.amount == 0 {
        ctx.liquidity_position.owner = ctx.user;
        ctx.liquidity_position.mint = ctx.mint.key;
    }
    ctx.liquidity_position.amount = ctx.liquidity_position.amount.saturating_add(amount);
    Ok(())
}

} // verus!
