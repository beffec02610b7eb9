//! Liquidity withdrawals: an owner takes back what the position holds.

use crate::authority::derive_vault_authority;
use crate::authority::signer_seeds;
use crate::authority::vault_address;
use crate::authority::vault_signer_seeds;
use crate::cpi::seeds_view;
use crate::state::Config;
use crate::state::ErrorCode;
use crate::state::lemma_pubkey_ext;
use crate::state::LiquidityPosition;
use crate::state::Mint;
use crate::state::Pubkey;
use crate::state::TokenAccount;
use crate::state::VaultError;
use crate::token::credited;
use crate::token::debited;
use crate::token::transfer;
use crate::token::transfer_error;
use vstd::prelude::*;

verus! {

/// The accounts of a liquidity withdrawal, with what the rules read of each.
#[derive(Clone, Debug, PartialEq, Eq)]
pub struct LpWithdraw {
    /// Address of this program, under which the vault authority is derived.
    pub program_id: Pubkey,
    pub config: Config,
    /// Address of the configuration.
    pub config_key: Pubkey,
    /// The owner of the position, who signs.
    pub user: Pubkey,
    pub liquidity_position: LiquidityPosition,
    /// The account supplied as the vault authority.
    pub vault_authority: Pubkey,
    pub vault_token_account: TokenAccount,
    pub user_destination_token: TokenAccount,
    pub mint: Mint,
}

/// The first rule on the asset that a liquidity withdrawal breaks, if it
/// breaks one.
pub open spec fn lp_withdraw_asset_check(ctx: LpWithdraw) -> Option<ErrorCode> {
    if !ctx.config@.allows(ctx.mint.key) {
        Some(ErrorCode::MintNotAllowed)
    } else if ctx.user_destination_token.mint != ctx.mint.key {
        Some(ErrorCode::RecipientMintMismatch)
    } else if ctx.vault_token_account.mint != ctx.mint.key {
        Some(ErrorCode::VaultMintMismatch)
    } else {
        None
    }
}

/// The first rule that a liquidity withdrawal breaks, if it breaks one: the
/// rules on the asset come first, the one on the position's balance last.
pub open spec fn lp_withdraw_check(ctx: LpWithdraw, amount: u64) -> Option<ErrorCode> {
    if lp_withdraw_asset_check(ctx) is Some {
        lp_withdraw_asset_check(ctx)
    } else if ctx.liquidity_position.amount < amount {
        Some(ErrorCode::InsufficientLiquidity)
    } else {
        None
    }
}

/// The reason for which a liquidity withdrawal is aborted, if it is. `signs`
/// tells whether the account supplied as the vault authority is the one that
/// the stored parameter derives. The checks stand in the order in which they
/// are made.
pub open spec fn lp_withdraw_failure(ctx: LpWithdraw, amount: u64, signs: bool) -> Option<VaultError> {
    if lp_withdraw_check(ctx, amount) is Some {
        Some(VaultError::Program(lp_withdraw_check(ctx, amount)->0))
    } else if !signs {
        Some(VaultError::Program(ErrorCode::BumpNotFound))
    } else if transfer_error(
        ctx.vault_token_account,
        ctx.user_destination_token,
        ctx.mint,
        amount,
        ctx.mint.decimals,
    ) is Some {
        Some(
            VaultError::Transfer(
                transfer_error(
                    ctx.vault_token_account,
                    ctx.user_destination_token,
                    ctx.mint,
                    amount,
                    ctx.mint.decimals,
                )->0,
            ),
        )
    } else {
        None
    }
}

/// The position after a withdrawal of no more than it holds.
pub open spec fn position_after_withdraw(position: LiquidityPosition, amount: u64) -> LiquidityPosition {
    LiquidityPosition { amount: (position.amount - amount) as u64, ..position }
}

/// The accounts after a liquidity withdrawal that went through.
pub open spec fn lp_withdrawn(ctx: LpWithdraw, amount: u64) -> LpWithdraw {
    LpWithdraw {
        liquidity_position: position_after_withdraw(ctx.liquidity_position, amount),
        vault_token_account: debited(ctx.vault_token_account, amount),
        user_destination_token: credited(ctx.user_destination_token, amount),
        ..ctx
    }
}

/// What a liquidity withdrawal is to do, given whether the vault authority
/// signs. On success it hands out the seeds with which the vault authority
/// signs the movement.
pub open spec fn lp_withdraw_spec(
    pre: LpWithdraw,
    amount: u64,
    signs: bool,
    post: LpWithdraw,
    r: Result<Vec<Vec<u8>>, VaultError>,
) -> bool {
    match lp_withdraw_failure(pre, amount, signs) {
        Some(e) => r == Err::<Vec<Vec<u8>>, VaultError>(e) && post == pre,
        None => {
            &&& r is Ok
            &&& seeds_view(r->Ok_0) == vault_signer_seeds(pre.config_key, pre.config.vault_authority_bump)
            &&& post == lp_withdrawn(pre, amount)
        },
    }
}

/// A liquidity withdrawal leaves the registry as it is, whether it goes
/// through or not.
pub proof fn lemma_lp_withdraw_keeps_registry(
    pre: LpWithdraw,
    amount: u64,
    signs: bool,
    post: LpWithdraw,
    r: Result<Vec<Vec<u8>>, VaultError>,
)
    requires
        lp_withdraw_spec(pre, amount, signs, post, r),
    ensures
        post.config == pre.config,
{
}

/// Checks a liquidity withdrawal against the allowlist, the holdings' assets
/// and the position.
pub fn validate_lp_withdraw(ctx: &LpWithdraw, amount: u64) -> (r: Result<(), ErrorCode>)
    ensures
        match lp_withdraw_check(*ctx, amount) {
            Some(e) => r == Err::<(), ErrorCode>(e),
            None => r is Ok,
        },
{
    if !ctx.config.is_allowed_mint(&ctx.mint.key) {
        return Err(ErrorCode::MintNotAllowed);
    }
    if ctx.user_destination_token.mint != ctx.mint.key {
        return Err(ErrorCode::RecipientMintMismatch);
    }
    if ctx.vault_token_account.mint != ctx.mint.key {
        return Err(ErrorCode::VaultMintMismatch);
    }
    if !(ctx.liquidity_position.amount >= amount) {
        return Err(ErrorCode::InsufficientLiquidity);
    }
    Ok(())
}

/// Withdraws liquidity with the vault authority that the stored parameter was
/// found to derive, if it derives one.
///
/// The asset must be allowed and be that of both holdings, the position must
/// hold the amount, and the account supplied as the vault authority must be
/// the derived one. Then the position is reduced and the amount moves from
/// custody to the owner's holding. Whatever fails, the accounts are left as
/// they were.
pub fn lp_withdraw_with_authority(ctx: &mut LpWithdraw, amount: u64, derived: Option<Pubkey>) -> (r: Result<
    Vec<Vec<u8>>,
    VaultError,
>)
    ensures
        lp_withdraw_spec(*old(ctx), amount, derived == Some(old(ctx).vault_authority), *final(ctx), r),
{
    match validate_lp_withdraw(ctx, amount) {
        Err(e) => {
            return Err(VaultError::Program(e));
        },
        Ok(()) => {},
    }
    let signs = match derived {
        Some(authority) => authority == ctx.vault_authority,
        None => false,
    };
    if !signs {
        return Err(VaultError::Program(ErrorCode::BumpNotFound));
    }
    let seeds = signer_seeds(&ctx.config_key, ctx.config.vault_authority_bump);
    match transfer(
        &mut ctx.vault_token_account,
        &mut ctx.user_destination_token,
        &ctx.mint,
        amount,
        ctx.mint.decimals,
    ) {
        Err(e) => {
            return Err(VaultError::Transfer(e));
        },
        Ok(()) => {},
    }
    ctx.liquidity_position.amount = ctx.liquidity_position.amount - amount;
    Ok(seeds)
}

/// Reduces the owner's position by an amount and moves the amount from
/// custody to the owner's holding, and hands out the seeds with which the
/// vault authority signs the movement. A position that holds less than the
/// amount is left alone. Whatever fails, the accounts are left as they were.
pub fn handler(ctx: &mut LpWithdraw, amount: u64) -> (r: Result<Vec<Vec<u8>>, VaultError>)
    ensures
        lp_withdraw_spec(
            *old(ctx),
            amount,
            vault_address(old(ctx).program_id, old(ctx).config_key, old(ctx).config.vault_authority_bump)
                == Some(old(ctx).vault_authority.bytes@),
            *final(ctx),
            r,
        ),
{
    let derived = derive_vault_authority(&ctx.program_id, &ctx.config_key, ctx.config.vault_authority_bump);
    proof {
        if derived is Some && derived->0.bytes@ == ctx.vault_authority.bytes@ {
            lemma_pubkey_ext(derived->0, ctx.vault_authority);
        }
    }
    lp_withdraw_with_authority(ctx, amount, derived)
}

} // verus!
