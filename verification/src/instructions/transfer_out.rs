//! Withdrawals: an authorized invoker moves an asset out of custody.

use crate::authority::derive_vault_authority;
use crate::authority::signer_seeds;
use crate::authority::vault_address;
use crate::authority::vault_signer_seeds;
use crate::cpi::seeds_view;
use crate::state::Config;
use crate::state::ErrorCode;
use crate::state::lemma_pubkey_ext;
use crate::state::Mint;
use crate::state::Pubkey;
use crate::state::TokenAccount;
use crate::state::VaultError;
use crate::token::credited;
use crate::token::debited;
use crate::token::transfer;
use crate::token::transfer_error;
use vstd::prelude::*;

verus! {

/// The accounts of a withdrawal, with what the rules read of each.
#[derive(Clone, Debug, PartialEq, Eq)]
pub struct TransferOut {
    /// Address of this program, under which the vault authority is derived.
    pub program_id: Pubkey,
    pub config: Config,
    /// Address of the configuration.
    pub config_key: Pubkey,
    /// The invoker, who signs.
    pub authority: Pubkey,
    /// The account supplied as the vault authority.
    pub vault_authority: Pubkey,
    pub vault_token_account: TokenAccount,
    pub recipient_token_account: TokenAccount,
    pub mint: Mint,
}

/// The first rule that a withdrawal breaks, if it breaks one.
pub open spec fn transfer_out_check(ctx: TransferOut) -> Option<ErrorCode> {
    if !ctx.config@.authorizes(ctx.authority) {
        Some(ErrorCode::NotAuthorized)
    } else if !ctx.config@.allows(ctx.mint.key) {
        Some(ErrorCode::MintNotAllowed)
    } else if ctx.recipient_token_account.mint != ctx.mint.key {
        Some(ErrorCode::RecipientMintMismatch)
    } else if ctx.vault_token_account.mint != ctx.mint.key {
        Some(ErrorCode::VaultMintMismatch)
    } else {
        None
    }
}

/// The reason for which a withdrawal is aborted, if it is. `signs` tells
/// whether the account supplied as the vault authority is the one that the
/// stored parameter derives. The checks stand in the order in which they
/// are made.
pub open spec fn transfer_out_failure(ctx: TransferOut, amount: u64, signs: bool) -> Option<VaultError> {
    if transfer_out_check(ctx) is Some {
        Some(VaultError::Program(transfer_out_check(ctx)->0))
    } else if !signs {
        Some(VaultError::Program(ErrorCode::BumpNotFound))
    } else if transfer_error(
        ctx.vault_token_account,
        ctx.recipient_token_account,
        ctx.mint,
        amount,
        ctx.mint.decimals,
    ) is Some {
        Some(
            VaultError::Transfer(
                transfer_error(
                    ctx.vault_token_account,
                    ctx.recipient_token_account,
                    ctx.mint,
                    amount,
                    ctx.mint.decimals,
                )->0,
            ),
        )
    } else {
        None
    }
}

/// The accounts after a withdrawal that went through: the amount has left
/// custody and reached the recipient, and nothing else has changed.
pub open spec fn transferred_out(ctx: TransferOut, amount: u64) -> TransferOut {
    TransferOut {
        vault_token_account: debited(ctx.vault_token_account, amount),
        recipient_token_account: credited(ctx.recipient_token_account, amount),
        ..ctx
    }
}

/// What a withdrawal is to do, given whether the vault authority signs. On
/// success it hands out the seeds with which the vault authority signs the
/// movement.
pub open spec fn transfer_out_spec(
    pre: TransferOut,
    amount: u64,
    signs: bool,
    post: TransferOut,
    r: Result<Vec<Vec<u8>>, VaultError>,
) -> bool {
    match transfer_out_failure(pre, amount, signs) {
        Some(e) => r == Err::<Vec<Vec<u8>>, VaultError>(e) && post == pre,
        None => {
            &&& r is Ok
            &&& seeds_view(r->Ok_0) == vault_signer_seeds(pre.config_key, pre.config.vault_authority_bump)
            &&& post == transferred_out(pre, amount)
        },
    }
}

/// A withdrawal invoked by neither the admin nor the authorized caller fails
/// for that reason, whatever else holds of it, and no balance changes.
pub proof fn lemma_transfer_out_needs_authorization(
    pre: TransferOut,
    amount: u64,
    signs: bool,
    post: TransferOut,
    r: Result<Vec<Vec<u8>>, VaultError>,
)
    requires
        transfer_out_spec(pre, amount, signs, post, r),
        pre.authority != pre.config.admin,
        pre.authority != pre.config.allowed_caller_authority,
    ensures
        r == Err::<Vec<Vec<u8>>, VaultError>(VaultError::Program(ErrorCode::NotAuthorized)),
        post == pre,
        post.vault_token_account.amount == pre.vault_token_account.amount,
        post.recipient_token_account.amount == pre.recipient_token_account.amount,
{
}

/// A withdrawal leaves the registry as it is, whether it goes through or not.
pub proof fn lemma_transfer_out_keeps_registry(
    pre: TransferOut,
    amount: u64,
    signs: bool,
    post: TransferOut,
    r: Result<Vec<Vec<u8>>, VaultError>,
)
    requires
        transfer_out_spec(pre, amount, signs, post, r),
    ensures
        post.config == pre.config,
{
}

/// Checks a withdrawal against the registry and the holdings' assets.
pub fn validate_transfer_out(ctx: &TransferOut) -> (r: Result<(), ErrorCode>)
    ensures
        match transfer_out_check(*ctx) {
            Some(e) => r == Err::<(), ErrorCode>(e),
            None => r is Ok,
        },
{
    let authority_key = ctx.authority;
    if !(authority_key == ctx.config.admin || authority_key == ctx.config.allowed_caller_authority) {
        return Err(ErrorCode::NotAuthorized);
    }
    if !ctx.config.is_allowed_mint(&ctx.mint.key) {
        return Err(ErrorCode::MintNotAllowed);
    }
    if ctx.recipient_token_account.mint != ctx.mint.key {
        return Err(ErrorCode::RecipientMintMismatch);
    }
    if ctx.vault_token_account.mint != ctx.mint.key {
        return Err(ErrorCode::VaultMintMismatch);
    }
    Ok(())
}

/// Withdraws with the vault authority that the stored parameter was found to
/// derive, if it derives one.
///
/// The invoker must be the admin or the authorized caller, the asset must be
/// allowed and be that of both holdings, and the account supplied as the
/// vault authority must be the derived one. Then the amount moves from
/// custody to the recipient. Whatever fails, the accounts are left as they
/// were.
pub fn transfer_out_with_authority(ctx: &mut TransferOut, amount: u64, derived: Option<Pubkey>) -> (r: Result<
    Vec<Vec<u8>>,
    VaultError,
>)
    ensures
        transfer_out_spec(*old(ctx), amount, derived == Some(old(ctx).vault_authority), *final(ctx), r),
{
    match validate_transfer_out(ctx) {
        Err(e) => {
            return Err(VaultError::Program(e));
        },
        Ok(()) => {},
    }
    let signs = match derived {
        Some(authority) => authority == ctx.vault_authority,
        None => false,
    };
    if !signs {
        return Err(VaultError::Program(ErrorCode::BumpNotFound));
    }
    let seeds = signer_seeds(&ctx.config_key, ctx.config.vault_authority_bump);
    match transfer(
        &mut ctx.vault_token_account,
        &mut ctx.recipient_token_account,
        &ctx.mint,
        amount,
        ctx.mint.decimals,
    ) {
        Err(e) => Err(VaultError::Transfer(e)),
        Ok(()) => Ok(seeds),
    }
}

/// Moves an amount out of custody to a recipient, on behalf of the admin or
/// the authorized caller, and hands out the seeds with which the vault
/// authority signs the movement. Whatever fails, the accounts are left as
/// they were.
pub fn handler(ctx: &mut TransferOut, amount: u64) -> (r: Result<Vec<Vec<u8>>, VaultError>)
    ensures
        transfer_out_spec(
            *old(ctx),
            amount,
            vault_address(old(ctx).program_id, old(ctx).config_key, old(ctx).config.vault_authority_bump)
                == Some(old(ctx).vault_authority.bytes@),
            *final(ctx),
            r,
        ),
{
    let derived = derive_vault_authority(&ctx.program_id, &ctx.config_key, ctx.config.vault_authority_bump);
    proof {
        if derived is Some && derived->0.bytes@ == ctx.vault_authority.bytes@ {
            lemma_pubkey_ext(derived->0, ctx.vault_authority);
        }
    }
    transfer_out_with_authority(ctx, amount, derived)
}

} // verus!
