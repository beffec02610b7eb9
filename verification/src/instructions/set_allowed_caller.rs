//! Rotation of the authorized caller.

use crate::instructions::transfer_out::transfer_out_check;
use crate::instructions::transfer_out::TransferOut;
use crate::state::Config;
use crate::state::ErrorCode;
use crate::state::Pubkey;
use vstd::prelude::*;

verus! {

/// The accounts of a rotation, with what the rules read of each.
#[derive(Clone, Debug, PartialEq, Eq)]
pub struct SetAllowedCaller {
    pub config: Config,
    /// The invoker, who signs.
    pub admin: Pubkey,
}

/// The registry after a rotation: the authorized caller is the new one, and
/// nothing else has changed.
pub open spec fn rotated(config: Config, new_allowed_caller: Pubkey) -> Config {
    Config { allowed_caller_authority: new_allowed_caller, ..config }
}

/// What a rotation is to do: for the admin it replaces the authorized caller,
/// for anyone else it refuses and leaves the accounts as they were.
pub open spec fn set_allowed_caller_spec(
    pre: SetAllowedCaller,
    new_allowed_caller: Pubkey,
    post: SetAllowedCaller,
    r: Result<(), ErrorCode>,
) -> bool {
    if pre.admin == pre.config.admin {
        &&& r is Ok
        &&& post.admin == pre.admin
        &&& post.config == rotated(pre.config, new_allowed_caller)
    } else {
        &&& r == Err::<(), ErrorCode>(ErrorCode::NotAuthorized)
        &&& post == pre
    }
}

/// A rotation by anyone but the admin fails and leaves the authorized caller
/// as it was; one by the admin goes through, and the very next withdrawal
/// that the new caller invokes under the rotated registry is not refused for
/// want of authorization.
pub proof fn lemma_rotation_takes_effect(
    pre: SetAllowedCaller,
    new_allowed_caller: Pubkey,
    post: SetAllowedCaller,
    r: Result<(), ErrorCode>,
    next: TransferOut,
)
    requires
        set_allowed_caller_spec(pre, new_allowed_caller, post, r),
    ensures
        pre.admin != pre.config.admin ==> r == Err::<(), ErrorCode>(ErrorCode::NotAuthorized)
            && post.config.allowed_caller_authority == pre.config.allowed_caller_authority,
        pre.admin == pre.config.admin ==> r is Ok && post.config.allowed_caller_authority
            == new_allowed_caller,
        pre.admin == pre.config.admin && next.config == post.config && next.authority
            == new_allowed_caller ==> next.config@.authorizes(next.authority) && transfer_out_check(next)
            != Some(ErrorCode::NotAuthorized),
{
}

/// A rotation, whether it goes through or not, leaves the allowlist within
/// its bounds.
pub proof fn lemma_rotation_keeps_allowlist(
    pre: SetAllowedCaller,
    new_allowed_caller: Pubkey,
    post: SetAllowedCaller,
    r: Result<(), ErrorCode>,
)
    requires
        set_allowed_caller_spec(pre, new_allowed_caller, post, r),
        pre.config@.well_formed(),
    ensures
        post.config@.well_formed(),
        post.config@.allowed_mints == pre.config@.allowed_mints,
        post.config@.admin == pre.config@.admin,
        post.config@.vault_authority_bump == pre.config@.vault_authority_bump,
{
}

/// Replaces the authorized caller. Only the admin may do so; for any other
/// invoker the registry is left as it was.
pub fn handler(ctx: &mut SetAllowedCaller, new_allowed_caller: Pubkey) -> (r: Result<(), ErrorCode>)
    ensures
        set_allowed_caller_spec(*old(ctx), new_allowed_caller, *final(ctx), r),
{
    if ctx.admin != ctx.config.admin {
        return Err(ErrorCode::NotAuthorized);
    }
    ctx.config.allowed_caller_authority = new_allowed_caller;
    Ok(())
}

} // verus!
