//! The liquidity position ledger over time: what a position holds after any
//! number of deposits and withdrawals.

use crate::instructions::lp_deposit::clamped_sum;
use crate::instructions::lp_deposit::lp_deposit_failure;
use crate::instructions::lp_deposit::lp_deposit_spec;
use crate::instructions::lp_deposit::lp_deposited;
use crate::instructions::lp_deposit::LpDeposit;
use crate::instructions::lp_withdraw::lp_withdraw_asset_check;
use crate::instructions::lp_withdraw::lp_withdraw_spec;
use crate::instructions::lp_withdraw::LpWithdraw;
use crate::state::ErrorCode;
use crate::state::VaultError;
use vstd::prelude::*;

verus! {

/// One operation on a position that passed every rule but, perhaps, the one
/// on the position's balance.
pub enum LedgerOp {
    /// A deposit of the amount, which went through.
    Deposit(u64),
    /// A withdrawal of the amount, which went through if the position held
    /// as much and was refused otherwise.
    Withdraw(u64),
}

/// The balance of a position after one operation.
pub open spec fn ledger_step(balance: u64, op: LedgerOp) -> u64 {
    match op {
        LedgerOp::Deposit(amount) => clamped_sum(balance, amount),
        LedgerOp::Withdraw(amount) => if balance >= amount {
            (balance - amount) as u64
        } else {
            balance
        },
    }
}

/// The balance of a position that started empty, after the operations.
pub open spec fn ledger_balance(ops: Seq<LedgerOp>) -> u64
    decreases ops.len(),
{
    if ops.len() == 0 {
        0
    } else {
        ledger_step(ledger_balance(ops.drop_last()), ops.last())
    }
}

/// The sum of the amounts deposited.
pub open spec fn total_deposited(ops: Seq<LedgerOp>) -> nat
    decreases ops.len(),
{
    if ops.len() == 0 {
        0
    } else {
        total_deposited(ops.drop_last()) + match ops.last() {
            LedgerOp::Deposit(amount) => amount as nat,
            LedgerOp::Withdraw(_) => 0,
        }
    }
}

/// The sum of the amounts withdrawn: those of the withdrawals that went
/// through.
pub open spec fn total_withdrawn(ops: Seq<LedgerOp>) -> nat
    decreases ops.len(),
{
    if ops.len() == 0 {
        0
    } else {
        total_withdrawn(ops.drop_last()) + match ops.last() {
            LedgerOp::Withdraw(amount) if ledger_balance(ops.drop_last()) >= amount => amount as nat,
            _ => 0,
        }
    }
}

/// No deposit took the balance beyond 64 bits, where the addition is clamped.
pub open spec fn never_clamped(ops: Seq<LedgerOp>) -> bool
    decreases ops.len(),
{
    ops.len() == 0 || {
        &&& never_clamped(ops.drop_last())
        &&& ops.last() matches LedgerOp::Deposit(amount) ==> ledger_balance(ops.drop_last()) + amount
            <= u64::MAX
    }
}

/// As long as no deposit was clamped, a position holds what was deposited
/// less what was withdrawn, and no more was withdrawn than deposited.
pub proof fn lemma_ledger_balance(ops: Seq<LedgerOp>)
    requires
        never_clamped(ops),
    ensures
        total_withdrawn(ops) <= total_deposited(ops),
        ledger_balance(ops) == total_deposited(ops) - total_withdrawn(ops),
    decreases ops.len(),
{
    if ops.len() > 0 {
        lemma_ledger_balance(ops.drop_last());
    }
}

/// A withdrawal of more than the position holds changes nothing in the
/// ledger, whatever went before.
pub proof fn lemma_over_withdraw_keeps_balance(ops: Seq<LedgerOp>, amount: u64)
    requires
        ledger_balance(ops) < amount,
    ensures
        ledger_balance(ops.push(LedgerOp::Withdraw(amount))) == ledger_balance(ops),
        total_withdrawn(ops.push(LedgerOp::Withdraw(amount))) == total_withdrawn(ops),
        total_deposited(ops.push(LedgerOp::Withdraw(amount))) == total_deposited(ops),
{
    assert(ops.push(LedgerOp::Withdraw(amount)).drop_last() =~= ops);
}

/// A liquidity deposit that goes through is a deposit step of the ledger.
pub proof fn lemma_lp_deposit_is_step(ctx: LpDeposit, amount: u64)
    requires
        lp_deposit_failure(ctx, amount) is None,
    ensures
        lp_deposited(ctx, amount).liquidity_position.amount == ledger_step(
            ctx.liquidity_position.amount,
            LedgerOp::Deposit(amount),
        ),
{
}

/// A liquidity deposit keeps a position backed: if custody held at least what
/// the position claimed, it does so afterwards too.
pub proof fn lemma_lp_deposit_keeps_backing(
    pre: LpDeposit,
    amount: u64,
    post: LpDeposit,
    r: Result<(), VaultError>,
)
    requires
        lp_deposit_spec(pre, amount, post, r),
        pre.liquidity_position.amount <= pre.vault_token_account.amount,
    ensures
        post.liquidity_position.amount <= post.vault_token_account.amount,
{
}

/// A liquidity withdrawal keeps a position backed: if custody held at least
/// what the position claimed, it does so afterwards too.
pub proof fn lemma_lp_withdraw_keeps_backing(
    pre: LpWithdraw,
    amount: u64,
    signs: bool,
    post: LpWithdraw,
    r: Result<Vec<Vec<u8>>, VaultError>,
)
    requires
        lp_withdraw_spec(pre, amount, signs, post, r),
        pre.liquidity_position.amount <= pre.vault_token_account.amount,
    ensures
        post.liquidity_position.amount <= post.vault_token_account.amount,
{
}

/// A liquidity withdrawal that goes through is a withdrawal step of the
/// ledger, and one that fails changes nothing. Either way the position stays
/// with its owner and its asset, also when nothing is left in it.
pub proof fn lemma_lp_withdraw_is_step(
    pre: LpWithdraw,
    amount: u64,
    signs: bool,
    post: LpWithdraw,
    r: Result<Vec<Vec<u8>>, VaultError>,
)
    requires
        lp_withdraw_spec(pre, amount, signs, post, r),
    ensures
        r is Ok ==> pre.liquidity_position.amount >= amount && post.liquidity_position.amount
            == ledger_step(pre.liquidity_position.amount, LedgerOp::Withdraw(amount)),
        r is Err ==> post == pre,
        post.liquidity_position.owner == pre.liquidity_position.owner,
        post.liquidity_position.mint == pre.liquidity_position.mint,
{
}

/// A withdrawal of more than the position holds, on accounts that pass the
/// rules on the asset, is refused for want of liquidity and changes nothing.
pub proof fn lemma_over_withdraw_is_refused(
    pre: LpWithdraw,
    amount: u64,
    signs: bool,
    post: LpWithdraw,
    r: Result<Vec<Vec<u8>>, VaultError>,
)
    requires
        lp_withdraw_spec(pre, amount, signs, post, r),
        lp_withdraw_asset_check(pre) is None,
        pre.liquidity_position.amount < amount,
    ensures
        r == Err::<Vec<Vec<u8>>, VaultError>(VaultError::Program(ErrorCode::InsufficientLiquidity)),
        post == pre,
{
}

} // verus!
