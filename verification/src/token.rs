//! The movement of an asset between two holdings, as the vault relies on it.
//!
//! The asset ledger itself lies outside the vault. What the vault takes for
//! granted of it is stated here: a movement either takes the amount from one
//! balance and adds it to the other, or fails for one of a few reasons and
//! changes nothing.

use crate::state::Mint;
use crate::state::TokenAccount;
use crate::state::TransferError;
use vstd::prelude::*;

verus! {

/// The reason for which a movement fails, if it does. The checks stand in
/// the order in which they are made.
pub open spec fn transfer_error(
    from: TokenAccount,
    to: TokenAccount,
    mint: Mint,
    amount: u64,
    decimals: u8,
) -> Option<TransferError> {
    if from.amount < amount {
        Some(TransferError::InsufficientFunds)
    } else if from.mint != to.mint || from.mint != mint.key {
        Some(TransferError::MintMismatch)
    } else if decimals != mint.decimals {
        Some(TransferError::MintDecimalsMismatch)
    } else if to.amount + amount > u64::MAX {
        Some(TransferError::Overflow)
    } else {
        None
    }
}

/// The paying holding after a movement.
pub open spec fn debited(from: TokenAccount, amount: u64) -> TokenAccount {
    TokenAccount { mint: from.mint, amount: (from.amount - amount) as u64 }
}

/// The receiving holding after a movement.
pub open spec fn credited(to: TokenAccount, amount: u64) -> TokenAccount {
    TokenAccount { mint: to.mint, amount: (to.amount + amount) as u64 }
}

/// Moves `amount` of the asset `mint` from one holding to another, after
/// checking the paying balance, the holdings' asset and the decimal precision
/// that the caller expects. On failure both holdings are as before.
pub fn transfer(
    from: &mut TokenAccount,
    to: &mut TokenAccount,
    mint: &Mint,
    amount: u64,
    decimals: u8,
) -> (r: Result<(), TransferError>)
    ensures
        match transfer_error(*old(from), *old(to), *mint, amount, decimals) {
            Some(e) => r == Err::<(), TransferError>(e) && *final(from) == *old(from) && *final(to)
                == *old(to),
            None => r is Ok && *final(from) == debited(*old(from), amount) && *final(to)
                == credited(*old(to), amount),
        },
{
    if from.amount < amount {
        return Err(TransferError::InsufficientFunds);
    }
    if from.mint != to.mint || from.mint != mint.key {
        return Err(TransferError::MintMismatch);
    }
    if decimals != mint.decimals {
        return Err(TransferError::MintDecimalsMismatch);
    }
    if amount > u64::MAX - to.amount {
        return Err(TransferError::Overflow);
    }
    from.amount = from.amount - amount;
    to.amount = to.amount + amount;
    Ok(())
}

} // verus!
