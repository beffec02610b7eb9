//! The vault's operations, one module each.

pub mod deposit_from_user;
pub mod initialize;
pub mod lp_deposit;
pub mod lp_withdraw;
pub mod set_allowed_caller;
pub mod transfer_out;
