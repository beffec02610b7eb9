//! What the vault keeps: its configuration, the liquidity positions, and the
//! holdings it reads.

use vstd::prelude::*;

pub mod error;

pub use error::ErrorCode;
pub use error::TransferError;
pub use error::VaultError;

verus! {

/// Largest number of asset types the allowlist may hold.
pub const MAX_ALLOWED_MINTS: usize = 3;

/// Bytes that the stored configuration takes: an 8-byte header, the admin,
/// the authorized caller, the allowlist with its 4-byte count at full
/// capacity, and the vault authority's parameter.
pub const CONFIG_SPACE: usize = 8 + 32 + 32 + 4 + (32 * MAX_ALLOWED_MINTS) + 1;

/// Bytes that a stored liquidity position takes: an 8-byte header, the
/// owner, the asset and the amount.
pub const LIQUIDITY_POSITION_SPACE: usize = 8 + 32 + 32 + 8;

/// Seed of the address under which the configuration is stored: the bytes
/// of `config`.
pub const CONFIG_SEED: [u8; 6] = [99, 111, 110, 102, 105, 103];

/// Seed of the vault signing authority: the bytes of `vault`.
pub const VAULT_SEED: [u8; 5] = [118, 97, 117, 108, 116];

/// Seed of a liquidity position's address: the bytes of `lp`.
pub const LP_SEED: [u8; 2] = [108, 112];

/// A 32-byte account address.
#[derive(Clone, Copy, Debug)]
pub struct Pubkey {
    pub bytes: [u8; 32],
}

impl PartialEq for Pubkey {
    fn eq(&self, other: &Self) -> (r: bool) {
        let mut i: usize = 0;
        while i < 32
            invariant
                i <= 32,
                forall|k: int| 0 <= k < i ==> self.bytes[k] == other.bytes[k],
            decreases 32 - i,
        {
            if self.bytes[i] != other.bytes[i] {
                assert(self.bytes[i as int] != other.bytes[i as int]);
                return false;
            }
            i += 1;
        }
        assert(self.bytes =~= other.bytes);
        true
    }
}

impl Eq for Pubkey {}

impl vstd::std_specs::cmp::PartialEqSpecImpl for Pubkey {
    open spec fn obeys_eq_spec() -> bool {
        true
    }

    open spec fn eq_spec(&self, other: &Self) -> bool {
        *self == *other
    }
}

/// Two addresses with the same bytes are the same address.
pub proof fn lemma_pubkey_ext(a: Pubkey, b: Pubkey)
    requires
        a.bytes@ == b.bytes@,
    ensures
        a == b,
{
    assert(a.bytes =~= b.bytes);
}

/// The configuration registry: who administers the vault, who else may move
/// assets out of it, which assets it accepts, and the parameter from which
/// its signing authority is derived.
#[derive(Clone, Debug, PartialEq, Eq)]
pub struct Config {
    pub admin: Pubkey,
    pub allowed_caller_authority: Pubkey,
    pub allowed_mints: Vec<Pubkey>,
    pub vault_authority_bump: u8,
}

/// The configuration as a mathematical value.
pub struct ConfigView {
    pub admin: Pubkey,
    pub allowed_caller_authority: Pubkey,
    pub allowed_mints: Seq<Pubkey>,
    pub vault_authority_bump: u8,
}

impl ConfigView {
    /// The allowlist holds at least one asset and no more than its capacity.
    pub open spec fn well_formed(self) -> bool {
        1 <= self.allowed_mints.len() <= MAX_ALLOWED_MINTS
    }

    /// The asset is on the allowlist.
    pub open spec fn allows(self, mint: Pubkey) -> bool {
        self.allowed_mints.contains(mint)
    }

    /// The identity may move assets out of custody.
    pub open spec fn authorizes(self, who: Pubkey) -> bool {
        who == self.admin || who == self.allowed_caller_authority
    }
}

impl View for Config {
    type V = ConfigView;

    open spec fn view(&self) -> ConfigView {
        ConfigView {
            admin: self.admin,
            allowed_caller_authority: self.allowed_caller_authority,
            allowed_mints: self.allowed_mints@,
            vault_authority_bump: self.vault_authority_bump,
        }
    }
}

impl Config {
    /// Tells whether the asset is on the allowlist.
    pub fn is_allowed_mint(&self, mint: &Pubkey) -> (allowed: bool)
        ensures
            allowed == self@.allows(*mint),
    {
        let mut i: usize = 0;
        while i < self.allowed_mints.len()
            invariant
                i <= self.allowed_mints@.len(),
                forall|k: int| 0 <= k < i ==> self.allowed_mints@[k] != *mint,
            decreases self.allowed_mints@.len() - i,
        {
            if self.allowed_mints[i] == *mint {
                return true;
            }
            i += 1;
        }
        false
    }
}

/// A refundable claim of one owner on one asset in custody.
#[derive(Clone, Copy, Debug, PartialEq, Eq)]
pub struct LiquidityPosition {
    pub owner: Pubkey,
    pub mint: Pubkey,
    pub amount: u64,
}

/// A holding: an account that keeps a balance of one asset.
#[derive(Clone, Copy, Debug, PartialEq, Eq)]
pub struct TokenAccount {
    pub mint: Pubkey,
    pub amount: u64,
}

/// An asset type: its address and its declared decimal precision.
#[derive(Clone, Copy, Debug, PartialEq, Eq)]
pub struct Mint {
    pub key: Pubkey,
    pub decimals: u8,
}

} // verus!
