//! Nested calls to other programs, as values: what is to be called, with
//! which accounts and data, and which derived authority signs.

use crate::state::Pubkey;
use vstd::prelude::*;

verus! {

/// The byte strings that a list of seeds holds.
pub open spec fn seeds_view(seeds: Vec<Vec<u8>>) -> Seq<Seq<u8>> {
    Seq::new(seeds@.len(), |i: int| seeds@[i]@)
}

/// One account of a nested call, and how the called program may use it.
#[derive(Clone, Copy, Debug, PartialEq, Eq)]
pub struct AccountMeta {
    pub pubkey: Pubkey,
    pub is_signer: bool,
    pub is_writable: bool,
}

impl AccountMeta {
    /// An account that the called program may read but not write.
    pub fn new_readonly(pubkey: Pubkey, is_signer: bool) -> (meta: AccountMeta)
        ensures
            meta == (AccountMeta { pubkey, is_signer, is_writable: false }),
    {
        AccountMeta { pubkey, is_signer, is_writable: false }
    }
}

/// A call to a program.
#[derive(Clone, Debug, PartialEq, Eq)]
pub struct Instruction {
    pub program_id: Pubkey,
    pub accounts: Vec<AccountMeta>,
    pub data: Vec<u8>,
}

/// A call to a program as a mathematical value.
pub struct InstructionView {
    pub program_id: Pubkey,
    pub accounts: Seq<AccountMeta>,
    pub data: Seq<u8>,
}

impl View for Instruction {
    type V = InstructionView;

    open spec fn view(&self) -> InstructionView {
        InstructionView {
            program_id: self.program_id,
            accounts: self.accounts@,
            data: self.data@,
        }
    }
}

/// A nested call that the vault's derived authority signs: the call, the
/// accounts handed to it, and the seeds from which the signature is rebuilt.
#[derive(Clone, Debug, PartialEq, Eq)]
pub struct Invocation {
    pub instruction: Instruction,
    pub account_infos: Vec<Pubkey>,
    pub signer_seeds: Vec<Vec<u8>>,
}

/// A signed nested call as a mathematical value.
pub struct InvocationView {
    pub instruction: InstructionView,
    pub account_infos: Seq<Pubkey>,
    pub signer_seeds: Seq<Seq<u8>>,
}

impl View for Invocation {
    type V = InvocationView;

    open spec fn view(&self) -> InvocationView {
        InvocationView {
            instruction: self.instruction@,
            account_infos: self.account_infos@,
            signer_seeds: seeds_view(self.signer_seeds),
        }
    }
}

} // verus!
