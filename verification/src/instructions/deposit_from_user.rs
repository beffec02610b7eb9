//! Deposits: an asset moves from a user's holding into custody, and the
//! deposit may be announced to another program.

use crate::authority::derive_vault_authority;
use crate::authority::signer_seeds;
use crate::authority::vault_address;
use crate::authority::vault_signer_seeds;
use crate::cpi::AccountMeta;
use crate::cpi::Instruction;
use crate::cpi::InstructionView;
use crate::cpi::Invocation;
use crate::cpi::InvocationView;
use crate::state::Config;
use crate::state::ErrorCode;
use crate::state::lemma_pubkey_ext;
use crate::state::Mint;
use crate::state::Pubkey;
use crate::state::TokenAccount;
use crate::state::VaultError;
use crate::token::credited;
use crate::token::debited;
use crate::token::transfer;
use crate::token::transfer_error;
use crate::wire::ascii_bytes;
use crate::wire::be_value;
use crate::wire::borsh_bytes;
use crate::wire::borsh_string;
use crate::wire::borsh_u32;
use crate::wire::borsh_u64;
use crate::wire::hex_chars;
use crate::wire::hex_encode;
use crate::wire::lemma_be_value_of_u64;
use crate::wire::lemma_be_value_zero_prefix;
use crate::wire::length_prefixed;
use crate::wire::u32_le_bytes;
use crate::wire::u64_be_bytes;
use crate::wire::u64_le_bytes;
use crate::wire::u64_to_be_bytes;
use vstd::prelude::*;

verus! {

/// Tag of a payout message.
pub const TAG_TOKEN_PAYOUT: u8 = 101;

/// Fee in native units that goes with a relay call when none is given.
pub const DEFAULT_NATIVE_FEE: u64 = 1_000_000;

/// Fee in relay tokens that goes with a relay call when none is given.
pub const DEFAULT_LZ_TOKEN_FEE: u64 = 0;

/// Address of the relay program.
pub const LAYERZERO_OAPP_PROGRAM_ID: [u8; 32] = [
    170, 157, 196, 220, 212, 226, 253, 3, 190, 92, 110, 101, 158, 44, 183, 52,
    143, 59, 90, 203, 61, 21, 222, 52, 146, 61, 89, 168, 63, 93, 67, 104,
];

/// Selector of the relay program's `relay_send` entry point.
pub const RELAY_SEND_DISCRIMINATOR: [u8; 8] = [152, 242, 87, 43, 84, 188, 143, 155];

/// A one-byte value as a 32-byte word: zeros, then the value.
pub open spec fn evm_word_u8(value: u8) -> Seq<u8> {
    Seq::new(32, |i: int| if i == 31 { value } else { 0u8 })
}

/// A 64-bit value as a 32-byte word: zeros, then the value's eight bytes,
/// most significant first.
pub open spec fn evm_word_u64(value: u64) -> Seq<u8> {
    Seq::new(24, |i: int| 0u8) + u64_be_bytes(value)
}

/// The payout message: four 32-byte words, which hold the tag, the
/// destination asset, the merchant and the amount.
pub open spec fn evm_message(tag: u8, dst_token: Seq<u8>, merchant: Seq<u8>, amount: u64) -> Seq<u8> {
    evm_word_u8(tag) + dst_token + merchant + evm_word_u64(amount)
}

/// Encodes a payout message as the destination chain's contracts decode it.
pub fn encode_evm_message(tag: u8, dst_token: &[u8; 32], merchant: &[u8; 32], amount: u64) -> (message: Vec<u8>)
    ensures
        message@ == evm_message(tag, dst_token@, merchant@, amount),
        message@.len() == 128,
{
    let mut message: Vec<u8> = Vec::with_capacity(128);

    let mut tag_bytes: [u8; 32] = [0u8; 32];
    tag_bytes.set(31, tag);
    message.extend_from_slice(tag_bytes.as_slice());

    message.extend_from_slice(dst_token.as_slice());
    message.extend_from_slice(merchant.as_slice());

    let mut amount_bytes: [u8; 32] = [0u8; 32];
    let low = u64_to_be_bytes(amount);
    let mut i: usize = 0;
    while i < 8
        invariant
            i <= 8,
            low@ == u64_be_bytes(amount),
            forall|k: int| 0 <= k < 24 ==> amount_bytes@[k] == 0u8,
            forall|k: int| 0 <= k < i ==> amount_bytes@[24 + k] == low@[k],
        decreases 8 - i,
    {
        amount_bytes.set(24 + i, low[i]);
        i += 1;
    }
    assert(amount_bytes@ =~= evm_word_u64(amount));
    message.extend_from_slice(amount_bytes.as_slice());

    message
}

/// The layout of a payout message: 128 bytes, of which byte 31 is the tag and
/// those before it are zero, bytes 32 to 63 are the destination asset, bytes
/// 64 to 95 the merchant, and bytes 96 to 127 the amount, right-aligned and
/// most significant byte first, so that reading them back as one big-endian
/// number gives the amount again.
pub proof fn lemma_evm_message_layout(tag: u8, dst_token: Seq<u8>, merchant: Seq<u8>, amount: u64)
    requires
        dst_token.len() == 32,
        merchant.len() == 32,
    ensures
        evm_message(tag, dst_token, merchant, amount).len() == 128,
        forall|i: int| 0 <= i < 31 ==> evm_message(tag, dst_token, merchant, amount)[i] == 0,
        evm_message(tag, dst_token, merchant, amount)[31] == tag,
        evm_message(tag, dst_token, merchant, amount).subrange(32, 64) == dst_token,
        evm_message(tag, dst_token, merchant, amount).subrange(64, 96) == merchant,
        forall|i: int| 96 <= i < 120 ==> evm_message(tag, dst_token, merchant, amount)[i] == 0,
        evm_message(tag, dst_token, merchant, amount).subrange(120, 128) == u64_be_bytes(amount),
        be_value(evm_message(tag, dst_token, merchant, amount).subrange(96, 128)) == amount,
{
    let message = evm_message(tag, dst_token, merchant, amount);
    assert(message.subrange(120, 128) =~= u64_be_bytes(amount));
    assert(message.subrange(96, 128) =~= evm_word_u64(amount));
    lemma_be_value_zero_prefix(24, u64_be_bytes(amount));
    lemma_be_value_of_u64(amount);
}

/// The message as the relay program reads it: `0x`, then the bytes in
/// lower-case hexadecimal.
pub open spec fn hex_text(message: Seq<u8>) -> Seq<char> {
    seq!['0', 'x'] + hex_chars(message)
}

/// The two variable fields of a relay call are short enough: the message's
/// text for its 32-bit length prefix and for one allocation, the options for
/// their 32-bit length prefix.
pub open spec fn relay_fields_fit(message: Seq<u8>, options: Seq<u8>) -> bool {
    &&& 2 + 2 * message.len() <= u32::MAX
    &&& 2 + 2 * message.len() <= isize::MAX
    &&& options.len() <= u32::MAX
}

/// The data of a `relay_send` call: the selector, the destination chain, the
/// message's text, the options and the two fees, each field in its wire form.
pub open spec fn relay_send_data(
    dst_eid: u32,
    message: Seq<u8>,
    options: Seq<u8>,
    native_fee: u64,
    lz_token_fee: u64,
) -> Seq<u8> {
    RELAY_SEND_DISCRIMINATOR@ + u32_le_bytes(dst_eid) + length_prefixed(
        ascii_bytes(hex_text(message)),
    ) + length_prefixed(options) + u64_le_bytes(native_fee) + u64_le_bytes(lz_token_fee)
}

/// The accounts that a `relay_send` call names: the peer, the store and the
/// endpoint, read-only, and the vault authority as the read-only signer.
pub open spec fn relay_send_accounts(
    peer: Pubkey,
    store: Pubkey,
    endpoint: Pubkey,
    vault_authority: Pubkey,
) -> Seq<AccountMeta> {
    seq![
        AccountMeta { pubkey: peer, is_signer: false, is_writable: false },
        AccountMeta { pubkey: store, is_signer: false, is_writable: false },
        AccountMeta { pubkey: endpoint, is_signer: false, is_writable: false },
        AccountMeta { pubkey: vault_authority, is_signer: true, is_writable: false },
    ]
}

/// The whole `relay_send` call, signed by the vault authority.
pub open spec fn relay_send_invocation(
    layerzero_oapp_program: Pubkey,
    peer: Pubkey,
    store: Pubkey,
    endpoint: Pubkey,
    endpoint_program: Pubkey,
    vault_authority: Pubkey,
    dst_eid: u32,
    message: Seq<u8>,
    options: Seq<u8>,
    native_fee: u64,
    lz_token_fee: u64,
    vault_bump: u8,
    config_key: Pubkey,
) -> InvocationView {
    InvocationView {
        instruction: InstructionView {
            program_id: layerzero_oapp_program,
            accounts: relay_send_accounts(peer, store, endpoint, vault_authority),
            data: relay_send_data(dst_eid, message, options, native_fee, lz_token_fee),
        },
        account_infos: seq![peer, store, endpoint, vault_authority, endpoint_program],
        signer_seeds: vault_signer_seeds(config_key, vault_bump),
    }
}

/// Writes the message as text: `0x`, then its bytes in hexadecimal.
fn message_text(message: &Vec<u8>) -> (text: String)
    requires
        2 + 2 * message@.len() <= isize::MAX,
    ensures
        text@ == hex_text(message@),
        vstd::utf8::encode_utf8(text@) == ascii_bytes(hex_text(message@)),
{
    let digits = hex_encode(message);
    let mut text = String::from_str("0x");
    text.append(digits.as_str());
    proof {
        reveal_strlit("0x");
        assert(text@ =~= hex_text(message@));
        assert(vstd::utf8::is_ascii_chars(text@));
        vstd::utf8::is_ascii_chars_encode_utf8(text@);
        assert(vstd::utf8::encode_utf8(text@) =~= ascii_bytes(text@));
    }
    text
}

/// Prepares the call to the relay program's `relay_send`, which hands a
/// message to the destination chain. The vault authority signs the call.
///
/// The call cannot be framed when the message's text or the options are too
/// long for their length prefix.
pub fn call_relay_send(
    layerzero_oapp_program: &Pubkey,
    peer: &Pubkey,
    store: &Pubkey,
    endpoint: &Pubkey,
    endpoint_program: &Pubkey,
    vault_authority: &Pubkey,
    dst_eid: u32,
    message: Vec<u8>,
    options: Vec<u8>,
    native_fee: u64,
    lz_token_fee: u64,
    vault_bump: u8,
    config_key: Pubkey,
) -> (r: Result<Invocation, VaultError>)
    ensures
        match r {
            Ok(call) => relay_fields_fit(message@, options@) && call@ == relay_send_invocation(
                *layerzero_oapp_program,
                *peer,
                *store,
                *endpoint,
                *endpoint_program,
                *vault_authority,
                dst_eid,
                message@,
                options@,
                native_fee,
                lz_token_fee,
                vault_bump,
                config_key,
            ),
            Err(e) => !relay_fields_fit(message@, options@) && e == VaultError::Serialization,
        },
{
    let text_limit: usize = if (u32::MAX as usize) < (isize::MAX as usize) {
        u32::MAX as usize
    } else {
        isize::MAX as usize
    };
    if message.len() > (text_limit - 2) / 2 {
        return Err(VaultError::Serialization);
    }
    let message_hex = message_text(&message);

    let mut data: Vec<u8> = Vec::new();
    data.extend_from_slice(RELAY_SEND_DISCRIMINATOR.as_slice());
    let _ = borsh_u32(dst_eid, &mut data);
    if borsh_string(&message_hex, &mut data).is_err() {
        return Err(VaultError::Serialization);
    }
    if borsh_bytes(&options, &mut data).is_err() {
        return Err(VaultError::Serialization);
    }
    let _ = borsh_u64(native_fee, &mut data);
    let _ = borsh_u64(lz_token_fee, &mut data);
    assert(data@ =~= relay_send_data(dst_eid, message@, options@, native_fee, lz_token_fee));

    let mut account_metas: Vec<AccountMeta> = Vec::new();
    account_metas.push(AccountMeta::new_readonly(*peer, false));
    account_metas.push(AccountMeta::new_readonly(*store, false));
    account_metas.push(AccountMeta::new_readonly(*endpoint, false));
    account_metas.push(AccountMeta::new_readonly(*vault_authority, true));
    assert(account_metas@ =~= relay_send_accounts(*peer, *store, *endpoint, *vault_authority));

    let instruction = Instruction {
        program_id: *layerzero_oapp_program,
        accounts: account_metas,
        data,
    };

    let mut account_infos: Vec<Pubkey> = Vec::new();
    account_infos.push(*peer);
    account_infos.push(*store);
    account_infos.push(*endpoint);
    account_infos.push(*vault_authority);
    account_infos.push(*endpoint_program);
    assert(account_infos@ =~= seq![*peer, *store, *endpoint, *vault_authority, *endpoint_program]);

    Ok(Invocation { instruction, account_infos, signer_seeds: signer_seeds(&config_key, vault_bump) })
}

/// What a relay deposit asks for.
#[derive(Clone, Debug, PartialEq, Eq)]
pub struct DepositParams {
    /// Amount to deposit.
    pub amount: u64,
    /// Identifier of the destination chain.
    pub dst_eid: u32,
    /// The asset to pay out on the destination chain, as a 32-byte word.
    pub dst_token: [u8; 32],
    /// The merchant to pay on the destination chain, as a 32-byte word.
    pub merchant: [u8; 32],
    /// Options of the relay message; none stands for no bytes.
    pub options: Option<Vec<u8>>,
    /// Fee in native units; none stands for the default.
    pub native_fee: Option<u64>,
    /// Fee in relay tokens; none stands for the default.
    pub lz_token_fee: Option<u64>,
}

/// The accounts of a deposit, with what the rules read of each.
#[derive(Clone, Debug, PartialEq, Eq)]
pub struct DepositFromUser {
    /// Address of this program, under which the vault authority is derived.
    pub program_id: Pubkey,
    pub config: Config,
    /// Address of the configuration.
    pub config_key: Pubkey,
    /// The depositor, who signs.
    pub user: Pubkey,
    pub user_source_token: TokenAccount,
    /// The account supplied as the vault authority.
    pub vault_authority: Pubkey,
    pub vault_token_account: TokenAccount,
    pub mint: Mint,
    /// Accounts of the relay program.
    pub peer: Pubkey,
    pub store: Pubkey,
    pub endpoint: Pubkey,
    pub endpoint_program: Pubkey,
}

/// The record of a relay deposit, for readers outside the ledger.
#[derive(Clone, Copy, Debug, PartialEq, Eq)]
pub struct DepositEvent {
    pub user: Pubkey,
    pub mint: Pubkey,
    pub amount: u64,
    pub dst_eid: u32,
    pub dst_token: [u8; 32],
    pub merchant: [u8; 32],
}

/// What is to follow the movement into custody.
#[derive(Clone, Debug, PartialEq, Eq)]
pub enum ForwardingStrategy {
    /// Nothing.
    NoForward,
    /// The payload goes to the target program as it is, with the accounts
    /// that the caller supplied. Without a target or with an empty payload
    /// nothing is forwarded.
    GenericForward { target_program: Option<Pubkey>, payload: Vec<u8>, extra_accounts: Vec<AccountMeta> },
    /// A payout message goes to the relay program.
    RelayRebroadcast {
        dst_eid: u32,
        dst_token: [u8; 32],
        merchant: [u8; 32],
        options: Option<Vec<u8>>,
        native_fee: Option<u64>,
        lz_token_fee: Option<u64>,
    },
}

/// What a deposit leaves to be done outside: the nested call to make, if
/// any, and the record to emit, if any.
#[derive(Clone, Debug, PartialEq, Eq)]
pub struct DepositOutcome {
    pub forward: Option<Invocation>,
    pub event: Option<DepositEvent>,
}

impl DepositParams {
    /// The forwarding that these parameters ask for.
    pub open spec fn strategy(self) -> ForwardingStrategy {
        ForwardingStrategy::RelayRebroadcast {
            dst_eid: self.dst_eid,
            dst_token: self.dst_token,
            merchant: self.merchant,
            options: self.options,
            native_fee: self.native_fee,
            lz_token_fee: self.lz_token_fee,
        }
    }

    /// Turns the parameters into the forwarding that they ask for.
    pub fn into_strategy(self) -> (strategy: ForwardingStrategy)
        ensures
            strategy == self.strategy(),
    {
        ForwardingStrategy::RelayRebroadcast {
            dst_eid: self.dst_eid,
            dst_token: self.dst_token,
            merchant: self.merchant,
            options: self.options,
            native_fee: self.native_fee,
            lz_token_fee: self.lz_token_fee,
        }
    }
}

impl DepositOutcome {
    /// The nested call as a mathematical value.
    pub open spec fn forward_view(self) -> Option<InvocationView> {
        match self.forward {
            Some(call) => Some(call@),
            None => None,
        }
    }
}

/// The relay program's address.
pub open spec fn relay_program() -> Pubkey {
    Pubkey { bytes: LAYERZERO_OAPP_PROGRAM_ID }
}

/// The options of a relay message: those given, or none.
pub open spec fn options_or_default(options: Option<Vec<u8>>) -> Seq<u8> {
    match options {
        Some(bytes) => bytes@,
        None => Seq::empty(),
    }
}

/// The addresses of a list of accounts.
pub open spec fn account_keys(accounts: Seq<AccountMeta>) -> Seq<Pubkey> {
    Seq::new(accounts.len(), |i: int| accounts[i].pubkey)
}

/// The first rule that a deposit breaks, if it breaks one.
pub open spec fn deposit_check(ctx: DepositFromUser) -> Option<ErrorCode> {
    if !ctx.config@.allows(ctx.mint.key) {
        Some(ErrorCode::MintNotAllowed)
    } else if ctx.user_source_token.mint != ctx.mint.key {
        Some(ErrorCode::SourceMintMismatch)
    } else if ctx.vault_token_account.mint != ctx.mint.key {
        Some(ErrorCode::VaultMintMismatch)
    } else {
        None
    }
}

/// The strategy makes a nested call.
pub open spec fn forwards(strategy: ForwardingStrategy) -> bool {
    match strategy {
        ForwardingStrategy::NoForward => false,
        ForwardingStrategy::GenericForward { target_program, payload, .. } => target_program is Some
            && payload@.len() > 0,
        ForwardingStrategy::RelayRebroadcast { .. } => true,
    }
}

/// The nested call cannot be framed.
pub open spec fn forward_too_long(amount: u64, strategy: ForwardingStrategy) -> bool {
    match strategy {
        ForwardingStrategy::RelayRebroadcast { dst_token, merchant, options, .. } => !relay_fields_fit(
            evm_message(TAG_TOKEN_PAYOUT, dst_token@, merchant@, amount),
            options_or_default(options),
        ),
        _ => false,
    }
}

/// The nested call that a deposit leaves to be made.
pub open spec fn deposit_forward(ctx: DepositFromUser, amount: u64, strategy: ForwardingStrategy) -> Option<
    InvocationView,
> {
    match strategy {
        ForwardingStrategy::NoForward => None,
        ForwardingStrategy::GenericForward { target_program, payload, extra_accounts } => {
            if target_program is Some && payload@.len() > 0 {
                Some(
                    InvocationView {
                        instruction: InstructionView {
                            program_id: target_program->0,
                            accounts: extra_accounts@,
                            data: payload@,
                        },
                        account_infos: account_keys(extra_accounts@),
                        signer_seeds: vault_signer_seeds(ctx.config_key, ctx.config.vault_authority_bump),
                    },
                )
            } else {
                None
            }
        },
        ForwardingStrategy::RelayRebroadcast {
            dst_eid,
            dst_token,
            merchant,
            options,
            native_fee,
            lz_token_fee,
        } => Some(
            relay_send_invocation(
                relay_program(),
                ctx.peer,
                ctx.store,
                ctx.endpoint,
                ctx.endpoint_program,
                ctx.vault_authority,
                dst_eid,
                evm_message(TAG_TOKEN_PAYOUT, dst_token@, merchant@, amount),
                options_or_default(options),
                native_fee.unwrap_or(DEFAULT_NATIVE_FEE),
                lz_token_fee.unwrap_or(DEFAULT_LZ_TOKEN_FEE),
                ctx.config.vault_authority_bump,
                ctx.config_key,
            ),
        ),
    }
}

/// The record that a deposit leaves to be emitted.
pub open spec fn deposit_event(ctx: DepositFromUser, amount: u64, strategy: ForwardingStrategy) -> Option<
    DepositEvent,
> {
    match strategy {
        ForwardingStrategy::RelayRebroadcast { dst_eid, dst_token, merchant, .. } => Some(
            DepositEvent { user: ctx.user, mint: ctx.mint.key, amount, dst_eid, dst_token, merchant },
        ),
        _ => None,
    }
}

/// The reason for which a deposit is aborted, if it is. `signs` tells whether
/// the account supplied as the vault authority is the one that the stored
/// parameter derives. The checks stand in the order in which they are made.
pub open spec fn deposit_failure(
    ctx: DepositFromUser,
    amount: u64,
    strategy: ForwardingStrategy,
    signs: bool,
) -> Option<VaultError> {
    if deposit_check(ctx) is Some {
        Some(VaultError::Program(deposit_check(ctx)->0))
    } else if transfer_error(
        ctx.user_source_token,
        ctx.vault_token_account,
        ctx.mint,
        amount,
        ctx.mint.decimals,
    ) is Some {
        Some(
            VaultError::Transfer(
                transfer_error(
                    ctx.user_source_token,
                    ctx.vault_token_account,
                    ctx.mint,
                    amount,
                    ctx.mint.decimals,
                )->0,
            ),
        )
    } else if !forwards(strategy) {
        None
    } else if forward_too_long(amount, strategy) {
        Some(VaultError::Serialization)
    } else if !signs {
        Some(VaultError::Program(ErrorCode::BumpNotFound))
    } else {
        None
    }
}

/// The accounts after a deposit that went through: the amount has left the
/// source holding and reached custody, and nothing else has changed.
pub open spec fn deposited(ctx: DepositFromUser, amount: u64) -> DepositFromUser {
    DepositFromUser {
        user_source_token: debited(ctx.user_source_token, amount),
        vault_token_account: credited(ctx.vault_token_account, amount),
        ..ctx
    }
}

/// What a deposit is to do, given whether the vault authority signs.
pub open spec fn deposit_spec(
    pre: DepositFromUser,
    amount: u64,
    strategy: ForwardingStrategy,
    signs: bool,
    post: DepositFromUser,
    r: Result<DepositOutcome, VaultError>,
) -> bool {
    match deposit_failure(pre, amount, strategy, signs) {
        Some(e) => r == Err::<DepositOutcome, VaultError>(e) && post == pre,
        None => {
            &&& r is Ok
            &&& r->Ok_0.forward_view() == deposit_forward(pre, amount, strategy)
            &&& r->Ok_0.event == deposit_event(pre, amount, strategy)
            &&& post == deposited(pre, amount)
        },
    }
}

/// A deposit that goes through adds exactly the amount to the custody
/// balance and takes exactly the amount from the source balance.
pub proof fn lemma_deposit_conserves(
    pre: DepositFromUser,
    amount: u64,
    strategy: ForwardingStrategy,
    signs: bool,
    post: DepositFromUser,
    r: Result<DepositOutcome, VaultError>,
)
    requires
        deposit_spec(pre, amount, strategy, signs, post, r),
        r is Ok,
    ensures
        post.vault_token_account.amount == pre.vault_token_account.amount + amount,
        post.user_source_token.amount == pre.user_source_token.amount - amount,
{
}

/// A deposit of an asset that is not on the allowlist fails for that reason,
/// whatever else holds of it, and no balance changes.
pub proof fn lemma_deposit_needs_allowed_mint(
    pre: DepositFromUser,
    amount: u64,
    strategy: ForwardingStrategy,
    signs: bool,
    post: DepositFromUser,
    r: Result<DepositOutcome, VaultError>,
)
    requires
        deposit_spec(pre, amount, strategy, signs, post, r),
        !pre.config@.allows(pre.mint.key),
    ensures
        r == Err::<DepositOutcome, VaultError>(VaultError::Program(ErrorCode::MintNotAllowed)),
        post == pre,
        post.vault_token_account.amount == pre.vault_token_account.amount,
        post.user_source_token.amount == pre.user_source_token.amount,
{
}

/// A deposit leaves the registry as it is, whether it goes through or not.
pub proof fn lemma_deposit_keeps_registry(
    pre: DepositFromUser,
    amount: u64,
    strategy: ForwardingStrategy,
    signs: bool,
    post: DepositFromUser,
    r: Result<DepositOutcome, VaultError>,
)
    requires
        deposit_spec(pre, amount, strategy, signs, post, r),
    ensures
        post.config == pre.config,
{
}

/// Checks a deposit against the allowlist and the holdings' assets.
pub fn validate_deposit(ctx: &DepositFromUser) -> (r: Result<(), ErrorCode>)
    ensures
        match deposit_check(*ctx) {
            Some(e) => r == Err::<(), ErrorCode>(e),
            None => r is Ok,
        },
{
    if !ctx.config.is_allowed_mint(&ctx.mint.key) {
        return Err(ErrorCode::MintNotAllowed);
    }
    if ctx.user_source_token.mint != ctx.mint.key {
        return Err(ErrorCode::SourceMintMismatch);
    }
    if ctx.vault_token_account.mint != ctx.mint.key {
        return Err(ErrorCode::VaultMintMismatch);
    }
    Ok(())
}

/// Tells whether the strategy makes a nested call.
pub fn strategy_forwards(strategy: &ForwardingStrategy) -> (forwarding: bool)
    ensures
        forwarding == forwards(*strategy),
{
    match strategy {
        ForwardingStrategy::NoForward => false,
        ForwardingStrategy::GenericForward { target_program, payload, .. } => target_program.is_some()
            && payload.len() > 0,
        ForwardingStrategy::RelayRebroadcast { .. } => true,
    }
}

/// Lists the addresses of the accounts.
fn keys_of(accounts: &Vec<AccountMeta>) -> (keys: Vec<Pubkey>)
    ensures
        keys@ == account_keys(accounts@),
{
    let mut keys: Vec<Pubkey> = Vec::new();
    let mut i: usize = 0;
    while i < accounts.len()
        invariant
            i <= accounts@.len(),
            keys@ == account_keys(accounts@.subrange(0, i as int)),
        decreases accounts@.len() - i,
    {
        keys.push(accounts[i].pubkey);
        i += 1;
    }
    keys
}

/// Runs the deposit pipeline with the vault authority that the stored
/// parameter was found to derive, if it derives one.
///
/// The rules are checked, the amount moves from the source holding into
/// custody, and the strategy's nested call and record are prepared. Whatever
/// fails, the accounts are left as they were.
pub fn deposit_with_authority(
    ctx: &mut DepositFromUser,
    amount: u64,
    strategy: ForwardingStrategy,
    derived: Option<Pubkey>,
) -> (r: Result<DepositOutcome, VaultError>)
    ensures
        deposit_spec(*old(ctx), amount, strategy, derived == Some(old(ctx).vault_authority), *final(ctx), r),
{
    match validate_deposit(ctx) {
        Err(e) => {
            return Err(VaultError::Program(e));
        },
        Ok(()) => {},
    }
    let mut source = ctx.user_source_token;
    let mut vault = ctx.vault_token_account;
    match transfer(&mut source, &mut vault, &ctx.mint, amount, ctx.mint.decimals) {
        Err(e) => {
            return Err(VaultError::Transfer(e));
        },
        Ok(()) => {},
    }
    let signs = match derived {
        Some(authority) => authority == ctx.vault_authority,
        None => false,
    };
    let outcome = match strategy {
        ForwardingStrategy::NoForward => DepositOutcome { forward: None, event: None },
        ForwardingStrategy::GenericForward { target_program, payload, extra_accounts } => {
            match target_program {
                Some(target) => {
                    if payload.len() > 0 {
                        if !signs {
                            return Err(VaultError::Program(ErrorCode::BumpNotFound));
                        }
                        let account_infos = keys_of(&extra_accounts);
                        let call = Invocation {
                            instruction: Instruction {
                                program_id: target,
                                accounts: extra_accounts,
                                data: payload,
                            },
                            account_infos,
                            signer_seeds: signer_seeds(&ctx.config_key, ctx.config.vault_authority_bump),
                        };
                        DepositOutcome { forward: Some(call), event: None }
                    } else {
                        DepositOutcome { forward: None, event: None }
                    }
                },
                None => DepositOutcome { forward: None, event: None },
            }
        },
        ForwardingStrategy::RelayRebroadcast {
            dst_eid,
            dst_token,
            merchant,
            options,
            native_fee,
            lz_token_fee,
        } => {
            let message = encode_evm_message(TAG_TOKEN_PAYOUT, &dst_token, &merchant, amount);
            let options = match options {
                Some(bytes) => bytes,
                None => Vec::new(),
            };
            let native_fee: u64 = native_fee.unwrap_or(DEFAULT_NATIVE_FEE);
            let lz_token_fee: u64 = lz_token_fee.unwrap_or(DEFAULT_LZ_TOKEN_FEE);
            let call = match call_relay_send(
                &Pubkey { bytes: LAYERZERO_OAPP_PROGRAM_ID },
                &ctx.peer,
                &ctx.store,
                &ctx.endpoint,
                &ctx.endpoint_program,
                &ctx.vault_authority,
                dst_eid,
                message,
                options,
                native_fee,
                lz_token_fee,
                ctx.config.vault_authority_bump,
                ctx.config_key,
            ) {
                Ok(call) => call,
                Err(e) => {
                    return Err(e);
                },
            };
            if !signs {
                return Err(VaultError::Program(ErrorCode::BumpNotFound));
            }
            let event = DepositEvent {
                user: ctx.user,
                mint: ctx.mint.key,
                amount,
                dst_eid,
                dst_token,
                merchant,
            };
            DepositOutcome { forward: Some(call), event: Some(event) }
        },
    };
    ctx.user_source_token = source;
    ctx.vault_token_account = vault;
    Ok(outcome)
}

/// Runs the deposit pipeline: the rules are checked, the amount moves from
/// the source holding into custody, and the strategy's nested call and record
/// are prepared. A nested call needs the vault authority to sign, so the
/// account supplied for it must be the one that the stored parameter derives;
/// a deposit without a nested call does not ask for it. Whatever fails, the
/// accounts are left as they were.
pub fn deposit(ctx: &mut DepositFromUser, amount: u64, strategy: ForwardingStrategy) -> (r: Result<
    DepositOutcome,
    VaultError,
>)
    ensures
        deposit_spec(
            *old(ctx),
            amount,
            strategy,
            vault_address(old(ctx).program_id, old(ctx).config_key, old(ctx).config.vault_authority_bump)
                == Some(old(ctx).vault_authority.bytes@),
            *final(ctx),
            r,
        ),
{
    let derived = if strategy_forwards(&strategy) {
        derive_vault_authority(&ctx.program_id, &ctx.config_key, ctx.config.vault_authority_bump)
    } else {
        None
    };
    proof {
        if derived is Some && derived->0.bytes@ == ctx.vault_authority.bytes@ {
            lemma_pubkey_ext(derived->0, ctx.vault_authority);
        }
    }
    deposit_with_authority(ctx, amount, strategy, derived)
}

/// Deposits with a payout message relayed to the destination chain.
pub fn handler(ctx: &mut DepositFromUser, params: DepositParams) -> (r: Result<DepositOutcome, VaultError>)
    ensures
        deposit_spec(
            *old(ctx),
            params.amount,
            params.strategy(),
            vault_address(old(ctx).program_id, old(ctx).config_key, old(ctx).config.vault_authority_bump)
                == Some(old(ctx).vault_authority.bytes@),
            *final(ctx),
            r,
        ),
{
    let amount: u64 = params.amount;
    deposit(ctx, amount, params.into_strategy())
}

} // verus!
