use transfer_contract::authority::find_vault_authority;
use transfer_contract::instructions::lp_deposit::LpDeposit;
use transfer_contract::instructions::lp_withdraw::lp_withdraw_with_authority;
use transfer_contract::instructions::lp_withdraw::LpWithdraw;
use transfer_contract::lp_deposit;
use transfer_contract::lp_withdraw;
use transfer_contract::state::Config;
use transfer_contract::state::ErrorCode;
use transfer_contract::state::LiquidityPosition;
use transfer_contract::state::Mint;
use transfer_contract::state::Pubkey;
use transfer_contract::state::TokenAccount;
use transfer_contract::state::TransferError;
use transfer_contract::state::VaultError;

fn key(n: u8) -> Pubkey {
    Pubkey { bytes: [n; 32] }
}

const OWNER: u8 = 5;
const ASSET: u8 = 10;
const OTHER_ASSET: u8 = 11;

fn registry() -> Config {
    let (_, bump) = find_vault_authority(&key(100), &key(101)).unwrap();
    Config {
        admin: key(1),
        allowed_caller_authority: key(2),
        allowed_mints: vec![key(ASSET), key(OTHER_ASSET)],
        vault_authority_bump: bump,
    }
}

fn empty_position() -> LiquidityPosition {
    LiquidityPosition { owner: key(0), mint: key(0), amount: 0 }
}

fn deposit_accounts(position: LiquidityPosition, wallet: u64, custody: u64) -> LpDeposit {
    LpDeposit {
        config: registry(),
        user: key(OWNER),
        liquidity_position: position,
        user_source_token: TokenAccount { mint: key(ASSET), amount: wallet },
        vault_token_account: TokenAccount { mint: key(ASSET), amount: custody },
        mint: Mint { key: key(ASSET), decimals: 6 },
    }
}

fn withdraw_accounts(position: LiquidityPosition, wallet: u64, custody: u64) -> LpWithdraw {
    let (authority, _) = find_vault_authority(&key(100), &key(101)).unwrap();
    LpWithdraw {
        program_id: key(100),
        config: registry(),
        config_key: key(101),
        user: key(OWNER),
        liquidity_position: position,
        vault_authority: authority,
        vault_token_account: TokenAccount { mint: key(ASSET), amount: custody },
        user_destination_token: TokenAccount { mint: key(ASSET), amount: wallet },
        mint: Mint { key: key(ASSET), decimals: 6 },
    }
}

#[test]
fn first_deposit_sets_up_the_position() {
    let mut ctx = deposit_accounts(empty_position(), 100, 1000);
    assert_eq!(lp_deposit(&mut ctx, 40), Ok(()));
    assert_eq!(ctx.liquidity_position, LiquidityPosition { owner: key(OWNER), mint: key(ASSET), amount: 40 });
    assert_eq!(ctx.user_source_token.amount, 60);
    assert_eq!(ctx.vault_token_account.amount, 1040);
}

#[test]
fn later_deposit_adds_to_the_position() {
    let position = LiquidityPosition { owner: key(OWNER), mint: key(ASSET), amount: 40 };
    let mut ctx = deposit_accounts(position, 60, 1040);
    assert_eq!(lp_deposit(&mut ctx, 60), Ok(()));
    assert_eq!(ctx.liquidity_position, LiquidityPosition { owner: key(OWNER), mint: key(ASSET), amount: 100 });
    assert_eq!(ctx.user_source_token.amount, 0);
    assert_eq!(ctx.vault_token_account.amount, 1100);
}

#[test]
fn later_deposit_keeps_the_owner_on_record() {
    let position = LiquidityPosition { owner: key(88), mint: key(89), amount: 1 };
    let mut ctx = deposit_accounts(position, 60, 0);
    assert_eq!(lp_deposit(&mut ctx, 1), Ok(()));
    assert_eq!(ctx.liquidity_position, LiquidityPosition { owner: key(88), mint: key(89), amount: 2 });
}

#[test]
fn deposit_into_a_drained_position_sets_it_up_again() {
    let position = LiquidityPosition { owner: key(88), mint: key(89), amount: 0 };
    let mut ctx = deposit_accounts(position, 60, 0);
    assert_eq!(lp_deposit(&mut ctx, 0), Ok(()));
    assert_eq!(ctx.liquidity_position, LiquidityPosition { owner: key(OWNER), mint: key(ASSET), amount: 0 });
}

#[test]
fn deposit_beyond_64_bits_is_clamped() {
    let position = LiquidityPosition { owner: key(OWNER), mint: key(ASSET), amount: u64::MAX - 3 };
    let mut ctx = deposit_accounts(position, 10, 0);
    assert_eq!(lp_deposit(&mut ctx, 5), Ok(()));
    assert_eq!(ctx.liquidity_position.amount, u64::MAX);
    assert_eq!(ctx.user_source_token.amount, 5);
    assert_eq!(ctx.vault_token_account.amount, 5);
    let position = LiquidityPosition { owner: key(OWNER), mint: key(ASSET), amount: u64::MAX - 3 };
    let mut ctx = deposit_accounts(position, 10, 0);
    assert_eq!(lp_deposit(&mut ctx, 3), Ok(()));
    assert_eq!(ctx.liquidity_position.amount, u64::MAX);
}

#[test]
fn liquidity_deposit_of_a_disallowed_asset() {
    let mut ctx = deposit_accounts(empty_position(), 100, 0);
    ctx.mint.key = key(50);
    ctx.user_source_token.mint = key(50);
    ctx.vault_token_account.mint = key(50);
    let before = ctx.clone();
    assert_eq!(lp_deposit(&mut ctx, 10), Err(VaultError::Program(ErrorCode::MintNotAllowed)));
    assert_eq!(ctx, before);
}

#[test]
fn liquidity_deposit_from_a_holding_of_another_asset() {
    let mut ctx = deposit_accounts(empty_position(), 100, 0);
    ctx.user_source_token.mint = key(OTHER_ASSET);
    let before = ctx.clone();
    assert_eq!(lp_deposit(&mut ctx, 10), Err(VaultError::Program(ErrorCode::SourceMintMismatch)));
    assert_eq!(ctx, before);
}

#[test]
fn liquidity_deposit_into_a_vault_holding_of_another_asset() {
    let mut ctx = deposit_accounts(empty_position(), 100, 0);
    ctx.vault_token_account.mint = key(OTHER_ASSET);
    let before = ctx.clone();
    assert_eq!(lp_deposit(&mut ctx, 10), Err(VaultError::Program(ErrorCode::VaultMintMismatch)));
    assert_eq!(ctx, before);
}

#[test]
fn liquidity_deposit_of_more_than_the_wallet_holds() {
    let mut ctx = deposit_accounts(empty_position(), 9, 0);
    let before = ctx.clone();
    assert_eq!(lp_deposit(&mut ctx, 10), Err(VaultError::Transfer(TransferError::InsufficientFunds)));
    assert_eq!(ctx, before);
}

#[test]
fn withdrawal_reduces_the_position() {
    let position = LiquidityPosition { owner: key(OWNER), mint: key(ASSET), amount: 100 };
    let mut ctx = withdraw_accounts(position, 0, 1000);
    let seeds = lp_withdraw(&mut ctx, 30).unwrap();
    assert_eq!(ctx.liquidity_position, LiquidityPosition { owner: key(OWNER), mint: key(ASSET), amount: 70 });
    assert_eq!(ctx.vault_token_account.amount, 970);
    assert_eq!(ctx.user_destination_token.amount, 30);
    assert_eq!(seeds, vec![b"vault".to_vec(), vec![101u8; 32], vec![ctx.config.vault_authority_bump]]);
}

#[test]
fn withdrawal_of_the_whole_position_leaves_it_at_zero() {
    let position = LiquidityPosition { owner: key(OWNER), mint: key(ASSET), amount: 100 };
    let mut ctx = withdraw_accounts(position, 0, 100);
    assert!(lp_withdraw(&mut ctx, 100).is_ok());
    assert_eq!(ctx.liquidity_position, LiquidityPosition { owner: key(OWNER), mint: key(ASSET), amount: 0 });
    assert_eq!(ctx.vault_token_account.amount, 0);
    assert_eq!(ctx.user_destination_token.amount, 100);
}

#[test]
fn over_withdrawal_is_refused() {
    let position = LiquidityPosition { owner: key(OWNER), mint: key(ASSET), amount: 100 };
    let mut ctx = withdraw_accounts(position, 0, 1000);
    let before = ctx.clone();
    assert_eq!(lp_withdraw(&mut ctx, 101), Err(VaultError::Program(ErrorCode::InsufficientLiquidity)));
    assert_eq!(ctx, before);
}

#[test]
fn withdrawal_from_an_empty_position_is_refused() {
    let mut ctx = withdraw_accounts(empty_position(), 0, 1000);
    let before = ctx.clone();
    assert_eq!(lp_withdraw(&mut ctx, 1), Err(VaultError::Program(ErrorCode::InsufficientLiquidity)));
    assert_eq!(ctx, before);
}

#[test]
fn liquidity_withdrawal_of_a_disallowed_asset() {
    let position = LiquidityPosition { owner: key(OWNER), mint: key(50), amount: 100 };
    let mut ctx = withdraw_accounts(position, 0, 1000);
    ctx.mint.key = key(50);
    let before = ctx.clone();
    assert_eq!(lp_withdraw(&mut ctx, 101), Err(VaultError::Program(ErrorCode::MintNotAllowed)));
    assert_eq!(ctx, before);
}

#[test]
fn liquidity_withdrawal_to_a_holding_of_another_asset() {
    let position = LiquidityPosition { owner: key(OWNER), mint: key(ASSET), amount: 100 };
    let mut ctx = withdraw_accounts(position, 0, 1000);
    ctx.user_destination_token.mint = key(OTHER_ASSET);
    let before = ctx.clone();
    assert_eq!(lp_withdraw(&mut ctx, 10), Err(VaultError::Program(ErrorCode::RecipientMintMismatch)));
    assert_eq!(ctx, before);
}

#[test]
fn liquidity_withdrawal_from_a_vault_holding_of_another_asset() {
    let position = LiquidityPosition { owner: key(OWNER), mint: key(ASSET), amount: 100 };
    let mut ctx = withdraw_accounts(position, 0, 1000);
    ctx.vault_token_account.mint = key(OTHER_ASSET);
    let before = ctx.clone();
    assert_eq!(lp_withdraw(&mut ctx, 10), Err(VaultError::Program(ErrorCode::VaultMintMismatch)));
    assert_eq!(ctx, before);
}

#[test]
fn liquidity_withdrawal_with_a_wrong_vault_authority() {
    let position = LiquidityPosition { owner: key(OWNER), mint: key(ASSET), amount: 100 };
    let mut ctx = withdraw_accounts(position, 0, 1000);
    ctx.vault_authority = key(77);
    let before = ctx.clone();
    assert_eq!(lp_withdraw(&mut ctx, 10), Err(VaultError::Program(ErrorCode::BumpNotFound)));
    assert_eq!(ctx, before);
}

#[test]
fn liquidity_withdrawal_that_custody_cannot_pay() {
    let position = LiquidityPosition { owner: key(OWNER), mint: key(ASSET), amount: 100 };
    let mut ctx = withdraw_accounts(position, 0, 20);
    let before = ctx.clone();
    assert_eq!(lp_withdraw(&mut ctx, 30), Err(VaultError::Transfer(TransferError::InsufficientFunds)));
    assert_eq!(ctx, before);
}

#[test]
fn liquidity_withdrawal_with_a_given_authority() {
    let position = LiquidityPosition { owner: key(OWNER), mint: key(ASSET), amount: 100 };
    let mut ctx = withdraw_accounts(position, 0, 1000);
    ctx.vault_authority = key(60);
    let before = ctx.clone();
    let r = lp_withdraw_with_authority(&mut ctx, 10, None);
    assert_eq!(r, Err(VaultError::Program(ErrorCode::BumpNotFound)));
    assert_eq!(ctx, before);
    let r = lp_withdraw_with_authority(&mut ctx, 10, Some(key(60)));
    assert!(r.is_ok());
    assert_eq!(ctx.liquidity_position.amount, 90);
}

#[test]
fn position_holds_deposits_less_withdrawals() {
    let mut position = empty_position();
    let mut wallet = 1_000u64;
    let mut custody = 0u64;
    let mut deposited = 0u64;
    let mut withdrawn = 0u64;
    let steps: [(bool, u64); 8] =
        [(true, 100), (false, 30), (true, 5), (false, 80), (false, 75), (true, 0), (false, 0), (true, 250)];
    for (is_deposit, amount) in steps {
        if is_deposit {
            let mut ctx = deposit_accounts(position, wallet, custody);
            assert_eq!(lp_deposit(&mut ctx, amount), Ok(()));
            deposited += amount;
            position = ctx.liquidity_position;
            wallet = ctx.user_source_token.amount;
            custody = ctx.vault_token_account.amount;
        } else {
            let mut ctx = withdraw_accounts(position, wallet, custody);
            let before = ctx.clone();
            let r = lp_withdraw(&mut ctx, amount);
            if amount <= position.amount {
                assert!(r.is_ok());
                withdrawn += amount;
            } else {
                assert_eq!(r, Err(VaultError::Program(ErrorCode::InsufficientLiquidity)));
                assert_eq!(ctx, before);
            }
            position = ctx.liquidity_position;
            wallet = ctx.user_destination_token.amount;
            custody = ctx.vault_token_account.amount;
        }
        assert_eq!(position.amount, deposited - withdrawn);
        assert_eq!(custody, deposited - withdrawn);
        assert_eq!(wallet, 1_000 - custody);
    }
    assert_eq!(deposited, 355);
    assert_eq!(withdrawn, 105);
    assert_eq!(position.amount, 250);
}
