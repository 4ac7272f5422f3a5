use staking_program::account::{transfer, Clock, Mint, TokenAccount};
use staking_program::address::{stake_account_address, vault_address, Address};
use staking_program::error::ErrorCode;
use staking_program::program::{
    check_custody, destake, destake_with, initialize, initialize_with, stake, stake_with, Destake,
    Initialize, Stake,
};
use staking_program::stake_info::StakeInfo;

fn address(tag: u8) -> Address {
    Address::new([tag; 32])
}

fn program() -> Address {
    address(1)
}

fn alice() -> Address {
    address(2)
}

fn mint() -> Mint {
    Mint { address: address(3), decimals: 6 }
}

fn wallet(amount: u64) -> TokenAccount {
    TokenAccount { address: address(4), mint: mint().address, owner: alice(), amount }
}

fn vault(amount: u64) -> TokenAccount {
    let (at, _) = vault_address(&program()).unwrap();
    TokenAccount { address: at, mint: mint().address, owner: at, amount }
}

fn holding(amount: u64) -> TokenAccount {
    let (at, _) = stake_account_address(&program(), &alice()).unwrap();
    TokenAccount { address: at, mint: mint().address, owner: at, amount }
}

fn first_stake(balance: u64, slot: u64) -> Stake {
    Stake {
        program_id: program(),
        signer: alice(),
        stake_info_account: None,
        stake_account: None,
        user_token_account: wallet(balance),
        mint: mint(),
        clock: Clock { slot },
    }
}

fn running(started_at: u64, held: u64, reserve: u64, balance: u64, slot: u64) -> Destake {
    Destake {
        program_id: program(),
        signer: alice(),
        token_vault: vault(reserve),
        stake_info_account: StakeInfo { started_at, is_staked: true },
        stake_account: holding(held),
        user_token_account: wallet(balance),
        mint: mint(),
        clock: Clock { slot },
    }
}

fn after(staked: &Stake, token_vault: TokenAccount, slot: u64) -> Destake {
    Destake {
        program_id: staked.program_id,
        signer: staked.signer,
        token_vault,
        stake_info_account: staked.stake_info_account.unwrap(),
        stake_account: staked.stake_account.unwrap(),
        user_token_account: staked.user_token_account,
        mint: staked.mint,
        clock: Clock { slot },
    }
}

#[test]
fn transfer_moves_the_amount() {
    let mut from = wallet(10);
    let mut to = holding(5);
    assert_eq!(transfer(&mut from, &mut to, &alice(), 7), Ok(()));
    assert_eq!(from, wallet(3));
    assert_eq!(to, holding(12));
    assert_eq!(transfer(&mut from, &mut to, &alice(), 3), Ok(()));
    assert_eq!(from, wallet(0));
    assert_eq!(to, holding(15));
    assert_eq!(transfer(&mut from, &mut to, &alice(), 0), Ok(()));
    assert_eq!(from, wallet(0));
    assert_eq!(to, holding(15));
}

#[test]
fn transfer_is_refused_and_moves_nothing() {
    let mut from = wallet(10);
    let mut to = holding(5);
    assert_eq!(transfer(&mut from, &mut to, &program(), 7), Err(ErrorCode::Unauthorized));
    assert_eq!(transfer(&mut from, &mut to, &alice(), 11), Err(ErrorCode::InsufficientFunds));
    let mut other = TokenAccount { mint: address(9), ..holding(5) };
    assert_eq!(transfer(&mut from, &mut other, &alice(), 7), Err(ErrorCode::MintMismatch));
    let mut full = holding(u64::MAX - 6);
    assert_eq!(transfer(&mut from, &mut full, &alice(), 7), Err(ErrorCode::Overflow));
    assert_eq!(from, wallet(10));
    assert_eq!(to, holding(5));
    assert_eq!(full, holding(u64::MAX - 6));
    assert_eq!(transfer(&mut from, &mut full, &alice(), 6), Ok(()));
    assert_eq!(full, holding(u64::MAX));
    assert_eq!(from, wallet(4));
}

#[test]
fn check_custody_names_the_fault() {
    let derived = vault_address(&program());
    let at = derived.unwrap().0;
    assert_eq!(check_custody(&vault(5), derived, &mint().address), Ok(at));
    assert_eq!(check_custody(&vault(5), None, &mint().address), Err(ErrorCode::InvalidAddress));
    assert_eq!(
        check_custody(&holding(5), derived, &mint().address),
        Err(ErrorCode::InvalidAddress)
    );
    let taken = TokenAccount { owner: alice(), ..vault(5) };
    assert_eq!(check_custody(&taken, derived, &mint().address), Err(ErrorCode::Unauthorized));
    assert_eq!(check_custody(&vault(5), derived, &address(9)), Err(ErrorCode::MintMismatch));
}

#[test]
fn initialize_creates_the_vault_once() {
    let mut ctx =
        Initialize { program_id: program(), signer: alice(), token_vault: None, mint: mint() };
    assert_eq!(initialize(&mut ctx), Ok(()));
    assert_eq!(ctx.token_vault, Some(vault(0)));
    assert_eq!(ctx.program_id, program());
    assert_eq!(ctx.signer, alice());
    assert_eq!(ctx.mint, mint());

    ctx.token_vault = Some(vault(77));
    let before = ctx;
    assert_eq!(initialize(&mut ctx), Ok(()));
    assert_eq!(ctx, before);
}

#[test]
fn initialize_refuses_a_vault_that_is_not_the_programs() {
    let elsewhere = TokenAccount { address: address(8), owner: address(8), ..vault(0) };
    let mut ctx = Initialize {
        program_id: program(),
        signer: alice(),
        token_vault: Some(elsewhere),
        mint: mint(),
    };
    assert_eq!(initialize(&mut ctx), Err(ErrorCode::InvalidAddress));
    assert_eq!(ctx.token_vault, Some(elsewhere));

    let other_mint = TokenAccount { mint: address(9), ..vault(0) };
    ctx.token_vault = Some(other_mint);
    assert_eq!(initialize(&mut ctx), Err(ErrorCode::MintMismatch));
    assert_eq!(ctx.token_vault, Some(other_mint));

    let taken = TokenAccount { owner: alice(), ..vault(0) };
    ctx.token_vault = Some(taken);
    assert_eq!(initialize(&mut ctx), Err(ErrorCode::Unauthorized));
    assert_eq!(ctx.token_vault, Some(taken));

    ctx.token_vault = None;
    let before = ctx;
    assert_eq!(initialize_with(&mut ctx, None), Err(ErrorCode::InvalidAddress));
    assert_eq!(ctx, before);
    assert_eq!(initialize_with(&mut ctx, Some((address(8), 255))), Ok(()));
    assert_eq!(
        ctx.token_vault,
        Some(TokenAccount {
            address: address(8),
            mint: mint().address,
            owner: address(8),
            amount: 0
        })
    );
}

#[test]
fn stake_five_then_destake_a_hundred_time_units_later() {
    let mut ctx = first_stake(5_000_000, 1000);
    assert_eq!(stake(&mut ctx, 5), Ok(()));
    assert_eq!(ctx.stake_info_account, Some(StakeInfo { started_at: 1000, is_staked: true }));
    assert_eq!(ctx.stake_account, Some(holding(5_000_000)));
    assert_eq!(ctx.user_token_account, wallet(0));

    let mut ctx = after(&ctx, vault(250_000_000), 1100);
    assert_eq!(destake(&mut ctx), Ok(()));
    assert_eq!(ctx.stake_info_account, StakeInfo { started_at: 1100, is_staked: false });
    assert_eq!(ctx.token_vault, vault(150_000_000));
    assert_eq!(ctx.stake_account, holding(0));
    assert_eq!(ctx.user_token_account, wallet(105_000_000));
}

#[test]
fn stake_moves_the_deposit_from_the_wallet_to_the_holding() {
    let mut ctx = first_stake(12_345_678, 42);
    assert_eq!(stake(&mut ctx, 12), Ok(()));
    assert_eq!(ctx.user_token_account, wallet(345_678));
    assert_eq!(ctx.stake_account, Some(holding(12_000_000)));
    assert_eq!(ctx.stake_info_account, Some(StakeInfo { started_at: 42, is_staked: true }));
    assert_eq!(ctx.program_id, program());
    assert_eq!(ctx.signer, alice());
    assert_eq!(ctx.mint, mint());
    assert_eq!(ctx.clock, Clock { slot: 42 });
}

#[test]
fn stake_again_after_a_destake_uses_the_same_accounts() {
    let mut ctx = first_stake(9_000_000, 10);
    ctx.stake_info_account = Some(StakeInfo { started_at: 7, is_staked: false });
    ctx.stake_account = Some(holding(0));
    assert_eq!(stake(&mut ctx, 9), Ok(()));
    assert_eq!(ctx.stake_info_account, Some(StakeInfo { started_at: 10, is_staked: true }));
    assert_eq!(ctx.stake_account, Some(holding(9_000_000)));
    assert_eq!(ctx.user_token_account, wallet(0));
}

#[test]
fn a_second_stake_is_refused_and_moves_nothing() {
    let mut ctx = first_stake(20_000_000, 1000);
    assert_eq!(stake(&mut ctx, 5), Ok(()));
    let staked = ctx;
    assert_eq!(stake(&mut ctx, 5), Err(ErrorCode::AlreadyStaked));
    assert_eq!(ctx, staked);
    ctx.clock = Clock { slot: 2000 };
    let later = ctx;
    assert_eq!(stake(&mut ctx, 1), Err(ErrorCode::AlreadyStaked));
    assert_eq!(stake(&mut ctx, 0), Err(ErrorCode::AlreadyStaked));
    assert_eq!(stake(&mut ctx, u64::MAX), Err(ErrorCode::AlreadyStaked));
    assert_eq!(stake_with(&mut ctx, 5, None), Err(ErrorCode::AlreadyStaked));
    assert_eq!(ctx, later);
}

#[test]
fn stake_of_nothing_is_refused() {
    let mut ctx = first_stake(20_000_000, 1000);
    let before = ctx;
    assert_eq!(stake(&mut ctx, 0), Err(ErrorCode::ZeroAmount));
    assert_eq!(ctx, before);
}

#[test]
fn stake_beyond_64_bits_is_refused_and_moves_nothing() {
    let mut ctx = first_stake(u64::MAX, 1000);
    let before = ctx;
    assert_eq!(stake(&mut ctx, 18_446_744_073_710), Err(ErrorCode::Overflow));
    assert_eq!(stake(&mut ctx, u64::MAX), Err(ErrorCode::Overflow));
    assert_eq!(ctx, before);
    ctx.mint.decimals = 20;
    let before = ctx;
    assert_eq!(stake(&mut ctx, 1), Err(ErrorCode::Overflow));
    assert_eq!(ctx, before);
    ctx.mint.decimals = 6;
    assert_eq!(stake(&mut ctx, 18_446_744_073_709), Ok(()));
    assert_eq!(ctx.stake_account, Some(holding(18_446_744_073_709_000_000)));
    assert_eq!(ctx.user_token_account, wallet(551_615));
}

#[test]
fn stake_is_refused_by_the_ledger_and_moves_nothing() {
    let mut ctx = first_stake(4_999_999, 1000);
    let before = ctx;
    assert_eq!(stake(&mut ctx, 5), Err(ErrorCode::InsufficientFunds));
    assert_eq!(ctx, before);

    let mut ctx = first_stake(5_000_000, 1000);
    ctx.signer = address(7);
    let before = ctx;
    assert_eq!(stake(&mut ctx, 5), Err(ErrorCode::Unauthorized));
    assert_eq!(
        stake_with(&mut ctx, 5, stake_account_address(&program(), &alice())),
        Err(ErrorCode::Unauthorized)
    );
    assert_eq!(ctx, before);

    let mut ctx = first_stake(5_000_000, 1000);
    ctx.user_token_account.mint = address(9);
    let before = ctx;
    assert_eq!(stake(&mut ctx, 5), Err(ErrorCode::MintMismatch));
    assert_eq!(ctx, before);

    let mut ctx = first_stake(5_000_000, 1000);
    ctx.stake_account = Some(holding(u64::MAX - 4_999_999));
    let before = ctx;
    assert_eq!(stake(&mut ctx, 5), Err(ErrorCode::Overflow));
    assert_eq!(ctx, before);
}

#[test]
fn stake_checks_the_holding() {
    let mut ctx = first_stake(5_000_000, 1000);
    let before = ctx;
    assert_eq!(stake_with(&mut ctx, 5, None), Err(ErrorCode::InvalidAddress));
    assert_eq!(ctx, before);

    ctx.stake_account = Some(vault(0));
    let before = ctx;
    assert_eq!(stake(&mut ctx, 5), Err(ErrorCode::InvalidAddress));
    assert_eq!(ctx, before);

    ctx.stake_account = Some(TokenAccount { owner: alice(), ..holding(0) });
    let before = ctx;
    assert_eq!(stake(&mut ctx, 5), Err(ErrorCode::Unauthorized));
    assert_eq!(ctx, before);

    ctx.stake_account = Some(TokenAccount { mint: address(9), ..holding(0) });
    let before = ctx;
    assert_eq!(stake(&mut ctx, 5), Err(ErrorCode::MintMismatch));
    assert_eq!(ctx, before);
}

#[test]
fn stake_with_creates_the_holding_at_the_given_address() {
    let mut ctx = first_stake(5_000_000, 1000);
    assert_eq!(stake_with(&mut ctx, 5, Some((address(8), 200))), Ok(()));
    assert_eq!(
        ctx.stake_account,
        Some(TokenAccount {
            address: address(8),
            mint: mint().address,
            owner: address(8),
            amount: 5_000_000
        })
    );
}

#[test]
fn destake_pays_the_reward_and_returns_the_holding() {
    let mut ctx = running(1000, 5_000_000, 100_000_000, 3, 1100);
    assert_eq!(destake(&mut ctx), Ok(()));
    assert_eq!(ctx.token_vault, vault(0));
    assert_eq!(ctx.stake_account, holding(0));
    assert_eq!(ctx.user_token_account, wallet(105_000_003));
    assert_eq!(ctx.stake_info_account, StakeInfo { started_at: 1100, is_staked: false });
    assert_eq!(ctx.program_id, program());
    assert_eq!(ctx.signer, alice());
    assert_eq!(ctx.mint, mint());
    assert_eq!(ctx.clock, Clock { slot: 1100 });
}

#[test]
fn stake_then_destake_at_once_gives_the_wallet_back() {
    let mut ctx = first_stake(8_000_000, 1000);
    assert_eq!(stake(&mut ctx, 5), Ok(()));
    assert_eq!(ctx.user_token_account, wallet(3_000_000));
    let mut ctx = after(&ctx, vault(0), 1000);
    assert_eq!(destake(&mut ctx), Ok(()));
    assert_eq!(ctx.user_token_account, wallet(8_000_000));
    assert_eq!(ctx.token_vault, vault(0));
    assert_eq!(ctx.stake_account, holding(0));
    assert_eq!(ctx.stake_info_account, StakeInfo { started_at: 1000, is_staked: false });
}

#[test]
fn a_second_destake_is_refused_and_moves_nothing() {
    let mut ctx = running(1000, 5_000_000, 100_000_000, 0, 1100);
    assert_eq!(destake(&mut ctx), Ok(()));
    let done = ctx;
    assert_eq!(destake(&mut ctx), Err(ErrorCode::NotStaked));
    assert_eq!(ctx, done);
    ctx.clock = Clock { slot: 5000 };
    ctx.token_vault = vault(u64::MAX);
    let later = ctx;
    assert_eq!(destake(&mut ctx), Err(ErrorCode::NotStaked));
    assert_eq!(destake_with(&mut ctx, None, None), Err(ErrorCode::NotStaked));
    assert_eq!(ctx, later);
}

#[test]
fn destake_before_any_stake_is_refused() {
    let mut ctx = running(0, 0, 100, 0, 1100);
    ctx.stake_info_account = StakeInfo::default();
    let before = ctx;
    assert_eq!(destake(&mut ctx), Err(ErrorCode::NotStaked));
    assert_eq!(ctx, before);
}

#[test]
fn destake_is_refused_on_the_clock_and_the_reward() {
    let mut ctx = running(1000, 5_000_000, 100_000_000, 0, 999);
    let before = ctx;
    assert_eq!(destake(&mut ctx), Err(ErrorCode::Underflow));
    assert_eq!(ctx, before);

    let mut ctx = running(0, 5_000_000, u64::MAX, 0, 18_446_744_073_710);
    let before = ctx;
    assert_eq!(destake(&mut ctx), Err(ErrorCode::Overflow));
    assert_eq!(ctx, before);

    let mut ctx = running(1000, 5_000_000, 99_999_999, 0, 1100);
    let before = ctx;
    assert_eq!(destake(&mut ctx), Err(ErrorCode::InsufficientVaultReserve));
    assert_eq!(ctx, before);

    let mut ctx = running(1000, 5_000_000, 100_000_000, u64::MAX - 104_999_999, 1100);
    let before = ctx;
    assert_eq!(destake(&mut ctx), Err(ErrorCode::Overflow));
    assert_eq!(ctx, before);
    ctx.user_token_account.amount -= 1;
    assert_eq!(destake(&mut ctx), Ok(()));
    assert_eq!(ctx.user_token_account, wallet(u64::MAX));
}

#[test]
fn destake_checks_the_vault_and_the_holding() {
    let mut ctx = running(1000, 5_000_000, 100_000_000, 0, 1100);
    let before = ctx;
    let at_vault = vault_address(&program());
    let at_holding = stake_account_address(&program(), &alice());
    assert_eq!(destake_with(&mut ctx, None, at_holding), Err(ErrorCode::InvalidAddress));
    assert_eq!(destake_with(&mut ctx, at_vault, None), Err(ErrorCode::InvalidAddress));
    assert_eq!(destake_with(&mut ctx, at_holding, at_vault), Err(ErrorCode::InvalidAddress));
    assert_eq!(ctx, before);

    ctx.signer = address(7);
    let before = ctx;
    assert_eq!(destake(&mut ctx), Err(ErrorCode::InvalidAddress));
    assert_eq!(ctx, before);

    let mut ctx = running(1000, 5_000_000, 100_000_000, 0, 1100);
    ctx.token_vault.owner = alice();
    let before = ctx;
    assert_eq!(destake(&mut ctx), Err(ErrorCode::Unauthorized));
    assert_eq!(ctx, before);

    let mut ctx = running(1000, 5_000_000, 100_000_000, 0, 1100);
    ctx.stake_account.owner = alice();
    let before = ctx;
    assert_eq!(destake(&mut ctx), Err(ErrorCode::Unauthorized));
    assert_eq!(ctx, before);

    let mut ctx = running(1000, 5_000_000, 100_000_000, 0, 1100);
    ctx.user_token_account.mint = address(9);
    let before = ctx;
    assert_eq!(destake(&mut ctx), Err(ErrorCode::MintMismatch));
    assert_eq!(ctx, before);

    let mut ctx = running(1000, 5_000_000, 100_000_000, 0, 1100);
    ctx.token_vault.mint = address(9);
    let before = ctx;
    assert_eq!(destake(&mut ctx), Err(ErrorCode::MintMismatch));
    assert_eq!(ctx, before);
}
