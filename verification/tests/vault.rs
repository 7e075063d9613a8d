use sol_earna::constants::{tag_bytes, TREASURY_TAG};
use sol_earna::contexts::{check_bindings, CreateTreasury, Redeem, Stake, SwapFeeOnExchange};
use sol_earna::errors::XError;
use sol_earna::events::{Claimed, Deposited, TreasuryCreated};
use sol_earna::processors::CustodyOp;
use sol_earna::states::{Address, FeeConfig, Mint, TokenAccount, Treasury};

fn id(n: u8) -> Address {
    Address::new([n; 32])
}

const TREASURY: u8 = 10;
const UNDERLYING: u8 = 11;
const DERIVATIVE: u8 = 12;
const VAULT: u8 = 13;
const USER: u8 = 20;
const USER_TOKENS: u8 = 21;
const USER_WRAPPED: u8 = 22;

fn accounts(user_tokens: u64, vault: u64, supply: u64, user_wrapped: u64) -> Stake {
    Stake {
        treasury_key: id(TREASURY),
        treasury: Treasury {
            authority: id(1),
            treasury_mint: id(UNDERLYING),
            wrapper_mint: id(DERIVATIVE),
            treasury_token_account: id(VAULT),
        },
        wrapper_mint: Mint { key: id(DERIVATIVE), decimals: 9, mint_authority: id(TREASURY), supply },
        treasury_mint: Mint { key: id(UNDERLYING), decimals: 9, mint_authority: id(2), supply: 1 << 40 },
        treasury_token_account: TokenAccount {
            key: id(VAULT),
            mint: id(UNDERLYING),
            owner: id(TREASURY),
            amount: vault,
        },
        user_token_account: TokenAccount {
            key: id(USER_TOKENS),
            mint: id(UNDERLYING),
            owner: id(USER),
            amount: user_tokens,
        },
        user_wrapper_token_account: TokenAccount {
            key: id(USER_WRAPPED),
            mint: id(DERIVATIVE),
            owner: id(USER),
            amount: user_wrapped,
        },
        user: id(USER),
    }
}

#[test]
fn stake_deposits_and_mints() {
    let mut ctx = accounts(1_000, 500, 500, 30);
    let done = ctx.stake(254, 400).unwrap();
    assert_eq!(ctx.user_token_account.amount, 600);
    assert_eq!(ctx.treasury_token_account.amount, 900);
    assert_eq!(ctx.wrapper_mint.supply, 900);
    assert_eq!(ctx.user_wrapper_token_account.amount, 430);
    assert_eq!(done.event, Deposited { treasury: id(TREASURY), user: id(USER), amount: 400 });
    assert_eq!(
        done.steps,
        vec![
            CustodyOp::Transfer {
                from: id(USER_TOKENS),
                to: id(VAULT),
                mint: id(UNDERLYING),
                authority: id(USER),
                amount: 400,
                decimals: 9,
            },
            CustodyOp::MintTo {
                mint: id(DERIVATIVE),
                to: id(USER_WRAPPED),
                authority: id(TREASURY),
                amount: 400,
            },
        ]
    );
    assert_eq!(
        done.signer_seeds,
        vec![b"treasury".to_vec(), vec![UNDERLYING; 32], vec![254u8]]
    );
}

#[test]
fn redeem_burns_and_withdraws() {
    let mut ctx = accounts(1_000, 500, 500, 300).to_redeem();
    let done = ctx.redeem(7, 200).unwrap();
    assert_eq!(ctx.user_token_account.amount, 1_200);
    assert_eq!(ctx.treasury_token_account.amount, 300);
    assert_eq!(ctx.wrapper_mint.supply, 300);
    assert_eq!(ctx.user_wrapper_token_account.amount, 100);
    assert_eq!(done.event, Claimed { treasury: id(TREASURY), user: id(USER), amount: 200 });
    assert_eq!(
        done.steps,
        vec![
            CustodyOp::Burn {
                mint: id(DERIVATIVE),
                from: id(USER_WRAPPED),
                authority: id(USER),
                amount: 200,
            },
            CustodyOp::Transfer {
                from: id(VAULT),
                to: id(USER_TOKENS),
                mint: id(UNDERLYING),
                authority: id(TREASURY),
                amount: 200,
                decimals: 9,
            },
        ]
    );
    assert_eq!(
        done.signer_seeds,
        vec![b"treasury".to_vec(), vec![UNDERLYING; 32], vec![7u8]]
    );
}

#[test]
fn stake_then_redeem_restores_the_balances() {
    let before = accounts(1_000, 500, 500, 30);
    let mut ctx = before;
    sol_earna::stake(&mut ctx, 1, 1_000).unwrap();
    assert_eq!(ctx.user_token_account.amount, 0);
    assert_eq!(ctx.user_wrapper_token_account.amount, 1_030);
    let mut back = ctx.to_redeem();
    sol_earna::redeem(&mut back, 1, 1_000).unwrap();
    assert_eq!(back, before.to_redeem());
    assert_eq!(back.user_token_account.amount, 1_000);
    assert_eq!(back.user_wrapper_token_account.amount, 30);
    assert_eq!(back.wrapper_mint.supply, back.treasury_token_account.amount);
}

#[test]
fn stake_of_zero_is_not_allowed() {
    let mut ctx = accounts(1_000, 500, 500, 30);
    let before = ctx;
    assert_eq!(ctx.stake(1, 0), Err(XError::NotAllowed));
    assert_eq!(ctx, before);
    assert_eq!(sol_earna::stake(&mut ctx, 1, 0), Err(XError::NotAllowed));
    assert_eq!(ctx, before);
}

#[test]
fn redeem_of_zero_is_not_allowed() {
    let mut ctx = accounts(1_000, 500, 500, 30).to_redeem();
    let before = ctx;
    assert_eq!(ctx.redeem(1, 0), Err(XError::NotAllowed));
    assert_eq!(ctx, before);
    assert_eq!(sol_earna::redeem(&mut ctx, 1, 0), Err(XError::NotAllowed));
    assert_eq!(ctx, before);
}

#[test]
fn accounts_are_looked_at_before_the_amount() {
    let mut ctx = accounts(1_000, 500, 500, 30);
    ctx.treasury.wrapper_mint = id(99);
    let before = ctx;
    assert_eq!(ctx.stake(1, 0), Err(XError::InvalidAssetBinding));
    assert_eq!(ctx.stake(1, 10), Err(XError::InvalidAssetBinding));
    assert_eq!(ctx.stake(1, u64::MAX), Err(XError::InvalidAssetBinding));
    assert_eq!(ctx, before);

    let mut ctx = accounts(1_000, 500, 500, 30).to_redeem();
    ctx.treasury.treasury_mint = id(99);
    let before = ctx;
    assert_eq!(ctx.redeem(1, 0), Err(XError::InvalidAssetBinding));
    assert_eq!(ctx.redeem(1, 10), Err(XError::InvalidAssetBinding));
    assert_eq!(ctx.redeem(1, u64::MAX), Err(XError::InvalidAssetBinding));
    assert_eq!(ctx, before);

    let mut ctx = accounts(1_000, 500, 500, 30);
    ctx.user_token_account.owner = id(99);
    assert_eq!(ctx.stake(1, 0), Err(XError::InvalidAddress));
    let mut ctx = accounts(1_000, 500, 500, 30).to_redeem();
    ctx.treasury_token_account.key = id(99);
    assert_eq!(ctx.redeem(1, 0), Err(XError::InvalidAddress));
}

#[test]
fn stake_of_more_than_the_user_holds_is_not_allowed() {
    let mut ctx = accounts(1_000, 500, 500, 30);
    let before = ctx;
    assert_eq!(ctx.stake(1, 1_001), Err(XError::NotAllowed));
    assert_eq!(ctx, before);

    let mut ctx = accounts(1_000, u64::MAX - 999, 500, 30);
    assert_eq!(ctx.stake(1, 1_000), Err(XError::NotAllowed));
    assert!(ctx.stake(1, 999).is_ok());
    let mut ctx = accounts(1_000, 500, u64::MAX - 999, 30);
    assert_eq!(ctx.stake(1, 1_000), Err(XError::NotAllowed));
    let mut ctx = accounts(1_000, 500, 500, u64::MAX - 999);
    assert_eq!(ctx.stake(1, 1_000), Err(XError::NotAllowed));
}

#[test]
fn redeem_of_more_than_is_held_is_not_allowed() {
    let mut ctx = accounts(1_000, 500, 500, 30).to_redeem();
    let before = ctx;
    assert_eq!(ctx.redeem(1, 31), Err(XError::NotAllowed));
    assert_eq!(ctx, before);
    assert!(ctx.redeem(1, 30).is_ok());

    let mut ctx = accounts(1_000, 20, 500, 30).to_redeem();
    assert_eq!(ctx.redeem(1, 21), Err(XError::NotAllowed));
    let mut ctx = accounts(1_000, 500, 20, 30).to_redeem();
    assert_eq!(ctx.redeem(1, 21), Err(XError::NotAllowed));
    let mut ctx = accounts(u64::MAX - 19, 500, 500, 30).to_redeem();
    assert_eq!(ctx.redeem(1, 20), Err(XError::NotAllowed));
}

#[test]
fn another_asset_than_the_treasurys_is_an_invalid_binding() {
    let mut ctx = accounts(1_000, 500, 500, 30);
    ctx.wrapper_mint.key = id(99);
    let before = ctx;
    assert_eq!(ctx.stake(1, 10), Err(XError::InvalidAssetBinding));
    assert_eq!(ctx, before);

    let mut ctx = accounts(1_000, 500, 500, 30).to_redeem();
    ctx.treasury_mint.key = id(99);
    let before = ctx;
    assert_eq!(ctx.redeem(1, 10), Err(XError::InvalidAssetBinding));
    assert_eq!(ctx, before);
}

#[test]
fn another_account_than_asked_for_is_an_invalid_address() {
    let good = accounts(1_000, 500, 500, 30);

    let mut ctx = good;
    ctx.treasury_token_account.key = id(99);
    assert_eq!(ctx.stake(1, 10), Err(XError::InvalidAddress));
    let mut ctx = good;
    ctx.treasury_token_account.owner = id(USER);
    assert_eq!(ctx.stake(1, 10), Err(XError::InvalidAddress));
    let mut ctx = good;
    ctx.treasury_token_account.mint = id(DERIVATIVE);
    assert_eq!(ctx.stake(1, 10), Err(XError::InvalidAddress));
    let mut ctx = good;
    ctx.user_token_account.owner = id(99);
    assert_eq!(ctx.stake(1, 10), Err(XError::InvalidAddress));
    let mut ctx = good;
    ctx.user_token_account.mint = id(DERIVATIVE);
    assert_eq!(ctx.stake(1, 10), Err(XError::InvalidAddress));
    let mut ctx = good;
    ctx.user_token_account.key = id(VAULT);
    assert_eq!(ctx.stake(1, 10), Err(XError::InvalidAddress));
    let mut ctx = good.to_redeem();
    ctx.user_wrapper_token_account.mint = id(UNDERLYING);
    assert_eq!(ctx.redeem(1, 10), Err(XError::InvalidAddress));
    let mut ctx = good.to_redeem();
    ctx.user_wrapper_token_account.owner = id(99);
    let before = ctx;
    assert_eq!(ctx.redeem(1, 10), Err(XError::InvalidAddress));
    assert_eq!(ctx, before);

    assert_eq!(
        check_bindings(
            &good.treasury_key,
            &good.treasury,
            &good.wrapper_mint,
            &good.treasury_mint,
            &good.treasury_token_account,
            &good.user_token_account,
            &good.user_wrapper_token_account,
            &good.user,
        ),
        Ok(())
    );
}

fn creation() -> CreateTreasury {
    let a = accounts(0, 0, 0, 0);
    CreateTreasury {
        treasury_key: id(TREASURY),
        treasury: None,
        treasury_mint: a.treasury_mint,
        wrapper_mint: a.wrapper_mint,
        treasury_token_account: a.treasury_token_account,
        authority: id(1),
    }
}

#[test]
fn create_treasury_writes_the_record() {
    let mut ctx = creation();
    let event = sol_earna::create_treasury(&mut ctx).unwrap();
    assert_eq!(
        event,
        TreasuryCreated {
            authority: id(1),
            treasury_mint: id(UNDERLYING),
            wrapper_mint: id(DERIVATIVE),
            treasury_token_account: id(VAULT),
        }
    );
    assert_eq!(ctx.treasury, Some(accounts(0, 0, 0, 0).treasury));
}

#[test]
fn create_treasury_twice_is_a_duplicate() {
    let mut ctx = creation();
    ctx.create_treasury().unwrap();
    let before = ctx;
    assert_eq!(ctx.create_treasury(), Err(XError::DuplicateInitialization));
    assert_eq!(ctx, before);
}

#[test]
fn create_treasury_checks_the_accounts() {
    let mut ctx = creation();
    ctx.wrapper_mint.decimals = 6;
    assert_eq!(ctx.create_treasury(), Err(XError::InvalidAssetBinding));
    assert_eq!(ctx.treasury, None);
    let mut ctx = creation();
    ctx.wrapper_mint.mint_authority = id(1);
    assert_eq!(ctx.create_treasury(), Err(XError::InvalidAssetBinding));
    let mut ctx = creation();
    ctx.treasury_token_account.mint = id(DERIVATIVE);
    assert_eq!(ctx.create_treasury(), Err(XError::InvalidAddress));
    let mut ctx = creation();
    ctx.treasury_token_account.owner = id(1);
    assert_eq!(ctx.create_treasury(), Err(XError::InvalidAddress));
}

#[test]
fn swap_fee_on_exchange_changes_nothing() {
    let ledger = FeeConfig {
        wsol_mint_address: id(1),
        wrapper_mint_address: id(2),
        fee_recipient_liquidity: id(3),
        fee_recipient_marketing: id(4),
        fee_recipient_holders: id(5),
        fee_percent_liquidity: 100,
        fee_percent_marketing: 400,
        fee_percent_holders: 500,
        fee_not_collected: 1,
        fee_collected: 2,
        unclaimed_fee_holders: 3,
        unclaimed_fee_marketing: 4,
        unclaimed_fee_liquidity: 5,
    };
    let mut ctx = SwapFeeOnExchange { mint: id(9), fee_config: ledger };
    let before = ctx;
    assert_eq!(sol_earna::swap_fee_on_exchange(&mut ctx, 77), Ok(()));
    assert_eq!(ctx, before);
}

#[test]
fn errors_say_what_they_are() {
    assert_eq!(XError::InvalidAddress.message(), "Invalid address");
    assert_eq!(XError::NotAllowed.message(), "Not allowed");
    assert_eq!(XError::InvalidAssetBinding.message(), "Invalid Treasury Mint");
    assert_eq!(XError::DuplicateInitialization.message(), "Already initialized");
    assert_eq!(
        sol_earna::SolEarnaError::BalanceMismatch.message(),
        "Collect fee amount mismatch with balance"
    );
    assert_eq!(sol_earna::SolEarnaError::NotAllowed.message(), "Not allowed");
    assert_eq!(sol_earna::SolEarnaError::DuplicateInitialization.message(), "Already initialized");
}

#[test]
fn signer_seeds_are_tag_asset_and_bump() {
    let treasury = accounts(0, 0, 0, 0).treasury;
    assert_eq!(
        treasury.signer_seeds(255),
        vec![b"treasury".to_vec(), vec![UNDERLYING; 32], vec![255u8]]
    );
    assert_eq!(
        treasury.signer_seeds_with_authority(3),
        vec![b"treasury".to_vec(), vec![UNDERLYING; 32], vec![1u8; 32], vec![3u8]]
    );
}

#[test]
fn tags_are_their_words() {
    assert_eq!(tag_bytes(&TREASURY_TAG), b"treasury".to_vec());
    assert_eq!(tag_bytes(&sol_earna::constants::DELEGATE_TAG), b"delegate".to_vec());
    let _unused: Redeem = accounts(0, 0, 0, 0).to_redeem();
}
