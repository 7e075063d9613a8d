use vstd::prelude::*;
use crate::errors::XError;
use crate::states::{Address, FeeConfig, Mint, TokenAccount, Treasury};

verus! {

/// The accounts of a stake: the treasury record and where it is kept, the two
/// assets, the vault, and the user's two token accounts.
#[derive(Clone, Copy, Debug, PartialEq, Eq)]
pub struct Stake {
    /// Where the treasury record is kept. This identifier owns the vault and is
    /// the authority by which the derivative asset is minted.
    pub treasury_key: Address,
    pub treasury: Treasury,
    pub wrapper_mint: Mint,
    pub treasury_mint: Mint,
    pub treasury_token_account: TokenAccount,
    pub user_token_account: TokenAccount,
    pub user_wrapper_token_account: TokenAccount,
    pub user: Address,
}

/// The accounts of a redemption; the same as those of a stake.
#[derive(Clone, Copy, Debug, PartialEq, Eq)]
pub struct Redeem {
    /// Where the treasury record is kept. This identifier owns the vault.
    pub treasury_key: Address,
    pub treasury: Treasury,
    pub wrapper_mint: Mint,
    pub treasury_mint: Mint,
    pub treasury_token_account: TokenAccount,
    pub user_token_account: TokenAccount,
    pub user_wrapper_token_account: TokenAccount,
    pub user: Address,
}

/// The accounts of the creation of a treasury: the place of the record and
/// what it holds so far, the two assets, the vault, and who creates it.
#[derive(Clone, Copy, Debug, PartialEq, Eq)]
pub struct CreateTreasury {
    /// Where the treasury record is kept.
    pub treasury_key: Address,
    /// The record at that place: `None` until a treasury is created there.
    pub treasury: Option<Treasury>,
    pub treasury_mint: Mint,
    pub wrapper_mint: Mint,
    pub treasury_token_account: TokenAccount,
    pub authority: Address,
}

/// The accounts of a transfer of the fee-bearing asset, as the fee ledger
/// sees it: the asset and its ledger.
#[derive(Clone, Copy, Debug, PartialEq, Eq)]
pub struct TransferHook {
    pub mint: Address,
    pub fee_config: FeeConfig,
}

/// The accounts of an exchange of the collected fee: the asset and its
/// ledger.
#[derive(Clone, Copy, Debug, PartialEq, Eq)]
pub struct SwapFeeOnExchange {
    pub mint: Address,
    pub fee_config: FeeConfig,
}

/// The accounts of the setup of the hook for one fee-bearing asset: the
/// asset, the programs and accounts that the hook will need at each transfer,
/// the place of the fee ledger and what it holds so far, and the three
/// recipients of the fee.
#[derive(Clone, Copy, Debug, PartialEq, Eq)]
pub struct InitializeExtraAccountMetaList {
    pub payer: Address,
    pub extra_account_meta_list: Address,
    pub mint: Address,
    pub token_program: Address,
    pub token_program_org: Address,
    pub associated_token_program: Address,
    /// Where the fee ledger is kept.
    pub fee_config_key: Address,
    /// The ledger at that place: `None` until it is set up.
    pub fee_config: Option<FeeConfig>,
    pub wsol_mint: Address,
    pub wrapper_mint: Address,
    pub fee_recipient_liquidity: Address,
    pub fee_recipient_marketing: Address,
    pub fee_recipient_holders: Address,
}

/// No accounts.
#[derive(Clone, Copy, Debug, PartialEq, Eq)]
pub struct Initialize {
}

/// What is wrong with the accounts handed to a stake or a redemption, if
/// anything. The assets are looked at first, then the vault, then the user's
/// account of the underlying asset, then the user's account of the derivative
/// asset.
pub open spec fn binding_error(
    treasury_key: Address,
    treasury: Treasury,
    wrapper_mint: Mint,
    treasury_mint: Mint,
    treasury_token_account: TokenAccount,
    user_token_account: TokenAccount,
    user_wrapper_token_account: TokenAccount,
    user: Address,
) -> Option<XError> {
    if treasury.wrapper_mint != wrapper_mint.key || treasury.treasury_mint != treasury_mint.key {
        Some(XError::InvalidAssetBinding)
    } else if treasury_token_account.key != treasury.treasury_token_account
        || treasury_token_account.mint != treasury_mint.key || treasury_token_account.owner
        != treasury_key {
        Some(XError::InvalidAddress)
    } else if user_token_account.mint != treasury_mint.key || user_token_account.owner != user
        || user_token_account.key == treasury_token_account.key {
        Some(XError::InvalidAddress)
    } else if user_wrapper_token_account.mint != wrapper_mint.key
        || user_wrapper_token_account.owner != user {
        Some(XError::InvalidAddress)
    } else {
        None
    }
}

/// Checks the accounts handed to a stake or a redemption against the treasury
/// record.
pub fn check_bindings(
    treasury_key: &Address,
    treasury: &Treasury,
    wrapper_mint: &Mint,
    treasury_mint: &Mint,
    treasury_token_account: &TokenAccount,
    user_token_account: &TokenAccount,
    user_wrapper_token_account: &TokenAccount,
    user: &Address,
) -> (r: Result<(), XError>)
    ensures
        match r {
            Ok(_) => binding_error(
                *treasury_key,
                *treasury,
                *wrapper_mint,
                *treasury_mint,
                *treasury_token_account,
                *user_token_account,
                *user_wrapper_token_account,
                *user,
            ) is None,
            Err(e) => binding_error(
                *treasury_key,
                *treasury,
                *wrapper_mint,
                *treasury_mint,
                *treasury_token_account,
                *user_token_account,
                *user_wrapper_token_account,
                *user,
            ) == Some(e),
        },
{
    if !treasury.wrapper_mint.same(&wrapper_mint.key) || !treasury.treasury_mint.same(
        &treasury_mint.key,
    ) {
        return Err(XError::InvalidAssetBinding);
    }
    if !treasury_token_account.key.same(&treasury.treasury_token_account)
        || !treasury_token_account.mint.same(&treasury_mint.key)
        || !treasury_token_account.owner.same(treasury_key) {
        return Err(XError::InvalidAddress);
    }
    if !user_token_account.mint.same(&treasury_mint.key) || !user_token_account.owner.same(user)
        || user_token_account.key.same(&treasury_token_account.key) {
        return Err(XError::InvalidAddress);
    }
    if !user_wrapper_token_account.mint.same(&wrapper_mint.key)
        || !user_wrapper_token_account.owner.same(user) {
        return Err(XError::InvalidAddress);
    }
    Ok(())
}

impl Stake {
    /// What is wrong with the accounts, if anything.
    pub open spec fn binding_error(&self) -> Option<XError> {
        binding_error(
            self.treasury_key,
            self.treasury,
            self.wrapper_mint,
            self.treasury_mint,
            self.treasury_token_account,
            self.user_token_account,
            self.user_wrapper_token_account,
            self.user,
        )
    }

    /// Whether every derivative token is backed: the supply of the derivative
    /// asset equals what the vault holds.
    pub open spec fn backed(&self) -> bool {
        self.wrapper_mint.supply == self.treasury_token_account.amount
    }

    /// The same accounts, for a redemption.
    pub open spec fn as_redeem(self) -> Redeem {
        Redeem {
            treasury_key: self.treasury_key,
            treasury: self.treasury,
            wrapper_mint: self.wrapper_mint,
            treasury_mint: self.treasury_mint,
            treasury_token_account: self.treasury_token_account,
            user_token_account: self.user_token_account,
            user_wrapper_token_account: self.user_wrapper_token_account,
            user: self.user,
        }
    }

    /// The same accounts, for a redemption.
    pub fn to_redeem(&self) -> (r: Redeem)
        ensures
            r == self.as_redeem(),
    {
        Redeem {
            treasury_key: self.treasury_key,
            treasury: self.treasury,
            wrapper_mint: self.wrapper_mint,
            treasury_mint: self.treasury_mint,
            treasury_token_account: self.treasury_token_account,
            user_token_account: self.user_token_account,
            user_wrapper_token_account: self.user_wrapper_token_account,
            user: self.user,
        }
    }
}

impl Redeem {
    /// What is wrong with the accounts, if anything.
    pub open spec fn binding_error(&self) -> Option<XError> {
        binding_error(
            self.treasury_key,
            self.treasury,
            self.wrapper_mint,
            self.treasury_mint,
            self.treasury_token_account,
            self.user_token_account,
            self.user_wrapper_token_account,
            self.user,
        )
    }

    /// Whether every derivative token is backed: the supply of the derivative
    /// asset equals what the vault holds.
    pub open spec fn backed(&self) -> bool {
        self.wrapper_mint.supply == self.treasury_token_account.amount
    }
}

} // verus!
