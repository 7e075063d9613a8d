use vstd::prelude::*;
use crate::constants::{tag_bytes, TREASURY_TAG};
use crate::contexts::{check_bindings, CreateTreasury, Redeem, Stake, SwapFeeOnExchange};
use crate::errors::{SolEarnaError, XError};
use crate::events::{Claimed, Deposited, TreasuryCreated};
use crate::states::{address_bytes, Address, Mint, TokenAccount, Treasury};

verus! {

/// One movement of tokens that the custody of the assets is asked to make.
#[derive(Clone, Copy, Debug, PartialEq, Eq)]
pub enum CustodyOp {
    /// Move `amount` of `mint` from one token account to another, on the word
    /// of `authority`.
    Transfer { from: Address, to: Address, mint: Address, authority: Address, amount: u64, decimals: u8 },
    /// Create `amount` of `mint` in the token account `to`, on the word of
    /// `authority`.
    MintTo { mint: Address, to: Address, authority: Address, amount: u64 },
    /// Destroy `amount` of `mint` in the token account `from`, on the word of
    /// `authority`.
    Burn { mint: Address, from: Address, authority: Address, amount: u64 },
}

impl Stake {
    /// Why a stake of `amount` fails, if it does. Accounts that do not fit the
    /// treasury record are refused first, whatever the amount; then a zero
    /// amount; then an amount that the user does not hold or that the vault, the
    /// supply or the user's derivative account cannot take.
    pub open spec fn stake_error(&self, amount: u64) -> Option<XError> {
        if self.binding_error() is Some {
            self.binding_error()
        } else if amount == 0 {
            Some(XError::NotAllowed)
        } else if amount > self.user_token_account.amount || self.treasury_token_account.amount
            + amount > u64::MAX || self.wrapper_mint.supply + amount > u64::MAX
            || self.user_wrapper_token_account.amount + amount > u64::MAX {
            Some(XError::NotAllowed)
        } else {
            None
        }
    }

    /// The accounts after `amount` went from the user into the vault.
    pub open spec fn deposited(self, amount: u64) -> Stake {
        Stake {
            user_token_account: TokenAccount {
                amount: (self.user_token_account.amount - amount) as u64,
                ..self.user_token_account
            },
            treasury_token_account: TokenAccount {
                amount: (self.treasury_token_account.amount + amount) as u64,
                ..self.treasury_token_account
            },
            ..self
        }
    }

    /// The accounts after `amount` of the derivative asset was minted to the
    /// user.
    pub open spec fn minted(self, amount: u64) -> Stake {
        Stake {
            wrapper_mint: Mint {
                supply: (self.wrapper_mint.supply + amount) as u64,
                ..self.wrapper_mint
            },
            user_wrapper_token_account: TokenAccount {
                amount: (self.user_wrapper_token_account.amount + amount) as u64,
                ..self.user_wrapper_token_account
            },
            ..self
        }
    }

    /// The accounts after a stake of `amount` that did not fail: the deposit,
    /// then the mint.
    pub open spec fn staked(self, amount: u64) -> Stake {
        self.deposited(amount).minted(amount)
    }

    /// The movements of a stake of `amount`, in the order in which they are to
    /// be made: the user's deposit into the vault, on the user's word, and then
    /// the mint of as much of the derivative asset to the user, on the
    /// treasury's word.
    pub open spec fn stake_steps(&self, amount: u64) -> Seq<CustodyOp> {
        seq![
            CustodyOp::Transfer {
                from: self.user_token_account.key,
                to: self.treasury_token_account.key,
                mint: self.treasury_mint.key,
                authority: self.user,
                amount,
                decimals: self.treasury_mint.decimals,
            },
            CustodyOp::MintTo {
                mint: self.wrapper_mint.key,
                to: self.user_wrapper_token_account.key,
                authority: self.treasury_key,
                amount,
            },
        ]
    }

    /// The record of a stake of `amount`.
    pub open spec fn deposit_record(&self, amount: u64) -> Deposited {
        Deposited { treasury: self.treasury_key, user: self.user, amount }
    }

    /// Stakes `amount` of the underlying asset: books the user's deposit into
    /// the vault and the mint of as much of the derivative asset to the user,
    /// and returns the movements to be made, in their order, the seeds by which
    /// the treasury signs the mint, and the record of the deposit. Fails, and
    /// changes nothing, on accounts that do not fit the treasury record, on a
    /// zero amount, and on an amount that the accounts cannot give or take; the
    /// accounts are looked at first.
    pub fn stake(&mut self, treasury_bump: u8, amount: u64) -> (r: Result<Staked, XError>)
        ensures
            match r {
                Ok(done) => {
                    &&& old(self).stake_error(amount) is None
                    &&& *final(self) == old(self).staked(amount)
                    &&& done.steps@ == old(self).stake_steps(amount)
                    &&& done.signer_seeds.deep_view() == old(self).treasury.seeds(treasury_bump)
                    &&& done.event == old(self).deposit_record(amount)
                },
                Err(e) => {
                    &&& old(self).stake_error(amount) == Some(e)
                    &&& *final(self) == *old(self)
                },
            },
            old(self).binding_error() is Some ==> r is Err && Some(r->Err_0) == old(self)
                .binding_error(),
            old(self).treasury.wrapper_mint != old(self).wrapper_mint.key || old(self)
                .treasury.treasury_mint != old(self).treasury_mint.key ==> r is Err && r->Err_0
                == XError::InvalidAssetBinding && *final(self) == *old(self),
            old(self).binding_error() is None && amount == 0 ==> r is Err && r->Err_0
                == XError::NotAllowed,
            old(self).backed() && r is Ok ==> final(self).backed(),
    {
        match check_bindings(
            &self.treasury_key,
            &self.treasury,
            &self.wrapper_mint,
            &self.treasury_mint,
            &self.treasury_token_account,
            &self.user_token_account,
            &self.user_wrapper_token_account,
            &self.user,
        ) {
            Err(e) => {
                return Err(e);
            },
            Ok(_) => {},
        }
        if amount == 0 {
            return Err(XError::NotAllowed);
        }
        if amount > self.user_token_account.amount || amount > u64::MAX
            - self.treasury_token_account.amount || amount > u64::MAX - self.wrapper_mint.supply
            || amount > u64::MAX - self.user_wrapper_token_account.amount {
            return Err(XError::NotAllowed);
        }
        let mut steps: Vec<CustodyOp> = Vec::new();
        steps.push(
            CustodyOp::Transfer {
                from: self.user_token_account.key,
                to: self.treasury_token_account.key,
                mint: self.treasury_mint.key,
                authority: self.user,
                amount,
                decimals: self.treasury_mint.decimals,
            },
        );
        steps.push(
            CustodyOp::MintTo {
                mint: self.wrapper_mint.key,
                to: self.user_wrapper_token_account.key,
                authority: self.treasury_key,
                amount,
            },
        );
        assert(steps@ =~= self.stake_steps(amount));
        let signer_seeds: Vec<Vec<u8>> = self.treasury.signer_seeds(treasury_bump);
        let event = Deposited { treasury: self.treasury_key, user: self.user, amount };
        self.user_token_account.amount = self.user_token_account.amount - amount;
        self.treasury_token_account.amount = self.treasury_token_account.amount + amount;
        self.wrapper_mint.supply = self.wrapper_mint.supply + amount;
        self.user_wrapper_token_account.amount = self.user_wrapper_token_account.amount + amount;
        Ok(Staked { steps, signer_seeds, event })
    }
}

impl Redeem {
    /// Why a redemption of `amount` fails, if it does. Accounts that do not fit
    /// the treasury record are refused first, whatever the amount; then a zero
    /// amount; then an amount that the user's derivative account, the supply or
    /// the vault does not hold, or that the user's account cannot take.
    pub open spec fn redeem_error(&self, amount: u64) -> Option<XError> {
        if self.binding_error() is Some {
            self.binding_error()
        } else if amount == 0 {
            Some(XError::NotAllowed)
        } else if amount > self.user_wrapper_token_account.amount || amount
            > self.wrapper_mint.supply || amount > self.treasury_token_account.amount
            || self.user_token_account.amount + amount > u64::MAX {
            Some(XError::NotAllowed)
        } else {
            None
        }
    }

    /// The accounts after `amount` of the derivative asset was burnt from the
    /// user.
    pub open spec fn burnt(self, amount: u64) -> Redeem {
        Redeem {
            wrapper_mint: Mint {
                supply: (self.wrapper_mint.supply - amount) as u64,
                ..self.wrapper_mint
            },
            user_wrapper_token_account: TokenAccount {
                amount: (self.user_wrapper_token_account.amount - amount) as u64,
                ..self.user_wrapper_token_account
            },
            ..self
        }
    }

    /// The accounts after `amount` went from the vault to the user.
    pub open spec fn withdrawn(self, amount: u64) -> Redeem {
        Redeem {
            treasury_token_account: TokenAccount {
                amount: (self.treasury_token_account.amount - amount) as u64,
                ..self.treasury_token_account
            },
            user_token_account: TokenAccount {
                amount: (self.user_token_account.amount + amount) as u64,
                ..self.user_token_account
            },
            ..self
        }
    }

    /// The accounts after a redemption of `amount` that did not fail: the
    /// burn, then the withdrawal.
    pub open spec fn redeemed(self, amount: u64) -> Redeem {
        self.burnt(amount).withdrawn(amount)
    }

    /// The movements of a redemption of `amount`, in the order in which they
    /// are to be made: the burn of the user's derivative tokens, on the user's
    /// word, and then the withdrawal of as much from the vault to the user, on
    /// the treasury's word.
    pub open spec fn redeem_steps(&self, amount: u64) -> Seq<CustodyOp> {
        seq![
            CustodyOp::Burn {
                mint: self.wrapper_mint.key,
                from: self.user_wrapper_token_account.key,
                authority: self.user,
                amount,
            },
            CustodyOp::Transfer {
                from: self.treasury_token_account.key,
                to: self.user_token_account.key,
                mint: self.treasury_mint.key,
                authority: self.treasury_key,
                amount,
                decimals: self.treasury_mint.decimals,
            },
        ]
    }

    /// The record of a redemption of `amount`.
    pub open spec fn claim_record(&self, amount: u64) -> Claimed {
        Claimed { treasury: self.treasury_key, user: self.user, amount }
    }

    /// Redeems `amount` of the derivative asset: books the burn of the user's
    /// derivative tokens and the withdrawal of as much of the underlying asset
    /// from the vault to the user, and returns the movements to be made, in
    /// their order, the seeds by which the treasury signs the withdrawal, and
    /// the record of the redemption. Fails, and changes nothing, on accounts
    /// that do not fit the treasury record, on a zero amount, and on an amount
    /// that the accounts cannot give or take; the accounts are looked at first.
    pub fn redeem(&mut self, treasury_bump: u8, amount: u64) -> (r: Result<Redeemed, XError>)
        ensures
            match r {
                Ok(done) => {
                    &&& old(self).redeem_error(amount) is None
                    &&& *final(self) == old(self).redeemed(amount)
                    &&& done.steps@ == old(self).redeem_steps(amount)
                    &&& done.signer_seeds.deep_view() == old(self).treasury.seeds(treasury_bump)
                    &&& done.event == old(self).claim_record(amount)
                },
                Err(e) => {
                    &&& old(self).redeem_error(amount) == Some(e)
                    &&& *final(self) == *old(self)
                },
            },
            old(self).binding_error() is Some ==> r is Err && Some(r->Err_0) == old(self)
                .binding_error(),
            old(self).treasury.wrapper_mint != old(self).wrapper_mint.key || old(self)
                .treasury.treasury_mint != old(self).treasury_mint.key ==> r is Err && r->Err_0
                == XError::InvalidAssetBinding && *final(self) == *old(self),
            old(self).binding_error() is None && amount == 0 ==> r is Err && r->Err_0
                == XError::NotAllowed,
            old(self).backed() && r is Ok ==> final(self).backed(),
    {
        match check_bindings(
            &self.treasury_key,
            &self.treasury,
            &self.wrapper_mint,
            &self.treasury_mint,
            &self.treasury_token_account,
            &self.user_token_account,
            &self.user_wrapper_token_account,
            &self.user,
        ) {
            Err(e) => {
                return Err(e);
            },
            Ok(_) => {},
        }
        if amount == 0 {
            return Err(XError::NotAllowed);
        }
        if amount > self.user_wrapper_token_account.amount || amount > self.wrapper_mint.supply
            || amount > self.treasury_token_account.amount || amount > u64::MAX
            - self.user_token_account.amount {
            return Err(XError::NotAllowed);
        }
        let mut steps: Vec<CustodyOp> = Vec::new();
        steps.push(
            CustodyOp::Burn {
                mint: self.wrapper_mint.key,
                from: self.user_wrapper_token_account.key,
                authority: self.user,
                amount,
            },
        );
        steps.push(
            CustodyOp::Transfer {
                from: self.treasury_token_account.key,
                to: self.user_token_account.key,
                mint: self.treasury_mint.key,
                authority: self.treasury_key,
                amount,
                decimals: self.treasury_mint.decimals,
            },
        );
        assert(steps@ =~= self.redeem_steps(amount));
        let signer_seeds: Vec<Vec<u8>> = self.treasury.signer_seeds(treasury_bump);
        let event = Claimed { treasury: self.treasury_key, user: self.user, amount };
        self.wrapper_mint.supply = self.wrapper_mint.supply - amount;
        self.user_wrapper_token_account.amount = self.user_wrapper_token_account.amount - amount;
        self.treasury_token_account.amount = self.treasury_token_account.amount - amount;
        self.user_token_account.amount = self.user_token_account.amount + amount;
        Ok(Redeemed { steps, signer_seeds, event })
    }
}

/// What a redemption that did not fail hands back.
#[derive(Debug, PartialEq, Eq)]
pub struct Redeemed {
    /// The movements to be made, in their order.
    pub steps: Vec<CustodyOp>,
    /// The seeds by which the treasury signs.
    pub signer_seeds: Vec<Vec<u8>>,
    /// The record of the redemption.
    pub event: Claimed,
}

impl CreateTreasury {
    /// Why the creation fails, if it does: a record is there already; the
    /// derivative asset has other decimals than the underlying one, or is not
    /// minted by the treasury; the vault is not a token account of the
    /// underlying asset that the treasury owns.
    pub open spec fn create_error(&self) -> Option<XError> {
        if self.treasury is Some {
            Some(XError::DuplicateInitialization)
        } else if self.wrapper_mint.decimals != self.treasury_mint.decimals
            || self.wrapper_mint.mint_authority != self.treasury_key {
            Some(XError::InvalidAssetBinding)
        } else if self.treasury_token_account.mint != self.treasury_mint.key
            || self.treasury_token_account.owner != self.treasury_key {
            Some(XError::InvalidAddress)
        } else {
            None
        }
    }

    /// The record that the creation writes.
    pub open spec fn new_record(&self) -> Treasury {
        Treasury {
            authority: self.authority,
            treasury_mint: self.treasury_mint.key,
            wrapper_mint: self.wrapper_mint.key,
            treasury_token_account: self.treasury_token_account.key,
        }
    }

    /// Creates the treasury: writes the record that binds the underlying
    /// asset, the derivative asset and the vault to the creator, and returns
    /// the record of the creation. Fails, and changes nothing, where a record
    /// is there already or the accounts do not fit each other.
    pub fn create_treasury(&mut self) -> (r: Result<TreasuryCreated, XError>)
        ensures
            match r {
                Ok(event) => {
                    &&& old(self).create_error() is None
                    &&& final(self).treasury == Some(old(self).new_record())
                    &&& *final(self) == (CreateTreasury {
                        treasury: Some(old(self).new_record()),
                        ..*old(self)
                    })
                    &&& event == (TreasuryCreated {
                        authority: old(self).authority,
                        treasury_mint: old(self).treasury_mint.key,
                        wrapper_mint: old(self).wrapper_mint.key,
                        treasury_token_account: old(self).treasury_token_account.key,
                    })
                },
                Err(e) => {
                    &&& old(self).create_error() == Some(e)
                    &&& *final(self) == *old(self)
                },
            },
    {
        if self.treasury.is_some() {
            return Err(XError::DuplicateInitialization);
        }
        if self.wrapper_mint.decimals != self.treasury_mint.decimals
            || !self.wrapper_mint.mint_authority.same(&self.treasury_key) {
            return Err(XError::InvalidAssetBinding);
        }
        if !self.treasury_token_account.mint.same(&self.treasury_mint.key)
            || !self.treasury_token_account.owner.same(&self.treasury_key) {
            return Err(XError::InvalidAddress);
        }
        let treasury = Treasury {
            authority: self.authority,
            treasury_mint: self.treasury_mint.key,
            wrapper_mint: self.wrapper_mint.key,
            treasury_token_account: self.treasury_token_account.key,
        };
        self.treasury = Some(treasury);
        Ok(
            TreasuryCreated {
                authority: treasury.authority,
                treasury_mint: treasury.treasury_mint,
                wrapper_mint: treasury.wrapper_mint,
                treasury_token_account: treasury.treasury_token_account,
            },
        )
    }
}

impl SwapFeeOnExchange {
    /// Exchanges `amount` of the collected fee. No exchange is wired in: the
    /// call succeeds and changes nothing.
    pub fn swap_fee_on_exchange(&mut self, amount: u64) -> (r: Result<(), SolEarnaError>)
        ensures
            r is Ok,
            *final(self) == *old(self),
    {
        Ok(())
    }
}

/// What a stake that did not fail hands back.
#[derive(Debug, PartialEq, Eq)]
pub struct Staked {
    /// The movements to be made, in their order.
    pub steps: Vec<CustodyOp>,
    /// The seeds by which the treasury signs.
    pub signer_seeds: Vec<Vec<u8>>,
    /// The record of the deposit.
    pub event: Deposited,
}

impl Treasury {
    /// The seeds of the treasury's signing authority: the treasury tag, the
    /// underlying asset, and the bump. The tag and the asset are the seeds by
    /// which the list of the hook's extra accounts finds the treasury.
    pub open spec fn seeds(&self, bump: u8) -> Seq<Seq<u8>> {
        seq![TREASURY_TAG@, self.treasury_mint@, seq![bump]]
    }

    /// The seeds of the treasury's signing authority.
    pub fn signer_seeds(&self, bump: u8) -> (seeds: Vec<Vec<u8>>)
        ensures
            seeds.deep_view() == self.seeds(bump),
    {
        let tag: Vec<u8> = tag_bytes(&TREASURY_TAG);
        let asset: Vec<u8> = address_bytes(&self.treasury_mint);
        let mut last: Vec<u8> = Vec::new();
        last.push(bump);
        proof {
            assert(last@ =~= seq![bump]);
            assert(tag.deep_view() =~= tag@);
            assert(asset.deep_view() =~= asset@);
            assert(last.deep_view() =~= last@);
        }
        let mut seeds: Vec<Vec<u8>> = Vec::new();
        seeds.push(tag);
        seeds.push(asset);
        seeds.push(last);
        assert(seeds.deep_view() =~= self.seeds(bump));
        seeds
    }

    /// The seeds of the signing authority of a treasury that is kept for one
    /// asset and one creator: the treasury tag, the underlying asset, the
    /// treasury's authority, and the bump.
    pub open spec fn seeds_with_authority(&self, bump: u8) -> Seq<Seq<u8>> {
        seq![TREASURY_TAG@, self.treasury_mint@, self.authority@, seq![bump]]
    }

    /// The seeds of the signing authority of a treasury that is kept for one
    /// asset and one creator.
    pub fn signer_seeds_with_authority(&self, bump: u8) -> (seeds: Vec<Vec<u8>>)
        ensures
            seeds.deep_view() == self.seeds_with_authority(bump),
    {
        let tag: Vec<u8> = tag_bytes(&TREASURY_TAG);
        let asset: Vec<u8> = address_bytes(&self.treasury_mint);
        let authority: Vec<u8> = address_bytes(&self.authority);
        let mut last: Vec<u8> = Vec::new();
        last.push(bump);
        proof {
            assert(last@ =~= seq![bump]);
            assert(tag.deep_view() =~= tag@);
            assert(asset.deep_view() =~= asset@);
            assert(authority.deep_view() =~= authority@);
            assert(last.deep_view() =~= last@);
        }
        let mut seeds: Vec<Vec<u8>> = Vec::new();
        seeds.push(tag);
        seeds.push(asset);
        seeds.push(authority);
        seeds.push(last);
        assert(seeds.deep_view() =~= self.seeds_with_authority(bump));
        seeds
    }
}

/// Creates the treasury of `ctx`; see `CreateTreasury::create_treasury`.
pub fn create_treasury(ctx: &mut CreateTreasury) -> (r: Result<TreasuryCreated, XError>)
    ensures
        match r {
            Ok(event) => {
                &&& old(ctx).create_error() is None
                &&& *final(ctx) == (CreateTreasury {
                    treasury: Some(old(ctx).new_record()),
                    ..*old(ctx)
                })
                &&& event == (TreasuryCreated {
                    authority: old(ctx).authority,
                    treasury_mint: old(ctx).treasury_mint.key,
                    wrapper_mint: old(ctx).wrapper_mint.key,
                    treasury_token_account: old(ctx).treasury_token_account.key,
                })
            },
            Err(e) => {
                &&& old(ctx).create_error() == Some(e)
                &&& *final(ctx) == *old(ctx)
            },
        },
{
    ctx.create_treasury()
}

/// Stakes `amount` with the accounts of `ctx`; see `Stake::stake`.
pub fn stake(ctx: &mut Stake, treasury_bump: u8, amount: u64) -> (r: Result<Staked, XError>)
    ensures
        match r {
            Ok(done) => {
                &&& old(ctx).stake_error(amount) is None
                &&& *final(ctx) == old(ctx).staked(amount)
                &&& done.steps@ == old(ctx).stake_steps(amount)
                &&& done.signer_seeds.deep_view() == old(ctx).treasury.seeds(treasury_bump)
                &&& done.event == old(ctx).deposit_record(amount)
            },
            Err(e) => {
                &&& old(ctx).stake_error(amount) == Some(e)
                &&& *final(ctx) == *old(ctx)
            },
        },
        old(ctx).treasury.wrapper_mint != old(ctx).wrapper_mint.key || old(ctx)
            .treasury.treasury_mint != old(ctx).treasury_mint.key ==> r is Err && r->Err_0
            == XError::InvalidAssetBinding && *final(ctx) == *old(ctx),
        old(ctx).binding_error() is None && amount == 0 ==> r is Err && r->Err_0
            == XError::NotAllowed,
{
    ctx.stake(treasury_bump, amount)
}

/// Redeems `amount` with the accounts of `ctx`; see `Redeem::redeem`.
pub fn redeem(ctx: &mut Redeem, treasury_bump: u8, amount: u64) -> (r: Result<Redeemed, XError>)
    ensures
        match r {
            Ok(done) => {
                &&& old(ctx).redeem_error(amount) is None
                &&& *final(ctx) == old(ctx).redeemed(amount)
                &&& done.steps@ == old(ctx).redeem_steps(amount)
                &&& done.signer_seeds.deep_view() == old(ctx).treasury.seeds(treasury_bump)
                &&& done.event == old(ctx).claim_record(amount)
            },
            Err(e) => {
                &&& old(ctx).redeem_error(amount) == Some(e)
                &&& *final(ctx) == *old(ctx)
            },
        },
        old(ctx).treasury.wrapper_mint != old(ctx).wrapper_mint.key || old(ctx)
            .treasury.treasury_mint != old(ctx).treasury_mint.key ==> r is Err && r->Err_0
            == XError::InvalidAssetBinding && *final(ctx) == *old(ctx),
        old(ctx).binding_error() is None && amount == 0 ==> r is Err && r->Err_0
            == XError::NotAllowed,
{
    ctx.redeem(treasury_bump, amount)
}

/// Exchanges `amount` of the collected fee; see
/// `SwapFeeOnExchange::swap_fee_on_exchange`.
pub fn swap_fee_on_exchange(ctx: &mut SwapFeeOnExchange, amount: u64) -> (r: Result<
    (),
    SolEarnaError,
>)
    ensures
        r is Ok,
        *final(ctx) == *old(ctx),
{
    ctx.swap_fee_on_exchange(amount)
}

} // verus!
