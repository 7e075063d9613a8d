use vstd::prelude::*;
use crate::constants::{floor_dust, min_int, reduce_counter, DUST_LIMIT, FEE_DENOMINATOR};
use crate::errors::SolEarnaError;
use crate::laws::split_loses_at_most_two;
use crate::states::{Address, FeeCategory, FeeConfig};

verus! {

/// The three parts into which a settled amount is split.
#[derive(Clone, Copy, Debug, PartialEq, Eq)]
pub struct FeeShares {
    pub holders: u64,
    pub marketing: u64,
    pub liquidity: u64,
}

impl FeeConfig {
    /// The fee rate of a transfer: the sum of the three shares, over 10000.
    pub open spec fn total_fee_percent(&self) -> int {
        self.fee_percent_holders + self.fee_percent_marketing + self.fee_percent_liquidity
    }

    /// What one category may still claim.
    pub open spec fn unclaimed(&self, category: FeeCategory) -> int {
        match category {
            FeeCategory::Holders => self.unclaimed_fee_holders as int,
            FeeCategory::Marketing => self.unclaimed_fee_marketing as int,
            FeeCategory::Liquidity => self.unclaimed_fee_liquidity as int,
        }
    }

    /// The fee owed on a transfer of `amount`, rounded down.
    pub open spec fn transfer_fee(&self, amount: u64) -> int {
        (amount * self.total_fee_percent()) / (FEE_DENOMINATOR as int)
    }

    /// Whether the pending counter can take the fee of a transfer of `amount`.
    pub open spec fn can_accrue(&self, amount: u64) -> bool {
        self.fee_not_collected + self.transfer_fee(amount) <= u64::MAX
    }

    /// The ledger after the fee of a transfer of `amount` was accrued.
    pub open spec fn accrued(self, amount: u64) -> FeeConfig {
        FeeConfig {
            fee_not_collected: (self.fee_not_collected + self.transfer_fee(amount)) as u64,
            ..self
        }
    }

    /// The sum of the three shares.
    pub fn total_percent(&self) -> (total: u32)
        ensures
            total == self.total_fee_percent(),
            total <= 3 * 0xffff,
    {
        self.fee_percent_holders as u32 + self.fee_percent_marketing as u32
            + self.fee_percent_liquidity as u32
    }

    /// The fee owed on a transfer of `amount`.
    pub fn fee_on(&self, amount: u64) -> (fee: u128)
        ensures
            fee == self.transfer_fee(amount),
            fee <= 20 * 0xffff_ffff_ffff_ffff,
    {
        let total: u32 = self.total_percent();
        assert(amount * total <= 0xffff_ffff_ffff_ffff * (3 * 0xffff)) by (nonlinear_arith)
            requires
                0 <= amount <= 0xffff_ffff_ffff_ffff,
                0 <= total <= 3 * 0xffff,
        ;
        let product: u128 = amount as u128 * total as u128;
        let fee: u128 = product / (FEE_DENOMINATOR as u128);
        assert(fee == product / 10000);
        fee
    }

    /// Accrues the fee of one transfer of `amount` into the pending counter and
    /// returns that fee. Moves no tokens. Fails, and changes nothing, where the
    /// pending counter cannot take the fee.
    pub fn accrue(&mut self, amount: u64) -> (r: Result<u64, SolEarnaError>)
        ensures
            old(self).can_accrue(amount) ==> r == Ok::<u64, SolEarnaError>(
                old(self).transfer_fee(amount) as u64,
            ) && *final(self) == old(self).accrued(amount),
            !old(self).can_accrue(amount) ==> r == Err::<u64, SolEarnaError>(
                SolEarnaError::NotAllowed,
            ) && *final(self) == *old(self),
            r is Ok ==> final(self).fee_not_collected == old(self).fee_not_collected + r->Ok_0,
    {
        let fee: u128 = self.fee_on(amount);
        let pending: u128 = self.fee_not_collected as u128 + fee;
        if pending > u64::MAX as u128 {
            return Err(SolEarnaError::NotAllowed);
        }
        self.fee_not_collected = pending as u64;
        Ok(fee as u64)
    }

    /// The part of a settled `amount` that goes to a category whose share is
    /// `percent`: `amount * percent / total`, rounded down. The divisor is the
    /// sum of the three shares, since `amount` is fee already.
    pub open spec fn share_of(&self, amount: u64, percent: u16) -> int
        recommends
            self.total_fee_percent() > 0,
    {
        (amount * percent) / self.total_fee_percent()
    }

    /// The three parts of a settled `amount`.
    pub open spec fn shares_of(&self, amount: u64) -> (int, int, int)
        recommends
            self.total_fee_percent() > 0,
    {
        (
            self.share_of(amount, self.fee_percent_holders),
            self.share_of(amount, self.fee_percent_marketing),
            self.share_of(amount, self.fee_percent_liquidity),
        )
    }

    /// Whether the three unclaimed counters can take their parts of `amount`:
    /// there is a fee rate to split by, and no counter leaves the 64-bit range.
    pub open spec fn can_apportion(&self, amount: u64) -> bool {
        &&& self.total_fee_percent() > 0
        &&& self.unclaimed_fee_holders + self.share_of(amount, self.fee_percent_holders)
            <= u64::MAX
        &&& self.unclaimed_fee_marketing + self.share_of(amount, self.fee_percent_marketing)
            <= u64::MAX
        &&& self.unclaimed_fee_liquidity + self.share_of(amount, self.fee_percent_liquidity)
            <= u64::MAX
    }

    /// Why a settlement of `amount` fails, if it does, given what the holding
    /// account holds after the withdrawal. The balance is checked first.
    pub open spec fn settle_error(&self, amount: u64, holding_balance: u64) -> Option<
        SolEarnaError,
    > {
        if holding_balance < self.fee_collected + amount {
            Some(SolEarnaError::BalanceMismatch)
        } else if !self.can_apportion(amount) {
            Some(SolEarnaError::NotAllowed)
        } else {
            None
        }
    }

    /// The ledger after a settlement of `amount` that did not fail.
    pub open spec fn settled(self, amount: u64) -> FeeConfig {
        FeeConfig {
            fee_not_collected: floor_dust(
                self.fee_not_collected - min_int(amount as int, self.fee_not_collected as int),
            ) as u64,
            fee_collected: (self.fee_collected + amount) as u64,
            unclaimed_fee_holders: (self.unclaimed_fee_holders + self.share_of(
                amount,
                self.fee_percent_holders,
            )) as u64,
            unclaimed_fee_marketing: (self.unclaimed_fee_marketing + self.share_of(
                amount,
                self.fee_percent_marketing,
            )) as u64,
            unclaimed_fee_liquidity: (self.unclaimed_fee_liquidity + self.share_of(
                amount,
                self.fee_percent_liquidity,
            )) as u64,
            ..self
        }
    }

    /// The part of `amount` for a category whose share is `percent`.
    fn share(&self, amount: u64, percent: u16, total: u32) -> (part: u64)
        requires
            total == self.total_fee_percent(),
            total > 0,
            percent <= total,
        ensures
            part == self.share_of(amount, percent),
            part <= amount,
    {
        assert(amount * percent <= 0xffff_ffff_ffff_ffff * 0xffff) by (nonlinear_arith)
            requires
                0 <= amount <= 0xffff_ffff_ffff_ffff,
                0 <= percent <= 0xffff,
        ;
        let product: u128 = amount as u128 * percent as u128;
        let part: u128 = product / (total as u128);
        assert(part <= amount) by (nonlinear_arith)
            requires
                part == (amount * percent) / (total as int),
                0 <= percent <= total,
                total > 0,
                0 <= amount,
        ;
        part as u64
    }

    /// Settles `amount` that was withdrawn from the withheld pool into the
    /// holding account, whose balance after the withdrawal is
    /// `holding_balance`. The pending counter goes down by `amount`, clamped at
    /// zero and floored by the dust limit; the collected counter goes up by
    /// `amount`; the three unclaimed counters take their parts, which are
    /// returned. Fails with `BalanceMismatch` where the holding account holds
    /// less than the collected counter would then say, and with `NotAllowed`
    /// where the amount cannot be apportioned. A failure changes nothing.
    pub fn settle(&mut self, amount: u64, holding_balance: u64) -> (r: Result<
        FeeShares,
        SolEarnaError,
    >)
        ensures
            match r {
                Ok(shares) => {
                    &&& old(self).settle_error(amount, holding_balance) is None
                    &&& *final(self) == old(self).settled(amount)
                    &&& (shares.holders as int, shares.marketing as int, shares.liquidity as int)
                        == old(self).shares_of(amount)
                    &&& final(self).fee_collected == old(self).fee_collected + amount
                    &&& final(self).fee_collected <= holding_balance
                    &&& final(self).fee_not_collected == floor_dust(
                        old(self).fee_not_collected - min_int(
                            amount as int,
                            old(self).fee_not_collected as int,
                        ),
                    )
                    &&& final(self).fee_not_collected == 0 || final(self).fee_not_collected
                        >= DUST_LIMIT
                    &&& final(self).unclaimed_fee_holders == old(self).unclaimed_fee_holders
                        + shares.holders
                    &&& final(self).unclaimed_fee_marketing == old(self).unclaimed_fee_marketing
                        + shares.marketing
                    &&& final(self).unclaimed_fee_liquidity == old(self).unclaimed_fee_liquidity
                        + shares.liquidity
                    &&& amount - 2 <= shares.holders + shares.marketing + shares.liquidity
                        <= amount
                },
                Err(e) => {
                    &&& old(self).settle_error(amount, holding_balance) == Some(e)
                    &&& *final(self) == *old(self)
                },
            },
            holding_balance < old(self).fee_collected + amount <==> r == Err::<
                FeeShares,
                SolEarnaError,
            >(SolEarnaError::BalanceMismatch),
    {
        let collected: u128 = self.fee_collected as u128 + amount as u128;
        if (holding_balance as u128) < collected {
            return Err(SolEarnaError::BalanceMismatch);
        }
        let total: u32 = self.total_percent();
        if total == 0 {
            return Err(SolEarnaError::NotAllowed);
        }
        let holders: u64 = self.share(amount, self.fee_percent_holders, total);
        let marketing: u64 = self.share(amount, self.fee_percent_marketing, total);
        let liquidity: u64 = self.share(amount, self.fee_percent_liquidity, total);
        if holders > u64::MAX - self.unclaimed_fee_holders || marketing > u64::MAX
            - self.unclaimed_fee_marketing || liquidity > u64::MAX - self.unclaimed_fee_liquidity {
            return Err(SolEarnaError::NotAllowed);
        }
        proof {
            split_loses_at_most_two(*self, amount);
        }
        self.fee_not_collected = reduce_counter(self.fee_not_collected, amount);
        self.fee_collected = collected as u64;
        self.unclaimed_fee_holders = self.unclaimed_fee_holders + holders;
        self.unclaimed_fee_marketing = self.unclaimed_fee_marketing + marketing;
        self.unclaimed_fee_liquidity = self.unclaimed_fee_liquidity + liquidity;
        Ok(FeeShares { holders, marketing, liquidity })
    }

    /// What a withdrawal moved into the holding account: what the account
    /// holds after it, less what it held before.
    pub open spec fn moved_by(balance_before: u64, balance_after: u64) -> int {
        balance_after - balance_before
    }

    /// Why the settlement of a withdrawal fails, if it does, given what the
    /// holding account held before and after it and the most that the caller
    /// lets it move. A balance that went down is a mismatch; more moved than
    /// accepted is not allowed; what was moved is then settled as `settle`
    /// settles it, against the balance after.
    pub open spec fn withdrawal_error(
        &self,
        amount: u64,
        balance_before: u64,
        balance_after: u64,
    ) -> Option<SolEarnaError> {
        if balance_after < balance_before {
            Some(SolEarnaError::BalanceMismatch)
        } else if Self::moved_by(balance_before, balance_after) > amount {
            Some(SolEarnaError::NotAllowed)
        } else {
            self.settle_error(Self::moved_by(balance_before, balance_after) as u64, balance_after)
        }
    }

    /// Settles a withdrawal from the withheld pool that was to move at most
    /// `amount` into the holding account, which held `balance_before` before
    /// it and holds `balance_after` after it. What is settled is what arrived:
    /// the difference of the two balances. Fails with `BalanceMismatch` where
    /// the balance went down, and with `NotAllowed` where more arrived than
    /// `amount`; otherwise does what `settle` does with what arrived and the
    /// balance after. A failure changes nothing.
    pub fn settle_withdrawal(
        &mut self,
        amount: u64,
        balance_before: u64,
        balance_after: u64,
    ) -> (r: Result<FeeShares, SolEarnaError>)
        ensures
            match r {
                Ok(shares) => {
                    &&& old(self).withdrawal_error(amount, balance_before, balance_after) is None
                    &&& balance_before <= balance_after
                    &&& balance_after - balance_before <= amount
                    &&& *final(self) == old(self).settled((balance_after - balance_before) as u64)
                    &&& (shares.holders as int, shares.marketing as int, shares.liquidity as int)
                        == old(self).shares_of((balance_after - balance_before) as u64)
                    &&& final(self).fee_collected == old(self).fee_collected + (balance_after
                        - balance_before)
                    &&& final(self).fee_collected <= balance_after
                },
                Err(e) => {
                    &&& old(self).withdrawal_error(amount, balance_before, balance_after)
                        == Some(e)
                    &&& *final(self) == *old(self)
                },
            },
            balance_after < balance_before ==> r == Err::<FeeShares, SolEarnaError>(
                SolEarnaError::BalanceMismatch,
            ),
            balance_after >= balance_before && balance_after - balance_before > amount ==> r
                == Err::<FeeShares, SolEarnaError>(SolEarnaError::NotAllowed),
    {
        if balance_after < balance_before {
            return Err(SolEarnaError::BalanceMismatch);
        }
        let moved: u64 = balance_after - balance_before;
        if moved > amount {
            return Err(SolEarnaError::NotAllowed);
        }
        self.settle(moved, balance_after)
    }

    /// The category a claim is booked under, by the account it is to be paid
    /// to: the liquidity recipient's, else the marketing recipient's; any other
    /// account counts as the holders'.
    pub open spec fn category_for(&self, destination: Address) -> FeeCategory {
        if destination == self.fee_recipient_liquidity {
            FeeCategory::Liquidity
        } else if destination == self.fee_recipient_marketing {
            FeeCategory::Marketing
        } else {
            FeeCategory::Holders
        }
    }

    /// What a claim of `requested` pays: the request, clamped to what the
    /// category may still claim and to what has been collected.
    pub open spec fn claimable(&self, category: FeeCategory, requested: u64) -> int {
        min_int(requested as int, min_int(self.fee_collected as int, self.unclaimed(category)))
    }

    /// By how much a payment of `paid` lowers the pending counter:
    /// `paid * total / 10000`, rounded down, clamped to the counter.
    pub open spec fn rebalance_of(&self, paid: int) -> int {
        min_int(
            (paid * self.total_fee_percent()) / (FEE_DENOMINATOR as int),
            self.fee_not_collected as int,
        )
    }

    /// The ledger with the unclaimed counter of `category` set to `value`.
    pub open spec fn with_unclaimed(self, category: FeeCategory, value: u64) -> FeeConfig {
        match category {
            FeeCategory::Holders => FeeConfig { unclaimed_fee_holders: value, ..self },
            FeeCategory::Marketing => FeeConfig { unclaimed_fee_marketing: value, ..self },
            FeeCategory::Liquidity => FeeConfig { unclaimed_fee_liquidity: value, ..self },
        }
    }

    /// The pending counter after a payment of `paid`: lowered by
    /// `rebalance_of` and then floored by the dust limit, or as it was where
    /// there is nothing to lower it by.
    pub open spec fn rebalanced(&self, paid: int) -> int {
        if self.rebalance_of(paid) > 0 {
            floor_dust(self.fee_not_collected - self.rebalance_of(paid))
        } else {
            self.fee_not_collected as int
        }
    }

    /// The ledger after a claim of `requested` by `category`. A claim that pays
    /// nothing changes nothing. One that pays lowers the category's unclaimed
    /// counter and the collected counter by what is paid, and floors each by
    /// the dust limit; the pending counter becomes `rebalanced`. Only a counter
    /// that is lowered is floored.
    pub open spec fn claimed(self, category: FeeCategory, requested: u64) -> FeeConfig {
        let paid = self.claimable(category, requested);
        if paid == 0 {
            self
        } else {
            FeeConfig {
                fee_collected: floor_dust(self.fee_collected - paid) as u64,
                fee_not_collected: self.rebalanced(paid) as u64,
                ..self
            }.with_unclaimed(category, floor_dust(self.unclaimed(category) - paid) as u64)
        }
    }

    /// The category a claim is booked under, by the account it is to be paid to.
    pub fn category_of(&self, destination: &Address) -> (category: FeeCategory)
        ensures
            category == self.category_for(*destination),
    {
        if destination.same(&self.fee_recipient_liquidity) {
            FeeCategory::Liquidity
        } else if destination.same(&self.fee_recipient_marketing) {
            FeeCategory::Marketing
        } else {
            FeeCategory::Holders
        }
    }

    /// What `category` may still claim.
    pub fn unclaimed_fee(&self, category: FeeCategory) -> (amount: u64)
        ensures
            amount == self.unclaimed(category),
    {
        match category {
            FeeCategory::Holders => self.unclaimed_fee_holders,
            FeeCategory::Marketing => self.unclaimed_fee_marketing,
            FeeCategory::Liquidity => self.unclaimed_fee_liquidity,
        }
    }

    /// Books a claim of `requested` by `category` and returns what is to be
    /// paid out: the request, clamped to the category's unclaimed counter and to
    /// the collected counter. A request of zero, or one clamped to zero, changes
    /// nothing. Otherwise the unclaimed and the collected counter go down by
    /// what is paid, and the pending counter by the fee rate's part of it,
    /// clamped to the counter. Each counter that goes down is floored by the
    /// dust limit; a pending counter that the claim does not lower stays as it
    /// is.
    pub fn claim(&mut self, category: FeeCategory, requested: u64) -> (paid: u64)
        ensures
            paid == old(self).claimable(category, requested),
            *final(self) == old(self).claimed(category, requested),
            paid <= requested,
            paid <= old(self).unclaimed(category),
            paid <= old(self).fee_collected,
            final(self).unclaimed(category) + paid <= old(self).unclaimed(category),
            final(self).unclaimed(category) + paid == old(self).unclaimed(category)
                || final(self).unclaimed(category) == 0,
            final(self).fee_collected + paid == old(self).fee_collected
                || final(self).fee_collected == 0,
            final(self).fee_not_collected <= old(self).fee_not_collected,
            paid > 0 ==> {
                &&& final(self).unclaimed(category) == 0 || final(self).unclaimed(category)
                    >= DUST_LIMIT
                &&& final(self).fee_collected == 0 || final(self).fee_collected >= DUST_LIMIT
            },
            final(self).fee_not_collected == old(self).fee_not_collected
                || final(self).fee_not_collected == 0
                || final(self).fee_not_collected >= DUST_LIMIT,
    {
        let unclaimed: u64 = self.unclaimed_fee(category);
        let available: u64 = if self.fee_collected <= unclaimed {
            self.fee_collected
        } else {
            unclaimed
        };
        let paid: u64 = if requested <= available {
            requested
        } else {
            available
        };
        if paid == 0 {
            return 0;
        }
        let total: u32 = self.total_percent();
        assert(paid * total <= 0xffff_ffff_ffff_ffff * (3 * 0xffff)) by (nonlinear_arith)
            requires
                0 <= paid <= 0xffff_ffff_ffff_ffff,
                0 <= total <= 3 * 0xffff,
        ;
        let product: u128 = paid as u128 * total as u128;
        let part: u128 = product / (FEE_DENOMINATOR as u128);
        assert(part == product / 10000);
        let rebalance: u64 = if part > self.fee_not_collected as u128 {
            self.fee_not_collected
        } else {
            part as u64
        };
        let pending: u64 = if rebalance > 0 {
            reduce_counter(self.fee_not_collected, rebalance)
        } else {
            self.fee_not_collected
        };
        let rest: u64 = reduce_counter(unclaimed, paid);
        match category {
            FeeCategory::Holders => {
                self.unclaimed_fee_holders = rest;
            },
            FeeCategory::Marketing => {
                self.unclaimed_fee_marketing = rest;
            },
            FeeCategory::Liquidity => {
                self.unclaimed_fee_liquidity = rest;
            },
        }
        self.fee_collected = reduce_counter(self.fee_collected, paid);
        self.fee_not_collected = pending;
        paid
    }

    /// Books a claim of `requested` that is to be paid to `destination`, under
    /// the category that `category_of` gives that account, and returns the
    /// category and what is to be paid out.
    pub fn claim_to(&mut self, destination: &Address, requested: u64) -> (r: (FeeCategory, u64))
        ensures
            r.0 == old(self).category_for(*destination),
            r.1 == old(self).claimable(r.0, requested),
            *final(self) == old(self).claimed(r.0, requested),
    {
        let category: FeeCategory = self.category_of(destination);
        let paid: u64 = self.claim(category, requested);
        (category, paid)
    }
}

} // verus!
