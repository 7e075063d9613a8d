use vstd::prelude::*;
use crate::constants::{floor_dust, min_int, DUST_LIMIT, FEE_DENOMINATOR};
use crate::contexts::{Redeem, Stake};
use crate::errors::XError;
use crate::states::{FeeCategory, FeeConfig};

verus! {

/// The fees of the transfers in `amounts`, each computed on its own, added up.
pub open spec fn fees_of(cfg: FeeConfig, amounts: Seq<u64>) -> int
    decreases amounts.len(),
{
    if amounts.len() == 0 {
        0
    } else {
        fees_of(cfg, amounts.drop_last()) + cfg.transfer_fee(amounts.last())
    }
}

/// The ledger after one accrual for each transfer in `amounts`, in that order;
/// `None` where one of them fails.
pub open spec fn accrued_all(cfg: FeeConfig, amounts: Seq<u64>) -> Option<FeeConfig>
    decreases amounts.len(),
{
    if amounts.len() == 0 {
        Some(cfg)
    } else {
        match accrued_all(cfg, amounts.drop_last()) {
            Some(before) => if before.can_accrue(amounts.last()) {
                Some(before.accrued(amounts.last()))
            } else {
                None
            },
            None => None,
        }
    }
}

/// The fee of a transfer is never negative, and never more than twenty times
/// the transfer.
pub proof fn transfer_fee_bounds(cfg: FeeConfig, amount: u64)
    ensures
        0 <= cfg.transfer_fee(amount) <= 20 * amount,
{
    let total = cfg.total_fee_percent();
    assert(FEE_DENOMINATOR == 10000);
    assert(0 <= amount * total <= amount * 200000) by (nonlinear_arith)
        requires
            0 <= amount,
            0 <= total <= 200000,
    ;
}

/// The fees of a sequence of transfers are never negative.
pub proof fn fees_of_nonnegative(cfg: FeeConfig, amounts: Seq<u64>)
    ensures
        0 <= fees_of(cfg, amounts),
    decreases amounts.len(),
{
    if amounts.len() > 0 {
        fees_of_nonnegative(cfg, amounts.drop_last());
        transfer_fee_bounds(cfg, amounts.last());
    }
}

/// Taking one transfer out of a sequence lowers the sum of the fees by the
/// fee of that transfer.
proof fn fees_of_remove(cfg: FeeConfig, amounts: Seq<u64>, i: int)
    requires
        0 <= i < amounts.len(),
    ensures
        fees_of(cfg, amounts) == fees_of(cfg, amounts.remove(i)) + cfg.transfer_fee(amounts[i]),
    decreases amounts.len(),
{
    if i == amounts.len() - 1 {
        assert(amounts.remove(i) =~= amounts.drop_last());
    } else {
        fees_of_remove(cfg, amounts.drop_last(), i);
        assert(amounts.remove(i).drop_last() =~= amounts.drop_last().remove(i));
        assert(amounts.remove(i).last() == amounts.last());
    }
}

/// Accruals add up: after one accrual per transfer, in any order of calls, the
/// pending counter holds what it held before plus the sum of the fees, each
/// computed on its own, and nothing else has changed. The sequence of calls
/// succeeds exactly where that sum fits the counter.
pub proof fn accrual_adds_up(cfg: FeeConfig, amounts: Seq<u64>)
    ensures
        cfg.fee_not_collected + fees_of(cfg, amounts) <= u64::MAX ==> accrued_all(cfg, amounts)
            == Some(
            FeeConfig {
                fee_not_collected: (cfg.fee_not_collected + fees_of(cfg, amounts)) as u64,
                ..cfg
            },
        ),
        cfg.fee_not_collected + fees_of(cfg, amounts) > u64::MAX ==> accrued_all(cfg, amounts)
            is None,
    decreases amounts.len(),
{
    if amounts.len() > 0 {
        let front = amounts.drop_last();
        accrual_adds_up(cfg, front);
        fees_of_nonnegative(cfg, front);
        transfer_fee_bounds(cfg, amounts.last());
        if cfg.fee_not_collected + fees_of(cfg, front) <= u64::MAX {
            let before = accrued_all(cfg, front)->Some_0;
            assert(before.transfer_fee(amounts.last()) == cfg.transfer_fee(amounts.last()));
        }
    }
}

/// Accrual does not depend on the order of the transfers: two sequences that
/// hold the same transfers give the same sum of fees and leave the same
/// ledger.
pub proof fn accrual_is_order_independent(cfg: FeeConfig, first: Seq<u64>, second: Seq<u64>)
    requires
        first.to_multiset() == second.to_multiset(),
    ensures
        fees_of(cfg, first) == fees_of(cfg, second),
        accrued_all(cfg, first) == accrued_all(cfg, second),
    decreases first.len(),
{
    vstd::seq_lib::to_multiset_len(first);
    vstd::seq_lib::to_multiset_len(second);
    if first.len() > 0 {
        let last = first.last();
        assert(first.contains(last));
        vstd::seq_lib::to_multiset_contains(first, last);
        vstd::seq_lib::to_multiset_contains(second, last);
        let i = choose|i: int| 0 <= i < second.len() && second[i] == last;
        vstd::seq_lib::to_multiset_remove(first, first.len() - 1);
        vstd::seq_lib::to_multiset_remove(second, i);
        assert(first.remove(first.len() - 1) =~= first.drop_last());
        accrual_is_order_independent(cfg, first.drop_last(), second.remove(i));
        fees_of_remove(cfg, second, i);
    }
    accrual_adds_up(cfg, first);
    accrual_adds_up(cfg, second);
}

/// Splitting a settled amount three ways loses at most two units to
/// rounding: the three parts add up to the amount or to one or two less.
pub proof fn split_loses_at_most_two(cfg: FeeConfig, amount: u64)
    requires
        cfg.total_fee_percent() > 0,
    ensures
        ({
            let (holders, marketing, liquidity) = cfg.shares_of(amount);
            &&& 0 <= holders <= amount
            &&& 0 <= marketing <= amount
            &&& 0 <= liquidity <= amount
            &&& amount - 2 <= holders + marketing + liquidity <= amount
        }),
{
    let total = cfg.total_fee_percent();
    let a = amount as int;
    let h = cfg.fee_percent_holders as int;
    let m = cfg.fee_percent_marketing as int;
    let l = cfg.fee_percent_liquidity as int;
    let (qh, qm, ql) = cfg.shares_of(amount);
    assert(0 <= a * h && 0 <= a * m && 0 <= a * l) by (nonlinear_arith)
        requires
            0 <= a,
            0 <= h,
            0 <= m,
            0 <= l,
    ;
    vstd::arithmetic::div_mod::lemma_fundamental_div_mod(a * h, total);
    vstd::arithmetic::div_mod::lemma_fundamental_div_mod(a * m, total);
    vstd::arithmetic::div_mod::lemma_fundamental_div_mod(a * l, total);
    vstd::arithmetic::div_mod::lemma_mod_pos_bound(a * h, total);
    vstd::arithmetic::div_mod::lemma_mod_pos_bound(a * m, total);
    vstd::arithmetic::div_mod::lemma_mod_pos_bound(a * l, total);
    vstd::arithmetic::div_mod::lemma_div_pos_is_pos(a * h, total);
    vstd::arithmetic::div_mod::lemma_div_pos_is_pos(a * m, total);
    vstd::arithmetic::div_mod::lemma_div_pos_is_pos(a * l, total);
    let rh = (a * h) % total;
    let rm = (a * m) % total;
    let rl = (a * l) % total;
    assert(a - 2 <= qh + qm + ql <= a && qh <= a && qm <= a && ql <= a) by (nonlinear_arith)
        requires
            total == h + m + l,
            total > 0,
            0 <= a,
            0 <= h,
            0 <= m,
            0 <= l,
            0 <= qh,
            0 <= qm,
            0 <= ql,
            a * h == total * qh + rh,
            a * m == total * qm + rm,
            a * l == total * ql + rl,
            0 <= rh < total,
            0 <= rm < total,
            0 <= rl < total,
    ;
}

/// A stake followed at once by a redemption of the same amount, by the same
/// user with the same treasury, does not fail and restores every balance:
/// the user's underlying and derivative balances, the vault and the supply
/// are what they were before the stake.
pub proof fn stake_then_redeem_restores(ctx: Stake, amount: u64)
    requires
        ctx.stake_error(amount) is None,
    ensures
        ctx.staked(amount).as_redeem().redeem_error(amount) is None,
        ctx.staked(amount).as_redeem().redeemed(amount) == ctx.as_redeem(),
        ctx.staked(amount).as_redeem().redeemed(amount).user_token_account.amount
            == ctx.user_token_account.amount,
        ctx.staked(amount).as_redeem().redeemed(amount).user_wrapper_token_account.amount
            == ctx.user_wrapper_token_account.amount,
{
}

/// No step of a stake leaves derivative tokens without backing: where the
/// supply of the derivative asset was within what the vault holds, it is so
/// after the deposit and after the mint; and the stake as a whole leaves the
/// difference between vault and supply as it was.
pub proof fn stake_keeps_backing(ctx: Stake, amount: u64)
    requires
        ctx.stake_error(amount) is None,
        ctx.wrapper_mint.supply <= ctx.treasury_token_account.amount,
    ensures
        ctx.deposited(amount).wrapper_mint.supply <= ctx.deposited(
            amount,
        ).treasury_token_account.amount,
        ctx.staked(amount).wrapper_mint.supply <= ctx.staked(amount).treasury_token_account.amount,
        ctx.staked(amount).treasury_token_account.amount - ctx.staked(amount).wrapper_mint.supply
            == ctx.treasury_token_account.amount - ctx.wrapper_mint.supply,
{
}

/// No step of a redemption leaves derivative tokens without backing: where
/// the supply of the derivative asset was within what the vault holds, it is
/// so after the burn and after the withdrawal; and the redemption as a whole
/// leaves the difference between vault and supply as it was.
pub proof fn redeem_keeps_backing(ctx: Redeem, amount: u64)
    requires
        ctx.redeem_error(amount) is None,
        ctx.wrapper_mint.supply <= ctx.treasury_token_account.amount,
    ensures
        ctx.burnt(amount).wrapper_mint.supply <= ctx.burnt(amount).treasury_token_account.amount,
        ctx.redeemed(amount).wrapper_mint.supply <= ctx.redeemed(
            amount,
        ).treasury_token_account.amount,
        ctx.redeemed(amount).treasury_token_account.amount - ctx.redeemed(
            amount,
        ).wrapper_mint.supply == ctx.treasury_token_account.amount - ctx.wrapper_mint.supply,
{
}

/// A stake or a redemption of nothing, with accounts that fit the treasury
/// record, is refused as not allowed.
pub proof fn zero_amount_is_refused(stake: Stake, redeem: Redeem)
    requires
        stake.binding_error() is None,
        redeem.binding_error() is None,
    ensures
        stake.stake_error(0) == Some(XError::NotAllowed),
        redeem.redeem_error(0) == Some(XError::NotAllowed),
{
}

/// A stake or a redemption with accounts that do not fit the treasury record
/// is refused for that, whatever the amount: with another asset than the
/// record's as an invalid binding.
pub proof fn unfit_accounts_are_refused_first(stake: Stake, redeem: Redeem, amount: u64)
    ensures
        stake.binding_error() is Some ==> stake.stake_error(amount) == stake.binding_error(),
        redeem.binding_error() is Some ==> redeem.redeem_error(amount) == redeem.binding_error(),
        stake.treasury.wrapper_mint != stake.wrapper_mint.key || stake.treasury.treasury_mint
            != stake.treasury_mint.key ==> stake.stake_error(amount) == Some(
            XError::InvalidAssetBinding,
        ),
        redeem.treasury.wrapper_mint != redeem.wrapper_mint.key || redeem.treasury.treasury_mint
            != redeem.treasury_mint.key ==> redeem.redeem_error(amount) == Some(
            XError::InvalidAssetBinding,
        ),
{
}

/// A counter that a reduction leaves under the dust limit becomes zero: what
/// `floor_dust` gives is zero or at least the limit, and never more than what
/// it was given.
pub proof fn dust_is_floored(value: int)
    requires
        0 <= value,
    ensures
        floor_dust(value) == 0 || floor_dust(value) >= DUST_LIMIT,
        value < DUST_LIMIT ==> floor_dust(value) == 0,
        value >= DUST_LIMIT ==> floor_dust(value) == value,
        0 <= floor_dust(value) <= value,
{
}

/// Every counter that a settlement or a claim lowers ends at zero or at no
/// less than the dust limit.
pub proof fn no_dust_is_left(cfg: FeeConfig, category: FeeCategory, amount: u64)
    ensures
        cfg.settled(amount).fee_not_collected == 0 || cfg.settled(amount).fee_not_collected
            >= DUST_LIMIT,
        cfg.claimable(category, amount) > 0 ==> {
            let after = cfg.claimed(category, amount);
            &&& after.unclaimed(category) == 0 || after.unclaimed(category) >= DUST_LIMIT
            &&& after.fee_collected == 0 || after.fee_collected >= DUST_LIMIT
        },
        cfg.claimed(category, amount).fee_not_collected < cfg.fee_not_collected ==> {
            let after = cfg.claimed(category, amount);
            after.fee_not_collected == 0 || after.fee_not_collected >= DUST_LIMIT
        },
        cfg.claimed(category, amount).fee_not_collected <= cfg.fee_not_collected,
{
    let paid = cfg.claimable(category, amount);
    if paid > 0 {
        let total = cfg.total_fee_percent();
        assert(0 <= paid * total) by (nonlinear_arith)
            requires
                0 <= paid,
                0 <= total,
        ;
        assert(FEE_DENOMINATOR == 10000);
    }
}

/// A claim never pays more than the category may still claim, nor more than
/// was collected; what the category may claim afterwards, plus what was paid,
/// is what it could claim before, unless the rest was floored to zero.
pub proof fn claim_is_clamped(cfg: FeeConfig, category: FeeCategory, requested: u64)
    ensures
        0 <= cfg.claimable(category, requested) <= min_int(
            cfg.unclaimed(category),
            cfg.fee_collected as int,
        ),
        cfg.claimable(category, requested) <= requested,
        cfg.claimed(category, requested).unclaimed(category) + cfg.claimable(category, requested)
            <= cfg.unclaimed(category),
        cfg.claimed(category, requested).unclaimed(category) + cfg.claimable(category, requested)
            == cfg.unclaimed(category) || cfg.claimed(category, requested).unclaimed(category)
            == 0,
{
}

/// Pending and collected fee together never go down by an accrual, and go
/// down by a settlement only by the dust that is floored away, which is less
/// than the dust limit.
pub proof fn total_only_loses_dust(cfg: FeeConfig, amount: u64, holding_balance: u64)
    ensures
        cfg.can_accrue(amount) ==> cfg.accrued(amount).fee_not_collected + cfg.accrued(
            amount,
        ).fee_collected >= cfg.fee_not_collected + cfg.fee_collected,
        cfg.settle_error(amount, holding_balance) is None ==> cfg.settled(amount).fee_not_collected
            + cfg.settled(amount).fee_collected + DUST_LIMIT > cfg.fee_not_collected
            + cfg.fee_collected,
{
    transfer_fee_bounds(cfg, amount);
}

} // verus!
