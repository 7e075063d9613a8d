use vstd::prelude::*;
use crate::states::Address;

verus! {

/// Record of a treasury that was created.
#[derive(Clone, Copy, Debug, PartialEq, Eq)]
pub struct TreasuryCreated {
    pub authority: Address,
    pub treasury_mint: Address,
    pub wrapper_mint: Address,
    pub treasury_token_account: Address,
}

/// Record of a deposit: `user` staked `amount` with `treasury`.
#[derive(Clone, Copy, Debug, PartialEq, Eq)]
pub struct Deposited {
    pub treasury: Address,
    pub user: Address,
    pub amount: u64,
}

/// Record of a withdrawal: `user` redeemed `amount` from `treasury`.
#[derive(Clone, Copy, Debug, PartialEq, Eq)]
pub struct Claimed {
    pub treasury: Address,
    pub user: Address,
    pub amount: u64,
}

} // verus!
