pub mod constants;
pub mod contexts;
pub mod discovery;
pub mod errors;
pub mod events;
pub mod hook;
pub mod laws;
pub mod ledger;
pub mod processors;
pub mod states;

pub use contexts::{
    CreateTreasury, Initialize, InitializeExtraAccountMetaList, Redeem, Stake, SwapFeeOnExchange,
    TransferHook,
};
pub use discovery::initialize_extra_account_meta_list;
pub use errors::{SolEarnaError, XError};
pub use events::{Claimed, Deposited, TreasuryCreated};
pub use hook::{fallback, transfer_hook};
pub use processors::{create_treasury, redeem, stake, swap_fee_on_exchange};
pub use states::{FeeConfig, Treasury};
