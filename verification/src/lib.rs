//! Rules of a coin-flip betting program: who may configure the house's
//! table, what a flip costs, how the oracle's random bytes decide a flip,
//! what a settled flip pays, and where its accounts live.

pub mod address;
pub mod degenrand;
pub mod error;
pub mod fees;
pub mod flip;
pub mod key;
pub mod lamports;
pub mod odds;
pub mod program;
pub mod state;

pub use error::DegenErrorCode;
pub use fees::{calculate_amount, fee, oracle_fee};
pub use flip::{
    admin_bet, create_coin, reveal_coin, update_admin_ata, update_admin_fee, update_bet_amount,
};
pub use key::Pubkey;
pub use lamports::remove_pda;
pub use odds::{calculate_probability, rand50};
pub use program::{admin_account_pubkey, admin_bet_pda, check_account_equals, id, vault_pda};
pub use state::{Bet, CoinInfo, Vault};
