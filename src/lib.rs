//! An owner-controlled swap account: a stored configuration bounds the amount
//! of every token transfer that the owner asks the account to make.

pub mod codec;
pub mod laws;
pub mod ledger;
pub mod program;
pub mod pubkey;
pub mod state;

pub use codec::{decode_config, decode_record, encode_config, encode_record};
pub use ledger::{transfer, TokenAccount, TokenError, Transfer};
pub use program::{
    execute_swap, initialize, settle_swap, update_config, ExecuteSwap, Initialize, SwapError,
    UpdateConfig,
};
pub use pubkey::Pubkey;
pub use state::{AutoSwap, AutoSwapError, SwapConfig};
