//! The ledger record of a tradable token and the four guarded operations on
//! it: creation, enabling trading, buying and selling. Every operation either
//! applies in full or returns an error and leaves the record untouched.
use vstd::prelude::*;

pub mod error;
pub mod instructions;
pub mod laws;
pub mod state;

pub use error::TokenError;
pub use instructions::{buy_token, enable_trading, initialize_token, sell_token};
pub use state::{Identity, TokenAccount, TokenAccountView, TokenMetadata, DEFAULT_PRICE_IN_LAMPORTS};

verus! {

} // verus!
