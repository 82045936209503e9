//! King of the hill: a contest in which the highest bid leads. The prize of the leader is
//! held in escrow; whoever bids more takes the lead, and the escrow pays the old leader
//! back.
//!
//! The operations work on a [`ledger::Ledger`], the balances and records they touch, and
//! are stated over its mathematical view. Addresses are derived as the ledger's runtime
//! derives them; the hash behind them is taken from solana_program and only named.

pub mod address;
pub mod contest;
pub mod error;
pub mod instruction;
pub mod laws;
pub mod ledger;
pub mod state;

pub use address::Address;
pub use contest::{become_king, initialize, BecomeKing, Initialize};
pub use error::ErrorCode;
pub use ledger::Ledger;
pub use state::GameState;
