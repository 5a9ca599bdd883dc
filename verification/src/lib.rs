//! A ledger-resident lottery: sells numbered tickets to participant accounts,
//! accumulates a pot, and at draw time deterministically selects one prior
//! ticket as the winner, paying out the pot and resetting for a new round.
//!
//! The contract logic is split into a data model ([`state`]), an explicit
//! model of the host's persistent key-value store ([`store`]), and the
//! operations of the contract itself ([`lottery`]). The host facilities the
//! contract consumes — the durable store, the ledger clock, and account
//! identity — enter the operations as plain values, so the whole state
//! machine is verified.

pub mod laws;
pub mod lottery;
pub mod state;
pub mod store;

pub use crate::lottery::CryptoLotteryContract;
pub use crate::state::AccountId;
pub use crate::state::LotteryError;
pub use crate::state::LotteryState;
pub use crate::state::LotteryTicket;
pub use crate::store::LotteryStore;
pub use crate::store::TicketMap;
