//! An on-chain escrow marketplace for swapping NFTs against a fungible token
//! or the chain's native coin.
//!
//! The crate is the contract's core: the swap lifecycle state machine
//! (create, update, finish, cancel), the escrow accounting for native-coin
//! offers, and the filtered, paginated read model over the swap store. The
//! host chain's plumbing — request decoding, storage persistence, dispatch of
//! the emitted transfer instructions — stays outside; the core works on plain
//! values and is verified.

#![verifier::loop_isolation(false)]

pub mod error;
pub mod execute;
pub mod keys;
pub mod laws;
pub mod msg;
pub mod paging;
pub mod query;
pub mod state;
pub mod sums;
pub mod utils;

pub use crate::error::ContractError;
