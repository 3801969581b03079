//! Account-lifecycle rules of a concentrated-liquidity pool program:
//! closing an empty liquidity position and creating the protocol-wide
//! configuration record.
//!
//! Accounts are plain values here. An account slot that the runtime could not
//! resolve, or that was closed, is `None`; all effects of an instruction are
//! applied only when every check passes.

mod pubkey;
mod errors;
mod state;
mod util;
pub mod close_position;
pub mod initialize_config;

pub use crate::pubkey::Pubkey;
pub use crate::errors::ErrorCode;
pub use crate::state::{
    Account, Mint, Position, TokenAccount, Wallet, Whirlpool, WhirlpoolsConfig,
    MAX_PROTOCOL_FEE_RATE, NUM_REWARDS,
};
pub use crate::util::verify_position_authority;
pub use crate::close_position::ClosePosition;
pub use crate::initialize_config::InitializeConfig;
