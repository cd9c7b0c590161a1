//! Verified core of the gacha-pack and NFT-auction program: every decision
//! the on-chain handlers make, as functions from account state to new account
//! state plus the transfers that the runtime is asked to carry out.

pub mod key;
pub mod error;
pub mod state;
pub mod pda;
pub mod randomness;
pub mod rarity;
pub mod actions;
pub mod create_pack;
pub mod buy_pack;
pub mod commit_open;
pub mod open_pack;
pub mod list;
pub mod bid;
pub mod settle;
pub mod cancel;
pub mod gacha_gotcha;
pub mod laws;
pub mod outcomes;
