use vstd::prelude::*;
use crate::key::Key;

verus! {

/// Whether a pack can be bought.
#[derive(Clone, Copy, Debug, PartialEq, Eq, Structural)]
pub enum PackSaleStatus {
    NotStarted,
    Live,
    Paused,
    Ended,
}

/// Where a bought pack stands on its way to being opened.
#[derive(Clone, Copy, Debug, PartialEq, Eq, Structural)]
pub enum PackStatus {
    Unopened,
    Committed,
    Opened,
}

/// The sale terms of the pack.
#[derive(Clone, Copy, Debug)]
pub struct PackConfig {
    pub admin: Key,
    pub price_lamports: u64,
    pub pack_size: u8,
    pub total_supply: u32,
    pub sold_count: u32,
    pub sale_status: PackSaleStatus,
    pub bump: u8,
}

/// How likely each of the four rarities is, and how many cards of each remain.
#[derive(Clone, Copy, Debug)]
pub struct PackRarityConfig {
    pub pack: Key,
    pub weights: [u16; 4],
    pub remaining_per_rarity: [u32; 4],
    pub bump: u8,
}

/// One bought pack: who owns it, where its opening stands, and what it held.
#[derive(Clone, Copy, Debug)]
pub struct UserPack {
    pub owner: Key,
    pub pack: Key,
    pub status: PackStatus,
    pub randomness_account: Key,
    pub commit_slot: u64,
    pub revealed: [u8; 5],
    pub bump: u8,
    pub nft_mints: [Key; 5],
}

/// An auction of one asset; the auction account itself holds the highest bid.
#[derive(Clone, Copy, Debug)]
pub struct Auction {
    pub seller: Key,
    pub nft: Key,
    pub highest_bidder: Key,
    pub highest_bid: u64,
    pub minimum_bid: u64,
    pub end_time: i64,
    pub bump: u8,
    pub active: u8,
}

/// Rank of a pack status along the opening order.
pub open spec fn status_rank(s: PackStatus) -> int {
    match s {
        PackStatus::Unopened => 0,
        PackStatus::Committed => 1,
        PackStatus::Opened => 2,
    }
}

} // verus!
