use vstd::prelude::*;

verus! {

/// Why a pack instruction is refused.
#[derive(Clone, Copy, Debug, PartialEq, Eq, Structural)]
pub enum GachaError {
    SaleNotLive,
    SoldOut,
    AlreadyCommitted,
    RandomnessExpired,
    RandomnessRevealed,
    NotCommitted,
    InvalidRandomness,
    InvalidRarity,
    RandomnessNotReady,
    /// The treasury handed in is not the pack admin's account.
    InvalidTreasury,
    /// No bump seed gives an off-curve mint address for a card.
    MintAddressNotFound,
}

/// Why an auction instruction is refused.
#[derive(Clone, Copy, Debug, PartialEq, Eq, Structural)]
pub enum AuctionError {
    AlreadyActive,
    Ended,
    BidTooLow,
    Unauthorized,
    /// A bid on an auction that is no longer running.
    AuctionNotActive,
}

} // verus!
