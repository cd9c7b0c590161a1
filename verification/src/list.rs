use vstd::prelude::*;
use crate::actions::AssetTransfer;
use crate::key::{is_zero_key, Key};
use crate::state::Auction;

verus! {

/// The accounts of a listing, as the handler reads them.
#[derive(Clone, Copy, Debug)]
pub struct List {
    /// Who lists the asset, and owns it until then.
    pub seller: Key,
    /// The Core asset put up for auction.
    pub asset: Key,
    /// The auction account being initialised.
    pub auction: Auction,
    /// The address of the auction account.
    pub auction_key: Key,
}

/// A just-listed auction: running, with no bid yet.
pub open spec fn is_new_auction(
    a: Auction,
    seller: Key,
    nft: Key,
    min_bid: u64,
    end_time: int,
    bump: u8,
) -> bool {
    &&& a.seller == seller
    &&& a.nft == nft
    &&& is_zero_key(a.highest_bidder)
    &&& a.highest_bid == 0
    &&& a.minimum_bid == min_bid
    &&& a.end_time == end_time
    &&& a.bump == bump
    &&& a.active == 1
}

/// The escrow of a listing: the seller hands the asset to the auction account.
pub open spec fn listing_escrow(pre: List) -> AssetTransfer {
    AssetTransfer {
        asset: pre.asset,
        authority: pre.seller,
        new_owner: pre.auction_key,
        payer: pre.seller,
        signer: None,
    }
}

/// What a listing does: the auction starts, ending `duration` seconds after
/// `unix_timestamp`, and the asset goes into its escrow.
pub open spec fn list_spec(
    pre: List,
    post: List,
    min_bid: u64,
    duration: i64,
    bump: u8,
    unix_timestamp: i64,
    escrow: AssetTransfer,
) -> bool {
    &&& is_new_auction(post.auction, pre.seller, pre.asset, min_bid, unix_timestamp + duration, bump)
    &&& escrow == listing_escrow(pre)
    &&& post.seller == pre.seller
    &&& post.asset == pre.asset
    &&& post.auction_key == pre.auction_key
}

impl List {
    /// Starts an auction of the asset with a minimum bid, for `duration`
    /// seconds from `unix_timestamp`; the returned transfer is to be made by
    /// the caller.
    pub fn list(&mut self, min_bid: u64, duration: i64, bump: u8, unix_timestamp: i64) -> (escrow:
        AssetTransfer)
        requires
            i64::MIN <= unix_timestamp + duration <= i64::MAX,
        ensures
            list_spec(*old(self), *final(self), min_bid, duration, bump, unix_timestamp, escrow),
    {
        self.auction = Auction {
            seller: self.seller,
            nft: self.asset,
            highest_bidder: Key::zero(),
            highest_bid: 0,
            minimum_bid: min_bid,
            end_time: unix_timestamp + duration,
            bump,
            active: 1,
        };
        AssetTransfer {
            asset: self.asset,
            authority: self.seller,
            new_owner: self.auction_key,
            payer: self.seller,
            signer: None,
        }
    }
}

} // verus!
