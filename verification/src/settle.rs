use vstd::prelude::*;
use crate::actions::{AssetTransfer, AuctionSigner};
use crate::error::AuctionError;
use crate::key::Key;
use crate::state::Auction;

verus! {

/// The accounts of a settlement, as the handler reads and changes them.
#[derive(Clone, Copy, Debug)]
pub struct Settle {
    pub seller: Key,
    /// The lamports the seller's account holds.
    pub seller_lamports: u64,
    pub asset: Key,
    /// The account handed in as the winner.
    pub winner: Key,
    pub auction: Auction,
    /// The address of the auction account.
    pub auction_key: Key,
    /// The lamports the auction account holds.
    pub auction_lamports: u64,
}

/// Why a settlement is refused at `unix_timestamp`, if it is.
pub open spec fn settle_error(pre: Settle, unix_timestamp: i64) -> Option<AuctionError> {
    if pre.auction.active != 1 {
        Some(AuctionError::Ended)
    } else if unix_timestamp < pre.auction.end_time {
        Some(AuctionError::Ended)
    } else if pre.auction.highest_bid == 0 {
        Some(AuctionError::BidTooLow)
    } else if pre.seller != pre.auction.seller {
        Some(AuctionError::Unauthorized)
    } else if pre.winner != pre.auction.highest_bidder {
        Some(AuctionError::Unauthorized)
    } else {
        None
    }
}

/// The delivery of a settlement: the auction account hands the asset to the winner.
pub open spec fn settlement_delivery(pre: Settle) -> AssetTransfer {
    AssetTransfer {
        asset: pre.asset,
        authority: pre.auction_key,
        new_owner: pre.winner,
        payer: pre.seller,
        signer: Some(AuctionSigner { asset: pre.asset, bump: pre.auction.bump }),
    }
}

/// Balances the payout can be made from: the auction account holds the
/// highest bid, and the seller's balance can take it.
pub open spec fn payout_fits(pre: Settle) -> bool {
    &&& pre.auction_lamports >= pre.auction.highest_bid
    &&& pre.seller_lamports + pre.auction.highest_bid <= u64::MAX
}

/// What a settlement does: refused with the accounts unchanged, or the highest
/// bid moves from the auction account to the seller and the asset goes to the
/// winner.
pub open spec fn settle_spec(
    pre: Settle,
    post: Settle,
    unix_timestamp: i64,
    r: Result<AssetTransfer, AuctionError>,
) -> bool {
    match r {
        Err(e) => settle_error(pre, unix_timestamp) == Some(e) && post == pre,
        Ok(delivery) => {
            &&& settle_error(pre, unix_timestamp) is None
            &&& delivery == settlement_delivery(pre)
            &&& post.auction_lamports == pre.auction_lamports - pre.auction.highest_bid
            &&& post.seller_lamports == pre.seller_lamports + pre.auction.highest_bid
            &&& post == (Settle {
                auction_lamports: post.auction_lamports,
                seller_lamports: post.seller_lamports,
                ..pre
            })
        },
    }
}

impl Settle {
    /// Whether the settlement would get to a payout that the balances cannot
    /// carry, which the handler cannot do.
    pub fn payout_overflows(&self, unix_timestamp: i64) -> (r: bool)
        ensures
            r == (settle_error(*self, unix_timestamp) is None && !payout_fits(*self)),
    {
        let refused = self.auction.active != 1 || unix_timestamp < self.auction.end_time
            || self.auction.highest_bid == 0 || !self.seller.same(&self.auction.seller)
            || !self.winner.same(&self.auction.highest_bidder);
        if refused {
            return false;
        }
        self.auction_lamports < self.auction.highest_bid || self.seller_lamports > u64::MAX
            - self.auction.highest_bid
    }

    /// Ends the auction at `unix_timestamp`: pays the seller the highest bid
    /// out of the auction account; the returned transfer of the asset to the
    /// winner is to be made by the caller.
    pub fn settle(&mut self, unix_timestamp: i64) -> (r: Result<AssetTransfer, AuctionError>)
        requires
            settle_error(*old(self), unix_timestamp) is None ==> payout_fits(*old(self)),
        ensures
            settle_spec(*old(self), *final(self), unix_timestamp, r),
    {
        if self.auction.active != 1 {
            return Err(AuctionError::Ended);
        }
        if unix_timestamp < self.auction.end_time {
            return Err(AuctionError::Ended);
        }
        if self.auction.highest_bid == 0 {
            return Err(AuctionError::BidTooLow);
        }
        if !self.seller.same(&self.auction.seller) {
            return Err(AuctionError::Unauthorized);
        }
        if !self.winner.same(&self.auction.highest_bidder) {
            return Err(AuctionError::Unauthorized);
        }
        let amount = self.auction.highest_bid;
        self.auction_lamports = self.auction_lamports - amount;
        self.seller_lamports = self.seller_lamports + amount;
        Ok(
            AssetTransfer {
                asset: self.asset,
                authority: self.auction_key,
                new_owner: self.winner,
                payer: self.seller,
                signer: Some(AuctionSigner { asset: self.asset, bump: self.auction.bump }),
            },
        )
    }
}

} // verus!
