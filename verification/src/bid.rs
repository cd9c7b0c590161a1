use vstd::prelude::*;
use crate::actions::{LamportMove, LamportTransfer};
use crate::error::AuctionError;
use crate::key::Key;
use crate::state::Auction;

verus! {

/// The accounts of a bid, as the handler reads them.
#[derive(Clone, Copy, Debug)]
pub struct Bid {
    pub bidder: Key,
    pub asset: Key,
    /// The account handed in to be refunded the bid that is outbid.
    pub previous_highest_bidder: Key,
    pub auction: Auction,
    /// The address of the auction account, which holds the bids.
    pub auction_key: Key,
}

/// What an accepted bid asks of the runtime: the deposit of the bid into the
/// auction account through the system program, then, when a bid stood
/// before, the direct move of that bid from the auction account back to its
/// bidder.
#[derive(Clone, Copy, Debug)]
pub struct BidOutcome {
    pub deposit: LamportTransfer,
    pub refund: Option<LamportMove>,
}

/// Why a bid is refused, if it is.
pub open spec fn bid_error(pre: Bid, bid: u64) -> Option<AuctionError> {
    if pre.auction.active != 1 {
        Some(AuctionError::AuctionNotActive)
    } else if bid < pre.auction.minimum_bid {
        Some(AuctionError::BidTooLow)
    } else if bid <= pre.auction.highest_bid {
        Some(AuctionError::BidTooLow)
    } else if pre.auction.highest_bid > 0 && pre.previous_highest_bidder != pre.auction.highest_bidder {
        Some(AuctionError::Unauthorized)
    } else {
        None
    }
}

/// The deposit of a bid: the bid, from the bidder into the auction account.
pub open spec fn bid_deposit(pre: Bid, bid: u64) -> LamportTransfer {
    LamportTransfer { from: pre.bidder, to: pre.auction_key, amount: bid, signer: None }
}

/// The refund of a bid: the bid that stood before, from the auction account
/// back to the account handed in as its bidder, if a bid stood.
pub open spec fn bid_refund(pre: Bid) -> Option<LamportMove> {
    if pre.auction.highest_bid > 0 {
        Some(
            LamportMove {
                from: pre.auction_key,
                to: pre.previous_highest_bidder,
                amount: pre.auction.highest_bid,
            },
        )
    } else {
        None
    }
}

/// What a bid does: refused with the accounts unchanged, or the bid and the
/// bidder become the highest, all else unchanged.
pub open spec fn bid_spec(pre: Bid, post: Bid, bid: u64, r: Result<BidOutcome, AuctionError>) -> bool {
    match r {
        Err(e) => bid_error(pre, bid) == Some(e) && post == pre,
        Ok(outcome) => {
            &&& bid_error(pre, bid) is None
            &&& outcome.deposit == bid_deposit(pre, bid)
            &&& outcome.refund == bid_refund(pre)
            &&& post == (Bid {
                auction: Auction { highest_bid: bid, highest_bidder: pre.bidder, ..pre.auction },
                ..pre
            })
        },
    }
}

impl Bid {
    /// Places a bid of `bid` lamports; the returned deposit and refund are to
    /// be made by the caller, in that order.
    pub fn bid(&mut self, bid: u64) -> (r: Result<BidOutcome, AuctionError>)
        ensures
            bid_spec(*old(self), *final(self), bid, r),
    {
        if self.auction.active != 1 {
            return Err(AuctionError::AuctionNotActive);
        }
        if bid < self.auction.minimum_bid {
            return Err(AuctionError::BidTooLow);
        }
        if bid <= self.auction.highest_bid {
            return Err(AuctionError::BidTooLow);
        }
        let deposit = LamportTransfer {
            from: self.bidder,
            to: self.auction_key,
            amount: bid,
            signer: None,
        };
        let mut refund: Option<LamportMove> = None;
        if self.auction.highest_bid > 0 {
            if !self.previous_highest_bidder.same(&self.auction.highest_bidder) {
                return Err(AuctionError::Unauthorized);
            }
            refund = Some(
                LamportMove {
                    from: self.auction_key,
                    to: self.previous_highest_bidder,
                    amount: self.auction.highest_bid,
                },
            );
        }
        self.auction.highest_bid = bid;
        self.auction.highest_bidder = self.bidder;
        Ok(BidOutcome { deposit, refund })
    }
}

} // verus!
