use vstd::prelude::*;
use crate::actions::{AssetTransfer, AuctionSigner};
use crate::error::AuctionError;
use crate::key::Key;
use crate::state::Auction;

verus! {

/// The accounts of a cancellation, as the handler reads them.
#[derive(Clone, Copy, Debug)]
pub struct Cancel {
    pub seller: Key,
    pub asset: Key,
    pub auction: Auction,
    /// The address of the auction account.
    pub auction_key: Key,
}

/// Why a cancellation is refused, if it is.
pub open spec fn cancel_error(pre: Cancel) -> Option<AuctionError> {
    if pre.seller != pre.auction.seller {
        Some(AuctionError::Unauthorized)
    } else if pre.auction.active != 1 {
        Some(AuctionError::Ended)
    } else if pre.auction.highest_bid != 0 {
        Some(AuctionError::BidTooLow)
    } else {
        None
    }
}

/// The return of a cancellation: the auction account hands the asset back to
/// the seller.
pub open spec fn cancellation_return(pre: Cancel) -> AssetTransfer {
    AssetTransfer {
        asset: pre.asset,
        authority: pre.auction_key,
        new_owner: pre.seller,
        payer: pre.seller,
        signer: Some(AuctionSigner { asset: pre.asset, bump: pre.auction.bump }),
    }
}

/// What a cancellation does: refused with the accounts unchanged, or the
/// asset goes back to the seller and the auction stops.
pub open spec fn cancel_spec(pre: Cancel, post: Cancel, r: Result<AssetTransfer, AuctionError>) -> bool {
    match r {
        Err(e) => cancel_error(pre) == Some(e) && post == pre,
        Ok(give_back) => {
            &&& cancel_error(pre) is None
            &&& give_back == cancellation_return(pre)
            &&& post == (Cancel { auction: Auction { active: 0, ..pre.auction }, ..pre })
        },
    }
}

impl Cancel {
    /// Withdraws an auction that has no bid yet; the returned transfer of the
    /// asset back to the seller is to be made by the caller.
    pub fn cancel(&mut self) -> (r: Result<AssetTransfer, AuctionError>)
        ensures
            cancel_spec(*old(self), *final(self), r),
    {
        if !self.seller.same(&self.auction.seller) {
            return Err(AuctionError::Unauthorized);
        }
        if self.auction.active != 1 {
            return Err(AuctionError::Ended);
        }
        if self.auction.highest_bid != 0 {
            return Err(AuctionError::BidTooLow);
        }
        let give_back = AssetTransfer {
            asset: self.asset,
            authority: self.auction_key,
            new_owner: self.seller,
            payer: self.seller,
            signer: Some(AuctionSigner { asset: self.asset, bump: self.auction.bump }),
        };
        self.auction.active = 0;
        Ok(give_back)
    }
}

} // verus!
