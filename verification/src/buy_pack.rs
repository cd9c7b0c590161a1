use vstd::prelude::*;
use crate::actions::LamportTransfer;
use crate::error::GachaError;
use crate::key::{is_zero_key, Key};
use crate::state::{PackConfig, PackSaleStatus, PackStatus, UserPack};

verus! {

/// The accounts of a pack purchase, as the handler reads them.
#[derive(Clone, Copy, Debug)]
pub struct BuyPack {
    pub pack: PackConfig,
    /// The address of the pack account.
    pub pack_key: Key,
    /// The account that will record the bought pack.
    pub user_pack: UserPack,
    /// Where the price is paid to; it must be the pack admin's account.
    pub treasury: Key,
    /// Who buys and pays.
    pub buyer: Key,
}

/// Why a purchase is refused, if it is.
pub open spec fn buy_pack_error(pre: BuyPack) -> Option<GachaError> {
    if pre.pack.sale_status != PackSaleStatus::Live {
        Some(GachaError::SaleNotLive)
    } else if pre.pack.sold_count >= pre.pack.total_supply {
        Some(GachaError::SoldOut)
    } else if pre.treasury != pre.pack.admin {
        Some(GachaError::InvalidTreasury)
    } else {
        None
    }
}

/// A just-bought pack: owned by `owner`, of `pack`, unopened, with nothing
/// committed or revealed yet.
pub open spec fn is_fresh_user_pack(u: UserPack, owner: Key, pack: Key, bump: u8) -> bool {
    &&& u.owner == owner
    &&& u.pack == pack
    &&& u.status == PackStatus::Unopened
    &&& is_zero_key(u.randomness_account)
    &&& u.commit_slot == 0
    &&& forall|i: int| 0 <= i < 5 ==> u.revealed@[i] == 0
    &&& u.bump == bump
    &&& forall|i: int| 0 <= i < 5 ==> is_zero_key(#[trigger] u.nft_mints@[i])
}

/// The payment of a purchase: the price, from the buyer to the treasury.
pub open spec fn purchase_payment(pre: BuyPack) -> LamportTransfer {
    LamportTransfer { from: pre.buyer, to: pre.treasury, amount: pre.pack.price_lamports, signer: None }
}

/// What a purchase does: refused with the accounts unchanged, or paid for to
/// the pack admin,
/// recorded as a fresh pack of the buyer, and counted as one more sold.
pub open spec fn buy_pack_spec(
    pre: BuyPack,
    post: BuyPack,
    bump: u8,
    r: Result<LamportTransfer, GachaError>,
) -> bool {
    match r {
        Err(e) => buy_pack_error(pre) == Some(e) && post == pre,
        Ok(payment) => {
            &&& buy_pack_error(pre) is None
            &&& payment == purchase_payment(pre)
            &&& post.pack == PackConfig { sold_count: (pre.pack.sold_count + 1) as u32, ..pre.pack }
            &&& is_fresh_user_pack(post.user_pack, pre.buyer, pre.pack_key, bump)
            &&& post.pack_key == pre.pack_key
            &&& post.treasury == pre.treasury
            &&& post.buyer == pre.buyer
        },
    }
}

impl BuyPack {
    /// Sells one pack to the buyer; the returned payment is to be made by the caller.
    pub fn buy_pack(&mut self, bump: u8) -> (r: Result<LamportTransfer, GachaError>)
        ensures
            buy_pack_spec(*old(self), *final(self), bump, r),
    {
        if self.pack.sale_status != PackSaleStatus::Live {
            return Err(GachaError::SaleNotLive);
        }
        if self.pack.sold_count >= self.pack.total_supply {
            return Err(GachaError::SoldOut);
        }
        if !self.treasury.same(&self.pack.admin) {
            return Err(GachaError::InvalidTreasury);
        }
        let payment = LamportTransfer {
            from: self.buyer,
            to: self.treasury,
            amount: self.pack.price_lamports,
            signer: None,
        };
        let zero = Key::zero();
        self.user_pack = UserPack {
            owner: self.buyer,
            pack: self.pack_key,
            status: PackStatus::Unopened,
            randomness_account: zero,
            commit_slot: 0,
            revealed: [0u8; 5],
            bump,
            nft_mints: [zero; 5],
        };
        self.pack.sold_count = self.pack.sold_count + 1;
        Ok(payment)
    }
}

} // verus!
