use vstd::prelude::*;
use crate::key::Key;
use crate::state::{PackConfig, PackRarityConfig, PackSaleStatus};

verus! {

/// The accounts of pack creation, as the handler reads them.
#[derive(Clone, Copy, Debug)]
pub struct CreatePack {
    /// The pack account being initialised.
    pub pack: PackConfig,
    /// The address of the pack account.
    pub pack_key: Key,
    /// The rarity account being initialised.
    pub rarity: PackRarityConfig,
    /// The admin who creates the pack.
    pub admin: Key,
}

/// The terms every pack is created with: 0.1 SOL, five cards, a hundred for
/// sale, none sold, on sale at once.
pub open spec fn is_initial_pack(p: PackConfig, admin: Key, bump: u8) -> bool {
    &&& p.admin == admin
    &&& p.price_lamports == 100_000_000
    &&& p.pack_size == 5
    &&& p.total_supply == 100
    &&& p.sold_count == 0
    &&& p.sale_status == PackSaleStatus::Live
    &&& p.bump == bump
}

/// The rarity table every pack is created with: weights 70, 20, 9 and 1, and
/// as many cards of each rarity as its weight.
pub open spec fn is_initial_rarity(r: PackRarityConfig, pack: Key, bump: u8) -> bool {
    &&& r.pack == pack
    &&& r.weights@ == seq![70u16, 20u16, 9u16, 1u16]
    &&& r.remaining_per_rarity@ == seq![70u32, 20u32, 9u32, 1u32]
    &&& r.bump == bump
}

/// What pack creation does: both accounts get their initial contents, with
/// the bumps found for their addresses.
pub open spec fn create_pack_spec(pre: CreatePack, post: CreatePack, pack_bump: u8, rarity_bump: u8) -> bool {
    &&& is_initial_pack(post.pack, pre.admin, pack_bump)
    &&& is_initial_rarity(post.rarity, pre.pack_key, rarity_bump)
    &&& post.pack_key == pre.pack_key
    &&& post.admin == pre.admin
}

impl CreatePack {
    /// Writes the initial sale terms and rarity table of the pack, with the
    /// bumps found for the two accounts.
    pub fn create_pack(&mut self, pack_bump: u8, rarity_bump: u8)
        ensures
            create_pack_spec(*old(self), *final(self), pack_bump, rarity_bump),
    {
        self.pack = PackConfig {
            admin: self.admin,
            price_lamports: 100_000_000,
            pack_size: 5,
            total_supply: 100,
            sold_count: 0,
            sale_status: PackSaleStatus::Live,
            bump: pack_bump,
        };
        self.rarity = PackRarityConfig {
            pack: self.pack_key,
            weights: [70u16, 20u16, 9u16, 1u16],
            remaining_per_rarity: [70u32, 20u32, 9u32, 1u32],
            bump: rarity_bump,
        };
        proof {
            assert(self.rarity.weights@ =~= seq![70u16, 20u16, 9u16, 1u16]);
            assert(self.rarity.remaining_per_rarity@ =~= seq![70u32, 20u32, 9u32, 1u32]);
        }
    }
}

} // verus!
