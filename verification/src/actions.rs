use vstd::prelude::*;
use crate::key::Key;

verus! {

/// The auction account signs with the seeds `["auction", asset, [bump]]`.
#[derive(Clone, Copy, Debug)]
pub struct AuctionSigner {
    pub asset: Key,
    pub bump: u8,
}

/// A move of lamports through the system program that a handler asks for.
#[derive(Clone, Copy, Debug)]
pub struct LamportTransfer {
    pub from: Key,
    pub to: Key,
    pub amount: u64,
    /// Present when the sender is the auction account, which signs by its seeds.
    pub signer: Option<AuctionSigner>,
}

/// A move of lamports out of an account the program owns, made by changing
/// both balances directly.
#[derive(Clone, Copy, Debug)]
pub struct LamportMove {
    pub from: Key,
    pub to: Key,
    pub amount: u64,
}

/// Balances that a move can be made between: the sender holds the amount and
/// the receiver can take it.
pub open spec fn move_fits(m: LamportMove, from_balance: u64, to_balance: u64) -> bool {
    &&& from_balance >= m.amount
    &&& to_balance + m.amount <= u64::MAX
}

impl LamportMove {
    /// Whether the move can be made between these balances.
    pub fn fits(&self, from_balance: u64, to_balance: u64) -> (r: bool)
        ensures
            r == move_fits(*self, from_balance, to_balance),
    {
        from_balance >= self.amount && to_balance <= u64::MAX - self.amount
    }

    /// The balances of sender and receiver after the move.
    pub fn apply(&self, from_balance: u64, to_balance: u64) -> (r: (u64, u64))
        requires
            move_fits(*self, from_balance, to_balance),
        ensures
            r.0 == from_balance - self.amount,
            r.1 == to_balance + self.amount,
    {
        (from_balance - self.amount, to_balance + self.amount)
    }
}

/// A change of owner of a Core asset that a handler asks for.
#[derive(Clone, Copy, Debug)]
pub struct AssetTransfer {
    pub asset: Key,
    pub authority: Key,
    pub new_owner: Key,
    pub payer: Key,
    /// Present when the authority is the auction account, which signs by its seeds.
    pub signer: Option<AuctionSigner>,
}

/// The bytes of the word "auction".
pub open spec fn auction_tag() -> Seq<u8> {
    seq![97u8, 117u8, 99u8, 116u8, 105u8, 111u8, 110u8]
}

/// The seeds of the auction account of an asset, with its bump.
pub open spec fn auction_seed_bytes(asset: Key, bump: u8) -> Seq<Seq<u8>> {
    seq![auction_tag(), asset@, seq![bump]]
}

/// Builds the seeds with which the auction account of `asset` signs.
pub fn auction_seeds(signer: &AuctionSigner) -> (seeds: Vec<Vec<u8>>)
    ensures
        seeds@.len() == 3,
        seeds@[0]@ == auction_tag(),
        seeds@[1]@ == signer.asset@,
        seeds@[2]@ == seq![signer.bump],
{
    let tag: Vec<u8> = vec![97u8, 117u8, 99u8, 116u8, 105u8, 111u8, 110u8];
    let mut asset: Vec<u8> = Vec::new();
    let mut i: usize = 0;
    while i < 32
        invariant
            0 <= i <= 32,
            asset@ == signer.asset@.subrange(0, i as int),
        decreases 32 - i,
    {
        asset.push(signer.asset.bytes[i]);
        i = i + 1;
    }
    let bump: Vec<u8> = vec![signer.bump];
    let mut seeds: Vec<Vec<u8>> = Vec::new();
    seeds.push(tag);
    seeds.push(asset);
    seeds.push(bump);
    proof {
        assert(seeds@[0]@ =~= auction_tag());
        assert(seeds@[1]@ =~= signer.asset@);
        assert(seeds@[2]@ =~= seq![signer.bump]);
    }
    seeds
}

} // verus!
