use vstd::prelude::*;
use crate::commit_open::parse_outcome_allowed;
use crate::error::GachaError;
use crate::key::Key;
use crate::pda::{find_program_address, program_address, seeds_view};
use crate::randomness::{
    is_randomness_account, le_u64_at, le_value, looks_like_randomness_account, parse_randomness,
    RandomnessData,
};
use crate::rarity::{draw_rarity, drawn_rarity, weight_prefix, weights_drawable};
use crate::state::{PackConfig, PackRarityConfig, PackStatus, UserPack};

verus! {

broadcast use vstd::array::group_array_axioms;

/// The accounts of a pack opening, as the handler reads them.
#[derive(Debug)]
pub struct OpenPack {
    pub buyer: Key,
    /// The committed pack to be opened.
    pub user_pack: UserPack,
    pub pack: PackConfig,
    /// The address of the pack account.
    pub pack_key: Key,
    pub rarity: PackRarityConfig,
    /// The address of the randomness account handed in.
    pub randomness_account: Key,
    /// The bytes of that randomness account.
    pub randomness_data: Vec<u8>,
}

/// The `len` bytes of `n`, least significant first.
pub open spec fn le_bytes(n: nat, len: nat) -> Seq<u8>
    decreases len,
{
    if len == 0 {
        Seq::empty()
    } else {
        seq![(n % 256) as u8] + le_bytes(n / 256, (len - 1) as nat)
    }
}

/// The bytes of the word "nft".
pub open spec fn nft_tag() -> Seq<u8> {
    seq![110u8, 102u8, 116u8]
}

/// The seeds of the mint address of card `i`, drawn with `rarity` from `byte`.
pub open spec fn nft_seed_bytes(i: nat, rarity: nat, byte: u8) -> Seq<Seq<u8>> {
    seq![nft_tag(), le_bytes(i, 8), le_bytes(rarity, 8), seq![byte]]
}

/// The mint address and bump of card `i` of a pack opened with weights `w`,
/// drawn from `byte`, if the runtime finds one.
pub open spec fn card_address(program_id: Key, i: nat, w: Seq<u16>, byte: u8) -> Option<(Seq<u8>, u8)> {
    program_address(nft_seed_bytes(i, drawn_rarity(byte, w) as nat, byte), program_id@)
}

/// The mint address of card `i` of a pack opened with weights `w`, drawn from `byte`.
pub open spec fn card_mint(program_id: Key, i: nat, w: Seq<u16>, byte: u8) -> Seq<u8> {
    (card_address(program_id, i, w, byte)->0).0
}

/// Whether every one of the first `pack_size` cards has a mint address.
pub open spec fn cards_derivable(program_id: Key, pack_size: int, w: Seq<u16>, value: Seq<u8>) -> bool {
    forall|i: int| 0 <= i < pack_size ==> (#[trigger] card_address(program_id, i as nat, w, value[i])) is Some
}

/// The eight bytes of `x`, least significant first.
pub fn u64_le_bytes(x: u64) -> (v: Vec<u8>)
    ensures
        v@ == le_bytes(x as nat, 8),
{
    let mut v: Vec<u8> = Vec::new();
    let mut y: u64 = x;
    let mut j: usize = 0;
    while j < 8
        invariant
            0 <= j <= 8,
            v@ + le_bytes(y as nat, (8 - j) as nat) == le_bytes(x as nat, 8),
        decreases 8 - j,
    {
        let b: u8 = (y % 256) as u8;
        proof {
            let rest = le_bytes((y / 256) as nat, (8 - j - 1) as nat);
            assert(le_bytes(y as nat, (8 - j) as nat) == seq![b] + rest);
            assert(v@.push(b) + rest =~= v@ + (seq![b] + rest));
        }
        v.push(b);
        y = y / 256;
        j = j + 1;
    }
    proof {
        assert(le_bytes(y as nat, 0) =~= Seq::<u8>::empty());
        assert(v@ + Seq::<u8>::empty() =~= v@);
    }
    v
}

/// Builds the seeds of the mint address of card `i`, drawn with `rarity` from `byte`.
pub fn nft_seeds(i: u64, rarity: u64, byte: u8) -> (seeds: Vec<Vec<u8>>)
    ensures
        seeds_view(seeds@) == nft_seed_bytes(i as nat, rarity as nat, byte),
{
    let tag: Vec<u8> = vec![110u8, 102u8, 116u8];
    let index_bytes = u64_le_bytes(i);
    let rarity_bytes = u64_le_bytes(rarity);
    let byte_seed: Vec<u8> = vec![byte];
    let mut seeds: Vec<Vec<u8>> = Vec::new();
    seeds.push(tag);
    seeds.push(index_bytes);
    seeds.push(rarity_bytes);
    seeds.push(byte_seed);
    proof {
        assert(seeds@[0]@ =~= nft_tag());
        assert(seeds@[3]@ =~= seq![byte]);
        assert(seeds_view(seeds@) =~= nft_seed_bytes(i as nat, rarity as nat, byte));
    }
    seeds
}

/// Why an opening is refused before any card is drawn, if it is, given what
/// was read from the randomness account.
pub open spec fn randomness_error(
    pre: OpenPack,
    clock_slot: u64,
    parsed: Option<RandomnessData>,
) -> Option<GachaError> {
    if pre.rarity.pack != pre.pack_key {
        Some(GachaError::InvalidRarity)
    } else if pre.user_pack.status != PackStatus::Committed {
        Some(GachaError::NotCommitted)
    } else if pre.randomness_account != pre.user_pack.randomness_account {
        Some(GachaError::InvalidRandomness)
    } else {
        match parsed {
            None => Some(GachaError::InvalidRandomness),
            Some(d) => if d.seed_slot != pre.user_pack.commit_slot {
                Some(GachaError::RandomnessExpired)
            } else if clock_slot != d.reveal_slot {
                Some(GachaError::RandomnessNotReady)
            } else {
                None
            },
        }
    }
}

/// Why an opening is refused, if it is: a failed check of the randomness, or
/// a card for which no mint address can be derived.
pub open spec fn open_pack_error(
    pre: OpenPack,
    program_id: Key,
    clock_slot: u64,
    parsed: Option<RandomnessData>,
) -> Option<GachaError> {
    match randomness_error(pre, clock_slot, parsed) {
        Some(e) => Some(e),
        None => if !cards_derivable(
            program_id,
            pre.pack.pack_size as int,
            pre.rarity.weights@,
            parsed->0.value@,
        ) {
            Some(GachaError::MintAddressNotFound)
        } else {
            None
        },
    }
}

/// The opened pack: for each of the first `pack_size` cards, the rarity drawn
/// from the matching byte of the random value and the mint address derived
/// from it; the remaining slots and all other fields as before.
pub open spec fn is_opened_from(
    pre: UserPack,
    post: UserPack,
    pack_size: int,
    w: Seq<u16>,
    value: Seq<u8>,
    program_id: Key,
) -> bool {
    &&& post.owner == pre.owner
    &&& post.pack == pre.pack
    &&& post.status == PackStatus::Opened
    &&& post.randomness_account == pre.randomness_account
    &&& post.commit_slot == pre.commit_slot
    &&& post.bump == pre.bump
    &&& forall|i: int| 0 <= i < pack_size ==> #[trigger] post.revealed@[i] == drawn_rarity(value[i], w)
    &&& forall|i: int|
        0 <= i < pack_size ==> (#[trigger] post.nft_mints@[i])@ == card_mint(program_id, i as nat, w, value[i])
    &&& forall|i: int| pack_size <= i < 5 ==> #[trigger] post.revealed@[i] == pre.revealed@[i]
    &&& forall|i: int| pack_size <= i < 5 ==> #[trigger] post.nft_mints@[i] == pre.nft_mints@[i]
}

/// What an opening does: refused with the accounts unchanged, or the pack
/// records its cards and becomes opened, all other accounts unchanged.
pub open spec fn open_pack_spec(
    pre: OpenPack,
    post: OpenPack,
    program_id: Key,
    clock_slot: u64,
    parsed: Option<RandomnessData>,
    r: Result<(), GachaError>,
) -> bool {
    match open_pack_error(pre, program_id, clock_slot, parsed) {
        Some(e) => r == Err::<(), GachaError>(e) && post == pre,
        None => {
            &&& r is Ok
            &&& is_opened_from(
                pre.user_pack,
                post.user_pack,
                pre.pack.pack_size as int,
                pre.rarity.weights@,
                parsed->0.value@,
                program_id,
            )
            &&& post == (OpenPack { user_pack: post.user_pack, ..pre })
        },
    }
}

/// Packs whose cards can be drawn: at most five cards, and weights that can
/// be drawn from whenever there is a card.
pub open spec fn draws_fit(pre: OpenPack) -> bool {
    &&& pre.pack.pack_size <= 5
    &&& pre.pack.pack_size > 0 ==> weights_drawable(pre.rarity.weights@)
}

/// Whether the account bytes let an opening get as far as drawing cards.
pub open spec fn opening_reaches_draws(pre: OpenPack, clock_slot: u64) -> bool {
    let data = pre.randomness_data@;
    &&& pre.rarity.pack == pre.pack_key
    &&& pre.user_pack.status == PackStatus::Committed
    &&& pre.randomness_account == pre.user_pack.randomness_account
    &&& is_randomness_account(data)
    &&& le_value(data.subrange(104, 112)) == pre.user_pack.commit_slot
    &&& le_value(data.subrange(144, 152)) == clock_slot
}

impl OpenPack {
    /// Whether the opening would get to drawing cards that the pack cannot
    /// hold, or draw with weights that cannot be drawn from.
    pub fn draws_overflow(&self, clock_slot: u64) -> (r: bool)
        ensures
            r == (opening_reaches_draws(*self, clock_slot) && !draws_fit(*self)),
    {
        let w = self.rarity.weights;
        let total: u32 = w[0] as u32 + w[1] as u32 + w[2] as u32 + w[3] as u32;
        proof {
            reveal_with_fuel(weight_prefix, 5);
        }
        let fits = self.pack.pack_size <= 5 && (self.pack.pack_size == 0 || (0 < total && total
            <= 65535));
        if fits {
            return false;
        }
        let data = self.randomness_data.as_slice();
        self.rarity.pack.same(&self.pack_key) && self.user_pack.status == PackStatus::Committed
            && self.randomness_account.same(&self.user_pack.randomness_account)
            && looks_like_randomness_account(data) && le_u64_at(data, 104) == self.user_pack.commit_slot
            && le_u64_at(data, 144) == clock_slot
    }

    /// Opens the committed pack with the value revealed in `clock_slot`.
    pub fn open_pack(&mut self, program_id: &Key, clock_slot: u64) -> (r: Result<(), GachaError>)
        requires
            opening_reaches_draws(*old(self), clock_slot) ==> draws_fit(*old(self)),
        ensures
            exists|parsed: Option<RandomnessData>|
                parse_outcome_allowed(old(self).randomness_data@, parsed) && open_pack_spec(
                    *old(self),
                    *final(self),
                    *program_id,
                    clock_slot,
                    parsed,
                    r,
                ),
    {
        let ghost pre = *self;
        let parsed = parse_randomness(self.randomness_data.as_slice());
        let r = self.open_pack_with(program_id, clock_slot, parsed);
        assert(parse_outcome_allowed(pre.randomness_data@, parsed) && open_pack_spec(
            pre,
            *self,
            *program_id,
            clock_slot,
            parsed,
            r,
        ));
        r
    }

    /// The opening, given what was read from the randomness account.
    pub fn open_pack_with(
        &mut self,
        program_id: &Key,
        clock_slot: u64,
        parsed: Option<RandomnessData>,
    ) -> (r: Result<(), GachaError>)
        requires
            randomness_error(*old(self), clock_slot, parsed) is None ==> draws_fit(*old(self)),
        ensures
            open_pack_spec(*old(self), *final(self), *program_id, clock_slot, parsed, r),
    {
        if !self.rarity.pack.same(&self.pack_key) {
            return Err(GachaError::InvalidRarity);
        }
        if self.user_pack.status != PackStatus::Committed {
            return Err(GachaError::NotCommitted);
        }
        if !self.randomness_account.same(&self.user_pack.randomness_account) {
            return Err(GachaError::InvalidRandomness);
        }
        let data = match parsed {
            Some(d) => d,
            None => {
                return Err(GachaError::InvalidRandomness);
            },
        };
        if data.seed_slot != self.user_pack.commit_slot {
            return Err(GachaError::RandomnessExpired);
        }
        let random_bytes = match data.get_value(clock_slot) {
            Some(v) => v,
            None => {
                return Err(GachaError::RandomnessNotReady);
            },
        };
        let ghost w = self.rarity.weights@;
        let ghost before = self.user_pack;
        let ghost start = *self;
        let weights = self.rarity.weights;
        let n: usize = self.pack.pack_size as usize;
        let mut revealed = self.user_pack.revealed;
        let mut mints = self.user_pack.nft_mints;
        let mut i: usize = 0;
        while i < n
            invariant
                0 <= i <= n,
                n <= 5,
                n > 0 ==> weights_drawable(w),
                w == weights@,
                random_bytes == data.value,
                *self == start,
                start == *old(self),
                parsed == Some(data),
                randomness_error(start, clock_slot, parsed) is None,
                n == start.pack.pack_size,
                w == start.rarity.weights@,
                forall|j: int| 0 <= j < i ==> #[trigger] revealed@[j] == drawn_rarity(random_bytes@[j], w),
                forall|j: int|
                    0 <= j < i ==> (#[trigger] mints@[j])@ == card_mint(*program_id, j as nat, w, random_bytes@[j]),
                forall|j: int| i <= j < 5 ==> #[trigger] revealed@[j] == before.revealed@[j],
                forall|j: int| i <= j < 5 ==> #[trigger] mints@[j] == before.nft_mints@[j],
                forall|j: int|
                    0 <= j < i ==> (#[trigger] card_address(*program_id, j as nat, w, random_bytes@[j])) is Some,
            decreases n - i,
        {
            let byte = random_bytes[i];
            let rarity_idx: usize = match draw_rarity(byte, &weights) {
                Ok(k) => k,
                Err(e) => {
                    return Err(e);
                },
            };
            let ghost prev_revealed = revealed;
            let ghost prev_mints = mints;
            revealed[i] = rarity_idx as u8;
            let seeds = nft_seeds(i as u64, rarity_idx as u64, byte);
            proof {
                assert(0 <= drawn_rarity(byte, w) <= 3);
                assert(rarity_idx as nat == drawn_rarity(byte, w) as nat);
            }
            let mint = match find_program_address(&seeds, program_id) {
                Some(found) => found.0,
                None => {
                    proof {
                        let k: int = i as int;
                        assert(card_address(*program_id, k as nat, w, data.value@[k]) is None);
                        assert(!cards_derivable(*program_id, n as int, w, data.value@));
                    }
                    return Err(GachaError::MintAddressNotFound);
                },
            };
            mints[i] = mint;
            proof {
                assert(revealed@ == prev_revealed@.update(i as int, rarity_idx as u8));
                assert(mints@ == prev_mints@.update(i as int, mint));
                assert(0 <= drawn_rarity(byte, w) <= 3);
                assert(mint@ == card_mint(*program_id, i as nat, w, random_bytes@[i as int]));
                assert forall|j: int| 0 <= j < i + 1 implies #[trigger] revealed@[j] == drawn_rarity(random_bytes@[j], w) by {
                    if j < i {
                        assert(revealed@[j] == prev_revealed@[j]);
                    }
                }
                assert forall|j: int| 0 <= j < i + 1 implies (#[trigger] mints@[j])@ == card_mint(*program_id, j as nat, w, random_bytes@[j]) by {
                    if j < i {
                        assert(mints@[j] == prev_mints@[j]);
                    }
                }
                assert forall|j: int| i + 1 <= j < 5 implies #[trigger] revealed@[j] == before.revealed@[j] by {
                    assert(revealed@[j] == prev_revealed@[j]);
                }
                assert forall|j: int| i + 1 <= j < 5 implies #[trigger] mints@[j] == before.nft_mints@[j] by {
                    assert(mints@[j] == prev_mints@[j]);
                }
                assert(card_address(*program_id, i as nat, w, random_bytes@[i as int]) is Some);
            }
            i = i + 1;
        }
        self.user_pack.revealed = revealed;
        self.user_pack.nft_mints = mints;
        self.user_pack.status = PackStatus::Opened;
        Ok(())
    }
}

} // verus!
