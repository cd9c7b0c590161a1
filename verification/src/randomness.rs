use vstd::prelude::*;
use std::cell::RefCell;
use switchboard_on_demand::accounts::RandomnessAccountData;

verus! {

/// What the program reads of a Switchboard randomness account.
#[derive(Clone, Copy, Debug)]
pub struct RandomnessData {
    pub seed_slot: u64,
    pub reveal_slot: u64,
    pub value: [u8; 32],
}

/// The unsigned number that bytes encode, least significant byte first.
pub open spec fn le_value(b: Seq<u8>) -> nat
    decreases b.len(),
{
    if b.len() == 0 {
        0
    } else {
        b[0] as nat + 256 * le_value(b.drop_first())
    }
}

/// The eight bytes that open every randomness account.
pub open spec fn randomness_discriminator() -> Seq<u8> {
    seq![10u8, 66u8, 229u8, 135u8, 220u8, 239u8, 217u8, 114u8]
}

/// Whether account bytes have the length and opening of a randomness account.
pub open spec fn is_randomness_account(data: Seq<u8>) -> bool {
    &&& data.len() >= 408
    &&& data.subrange(0, 8) == randomness_discriminator()
}

/// Whether `d` holds the fields that the account bytes lay out: the seed slot
/// at bytes 104..112, the reveal slot at 144..152 and the value at 152..184.
pub open spec fn decodes_to(data: Seq<u8>, d: RandomnessData) -> bool {
    &&& d.seed_slot as nat == le_value(data.subrange(104, 112))
    &&& d.reveal_slot as nat == le_value(data.subrange(144, 152))
    &&& d.value@ == data.subrange(152, 184)
}

/// Calls `RandomnessAccountData::parse` of switchboard-on-demand on a copy of
/// the account bytes and keeps the seed slot, reveal slot and value. The copy
/// is placed in a buffer of `u64` words, so it is 8-byte aligned as the
/// runtime aligns account data. The contract claims what that source shows:
/// on such a buffer parsing succeeds exactly on bytes of at least 408 bytes
/// that open with the account discriminator, and the fields are read in place
/// from their offsets (little-endian, as on every Solana target and on the
/// hosts this library is built for).
#[verifier::external_body]
pub(crate) fn parse_randomness(data: &[u8]) -> (r: Option<RandomnessData>)
    ensures
        r is Some <==> is_randomness_account(data@),
        r is Some ==> decodes_to(data@, r->0),
{
    let mut words: Vec<u64> = vec![0u64; data.len()];
    let aligned: &mut [u8] = bytemuck::cast_slice_mut(words.as_mut_slice());
    let copy: &mut [u8] = &mut aligned[..data.len()];
    copy.copy_from_slice(data);
    let cell = RefCell::new(copy);
    let parsed = match RandomnessAccountData::parse(cell.borrow()) {
        Ok(account) => Some(RandomnessData {
            seed_slot: account.seed_slot,
            reveal_slot: account.reveal_slot,
            value: account.value,
        }),
        Err(_) => None,
    };
    parsed
}

/// Powers of 256.
pub open spec fn pow256(n: nat) -> nat
    decreases n,
{
    if n == 0 {
        1
    } else {
        256 * pow256((n - 1) as nat)
    }
}

/// The number bytes encode is below 256 to the power of their count.
pub proof fn lemma_le_value_bound(b: Seq<u8>)
    ensures
        le_value(b) < pow256(b.len()),
    decreases b.len(),
{
    if b.len() > 0 {
        lemma_le_value_bound(b.drop_first());
    }
}

/// Reading bytes from position `j` on peels off the byte at `j`.
proof fn lemma_le_value_step(data: Seq<u8>, j: int, end: int)
    requires
        0 <= j < end <= data.len(),
    ensures
        le_value(data.subrange(j, end)) == data[j] as nat + 256 * le_value(data.subrange(j + 1, end)),
{
    assert(data.subrange(j, end).drop_first() =~= data.subrange(j + 1, end));
}

/// The unsigned 64-bit number stored least significant byte first at `data[start..start + 8]`.
pub fn le_u64_at(data: &[u8], start: usize) -> (r: u64)
    requires
        start + 8 <= data@.len(),
    ensures
        r as nat == le_value(data@.subrange(start as int, start + 8)),
{
    let mut acc: u64 = 0;
    let len: usize = data.len();
    let mut j: usize = start + 8;
    proof {
        assert(data@.subrange(j as int, start + 8) =~= Seq::<u8>::empty());
    }
    while j > start
        invariant
            start <= j <= start + 8,
            start + 8 <= data@.len(),
            acc as nat == le_value(data@.subrange(j as int, start + 8)),
        decreases j - start,
    {
        proof {
            lemma_le_value_step(data@, j - 1, start + 8);
            lemma_le_value_bound(data@.subrange(j - 1, start + 8));
            reveal_with_fuel(pow256, 9);
            assert(pow256(8) == 0x1_0000_0000_0000_0000);
            lemma_pow256_monotone((start + 8 - j + 1) as nat, 8);
        }
        acc = acc * 256 + data[j - 1] as u64;
        j = j - 1;
    }
    acc
}

/// Powers of 256 grow with the exponent.
proof fn lemma_pow256_monotone(a: nat, b: nat)
    requires
        a <= b,
    ensures
        pow256(a) <= pow256(b),
    decreases b - a,
{
    if a < b {
        lemma_pow256_monotone(a, (b - 1) as nat);
    }
}

/// Whether account bytes have the length and opening of a randomness account.
pub fn looks_like_randomness_account(data: &[u8]) -> (r: bool)
    ensures
        r == is_randomness_account(data@),
{
    if data.len() < 408 {
        return false;
    }
    let disc: [u8; 8] = [10u8, 66u8, 229u8, 135u8, 220u8, 239u8, 217u8, 114u8];
    let mut i: usize = 0;
    while i < 8
        invariant
            0 <= i <= 8,
            data@.len() >= 408,
            disc@ == randomness_discriminator(),
            forall|k: int| 0 <= k < i ==> data@[k] == disc@[k],
        decreases 8 - i,
    {
        if data[i] != disc[i] {
            proof {
                assert(data@.subrange(0, 8)[i as int] != randomness_discriminator()[i as int]);
            }
            return false;
        }
        i = i + 1;
    }
    proof {
        assert(data@.subrange(0, 8) =~= randomness_discriminator());
    }
    true
}

impl RandomnessData {
    /// The revealed value; it can be read only in the slot of its reveal.
    pub fn get_value(&self, clock_slot: u64) -> (r: Option<[u8; 32]>)
        ensures
            r == (if clock_slot == self.reveal_slot {
                Some(self.value)
            } else {
                None::<[u8; 32]>
            }),
    {
        if clock_slot != self.reveal_slot {
            return None;
        }
        Some(self.value)
    }
}

} // verus!
