use vstd::prelude::*;
use crate::key::Key;
use anchor_lang::prelude::Pubkey;

verus! {

/// The program-derived address and bump seed that the runtime finds for
/// `seeds` under `program_id`, or none when no bump seed gives one.
pub uninterp spec fn program_address(seeds: Seq<Seq<u8>>, program_id: Seq<u8>) -> Option<(Seq<u8>, u8)>;

/// The byte strings of a list of seeds.
pub open spec fn seeds_view(seeds: Seq<Vec<u8>>) -> Seq<Seq<u8>> {
    seeds.map_values(|s: Vec<u8>| s@)
}

/// Calls `Pubkey::try_find_program_address` (anchor_lang's `Pubkey`, from
/// solana-pubkey). The contract claims that what it returns, an address and
/// bump seed or nothing, is a function of the seeds' bytes and the program
/// id's bytes alone, named `program_address`. It does not panic: seed lists
/// the runtime refuses (sixteen or more seeds, or a seed over 32 bytes) give
/// nothing, as does the improbable case of no off-curve bump seed.
#[verifier::external_body]
pub(crate) fn find_program_address(seeds: &Vec<Vec<u8>>, program_id: &Key) -> (r: Option<(Key, u8)>)
    ensures
        match r {
            Some(found) => program_address(seeds_view(seeds@), program_id@) == Some((found.0@, found.1)),
            None => program_address(seeds_view(seeds@), program_id@) is None,
        },
{
    let slices: Vec<&[u8]> = seeds.iter().map(|s| s.as_slice()).collect();
    let found = Pubkey::try_find_program_address(&slices, &Pubkey::new_from_array(program_id.bytes));
    found.map(|(address, bump)| (Key { bytes: address.to_bytes() }, bump))
}

} // verus!
