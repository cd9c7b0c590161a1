use vstd::prelude::*;
use crate::error::GachaError;
use crate::key::Key;
use crate::randomness::{
    decodes_to, is_randomness_account, looks_like_randomness_account, parse_randomness, RandomnessData,
};
use crate::state::{PackConfig, PackStatus, UserPack};

verus! {

/// The accounts of a commitment to open a pack, as the handler reads them.
#[derive(Debug)]
pub struct CommitOpen {
    pub buyer: Key,
    pub pack: PackConfig,
    /// The address of the pack account.
    pub pack_key: Key,
    /// The bought pack to be opened.
    pub user_pack: UserPack,
    /// The address of the randomness account handed in.
    pub randomness_account: Key,
    /// The bytes of that randomness account.
    pub randomness_data: Vec<u8>,
}

/// What a parse of account bytes returns: the fields that the bytes hold
/// when they are those of a randomness account, and nothing otherwise. The
/// fields, and so the parse, are fixed by the bytes.
pub open spec fn parse_outcome_allowed(data: Seq<u8>, parsed: Option<RandomnessData>) -> bool {
    &&& parsed is Some <==> is_randomness_account(data)
    &&& parsed is Some ==> decodes_to(data, parsed->0)
}

/// The parse of account bytes is fixed by them: two outcomes that the bytes
/// allow are the same.
pub proof fn lemma_parse_outcome_unique(data: Seq<u8>, p: Option<RandomnessData>, q: Option<RandomnessData>)
    requires
        parse_outcome_allowed(data, p),
        parse_outcome_allowed(data, q),
    ensures
        p == q,
{
    broadcast use vstd::array::group_array_axioms;

    if p is Some {
        assert(p->0.value =~= q->0.value);
    }
}

/// The bought pack after a commitment, or why the commitment is refused.
/// `account` is the randomness account handed in, `arg` the one named in the
/// instruction, `parsed` what was read from the account's bytes.
pub open spec fn commit_open_result(
    pack: UserPack,
    account: Key,
    arg: Key,
    clock_slot: u64,
    parsed: Option<RandomnessData>,
) -> Result<UserPack, GachaError> {
    if pack.status != PackStatus::Unopened {
        Err(GachaError::AlreadyCommitted)
    } else if account != arg {
        Err(GachaError::InvalidRandomness)
    } else {
        match parsed {
            None => Err(GachaError::InvalidRandomness),
            Some(d) => if d.seed_slot != clock_slot - 1 {
                Err(GachaError::RandomnessExpired)
            } else if clock_slot == d.reveal_slot {
                Err(GachaError::RandomnessRevealed)
            } else {
                Ok(
                    UserPack {
                        randomness_account: account,
                        commit_slot: d.seed_slot,
                        status: PackStatus::Committed,
                        ..pack
                    },
                )
            },
        }
    }
}

/// What a commitment does: refused with the accounts unchanged, or the pack
/// records the randomness account and its seed slot and becomes committed.
pub open spec fn commit_open_spec(
    pre: CommitOpen,
    post: CommitOpen,
    arg: Key,
    clock_slot: u64,
    parsed: Option<RandomnessData>,
    r: Result<(), GachaError>,
) -> bool {
    match commit_open_result(pre.user_pack, pre.randomness_account, arg, clock_slot, parsed) {
        Ok(u) => r is Ok && post == (CommitOpen { user_pack: u, ..pre }),
        Err(e) => r == Err::<(), GachaError>(e) && post == pre,
    }
}

/// Whether a commitment gets as far as comparing the seed slot with the
/// previous slot, given whether the randomness account was read.
pub open spec fn commit_reaches_slot_check(pre: CommitOpen, arg: Key, read: bool) -> bool {
    &&& pre.user_pack.status == PackStatus::Unopened
    &&& pre.randomness_account == arg
    &&& read
}

impl CommitOpen {
    /// Whether the commitment would get to subtracting one from the slot
    /// while the slot is zero, which the handler cannot do.
    pub fn slot_underflows(&self, randomness_account: Key, clock_slot: u64) -> (r: bool)
        ensures
            r == (commit_reaches_slot_check(
                *self,
                randomness_account,
                is_randomness_account(self.randomness_data@),
            ) && clock_slot == 0),
    {
        clock_slot == 0 && self.user_pack.status == PackStatus::Unopened
            && self.randomness_account.same(&randomness_account) && looks_like_randomness_account(
            self.randomness_data.as_slice(),
        )
    }

    /// Commits the pack to the randomness account `randomness_account`, whose
    /// value must be seeded in the slot before `clock_slot` and not revealed yet.
    pub fn commit_open(&mut self, randomness_account: Key, clock_slot: u64) -> (r: Result<(), GachaError>)
        requires
            commit_reaches_slot_check(
                *old(self),
                randomness_account,
                is_randomness_account(old(self).randomness_data@),
            ) ==> clock_slot >= 1,
        ensures
            exists|parsed: Option<RandomnessData>|
                parse_outcome_allowed(old(self).randomness_data@, parsed) && commit_open_spec(
                    *old(self),
                    *final(self),
                    randomness_account,
                    clock_slot,
                    parsed,
                    r,
                ),
    {
        let ghost pre = *self;
        let parsed = parse_randomness(self.randomness_data.as_slice());
        let r = self.commit_open_with(randomness_account, clock_slot, parsed);
        assert(parse_outcome_allowed(pre.randomness_data@, parsed) && commit_open_spec(
            pre,
            *self,
            randomness_account,
            clock_slot,
            parsed,
            r,
        ));
        r
    }

    /// The commitment, given what was read from the randomness account.
    pub fn commit_open_with(
        &mut self,
        randomness_account: Key,
        clock_slot: u64,
        parsed: Option<RandomnessData>,
    ) -> (r: Result<(), GachaError>)
        requires
            commit_reaches_slot_check(*old(self), randomness_account, parsed is Some) ==> clock_slot
                >= 1,
        ensures
            commit_open_spec(*old(self), *final(self), randomness_account, clock_slot, parsed, r),
    {
        if self.user_pack.status != PackStatus::Unopened {
            return Err(GachaError::AlreadyCommitted);
        }
        if !self.randomness_account.same(&randomness_account) {
            return Err(GachaError::InvalidRandomness);
        }
        let data = match parsed {
            Some(d) => d,
            None => {
                return Err(GachaError::InvalidRandomness);
            },
        };
        if data.seed_slot != clock_slot - 1 {
            return Err(GachaError::RandomnessExpired);
        }
        if data.get_value(clock_slot).is_some() {
            return Err(GachaError::RandomnessRevealed);
        }
        self.user_pack.randomness_account = self.randomness_account;
        self.user_pack.commit_slot = data.seed_slot;
        self.user_pack.status = PackStatus::Committed;
        Ok(())
    }
}

} // verus!
