//! The program's instructions, each handing its accounts to the handler that
//! decides it.
use vstd::prelude::*;
use crate::actions::{AssetTransfer, LamportTransfer};
use crate::bid::{bid_spec, Bid, BidOutcome};
use crate::cancel::{cancel_spec, Cancel};
use crate::error::AuctionError;
use crate::settle::{payout_fits, settle_error, settle_spec, Settle};
use crate::buy_pack::{buy_pack_spec, BuyPack};
use crate::commit_open::{commit_open_spec, commit_reaches_slot_check, parse_outcome_allowed, CommitOpen};
use crate::create_pack::{create_pack_spec, CreatePack};
use crate::error::GachaError;
use crate::key::Key;
use crate::list::{list_spec, List};
use crate::open_pack::{draws_fit, open_pack_spec, opening_reaches_draws, OpenPack};
use crate::randomness::{is_randomness_account, RandomnessData};

verus! {

/// Instruction `create_pack`, with the bumps found for the pack and rarity accounts.
pub fn create_pack(accounts: &mut CreatePack, pack_bump: u8, rarity_bump: u8)
    ensures
        create_pack_spec(*old(accounts), *final(accounts), pack_bump, rarity_bump),
{
    accounts.create_pack(pack_bump, rarity_bump)
}

/// Instruction `buy_pack`, with the bump found for the new pack account.
pub fn buy_pack(accounts: &mut BuyPack, user_pack_bump: u8) -> (r: Result<LamportTransfer, GachaError>)
    ensures
        buy_pack_spec(*old(accounts), *final(accounts), user_pack_bump, r),
{
    accounts.buy_pack(user_pack_bump)
}

/// Instruction `commit_open`, at the slot `clock_slot` of the clock.
pub fn commit_open(accounts: &mut CommitOpen, randomness_account: Key, clock_slot: u64) -> (r: Result<
    (),
    GachaError,
>)
    requires
        commit_reaches_slot_check(
            *old(accounts),
            randomness_account,
            is_randomness_account(old(accounts).randomness_data@),
        ) ==> clock_slot >= 1,
    ensures
        exists|parsed: Option<RandomnessData>|
            parse_outcome_allowed(old(accounts).randomness_data@, parsed) && commit_open_spec(
                *old(accounts),
                *final(accounts),
                randomness_account,
                clock_slot,
                parsed,
                r,
            ),
{
    accounts.commit_open(randomness_account, clock_slot)
}

/// Instruction `open_pack` of the program `program_id`, at the slot
/// `clock_slot` of the clock.
pub fn open_pack(accounts: &mut OpenPack, program_id: &Key, clock_slot: u64) -> (r: Result<
    (),
    GachaError,
>)
    requires
        opening_reaches_draws(*old(accounts), clock_slot) ==> draws_fit(*old(accounts)),
    ensures
        exists|parsed: Option<RandomnessData>|
            parse_outcome_allowed(old(accounts).randomness_data@, parsed) && open_pack_spec(
                *old(accounts),
                *final(accounts),
                *program_id,
                clock_slot,
                parsed,
                r,
            ),
{
    accounts.open_pack(program_id, clock_slot)
}

/// Instruction `list`, with the bump found for the new auction account, at the
/// time `unix_timestamp` of the clock.
pub fn list(accounts: &mut List, min_bid: u64, duration: i64, auction_bump: u8, unix_timestamp: i64) -> (escrow:
    AssetTransfer)
    requires
        i64::MIN <= unix_timestamp + duration <= i64::MAX,
    ensures
        list_spec(*old(accounts), *final(accounts), min_bid, duration, auction_bump, unix_timestamp, escrow),
{
    accounts.list(min_bid, duration, auction_bump, unix_timestamp)
}

/// Instruction `bid`, of `amount` lamports.
pub fn bid(accounts: &mut Bid, amount: u64) -> (r: Result<BidOutcome, AuctionError>)
    ensures
        bid_spec(*old(accounts), *final(accounts), amount, r),
{
    accounts.bid(amount)
}

/// Instruction `settle`, at the time `unix_timestamp` of the clock.
pub fn settle(accounts: &mut Settle, unix_timestamp: i64) -> (r: Result<AssetTransfer, AuctionError>)
    requires
        settle_error(*old(accounts), unix_timestamp) is None ==> payout_fits(*old(accounts)),
    ensures
        settle_spec(*old(accounts), *final(accounts), unix_timestamp, r),
{
    accounts.settle(unix_timestamp)
}

/// Instruction `cancel`.
pub fn cancel(accounts: &mut Cancel) -> (r: Result<AssetTransfer, AuctionError>)
    ensures
        cancel_spec(*old(accounts), *final(accounts), r),
{
    accounts.cancel()
}

} // verus!
