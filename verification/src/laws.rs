//! Properties that hold across the instructions.
use vstd::prelude::*;
use crate::actions::{AssetTransfer, LamportMove, LamportTransfer};
use crate::bid::{bid_error, bid_spec, Bid, BidOutcome};
use crate::buy_pack::{buy_pack_spec, BuyPack};
use crate::cancel::{cancel_error, cancel_spec, Cancel};
use crate::commit_open::{commit_open_spec, CommitOpen};
use crate::create_pack::{create_pack_spec, CreatePack};
use crate::error::{AuctionError, GachaError};
use crate::key::{is_zero_key, Key};
use crate::list::{list_spec, List};
use crate::open_pack::{is_opened_from, open_pack_spec, OpenPack};
use crate::randomness::RandomnessData;
use crate::rarity::{drawn_rarity, lemma_prefix_monotone, weight_prefix, weight_total, weights_drawable};
use crate::settle::{settle_error, settle_spec, Settle};
use crate::state::{status_rank, Auction, PackSaleStatus, PackStatus, UserPack};

verus! {

/// No more packs are sold than the supply.
pub open spec fn supply_respected(sold: u32, total: u32) -> bool {
    sold <= total
}

/// A new pack starts within its supply.
pub proof fn law_created_pack_within_supply(
    pre: CreatePack,
    post: CreatePack,
    pack_bump: u8,
    rarity_bump: u8,
)
    requires
        create_pack_spec(pre, post, pack_bump, rarity_bump),
    ensures
        supply_respected(post.pack.sold_count, post.pack.total_supply),
{
}

/// A purchase keeps the number sold within the supply; it counts exactly one
/// more pack when it succeeds and none when it is refused, and a live sale is
/// refused as sold out exactly when the whole supply is sold.
pub proof fn law_purchase_keeps_supply(
    pre: BuyPack,
    post: BuyPack,
    bump: u8,
    r: Result<LamportTransfer, GachaError>,
)
    requires
        supply_respected(pre.pack.sold_count, pre.pack.total_supply),
        buy_pack_spec(pre, post, bump, r),
    ensures
        supply_respected(post.pack.sold_count, post.pack.total_supply),
        post.pack.total_supply == pre.pack.total_supply,
        r is Ok ==> post.pack.sold_count == pre.pack.sold_count + 1,
        r is Err ==> post.pack.sold_count == pre.pack.sold_count,
        pre.pack.sale_status == PackSaleStatus::Live ==> (r == Err::<LamportTransfer, GachaError>(
            GachaError::SoldOut,
        ) <==> pre.pack.sold_count == pre.pack.total_supply),
{
}

/// A commitment moves a pack one step, from unopened to committed, or leaves
/// it as it was.
pub proof fn law_commit_advances_one_step(
    pre: CommitOpen,
    post: CommitOpen,
    arg: Key,
    clock_slot: u64,
    parsed: Option<RandomnessData>,
    r: Result<(), GachaError>,
)
    requires
        commit_open_spec(pre, post, arg, clock_slot, parsed, r),
    ensures
        r is Ok ==> pre.user_pack.status == PackStatus::Unopened && post.user_pack.status
            == PackStatus::Committed,
        r is Err ==> post.user_pack == pre.user_pack,
        status_rank(post.user_pack.status) >= status_rank(pre.user_pack.status),
        post.user_pack.owner == pre.user_pack.owner,
        post.user_pack.pack == pre.user_pack.pack,
{
}

/// An opening moves a pack one step, from committed to opened, or leaves it
/// as it was.
pub proof fn law_open_advances_one_step(
    pre: OpenPack,
    post: OpenPack,
    program_id: Key,
    clock_slot: u64,
    parsed: Option<RandomnessData>,
    r: Result<(), GachaError>,
)
    requires
        open_pack_spec(pre, post, program_id, clock_slot, parsed, r),
    ensures
        r is Ok ==> pre.user_pack.status == PackStatus::Committed && post.user_pack.status
            == PackStatus::Opened,
        r is Err ==> post.user_pack == pre.user_pack,
        status_rank(post.user_pack.status) >= status_rank(pre.user_pack.status),
        post.user_pack.owner == pre.user_pack.owner,
        post.user_pack.pack == pre.user_pack.pack,
{
}

/// A pack opens only with the randomness it was committed to: the account
/// named at the commitment, seeded in the slot before the commitment, and
/// revealed in the slot of the opening, which was not the slot of the
/// commitment.
pub proof fn law_open_uses_committed_randomness(
    commit_pre: CommitOpen,
    commit_post: CommitOpen,
    arg: Key,
    commit_slot: u64,
    commit_parsed: Option<RandomnessData>,
    open_pre: OpenPack,
    open_post: OpenPack,
    program_id: Key,
    open_slot: u64,
    open_parsed: Option<RandomnessData>,
)
    requires
        commit_open_spec(commit_pre, commit_post, arg, commit_slot, commit_parsed, Ok(())),
        open_pre.user_pack == commit_post.user_pack,
        open_pack_spec(open_pre, open_post, program_id, open_slot, open_parsed, Ok(())),
    ensures
        open_pre.randomness_account == arg,
        open_parsed->0.seed_slot == commit_parsed->0.seed_slot,
        open_parsed->0.seed_slot == commit_slot - 1,
        open_slot == open_parsed->0.reveal_slot,
        commit_slot != commit_parsed->0.reveal_slot,
{
}

/// An opened pack is final: neither a new commitment nor a new opening is
/// accepted, and neither changes it.
pub proof fn law_opened_pack_is_final(
    commit_pre: CommitOpen,
    commit_post: CommitOpen,
    arg: Key,
    commit_slot: u64,
    commit_parsed: Option<RandomnessData>,
    commit_r: Result<(), GachaError>,
    open_pre: OpenPack,
    open_post: OpenPack,
    program_id: Key,
    open_slot: u64,
    open_parsed: Option<RandomnessData>,
    open_r: Result<(), GachaError>,
)
    requires
        commit_pre.user_pack.status == PackStatus::Opened,
        commit_open_spec(commit_pre, commit_post, arg, commit_slot, commit_parsed, commit_r),
        open_pre.user_pack.status == PackStatus::Opened,
        open_pack_spec(open_pre, open_post, program_id, open_slot, open_parsed, open_r),
    ensures
        commit_r == Err::<(), GachaError>(GachaError::AlreadyCommitted),
        commit_post.user_pack == commit_pre.user_pack,
        open_r is Err,
        open_post.user_pack == open_pre.user_pack,
{
}

/// The rarity a byte draws lies in 0..4, has a positive weight, and is the
/// one whose band of cumulative weights holds the byte's residue modulo the
/// total weight.
pub proof fn law_draw_follows_weights(byte: u8, w: Seq<u16>)
    requires
        weights_drawable(w),
    ensures
        0 <= drawn_rarity(byte, w) < 4,
        w[drawn_rarity(byte, w)] > 0,
        weight_prefix(w, drawn_rarity(byte, w)) <= byte as int % weight_total(w) < weight_prefix(
            w,
            drawn_rarity(byte, w) + 1,
        ),
{
    let d = drawn_rarity(byte, w);
    let roll = byte as int % weight_total(w);
    lemma_prefix_monotone(w, 1, 4);
    lemma_prefix_monotone(w, 2, 4);
    lemma_prefix_monotone(w, 3, 4);
    lemma_prefix_monotone(w, 1, 2);
    lemma_prefix_monotone(w, 2, 3);
    assert(weight_prefix(w, d + 1) == weight_prefix(w, d) + w[d]);
}

/// Every card of an opened pack holds a rarity in 0..4 that has a positive weight.
pub proof fn law_opened_cards_have_drawable_rarities(
    pre: UserPack,
    post: UserPack,
    pack_size: int,
    w: Seq<u16>,
    value: Seq<u8>,
    program_id: Key,
    i: int,
)
    requires
        is_opened_from(pre, post, pack_size, w, value, program_id),
        pack_size > 0 ==> weights_drawable(w),
        0 <= i < pack_size,
        pack_size <= 5,
    ensures
        0 <= post.revealed@[i] < 4,
        w[post.revealed@[i] as int] > 0,
{
    law_draw_follows_weights(value[i], w);
    assert(post.revealed@[i] == drawn_rarity(value[i], w));
}

/// The bids of an auction are consistent: no bidder is recorded while there
/// is no bid, and a standing bid meets the minimum.
pub open spec fn bids_well_formed(a: Auction) -> bool {
    &&& a.highest_bid == 0 ==> is_zero_key(a.highest_bidder)
    &&& a.highest_bid > 0 ==> a.highest_bid >= a.minimum_bid
}

/// A listing starts an auction that is running, has no bid, and is well formed.
pub proof fn law_listing_starts_clean(
    pre: List,
    post: List,
    min_bid: u64,
    duration: i64,
    bump: u8,
    unix_timestamp: i64,
    escrow: AssetTransfer,
)
    requires
        list_spec(pre, post, min_bid, duration, bump, unix_timestamp, escrow),
    ensures
        bids_well_formed(post.auction),
        post.auction.active == 1,
        post.auction.highest_bid == 0,
        escrow.new_owner == pre.auction_key,
{
}

/// An accepted bid raises the highest bid, to at least the minimum, records
/// the bidder, keeps the auction well formed, and changes nothing else about it.
pub proof fn law_bid_raises_highest(
    pre: Bid,
    post: Bid,
    amount: u64,
    r: Result<BidOutcome, AuctionError>,
)
    requires
        bids_well_formed(pre.auction),
        bid_spec(pre, post, amount, r),
    ensures
        bids_well_formed(post.auction),
        r is Ok ==> {
            &&& post.auction.highest_bid > pre.auction.highest_bid
            &&& post.auction.highest_bid >= post.auction.minimum_bid
            &&& post.auction.highest_bidder == pre.bidder
            &&& post.auction.seller == pre.auction.seller
            &&& post.auction.nft == pre.auction.nft
            &&& post.auction.minimum_bid == pre.auction.minimum_bid
            &&& post.auction.end_time == pre.auction.end_time
            &&& post.auction.active == pre.auction.active
        },
        r is Err ==> post.auction == pre.auction,
{
}

/// Lamports that a move from `from` to `to` of `amount` brings into account
/// `k`, less those it takes out of it.
pub open spec fn flow_into(k: Key, from: Key, to: Key, amount: int) -> int {
    (if to == k {
        amount
    } else {
        0
    }) - (if from == k {
        amount
    } else {
        0
    })
}

/// Lamports that the deposit and refund of a bid bring into account `k`,
/// less those they take out of it.
pub open spec fn bid_flow_into(k: Key, outcome: BidOutcome) -> int {
    flow_into(k, outcome.deposit.from, outcome.deposit.to, outcome.deposit.amount as int) + match outcome.refund {
        Some(m) => flow_into(k, m.from, m.to, m.amount as int),
        None => 0,
    }
}

/// The auction account escrows the standing bid: its balance covers its
/// rent and the highest bid, and the recorded highest bidder is not the
/// auction account itself.
pub open spec fn escrow_covers(balance: int, rent: int, a: Auction, auction_key: Key) -> bool {
    &&& balance >= rent + a.highest_bid
    &&& a.highest_bid > 0 ==> a.highest_bidder != auction_key
}

/// A listing whose account holds at least its rent escrows its standing bid.
pub proof fn law_listing_escrow_covers(
    pre: List,
    post: List,
    min_bid: u64,
    duration: i64,
    bump: u8,
    unix_timestamp: i64,
    escrow: AssetTransfer,
    balance: int,
    rent: int,
)
    requires
        list_spec(pre, post, min_bid, duration, bump, unix_timestamp, escrow),
        balance >= rent,
    ensures
        escrow_covers(balance, rent, post.auction, post.auction_key),
{
}

/// The auction account keeps escrowing the highest bid across bids: after an
/// accepted bid's deposit and refund its balance has grown by exactly the new
/// highest bid less the old one, so it still covers its rent and the highest
/// bid; the bidder pays exactly the bid and the outbid bidder gets the old
/// bid back.
pub proof fn law_escrow_holds_highest_bid(
    pre: Bid,
    post: Bid,
    amount: u64,
    outcome: BidOutcome,
    balance: int,
    rent: int,
)
    requires
        bid_spec(pre, post, amount, Ok(outcome)),
        pre.bidder != pre.auction_key,
        escrow_covers(balance, rent, pre.auction, pre.auction_key),
    ensures
        balance + bid_flow_into(pre.auction_key, outcome) == balance - pre.auction.highest_bid
            + post.auction.highest_bid,
        escrow_covers(
            balance + bid_flow_into(pre.auction_key, outcome),
            rent,
            post.auction,
            post.auction_key,
        ),
        flow_into(pre.bidder, outcome.deposit.from, outcome.deposit.to, outcome.deposit.amount as int)
            == -amount,
        pre.auction.highest_bid > 0 ==> outcome.refund == Some(
            LamportMove {
                from: pre.auction_key,
                to: pre.auction.highest_bidder,
                amount: pre.auction.highest_bid,
            },
        ),
{
}

/// Lamports that the outcome of one bid call brings into account `k`, less
/// those it takes out of it: nothing moves when the bid is refused.
pub open spec fn bid_result_flow_into(k: Key, r: Result<BidOutcome, AuctionError>) -> int {
    match r {
        Ok(outcome) => bid_flow_into(k, outcome),
        Err(_) => 0,
    }
}

/// Lamports that a run of bid calls brings into account `k`, less those it
/// takes out of it.
pub open spec fn bids_flow_into(k: Key, results: Seq<Result<BidOutcome, AuctionError>>) -> int
    decreases results.len(),
{
    if results.len() == 0 {
        0
    } else {
        bids_flow_into(k, results.drop_last()) + bid_result_flow_into(k, results.last())
    }
}

/// A run of bid calls on one auction, each accepted or refused: each call is
/// made on the auction that the call before it left, by a bidder other than
/// the auction account.
pub open spec fn is_bid_run(
    steps: Seq<Bid>,
    posts: Seq<Bid>,
    amounts: Seq<u64>,
    results: Seq<Result<BidOutcome, AuctionError>>,
) -> bool {
    &&& steps.len() == posts.len()
    &&& steps.len() == amounts.len()
    &&& steps.len() == results.len()
    &&& forall|i: int|
        0 <= i < steps.len() ==> bid_spec(#[trigger] steps[i], posts[i], amounts[i], results[i])
    &&& forall|i: int| 0 <= i < steps.len() ==> (#[trigger] steps[i]).bidder != steps[i].auction_key
    &&& forall|i: int|
        0 < i < steps.len() ==> (#[trigger] steps[i]).auction == posts[i - 1].auction
            && steps[i].auction_key == posts[i - 1].auction_key
}

/// Over any run of bid calls, the auction account keeps escrowing the
/// highest bid: if its balance covered its rent and the standing bid before
/// the run, then after the deposits and refunds of the accepted calls its
/// balance has grown by exactly the final highest bid less the first one,
/// and still covers its rent and the highest bid.
pub proof fn law_escrow_over_bid_runs(
    steps: Seq<Bid>,
    posts: Seq<Bid>,
    amounts: Seq<u64>,
    results: Seq<Result<BidOutcome, AuctionError>>,
    balance: int,
    rent: int,
)
    requires
        steps.len() > 0,
        is_bid_run(steps, posts, amounts, results),
        escrow_covers(balance, rent, steps[0].auction, steps[0].auction_key),
    ensures
        balance + bids_flow_into(steps[0].auction_key, results) == balance
            - steps[0].auction.highest_bid + posts.last().auction.highest_bid,
        escrow_covers(
            balance + bids_flow_into(steps[0].auction_key, results),
            rent,
            posts.last().auction,
            posts.last().auction_key,
        ),
    decreases steps.len(),
{
    let n = steps.len();
    let k = steps[0].auction_key;
    assert(bid_spec(steps[n - 1], posts[n - 1], amounts[n - 1], results[n - 1]));
    assert(steps[n - 1].bidder != steps[n - 1].auction_key);
    let before = if n == 1 {
        balance
    } else {
        balance + bids_flow_into(k, results.drop_last())
    };
    if n == 1 {
        assert(results.drop_last() =~= Seq::<Result<BidOutcome, AuctionError>>::empty());
        assert(bids_flow_into(k, results.drop_last()) == 0);
    } else {
        let (s2, p2, a2, r2) = (
            steps.drop_last(),
            posts.drop_last(),
            amounts.drop_last(),
            results.drop_last(),
        );
        lemma_run_prefix(steps, posts, amounts, results, n - 1);
        assert(s2 =~= steps.take(n - 1));
        assert(p2 =~= posts.take(n - 1));
        assert(a2 =~= amounts.take(n - 1));
        assert(r2 =~= results.take(n - 1));
        law_escrow_over_bid_runs(s2, p2, a2, r2, balance, rent);
        assert(steps[n - 1].auction == posts[n - 2].auction);
        assert(steps[n - 1].auction_key == posts[n - 2].auction_key);
        lemma_run_keeps_key(steps, posts, amounts, results, n - 2);
        assert(p2.last() == posts[n - 2]);
    }
    lemma_run_keeps_key(steps, posts, amounts, results, n - 1);
    assert(bids_flow_into(k, results) == bids_flow_into(k, results.drop_last())
        + bid_result_flow_into(k, results[n - 1]));
    match results[n - 1] {
        Ok(outcome) => {
            law_escrow_holds_highest_bid(
                steps[n - 1],
                posts[n - 1],
                amounts[n - 1],
                outcome,
                before,
                rent,
            );
        },
        Err(_) => {},
    }
}

/// Every call of a run is on the auction account of the first.
proof fn lemma_run_keeps_key(
    steps: Seq<Bid>,
    posts: Seq<Bid>,
    amounts: Seq<u64>,
    results: Seq<Result<BidOutcome, AuctionError>>,
    i: int,
)
    requires
        is_bid_run(steps, posts, amounts, results),
        0 <= i < steps.len(),
    ensures
        steps[i].auction_key == steps[0].auction_key,
        posts[i].auction_key == steps[0].auction_key,
    decreases i,
{
    assert(bid_spec(steps[i], posts[i], amounts[i], results[i]));
    if i > 0 {
        lemma_run_keeps_key(steps, posts, amounts, results, i - 1);
        assert(steps[i].auction_key == posts[i - 1].auction_key);
    }
}

/// The first `j` calls of a run are a run.
proof fn lemma_run_prefix(
    steps: Seq<Bid>,
    posts: Seq<Bid>,
    amounts: Seq<u64>,
    results: Seq<Result<BidOutcome, AuctionError>>,
    j: int,
)
    requires
        is_bid_run(steps, posts, amounts, results),
        0 <= j <= steps.len(),
    ensures
        is_bid_run(steps.take(j), posts.take(j), amounts.take(j), results.take(j)),
{
    let (s2, p2, a2, r2) = (steps.take(j), posts.take(j), amounts.take(j), results.take(j));
    assert forall|i: int| 0 <= i < s2.len() implies bid_spec(
        #[trigger] s2[i],
        p2[i],
        a2[i],
        r2[i],
    ) by {
        assert(bid_spec(steps[i], posts[i], amounts[i], results[i]));
    }
    assert forall|i: int| 0 <= i < s2.len() implies (#[trigger] s2[i]).bidder
        != s2[i].auction_key by {
        assert(steps[i].bidder != steps[i].auction_key);
    }
    assert forall|i: int| 0 < i < s2.len() implies (#[trigger] s2[i]).auction == p2[i
        - 1].auction && s2[i].auction_key == p2[i - 1].auction_key by {
        assert(steps[i].auction == posts[i - 1].auction);
    }
}

/// From its listing on, whatever bid calls follow, the auction account
/// escrows the highest bid after each of them: if it held at least its rent
/// when listed, then after the first `j` calls its balance covers its rent
/// and the highest bid that those calls left.
pub proof fn law_listing_escrows_every_bid(
    listing_pre: List,
    listing: List,
    min_bid: u64,
    duration: i64,
    bump: u8,
    unix_timestamp: i64,
    escrow: AssetTransfer,
    steps: Seq<Bid>,
    posts: Seq<Bid>,
    amounts: Seq<u64>,
    results: Seq<Result<BidOutcome, AuctionError>>,
    balance: int,
    rent: int,
    j: int,
)
    requires
        list_spec(listing_pre, listing, min_bid, duration, bump, unix_timestamp, escrow),
        balance >= rent,
        is_bid_run(steps, posts, amounts, results),
        steps.len() > 0,
        steps[0].auction == listing.auction,
        steps[0].auction_key == listing.auction_key,
        0 < j <= steps.len(),
    ensures
        escrow_covers(
            balance + bids_flow_into(listing.auction_key, results.take(j)),
            rent,
            posts[j - 1].auction,
            posts[j - 1].auction_key,
        ),
{
    law_listing_escrow_covers(
        listing_pre,
        listing,
        min_bid,
        duration,
        bump,
        unix_timestamp,
        escrow,
        balance,
        rent,
    );
    lemma_run_prefix(steps, posts, amounts, results, j);
    let (s2, p2, a2, r2) = (steps.take(j), posts.take(j), amounts.take(j), results.take(j));
    assert(s2[0] == steps[0]);
    law_escrow_over_bid_runs(s2, p2, a2, r2, balance, rent);
    assert(p2.last() == posts[j - 1]);
}

/// Settlement pays the seller exactly the highest bid out of the auction
/// account, which keeps its rent when it escrowed the bid, and delivers the
/// asset to the highest bidder; it is refused before the end time and when no
/// bid was made.
pub proof fn law_settlement_pays_seller(
    pre: Settle,
    post: Settle,
    unix_timestamp: i64,
    r: Result<AssetTransfer, AuctionError>,
    rent: int,
)
    requires
        settle_spec(pre, post, unix_timestamp, r),
    ensures
        r is Ok && escrow_covers(pre.auction_lamports as int, rent, pre.auction, pre.auction_key)
            ==> post.auction_lamports >= rent,
        r is Ok ==> {
            &&& post.seller_lamports == pre.seller_lamports + pre.auction.highest_bid
            &&& post.auction_lamports == pre.auction_lamports - pre.auction.highest_bid
            &&& r->Ok_0.new_owner == pre.auction.highest_bidder
            &&& r->Ok_0.authority == pre.auction_key
        },
        unix_timestamp < pre.auction.end_time ==> r is Err,
        pre.auction.highest_bid == 0 ==> r is Err,
        r is Err ==> post == pre,
{
}

/// Once a bid has been accepted, the seller can no longer cancel the auction.
pub proof fn law_no_cancel_after_bid(
    pre: Bid,
    post: Bid,
    amount: u64,
    outcome: BidOutcome,
    c: Cancel,
)
    requires
        bid_spec(pre, post, amount, Ok(outcome)),
        c.auction == post.auction,
        c.seller == c.auction.seller,
    ensures
        cancel_error(c) == Some(AuctionError::BidTooLow),
{
}

/// A cancelled auction is over: no bid, settlement or second cancellation is
/// accepted on it; its bids stay well formed.
pub proof fn law_cancelled_auction_is_over(
    pre: Cancel,
    post: Cancel,
    give_back: AssetTransfer,
    b: Bid,
    amount: u64,
    s: Settle,
    unix_timestamp: i64,
    c: Cancel,
)
    requires
        cancel_spec(pre, post, Ok(give_back)),
        b.auction == post.auction,
        s.auction == post.auction,
        c.auction == post.auction,
    ensures
        bids_well_formed(pre.auction) ==> bids_well_formed(post.auction),
        pre.auction.highest_bid == 0,
        give_back.new_owner == pre.seller,
        bid_error(b, amount) == Some(AuctionError::AuctionNotActive),
        settle_error(s, unix_timestamp) == Some(AuctionError::Ended),
        cancel_error(c) is Some,
{
}

/// On a fresh listing, a bid is accepted exactly when it is positive and at
/// least the minimum bid.
pub proof fn law_first_bid_floor(
    pre: List,
    post: List,
    min_bid: u64,
    duration: i64,
    bump: u8,
    unix_timestamp: i64,
    escrow: AssetTransfer,
    b: Bid,
    amount: u64,
)
    requires
        list_spec(pre, post, min_bid, duration, bump, unix_timestamp, escrow),
        b.auction == post.auction,
    ensures
        bid_error(b, amount) is None <==> (amount >= min_bid && amount > 0),
{
}

} // verus!
