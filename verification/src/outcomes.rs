//! What each instruction does, stated from its inputs alone: when it is
//! accepted, which error refuses it otherwise, and what it writes and asks
//! the runtime to do.
use vstd::prelude::*;
use crate::actions::{AssetTransfer, AuctionSigner, LamportMove, LamportTransfer};
use crate::bid::{bid_spec, Bid, BidOutcome};
use crate::buy_pack::{buy_pack_spec, BuyPack};
use crate::cancel::{cancel_spec, Cancel};
use crate::commit_open::{commit_open_spec, CommitOpen};
use crate::create_pack::{create_pack_spec, CreatePack};
use crate::error::{AuctionError, GachaError};
use crate::key::{is_zero_key, Key};
use crate::list::{list_spec, List};
use crate::open_pack::{le_bytes, open_pack_spec, OpenPack};
use crate::pda::program_address;
use crate::randomness::RandomnessData;
use crate::rarity::{weight_prefix, weights_drawable};
use crate::settle::{settle_spec, Settle};
use crate::state::{Auction, PackConfig, PackSaleStatus, PackStatus};

verus! {

/// A settlement is accepted exactly when the auction is running, its end
/// time has come, a bid stands, and the seller and the highest bidder are
/// the accounts handed in; there is no later deadline. An accepted
/// settlement moves the highest bid from the auction account to the seller
/// and has the auction account, signing with the seeds of the asset, hand
/// the asset to the highest bidder. A refused one changes nothing, and its
/// error is that of the first check that fails.
pub proof fn law_settle_outcome(
    pre: Settle,
    post: Settle,
    unix_timestamp: i64,
    r: Result<AssetTransfer, AuctionError>,
)
    requires
        settle_spec(pre, post, unix_timestamp, r),
    ensures
        r is Ok <==> {
            &&& pre.auction.active == 1
            &&& unix_timestamp >= pre.auction.end_time
            &&& pre.auction.highest_bid > 0
            &&& pre.seller == pre.auction.seller
            &&& pre.winner == pre.auction.highest_bidder
        },
        pre.auction.active != 1 || unix_timestamp < pre.auction.end_time ==> r == Err::<
            AssetTransfer,
            AuctionError,
        >(AuctionError::Ended),
        pre.auction.active == 1 && unix_timestamp >= pre.auction.end_time && pre.auction.highest_bid
            == 0 ==> r == Err::<AssetTransfer, AuctionError>(AuctionError::BidTooLow),
        pre.auction.active == 1 && unix_timestamp >= pre.auction.end_time && pre.auction.highest_bid
            > 0 && (pre.seller != pre.auction.seller || pre.winner != pre.auction.highest_bidder)
            ==> r == Err::<AssetTransfer, AuctionError>(AuctionError::Unauthorized),
        r is Err ==> post == pre,
        r is Ok ==> {
            &&& r->Ok_0 == AssetTransfer {
                asset: pre.asset,
                authority: pre.auction_key,
                new_owner: pre.auction.highest_bidder,
                payer: pre.seller,
                signer: Some(AuctionSigner { asset: pre.asset, bump: pre.auction.bump }),
            }
            &&& post.seller_lamports == pre.seller_lamports + pre.auction.highest_bid
            &&& post.auction_lamports == pre.auction_lamports - pre.auction.highest_bid
            &&& post.auction == pre.auction
            &&& post.seller == pre.seller
            &&& post.winner == pre.winner
            &&& post.asset == pre.asset
            &&& post.auction_key == pre.auction_key
        },
{
}

/// A settlement that is accepted at one time is accepted at every later
/// time, with the same payout and delivery.
pub proof fn law_settlement_stays_open(
    pre: Settle,
    post1: Settle,
    t1: i64,
    r1: Result<AssetTransfer, AuctionError>,
    post2: Settle,
    t2: i64,
    r2: Result<AssetTransfer, AuctionError>,
)
    requires
        settle_spec(pre, post1, t1, r1),
        settle_spec(pre, post2, t2, r2),
        r1 is Ok,
        t1 <= t2,
    ensures
        r2 == r1,
        post2 == post1,
{
    law_settle_outcome(pre, post1, t1, r1);
    law_settle_outcome(pre, post2, t2, r2);
}

/// A cancellation is accepted exactly when the seller handed in is the
/// auction's seller, the auction is running and no bid stands. An accepted
/// cancellation stops the auction and has the auction account, signing with
/// its own seeds `["auction", asset, [bump]]`, hand the asset back to the
/// seller. A refused one changes nothing, and its error is that of the first
/// check that fails.
pub proof fn law_cancel_outcome(pre: Cancel, post: Cancel, r: Result<AssetTransfer, AuctionError>)
    requires
        cancel_spec(pre, post, r),
    ensures
        r is Ok <==> {
            &&& pre.seller == pre.auction.seller
            &&& pre.auction.active == 1
            &&& pre.auction.highest_bid == 0
        },
        pre.seller != pre.auction.seller ==> r == Err::<AssetTransfer, AuctionError>(
            AuctionError::Unauthorized,
        ),
        pre.seller == pre.auction.seller && pre.auction.active != 1 ==> r == Err::<
            AssetTransfer,
            AuctionError,
        >(AuctionError::Ended),
        pre.seller == pre.auction.seller && pre.auction.active == 1 && pre.auction.highest_bid != 0
            ==> r == Err::<AssetTransfer, AuctionError>(AuctionError::BidTooLow),
        r is Err ==> post == pre,
        r is Ok ==> {
            &&& r->Ok_0 == AssetTransfer {
                asset: pre.asset,
                authority: pre.auction_key,
                new_owner: pre.seller,
                payer: pre.seller,
                signer: Some(AuctionSigner { asset: pre.asset, bump: pre.auction.bump }),
            }
            &&& post.auction == Auction { active: 0, ..pre.auction }
            &&& post.seller == pre.seller
            &&& post.asset == pre.asset
            &&& post.auction_key == pre.auction_key
        },
{
}

/// A listing starts, for the seller and the asset, a running auction with no
/// bid, the minimum bid asked for, the bump found for its account, and an end
/// time exactly `duration` seconds after the listing; the seller hands the
/// asset to the auction account.
pub proof fn law_list_outcome(
    pre: List,
    post: List,
    min_bid: u64,
    duration: i64,
    bump: u8,
    unix_timestamp: i64,
    escrow: AssetTransfer,
)
    requires
        list_spec(pre, post, min_bid, duration, bump, unix_timestamp, escrow),
    ensures
        post.auction.end_time == unix_timestamp + duration,
        post.auction.seller == pre.seller,
        post.auction.nft == pre.asset,
        is_zero_key(post.auction.highest_bidder),
        post.auction.highest_bid == 0,
        post.auction.minimum_bid == min_bid,
        post.auction.bump == bump,
        post.auction.active == 1,
        escrow == (AssetTransfer {
            asset: pre.asset,
            authority: pre.seller,
            new_owner: pre.auction_key,
            payer: pre.seller,
            signer: None,
        }),
        post.seller == pre.seller,
        post.asset == pre.asset,
        post.auction_key == pre.auction_key,
{
}

/// The duration of a listing decides when it can be settled: once bid on, a
/// settlement by the right seller and winner is accepted exactly from
/// `duration` seconds after the listing on, and the auction account then
/// signs with the asset and bump it was listed with.
pub proof fn law_listing_end_governs_settlement(
    pre: List,
    post: List,
    min_bid: u64,
    duration: i64,
    bump: u8,
    unix_timestamp: i64,
    escrow: AssetTransfer,
    s: Settle,
    s_post: Settle,
    t: i64,
    r: Result<AssetTransfer, AuctionError>,
)
    requires
        list_spec(pre, post, min_bid, duration, bump, unix_timestamp, escrow),
        settle_spec(s, s_post, t, r),
        s.asset == pre.asset,
        s.auction.end_time == post.auction.end_time,
        s.auction.bump == post.auction.bump,
        s.auction.active == 1,
        s.auction.highest_bid > 0,
        s.seller == s.auction.seller,
        s.winner == s.auction.highest_bidder,
    ensures
        r is Ok <==> t >= unix_timestamp + duration,
        r is Ok ==> r->Ok_0.signer == Some(AuctionSigner { asset: pre.asset, bump }),
{
    law_list_outcome(pre, post, min_bid, duration, bump, unix_timestamp, escrow);
    law_settle_outcome(s, s_post, t, r);
}

/// The auction account signs a cancellation with the asset and bump it was
/// listed with.
pub proof fn law_cancel_signs_as_listed(
    pre: List,
    post: List,
    min_bid: u64,
    duration: i64,
    bump: u8,
    unix_timestamp: i64,
    escrow: AssetTransfer,
    c: Cancel,
    c_post: Cancel,
    give_back: AssetTransfer,
)
    requires
        list_spec(pre, post, min_bid, duration, bump, unix_timestamp, escrow),
        c.asset == pre.asset,
        c.auction == post.auction,
        cancel_spec(c, c_post, Ok(give_back)),
    ensures
        give_back.signer == Some(AuctionSigner { asset: pre.asset, bump }),
        give_back.new_owner == pre.seller,
        give_back.asset == pre.asset,
{
    law_list_outcome(pre, post, min_bid, duration, bump, unix_timestamp, escrow);
    law_cancel_outcome(c, c_post, Ok(give_back));
}

/// A bid is accepted exactly when the auction is running, the bid meets the
/// minimum, beats the standing bid, and, when a bid stands, the account
/// handed in for the refund is its bidder; who bids does not matter. An
/// accepted bid deposits the amount from the bidder into the auction
/// account, moves the standing bid, if any, back to its bidder, and makes
/// the bidder the highest; a refused one changes nothing, and its error is
/// that of the first check that fails.
pub proof fn law_bid_outcome(pre: Bid, post: Bid, amount: u64, r: Result<BidOutcome, AuctionError>)
    requires
        bid_spec(pre, post, amount, r),
    ensures
        r is Ok <==> {
            &&& pre.auction.active == 1
            &&& amount >= pre.auction.minimum_bid
            &&& amount > pre.auction.highest_bid
            &&& pre.auction.highest_bid > 0 ==> pre.previous_highest_bidder
                == pre.auction.highest_bidder
        },
        pre.auction.active != 1 ==> r == Err::<BidOutcome, AuctionError>(
            AuctionError::AuctionNotActive,
        ),
        pre.auction.active == 1 && (amount < pre.auction.minimum_bid || amount
            <= pre.auction.highest_bid) ==> r == Err::<BidOutcome, AuctionError>(
            AuctionError::BidTooLow,
        ),
        pre.auction.active == 1 && amount >= pre.auction.minimum_bid && amount
            > pre.auction.highest_bid && pre.auction.highest_bid > 0
            && pre.previous_highest_bidder != pre.auction.highest_bidder ==> r == Err::<
            BidOutcome,
            AuctionError,
        >(AuctionError::Unauthorized),
        r is Err ==> post == pre,
        r is Ok ==> {
            &&& r->Ok_0.deposit == LamportTransfer {
                from: pre.bidder,
                to: pre.auction_key,
                amount,
                signer: None,
            }
            &&& pre.auction.highest_bid == 0 ==> r->Ok_0.refund is None
            &&& pre.auction.highest_bid > 0 ==> r->Ok_0.refund == Some(
                LamportMove {
                    from: pre.auction_key,
                    to: pre.auction.highest_bidder,
                    amount: pre.auction.highest_bid,
                },
            )
            &&& post.auction == Auction {
                highest_bid: amount,
                highest_bidder: pre.bidder,
                ..pre.auction
            }
            &&& post.bidder == pre.bidder
            &&& post.asset == pre.asset
            &&& post.previous_highest_bidder == pre.previous_highest_bidder
            &&& post.auction_key == pre.auction_key
        },
{
}

/// A purchase is accepted exactly when the sale is live, a pack is left and
/// the price goes to the pack admin; the error of a refused one is that of
/// the first check that fails, sale and supply before the treasury. An
/// accepted purchase asks for the price from the buyer to the admin, counts
/// one more pack sold, and records an unopened pack of the buyer.
pub proof fn law_buy_pack_outcome(
    pre: BuyPack,
    post: BuyPack,
    bump: u8,
    r: Result<LamportTransfer, GachaError>,
)
    requires
        buy_pack_spec(pre, post, bump, r),
    ensures
        r is Ok <==> {
            &&& pre.pack.sale_status == PackSaleStatus::Live
            &&& pre.pack.sold_count < pre.pack.total_supply
            &&& pre.treasury == pre.pack.admin
        },
        pre.pack.sale_status != PackSaleStatus::Live ==> r == Err::<LamportTransfer, GachaError>(
            GachaError::SaleNotLive,
        ),
        pre.pack.sale_status == PackSaleStatus::Live && pre.pack.sold_count >= pre.pack.total_supply
            ==> r == Err::<LamportTransfer, GachaError>(GachaError::SoldOut),
        pre.pack.sale_status == PackSaleStatus::Live && pre.pack.sold_count < pre.pack.total_supply
            && pre.treasury != pre.pack.admin ==> r == Err::<LamportTransfer, GachaError>(
            GachaError::InvalidTreasury,
        ),
        r is Err ==> post == pre,
        r is Ok ==> {
            &&& r->Ok_0 == LamportTransfer {
                from: pre.buyer,
                to: pre.pack.admin,
                amount: pre.pack.price_lamports,
                signer: None,
            }
            &&& post.pack == PackConfig { sold_count: (pre.pack.sold_count + 1) as u32, ..pre.pack }
            &&& post.pack.sold_count == pre.pack.sold_count + 1
            &&& post.user_pack.owner == pre.buyer
            &&& post.user_pack.pack == pre.pack_key
            &&& post.user_pack.status == PackStatus::Unopened
            &&& post.user_pack.commit_slot == 0
            &&& post.user_pack.bump == bump
            &&& forall|i: int| 0 <= i < 5 ==> #[trigger] post.user_pack.revealed@[i] == 0
        },
{
}

/// Pack creation writes the fixed terms: the admin's pack at 0.1 SOL, five
/// cards, a supply of a hundred, none sold, live at once; the rarity table of
/// the pack with weights 70, 20, 9 and 1 and as many cards of each; each
/// account with the bump found for it.
pub proof fn law_create_pack_outcome(pre: CreatePack, post: CreatePack, pack_bump: u8, rarity_bump: u8)
    requires
        create_pack_spec(pre, post, pack_bump, rarity_bump),
    ensures
        post.pack == (PackConfig {
            admin: pre.admin,
            price_lamports: 100_000_000,
            pack_size: 5,
            total_supply: 100,
            sold_count: 0,
            sale_status: PackSaleStatus::Live,
            bump: pack_bump,
        }),
        post.rarity.pack == pre.pack_key,
        post.rarity.weights@ == seq![70u16, 20u16, 9u16, 1u16],
        post.rarity.remaining_per_rarity@ == seq![70u32, 20u32, 9u32, 1u32],
        post.rarity.bump == rarity_bump,
        post.pack_key == pre.pack_key,
        post.admin == pre.admin,
{
}

/// A commitment is accepted exactly when the pack is unopened, the account
/// handed in is the one named, it parses as a randomness account, its value
/// was seeded in the previous slot and is not revealed in this one. An
/// accepted commitment records the account and the seed slot and marks the
/// pack committed, all else unchanged; a refused one changes nothing, and
/// its error is that of the first check that fails.
pub proof fn law_commit_open_outcome(
    pre: CommitOpen,
    post: CommitOpen,
    arg: Key,
    clock_slot: u64,
    parsed: Option<RandomnessData>,
    r: Result<(), GachaError>,
)
    requires
        commit_open_spec(pre, post, arg, clock_slot, parsed, r),
    ensures
        r is Ok <==> {
            &&& pre.user_pack.status == PackStatus::Unopened
            &&& pre.randomness_account == arg
            &&& parsed is Some
            &&& parsed->0.seed_slot == clock_slot - 1
            &&& clock_slot != parsed->0.reveal_slot
        },
        pre.user_pack.status != PackStatus::Unopened ==> r == Err::<(), GachaError>(
            GachaError::AlreadyCommitted,
        ),
        pre.user_pack.status == PackStatus::Unopened && (pre.randomness_account != arg
            || parsed is None) ==> r == Err::<(), GachaError>(GachaError::InvalidRandomness),
        pre.user_pack.status == PackStatus::Unopened && pre.randomness_account == arg
            && parsed is Some && parsed->0.seed_slot != clock_slot - 1 ==> r == Err::<
            (),
            GachaError,
        >(GachaError::RandomnessExpired),
        pre.user_pack.status == PackStatus::Unopened && pre.randomness_account == arg
            && parsed is Some && parsed->0.seed_slot == clock_slot - 1 && clock_slot
            == parsed->0.reveal_slot ==> r == Err::<(), GachaError>(GachaError::RandomnessRevealed),
        r is Err ==> post == pre,
        r is Ok ==> {
            &&& post.user_pack.status == PackStatus::Committed
            &&& post.user_pack.randomness_account == arg
            &&& post.user_pack.commit_slot == clock_slot - 1
            &&& post.user_pack.owner == pre.user_pack.owner
            &&& post.user_pack.pack == pre.user_pack.pack
            &&& post.user_pack.revealed == pre.user_pack.revealed
            &&& post.user_pack.nft_mints == pre.user_pack.nft_mints
            &&& post.user_pack.bump == pre.user_pack.bump
            &&& post.buyer == pre.buyer
            &&& post.pack == pre.pack
            &&& post.randomness_account == pre.randomness_account
        },
{
}

/// The eight little-endian bytes of a number below 256: the number, then
/// seven zeros.
pub proof fn lemma_le_bytes_of_small(n: nat)
    requires
        n < 256,
    ensures
        le_bytes(n, 8) == seq![n as u8, 0u8, 0u8, 0u8, 0u8, 0u8, 0u8, 0u8],
{
    reveal_with_fuel(le_bytes, 9);
    assert(n / 256 == 0);
    assert(le_bytes(n, 8) =~= seq![n as u8, 0u8, 0u8, 0u8, 0u8, 0u8, 0u8, 0u8]);
}

/// Each card of an opened pack is drawn from its byte of the revealed value:
/// the byte's residue modulo the sum of the four weights falls in the band
/// of the rarity recorded for it; and its recorded mint is the program
/// address of the seeds `"nft"`, the card's index and that rarity as eight
/// little-endian bytes each, and the byte.
pub proof fn law_opened_card_mints(
    pre: OpenPack,
    post: OpenPack,
    program_id: Key,
    clock_slot: u64,
    parsed: Option<RandomnessData>,
    i: int,
)
    requires
        open_pack_spec(pre, post, program_id, clock_slot, parsed, Ok(())),
        pre.pack.pack_size <= 5,
        weights_drawable(pre.rarity.weights@),
        0 <= i < pre.pack.pack_size,
    ensures
        ({
            let w = pre.rarity.weights@;
            let roll = parsed->0.value@[i] as int % (w[0] + w[1] + w[2] + w[3]);
            let rarity = post.user_pack.revealed@[i];
            &&& rarity == 0 <==> roll < w[0]
            &&& rarity == 1 <==> w[0] <= roll < w[0] + w[1]
            &&& rarity == 2 <==> w[0] + w[1] <= roll < w[0] + w[1] + w[2]
            &&& rarity == 3 <==> w[0] + w[1] + w[2] <= roll
        }),
        program_address(
            seq![
                seq![110u8, 102u8, 116u8],
                seq![i as u8, 0u8, 0u8, 0u8, 0u8, 0u8, 0u8, 0u8],
                seq![post.user_pack.revealed@[i], 0u8, 0u8, 0u8, 0u8, 0u8, 0u8, 0u8],
                seq![parsed->0.value@[i]],
            ],
            program_id@,
        ) is Some,
        post.user_pack.nft_mints@[i]@ == (program_address(
            seq![
                seq![110u8, 102u8, 116u8],
                seq![i as u8, 0u8, 0u8, 0u8, 0u8, 0u8, 0u8, 0u8],
                seq![post.user_pack.revealed@[i], 0u8, 0u8, 0u8, 0u8, 0u8, 0u8, 0u8],
                seq![parsed->0.value@[i]],
            ],
            program_id@,
        )->0).0,
{
    let w = pre.rarity.weights@;
    let byte = parsed->0.value@[i];
    reveal_with_fuel(weight_prefix, 5);
    crate::laws::law_draw_follows_weights(byte, w);
    let rarity = post.user_pack.revealed@[i];
    assert(rarity as int == crate::rarity::drawn_rarity(byte, w));
    assert(crate::open_pack::cards_derivable(program_id, pre.pack.pack_size as int, w, parsed->0.value@));
    assert(crate::open_pack::card_address(program_id, i as nat, w, byte) is Some);
    lemma_le_bytes_of_small(i as nat);
    lemma_le_bytes_of_small(rarity as nat);
    assert(crate::open_pack::nft_seed_bytes(i as nat, rarity as nat, byte) =~= seq![
        seq![110u8, 102u8, 116u8],
        seq![i as u8, 0u8, 0u8, 0u8, 0u8, 0u8, 0u8, 0u8],
        seq![rarity, 0u8, 0u8, 0u8, 0u8, 0u8, 0u8, 0u8],
        seq![byte],
    ]);
}

/// An opening is refused, with nothing changed, by the first check that
/// fails: the rarity table is not the pack's, the pack is not committed, the
/// account handed in is not the committed one or is not a randomness
/// account, its value was seeded for another commitment, or it is not
/// revealed in this slot. When all pass, the opening succeeds unless a card
/// has no mint address, and the opened pack keeps its owner, pack,
/// randomness account, commit slot and bump, and its slots past the pack
/// size; no other account changes.
pub proof fn law_open_pack_outcome(
    pre: OpenPack,
    post: OpenPack,
    program_id: Key,
    clock_slot: u64,
    parsed: Option<RandomnessData>,
    r: Result<(), GachaError>,
)
    requires
        open_pack_spec(pre, post, program_id, clock_slot, parsed, r),
    ensures
        r is Ok ==> {
            &&& pre.rarity.pack == pre.pack_key
            &&& pre.user_pack.status == PackStatus::Committed
            &&& pre.randomness_account == pre.user_pack.randomness_account
            &&& parsed is Some
            &&& parsed->0.seed_slot == pre.user_pack.commit_slot
            &&& clock_slot == parsed->0.reveal_slot
        },
        ({
            &&& pre.rarity.pack == pre.pack_key
            &&& pre.user_pack.status == PackStatus::Committed
            &&& pre.randomness_account == pre.user_pack.randomness_account
            &&& parsed is Some
            &&& parsed->0.seed_slot == pre.user_pack.commit_slot
            &&& clock_slot == parsed->0.reveal_slot
        }) ==> r is Ok || r == Err::<(), GachaError>(GachaError::MintAddressNotFound),
        pre.rarity.pack != pre.pack_key ==> r == Err::<(), GachaError>(GachaError::InvalidRarity),
        pre.rarity.pack == pre.pack_key && pre.user_pack.status != PackStatus::Committed ==> r
            == Err::<(), GachaError>(GachaError::NotCommitted),
        pre.rarity.pack == pre.pack_key && pre.user_pack.status == PackStatus::Committed && (
        pre.randomness_account != pre.user_pack.randomness_account || parsed is None) ==> r
            == Err::<(), GachaError>(GachaError::InvalidRandomness),
        pre.rarity.pack == pre.pack_key && pre.user_pack.status == PackStatus::Committed
            && pre.randomness_account == pre.user_pack.randomness_account && parsed is Some
            && parsed->0.seed_slot != pre.user_pack.commit_slot ==> r == Err::<(), GachaError>(
            GachaError::RandomnessExpired,
        ),
        pre.rarity.pack == pre.pack_key && pre.user_pack.status == PackStatus::Committed
            && pre.randomness_account == pre.user_pack.randomness_account && parsed is Some
            && parsed->0.seed_slot == pre.user_pack.commit_slot && clock_slot
            != parsed->0.reveal_slot ==> r == Err::<(), GachaError>(GachaError::RandomnessNotReady),
        r is Err ==> post == pre,
        r is Ok ==> {
            &&& post.user_pack.status == PackStatus::Opened
            &&& post.user_pack.owner == pre.user_pack.owner
            &&& post.user_pack.pack == pre.user_pack.pack
            &&& post.user_pack.randomness_account == pre.user_pack.randomness_account
            &&& post.user_pack.commit_slot == pre.user_pack.commit_slot
            &&& post.user_pack.bump == pre.user_pack.bump
            &&& forall|i: int|
                pre.pack.pack_size <= i < 5 ==> #[trigger] post.user_pack.revealed@[i]
                    == pre.user_pack.revealed@[i] && post.user_pack.nft_mints@[i]
                    == pre.user_pack.nft_mints@[i]
            &&& post.buyer == pre.buyer
            &&& post.pack == pre.pack
            &&& post.pack_key == pre.pack_key
            &&& post.rarity == pre.rarity
            &&& post.randomness_account == pre.randomness_account
            &&& post.randomness_data == pre.randomness_data
        },
{
    if r is Ok {
        assert forall|i: int| pre.pack.pack_size <= i < 5 implies #[trigger] post.user_pack.revealed@[i]
            == pre.user_pack.revealed@[i] && post.user_pack.nft_mints@[i]
            == pre.user_pack.nft_mints@[i] by {
            assert(post.user_pack.nft_mints@[i] == pre.user_pack.nft_mints@[i]);
        }
    }
}

/// Little-endian bytes read back as the number they were made from: the
/// bytes of `n` in `len` places encode `n`, when it fits.
pub proof fn lemma_le_bytes_round_trip(n: nat, len: nat)
    requires
        n < crate::randomness::pow256(len),
    ensures
        le_bytes(n, len).len() == len,
        crate::randomness::le_value(le_bytes(n, len)) == n,
    decreases len,
{
    if len > 0 {
        let p = crate::randomness::pow256((len - 1) as nat);
        assert(n / 256 < p) by (nonlinear_arith)
            requires
                n < 256 * p,
        ;
        lemma_le_bytes_round_trip(n / 256, (len - 1) as nat);
        let b = le_bytes(n, len);
        assert(b.drop_first() =~= le_bytes(n / 256, (len - 1) as nat));
        assert(n == (n % 256) + 256 * (n / 256));
    }
}

/// The auction account signs with the seeds `"auction"`, the asset's
/// address and the bump, in that order.
pub proof fn law_auction_signer_seeds(signer: AuctionSigner)
    ensures
        crate::actions::auction_seed_bytes(signer.asset, signer.bump) == seq![
            seq![97u8, 117u8, 99u8, 116u8, 105u8, 111u8, 110u8],
            signer.asset@,
            seq![signer.bump],
        ],
{
}

/// A settlement's payout can be made exactly when the auction account holds
/// the highest bid and the seller's balance can take it without overflow.
pub proof fn law_payout_fits_balances(pre: Settle)
    ensures
        crate::settle::payout_fits(pre) <==> (pre.auction_lamports >= pre.auction.highest_bid
            && pre.seller_lamports + pre.auction.highest_bid <= u64::MAX),
{
}

/// The cards of a pack can be drawn exactly when it holds at most five and,
/// if it holds any, the four weights have a positive sum that fits in 16 bits.
pub proof fn law_draws_fit_pack(pre: OpenPack)
    ensures
        crate::open_pack::draws_fit(pre) <==> {
            let w = pre.rarity.weights@;
            &&& pre.pack.pack_size <= 5
            &&& pre.pack.pack_size > 0 ==> 0 < w[0] + w[1] + w[2] + w[3] <= u16::MAX
        },
{
    reveal_with_fuel(weight_prefix, 5);
}

} // verus!
