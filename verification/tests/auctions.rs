use gacha_gotcha::actions::{auction_seeds, AuctionSigner, LamportMove};
use gacha_gotcha::bid::BidOutcome;
use gacha_gotcha::bid::Bid;
use gacha_gotcha::cancel::Cancel;
use gacha_gotcha::error::AuctionError;
use gacha_gotcha::key::Key;
use gacha_gotcha::list::List;
use gacha_gotcha::settle::Settle;
use gacha_gotcha::state::Auction;

fn key(b: u8) -> Key {
    Key { bytes: [b; 32] }
}

fn same_key(a: &Key, b: &Key) -> bool {
    a.bytes == b.bytes
}

const SELLER: u8 = 1;
const ASSET: u8 = 2;
const AUCTION: u8 = 3;

fn listed(min_bid: u64) -> Auction {
    let mut listing = List {
        seller: key(SELLER),
        asset: key(ASSET),
        auction: Auction {
            seller: Key::zero(),
            nft: Key::zero(),
            highest_bidder: key(9),
            highest_bid: 5,
            minimum_bid: 0,
            end_time: 0,
            bump: 0,
            active: 0,
        },
        auction_key: key(AUCTION),
    };
    gacha_gotcha::gacha_gotcha::list(&mut listing, min_bid, 3600, 253, 1_000);
    listing.auction
}

fn bidding(auction: Auction, bidder: u8, previous: u8) -> Bid {
    Bid {
        bidder: key(bidder),
        asset: key(ASSET),
        previous_highest_bidder: key(previous),
        auction,
        auction_key: key(AUCTION),
    }
}

fn flow(k: &Key, from: &Key, to: &Key, amount: u64) -> i128 {
    let mut total: i128 = 0;
    if same_key(to, k) {
        total += amount as i128;
    }
    if same_key(from, k) {
        total -= amount as i128;
    }
    total
}

fn inflow(outcome: &BidOutcome, k: &Key) -> i128 {
    let d = &outcome.deposit;
    let mut total = flow(k, &d.from, &d.to, d.amount);
    if let Some(m) = &outcome.refund {
        total += flow(k, &m.from, &m.to, m.amount);
    }
    total
}

#[test]
fn list_starts_a_running_auction_and_escrows_the_asset() {
    let mut listing = List {
        seller: key(SELLER),
        asset: key(ASSET),
        auction: listed(0),
        auction_key: key(AUCTION),
    };
    let escrow = listing.list(500, 60, 200, 1_700_000_000);
    let a = listing.auction;
    assert!(same_key(&a.seller, &key(SELLER)));
    assert!(same_key(&a.nft, &key(ASSET)));
    assert!(same_key(&a.highest_bidder, &Key::zero()));
    assert_eq!(a.highest_bid, 0);
    assert_eq!(a.minimum_bid, 500);
    assert_eq!(a.end_time, 1_700_000_060);
    assert_eq!(a.bump, 200);
    assert_eq!(a.active, 1);
    assert!(same_key(&escrow.asset, &key(ASSET)));
    assert!(same_key(&escrow.authority, &key(SELLER)));
    assert!(same_key(&escrow.new_owner, &key(AUCTION)));
    assert!(same_key(&escrow.payer, &key(SELLER)));
    assert!(escrow.signer.is_none());
}

#[test]
fn list_with_a_negative_duration_ends_in_the_past() {
    let mut listing = List { seller: key(SELLER), asset: key(ASSET), auction: listed(0), auction_key: key(AUCTION) };
    listing.list(1, -10, 1, 100);
    assert_eq!(listing.auction.end_time, 90);
}

#[test]
fn first_bid_is_deposited_into_the_auction() {
    let mut b = bidding(listed(100), 4, 0);
    let outcome = gacha_gotcha::gacha_gotcha::bid(&mut b, 100).unwrap();
    assert!(outcome.refund.is_none());
    assert!(same_key(&outcome.deposit.from, &key(4)));
    assert!(same_key(&outcome.deposit.to, &key(AUCTION)));
    assert_eq!(outcome.deposit.amount, 100);
    assert!(outcome.deposit.signer.is_none());
    assert_eq!(b.auction.highest_bid, 100);
    assert!(same_key(&b.auction.highest_bidder, &key(4)));
}

#[test]
fn first_bid_must_be_positive_and_meet_the_minimum() {
    let mut low = bidding(listed(100), 4, 0);
    assert_eq!(low.bid(99).unwrap_err(), AuctionError::BidTooLow);
    assert_eq!(low.auction.highest_bid, 0);
    let mut zero = bidding(listed(0), 4, 0);
    assert_eq!(zero.bid(0).unwrap_err(), AuctionError::BidTooLow);
    let mut one = bidding(listed(0), 4, 0);
    assert!(one.bid(1).is_ok());
}

#[test]
fn outbidding_refunds_the_previous_bidder() {
    let mut first = bidding(listed(100), 4, 0);
    first.bid(150).unwrap();
    let mut second = bidding(first.auction, 5, 4);
    let outcome = second.bid(200).unwrap();
    assert!(same_key(&outcome.deposit.from, &key(5)));
    assert!(same_key(&outcome.deposit.to, &key(AUCTION)));
    assert_eq!(outcome.deposit.amount, 200);
    let refund = outcome.refund.unwrap();
    assert!(same_key(&refund.from, &key(AUCTION)));
    assert!(same_key(&refund.to, &key(4)));
    assert_eq!(refund.amount, 150);
    assert_eq!(second.auction.highest_bid, 200);
    assert!(same_key(&second.auction.highest_bidder, &key(5)));
}

#[test]
fn escrow_holds_the_highest_bid_after_each_bid() {
    let mut auction = listed(10);
    let rent: i128 = 1_398_960;
    let mut escrow: i128 = rent;
    let bidders = [4u8, 5, 6, 4, 7];
    let amounts = [10u64, 11, 50, 51, 1_000];
    let mut previous = 0u8;
    for (b, amount) in bidders.iter().zip(amounts.iter()) {
        let mut ctx = bidding(auction, *b, previous);
        let outcome = ctx.bid(*amount).unwrap();
        escrow += inflow(&outcome, &key(AUCTION));
        let d = &outcome.deposit;
        assert_eq!(flow(&key(*b), &d.from, &d.to, d.amount), -(*amount as i128));
        assert_eq!(escrow, rent + ctx.auction.highest_bid as i128);
        auction = ctx.auction;
        previous = *b;
    }
    assert_eq!(escrow, rent + 1_000);
}

#[test]
fn escrow_holds_through_refused_bids() {
    let mut auction = listed(10);
    let rent: i128 = 1_398_960;
    let mut escrow: i128 = rent;
    // (bidder, amount, account handed in as the previous bidder)
    let calls = [(4u8, 20u64, 0u8), (5, 20, 4), (5, 5, 4), (6, 30, 9), (6, 30, 4), (7, 31, 6)];
    let accepted = [true, false, false, false, true, true];
    for (i, (b, amount, previous)) in calls.iter().enumerate() {
        let mut ctx = bidding(auction, *b, *previous);
        match ctx.bid(*amount) {
            Ok(outcome) => {
                assert!(accepted[i]);
                escrow += inflow(&outcome, &key(AUCTION));
            }
            Err(_) => {
                assert!(!accepted[i]);
                assert_eq!(ctx.auction.highest_bid, auction.highest_bid);
            }
        }
        assert_eq!(escrow, rent + ctx.auction.highest_bid as i128);
        auction = ctx.auction;
    }
    assert_eq!(escrow, rent + 31);
    assert!(same_key(&auction.highest_bidder, &key(7)));
}

#[test]
fn bid_must_beat_the_highest() {
    let mut first = bidding(listed(100), 4, 0);
    first.bid(150).unwrap();
    let mut equal = bidding(first.auction, 5, 4);
    assert_eq!(equal.bid(150).unwrap_err(), AuctionError::BidTooLow);
    assert_eq!(equal.auction.highest_bid, 150);
}

#[test]
fn bid_refused_with_the_wrong_refund_account() {
    let mut first = bidding(listed(100), 4, 0);
    first.bid(150).unwrap();
    let mut second = bidding(first.auction, 5, 6);
    assert_eq!(second.bid(200).unwrap_err(), AuctionError::Unauthorized);
    assert!(same_key(&second.auction.highest_bidder, &key(4)));
}

#[test]
fn bid_refused_on_an_inactive_auction() {
    let mut auction = listed(100);
    auction.active = 0;
    let mut b = bidding(auction, 4, 0);
    assert_eq!(b.bid(500).unwrap_err(), AuctionError::AuctionNotActive);
}

fn settling(auction: Auction, seller: u8, winner: u8) -> Settle {
    Settle {
        seller: key(seller),
        seller_lamports: 1_000,
        asset: key(ASSET),
        winner: key(winner),
        auction,
        auction_key: key(AUCTION),
        auction_lamports: 2_000_000,
    }
}

fn with_bid(amount: u64, bidder: u8) -> Auction {
    let mut b = bidding(listed(1), bidder, 0);
    b.bid(amount).unwrap();
    b.auction
}

#[test]
fn settle_pays_the_seller_and_delivers_to_the_winner() {
    let mut s = settling(with_bid(500_000, 4), SELLER, 4);
    let delivery = gacha_gotcha::gacha_gotcha::settle(&mut s, 4_600).unwrap();
    assert_eq!(s.seller_lamports, 501_000);
    assert_eq!(s.auction_lamports, 1_500_000);
    assert!(same_key(&delivery.asset, &key(ASSET)));
    assert!(same_key(&delivery.authority, &key(AUCTION)));
    assert!(same_key(&delivery.new_owner, &key(4)));
    assert!(same_key(&delivery.payer, &key(SELLER)));
    let signer = delivery.signer.unwrap();
    assert!(same_key(&signer.asset, &key(ASSET)));
    assert_eq!(signer.bump, 253);
}

#[test]
fn settle_refused_before_the_end() {
    let mut s = settling(with_bid(500, 4), SELLER, 4);
    assert_eq!(s.settle(4_599).unwrap_err(), AuctionError::Ended);
    assert_eq!(s.seller_lamports, 1_000);
    assert!(s.settle(4_600).is_ok());
}

#[test]
fn settle_refused_on_an_inactive_auction() {
    let mut auction = with_bid(500, 4);
    auction.active = 0;
    let mut s = settling(auction, SELLER, 4);
    assert_eq!(s.settle(9_999).unwrap_err(), AuctionError::Ended);
}

#[test]
fn settle_refused_without_bids() {
    let mut s = settling(listed(1), SELLER, 0);
    assert_eq!(s.settle(9_999).unwrap_err(), AuctionError::BidTooLow);
}

#[test]
fn settle_refused_for_another_seller_or_winner() {
    let mut wrong_seller = settling(with_bid(500, 4), 8, 4);
    assert_eq!(wrong_seller.settle(9_999).unwrap_err(), AuctionError::Unauthorized);
    let mut wrong_winner = settling(with_bid(500, 4), SELLER, 8);
    assert_eq!(wrong_winner.settle(9_999).unwrap_err(), AuctionError::Unauthorized);
    assert_eq!(wrong_winner.auction_lamports, 2_000_000);
}

fn cancelling(auction: Auction, seller: u8) -> Cancel {
    Cancel { seller: key(seller), asset: key(ASSET), auction, auction_key: key(AUCTION) }
}

#[test]
fn cancel_returns_the_asset_when_no_one_bid() {
    let mut c = cancelling(listed(10), SELLER);
    let give_back = gacha_gotcha::gacha_gotcha::cancel(&mut c).unwrap();
    assert_eq!(c.auction.active, 0);
    assert!(same_key(&give_back.asset, &key(ASSET)));
    assert!(same_key(&give_back.authority, &key(AUCTION)));
    assert!(same_key(&give_back.new_owner, &key(SELLER)));
    assert!(same_key(&give_back.payer, &key(SELLER)));
    assert_eq!(give_back.signer.unwrap().bump, 253);
}

#[test]
fn cancel_refused_for_another_seller() {
    let mut c = cancelling(listed(10), 8);
    assert_eq!(c.cancel().unwrap_err(), AuctionError::Unauthorized);
    assert_eq!(c.auction.active, 1);
}

#[test]
fn cancel_refused_once_a_bid_stands() {
    let mut c = cancelling(with_bid(10, 4), SELLER);
    assert_eq!(c.cancel().unwrap_err(), AuctionError::BidTooLow);
    assert_eq!(c.auction.active, 1);
}

#[test]
fn a_cancelled_auction_is_over() {
    let mut c = cancelling(listed(10), SELLER);
    c.cancel().unwrap();
    assert_eq!(c.cancel().unwrap_err(), AuctionError::Ended);
    let mut b = bidding(c.auction, 4, 0);
    assert_eq!(b.bid(100).unwrap_err(), AuctionError::AuctionNotActive);
    let mut s = settling(c.auction, SELLER, 4);
    assert_eq!(s.settle(i64::MAX).unwrap_err(), AuctionError::Ended);
}

#[test]
fn auction_seeds_are_tag_asset_and_bump() {
    let seeds = auction_seeds(&AuctionSigner { asset: key(ASSET), bump: 17 });
    assert_eq!(seeds, vec![b"auction".to_vec(), vec![ASSET; 32], vec![17]]);
}

#[test]
fn payout_overflow_is_caught_before_settling() {
    let mut s = settling(with_bid(500, 4), SELLER, 4);
    assert!(!s.payout_overflows(9_999));
    s.auction_lamports = 499;
    assert!(s.payout_overflows(9_999));
    assert!(!s.payout_overflows(0));
    s.auction_lamports = 500;
    s.seller_lamports = u64::MAX - 499;
    assert!(s.payout_overflows(9_999));
}

#[test]
fn lamport_moves_change_both_balances() {
    let m = LamportMove { from: key(AUCTION), to: key(4), amount: 150 };
    assert!(m.fits(150, 0));
    assert!(!m.fits(149, 0));
    assert!(!m.fits(1_000, u64::MAX - 149));
    assert_eq!(m.apply(1_000, 7), (850, 157));
    assert_eq!(m.apply(150, u64::MAX - 150), (0, u64::MAX));
}
