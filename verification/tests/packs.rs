use anchor_lang::prelude::Pubkey;
use gacha_gotcha::commit_open::CommitOpen;
use gacha_gotcha::create_pack::CreatePack;
use gacha_gotcha::buy_pack::BuyPack;
use gacha_gotcha::error::GachaError;
use gacha_gotcha::key::Key;
use gacha_gotcha::open_pack::{nft_seeds, u64_le_bytes, OpenPack};
use gacha_gotcha::randomness::RandomnessData;
use gacha_gotcha::rarity::draw_rarity;
use gacha_gotcha::state::{PackConfig, PackRarityConfig, PackSaleStatus, PackStatus, UserPack};

fn key(b: u8) -> Key {
    Key { bytes: [b; 32] }
}

fn live_pack(sold: u32, total: u32) -> PackConfig {
    PackConfig {
        admin: key(1),
        price_lamports: 100_000_000,
        pack_size: 5,
        total_supply: total,
        sold_count: sold,
        sale_status: PackSaleStatus::Live,
        bump: 254,
    }
}

fn empty_user_pack() -> UserPack {
    UserPack {
        owner: Key::zero(),
        pack: Key::zero(),
        status: PackStatus::Unopened,
        randomness_account: Key::zero(),
        commit_slot: 0,
        revealed: [0; 5],
        bump: 0,
        nft_mints: [Key::zero(); 5],
    }
}

fn rarity_table(pack: Key) -> PackRarityConfig {
    PackRarityConfig {
        pack,
        weights: [70, 20, 9, 1],
        remaining_per_rarity: [70, 20, 9, 1],
        bump: 7,
    }
}

/// Bytes of a randomness account with the given seed slot, reveal slot and value.
fn randomness_bytes(seed_slot: u64, reveal_slot: u64, value: [u8; 32]) -> Vec<u8> {
    let mut data = vec![0u8; 408];
    data[0..8].copy_from_slice(&[10, 66, 229, 135, 220, 239, 217, 114]);
    data[104..112].copy_from_slice(&seed_slot.to_le_bytes());
    data[144..152].copy_from_slice(&reveal_slot.to_le_bytes());
    data[152..184].copy_from_slice(&value);
    data
}

fn same_key(a: &Key, b: &Key) -> bool {
    a.bytes == b.bytes
}

#[test]
fn create_pack_writes_initial_terms() {
    let mut accounts = CreatePack {
        pack: PackConfig { bump: 0, ..live_pack(9, 9) },
        pack_key: key(2),
        rarity: PackRarityConfig { pack: key(9), weights: [0; 4], remaining_per_rarity: [0; 4], bump: 0 },
        admin: key(1),
    };
    gacha_gotcha::gacha_gotcha::create_pack(&mut accounts, 251, 252);
    assert!(same_key(&accounts.pack.admin, &key(1)));
    assert_eq!(accounts.pack.price_lamports, 100_000_000);
    assert_eq!(accounts.pack.pack_size, 5);
    assert_eq!(accounts.pack.total_supply, 100);
    assert_eq!(accounts.pack.sold_count, 0);
    assert_eq!(accounts.pack.sale_status, PackSaleStatus::Live);
    assert_eq!(accounts.pack.bump, 251);
    assert_eq!(accounts.rarity.bump, 252);
    assert!(same_key(&accounts.rarity.pack, &key(2)));
    assert_eq!(accounts.rarity.weights, [70, 20, 9, 1]);
    assert_eq!(accounts.rarity.remaining_per_rarity, [70, 20, 9, 1]);
    assert_eq!(accounts.rarity.weights.iter().map(|w| *w as u32).sum::<u32>(), 100);
}

#[test]
fn buy_pack_records_a_fresh_pack_and_asks_for_the_price() {
    let mut accounts = BuyPack {
        pack: live_pack(3, 100),
        pack_key: key(2),
        user_pack: empty_user_pack(),
        treasury: key(1),
        buyer: key(4),
    };
    let payment = gacha_gotcha::gacha_gotcha::buy_pack(&mut accounts, 250).unwrap();
    assert!(same_key(&payment.from, &key(4)));
    assert!(same_key(&payment.to, &key(1)));
    assert_eq!(payment.amount, 100_000_000);
    assert!(payment.signer.is_none());
    assert_eq!(accounts.pack.sold_count, 4);
    assert!(same_key(&accounts.user_pack.owner, &key(4)));
    assert!(same_key(&accounts.user_pack.pack, &key(2)));
    assert_eq!(accounts.user_pack.status, PackStatus::Unopened);
    assert_eq!(accounts.user_pack.bump, 250);
    assert_eq!(accounts.user_pack.commit_slot, 0);
    assert_eq!(accounts.user_pack.revealed, [0; 5]);
}

#[test]
fn closed_or_sold_out_sale_is_reported_before_the_treasury() {
    let mut paused = live_pack(0, 100);
    paused.sale_status = PackSaleStatus::Paused;
    let mut accounts = BuyPack {
        pack: paused,
        pack_key: key(2),
        user_pack: empty_user_pack(),
        treasury: key(3),
        buyer: key(4),
    };
    assert_eq!(accounts.buy_pack(1).unwrap_err(), GachaError::SaleNotLive);
    let mut accounts = BuyPack {
        pack: live_pack(100, 100),
        pack_key: key(2),
        user_pack: empty_user_pack(),
        treasury: key(3),
        buyer: key(4),
    };
    assert_eq!(accounts.buy_pack(1).unwrap_err(), GachaError::SoldOut);
    assert_eq!(accounts.pack.sold_count, 100);
}

#[test]
fn buy_pack_refused_unless_paid_to_the_pack_admin() {
    for treasury in [key(4), key(3)] {
        let mut accounts = BuyPack {
            pack: live_pack(0, 100),
            pack_key: key(2),
            user_pack: empty_user_pack(),
            treasury,
            buyer: key(4),
        };
        assert_eq!(accounts.buy_pack(1).unwrap_err(), GachaError::InvalidTreasury);
        assert_eq!(accounts.pack.sold_count, 0);
    }
}

#[test]
fn buy_pack_refused_when_sale_not_live() {
    for status in [PackSaleStatus::NotStarted, PackSaleStatus::Paused, PackSaleStatus::Ended] {
        let mut accounts = BuyPack {
            pack: PackConfig { sale_status: status, ..live_pack(0, 100) },
            pack_key: key(2),
            user_pack: empty_user_pack(),
            treasury: key(1),
            buyer: key(4),
        };
        assert_eq!(accounts.buy_pack(1).unwrap_err(), GachaError::SaleNotLive);
        assert_eq!(accounts.pack.sold_count, 0);
    }
}

#[test]
fn buy_pack_sells_exactly_the_supply() {
    let mut accounts = BuyPack {
        pack: live_pack(0, 3),
        pack_key: key(2),
        user_pack: empty_user_pack(),
        treasury: key(1),
        buyer: key(4),
    };
    for n in 1..=3u32 {
        assert!(accounts.buy_pack(1).is_ok());
        assert_eq!(accounts.pack.sold_count, n);
    }
    assert_eq!(accounts.buy_pack(1).unwrap_err(), GachaError::SoldOut);
    assert_eq!(accounts.pack.sold_count, 3);
}

fn committing(status: PackStatus, data: Vec<u8>) -> CommitOpen {
    CommitOpen {
        buyer: key(4),
        pack: live_pack(1, 100),
        pack_key: key(2),
        user_pack: UserPack { status, owner: key(4), pack: key(2), ..empty_user_pack() },
        randomness_account: key(5),
        randomness_data: data,
    }
}

#[test]
fn commit_open_records_the_randomness_account() {
    let mut accounts = committing(PackStatus::Unopened, randomness_bytes(99, 0, [0; 32]));
    assert_eq!(gacha_gotcha::gacha_gotcha::commit_open(&mut accounts, key(5), 100), Ok(()));
    assert_eq!(accounts.user_pack.status, PackStatus::Committed);
    assert_eq!(accounts.user_pack.commit_slot, 99);
    assert!(same_key(&accounts.user_pack.randomness_account, &key(5)));
}

#[test]
fn commit_open_refused_when_already_committed_or_opened() {
    for status in [PackStatus::Committed, PackStatus::Opened] {
        let mut accounts = committing(status, randomness_bytes(99, 0, [0; 32]));
        assert_eq!(accounts.commit_open(key(5), 100), Err(GachaError::AlreadyCommitted));
        assert_eq!(accounts.user_pack.status, status);
    }
}

#[test]
fn commit_open_refused_for_another_account() {
    let mut accounts = committing(PackStatus::Unopened, randomness_bytes(99, 0, [0; 32]));
    assert_eq!(accounts.commit_open(key(6), 100), Err(GachaError::InvalidRandomness));
    assert_eq!(accounts.user_pack.status, PackStatus::Unopened);
}

#[test]
fn commit_open_refused_for_bytes_that_are_not_a_randomness_account() {
    let mut bad = randomness_bytes(99, 0, [0; 32]);
    bad[0] = 11;
    let mut accounts = committing(PackStatus::Unopened, bad);
    assert_eq!(accounts.commit_open(key(5), 100), Err(GachaError::InvalidRandomness));
    let mut short = committing(PackStatus::Unopened, randomness_bytes(99, 0, [0; 32])[..200].to_vec());
    assert_eq!(short.commit_open(key(5), 100), Err(GachaError::InvalidRandomness));
}

#[test]
fn commit_open_refused_for_a_stale_seed() {
    let mut accounts = committing(PackStatus::Unopened, randomness_bytes(98, 0, [0; 32]));
    assert_eq!(accounts.commit_open(key(5), 100), Err(GachaError::RandomnessExpired));
}

#[test]
fn commit_open_refused_once_revealed() {
    let mut accounts = committing(PackStatus::Unopened, randomness_bytes(99, 100, [0; 32]));
    assert_eq!(accounts.commit_open(key(5), 100), Err(GachaError::RandomnessRevealed));
}

#[test]
fn commit_open_with_takes_the_reading_as_given() {
    let mut accounts = committing(PackStatus::Unopened, Vec::new());
    let reading = RandomnessData { seed_slot: 41, reveal_slot: 50, value: [0; 32] };
    assert_eq!(accounts.commit_open_with(key(5), 42, Some(reading)), Ok(()));
    assert_eq!(accounts.user_pack.commit_slot, 41);
    let mut again = committing(PackStatus::Unopened, Vec::new());
    assert_eq!(again.commit_open_with(key(5), 42, None), Err(GachaError::InvalidRandomness));
}

#[test]
fn draw_rarity_follows_the_bands() {
    let w = [70u16, 20, 9, 1];
    let expect = |b: u8| -> usize {
        let roll = (b as u16) % 100;
        if roll < 70 { 0 } else if roll < 90 { 1 } else if roll < 99 { 2 } else { 3 }
    };
    assert_eq!(draw_rarity(0, &w), Ok(0));
    assert_eq!(draw_rarity(69, &w), Ok(0));
    assert_eq!(draw_rarity(70, &w), Ok(1));
    assert_eq!(draw_rarity(89, &w), Ok(1));
    assert_eq!(draw_rarity(90, &w), Ok(2));
    assert_eq!(draw_rarity(98, &w), Ok(2));
    assert_eq!(draw_rarity(99, &w), Ok(3));
    assert_eq!(draw_rarity(100, &w), Ok(0));
    assert_eq!(draw_rarity(199, &w), Ok(3));
    assert_eq!(draw_rarity(255, &w), Ok(0));
    for b in 0..=255u8 {
        assert_eq!(draw_rarity(b, &w), Ok(expect(b)));
    }
}

#[test]
fn draw_rarity_never_draws_a_zero_weight() {
    let w = [0u16, 3, 0, 2];
    for b in 0..=255u8 {
        let r = draw_rarity(b, &w).unwrap();
        assert!(w[r] > 0);
        assert_eq!(r, if (b % 5) < 3 { 1 } else { 3 });
    }
}

#[test]
fn le_bytes_and_card_seeds() {
    assert_eq!(u64_le_bytes(0x0102030405060708), vec![8, 7, 6, 5, 4, 3, 2, 1]);
    assert_eq!(u64_le_bytes(3), 3u64.to_le_bytes().to_vec());
    let seeds = nft_seeds(2, 1, 0xab);
    assert_eq!(seeds, vec![b"nft".to_vec(), 2u64.to_le_bytes().to_vec(), 1u64.to_le_bytes().to_vec(), vec![0xab]]);
}

fn opening(status: PackStatus, data: Vec<u8>) -> OpenPack {
    OpenPack {
        buyer: key(4),
        user_pack: UserPack {
            status,
            owner: key(4),
            pack: key(2),
            randomness_account: key(5),
            commit_slot: 99,
            ..empty_user_pack()
        },
        pack: live_pack(1, 100),
        pack_key: key(2),
        rarity: rarity_table(key(2)),
        randomness_account: key(5),
        randomness_data: data,
    }
}

fn sample_value() -> [u8; 32] {
    let mut v = [0u8; 32];
    v[0] = 5;
    v[1] = 75;
    v[2] = 95;
    v[3] = 199;
    v[4] = 100;
    v[5] = 99;
    v
}

#[test]
fn open_pack_reveals_cards_and_derives_their_mints() {
    let program_id = key(9);
    let mut accounts = opening(PackStatus::Committed, randomness_bytes(99, 120, sample_value()));
    assert_eq!(gacha_gotcha::gacha_gotcha::open_pack(&mut accounts, &program_id, 120), Ok(()));
    assert_eq!(accounts.user_pack.status, PackStatus::Opened);
    assert_eq!(accounts.user_pack.revealed, [0, 1, 2, 3, 0]);
    let pid = Pubkey::new_from_array(program_id.bytes);
    let value = sample_value();
    for i in 0..5usize {
        let rarity = accounts.user_pack.revealed[i] as usize;
        let (expected, _) = Pubkey::find_program_address(
            &[b"nft", &i.to_le_bytes(), &rarity.to_le_bytes(), &value[i].to_le_bytes()],
            &pid,
        );
        assert_eq!(accounts.user_pack.nft_mints[i].bytes, expected.to_bytes());
    }
    assert_eq!(accounts.user_pack.commit_slot, 99);
    assert!(same_key(&accounts.user_pack.owner, &key(4)));
}

#[test]
fn open_pack_draws_only_pack_size_cards() {
    let mut accounts = opening(PackStatus::Committed, randomness_bytes(99, 120, sample_value()));
    accounts.pack.pack_size = 2;
    accounts.user_pack.revealed = [9, 9, 9, 9, 9];
    assert_eq!(accounts.open_pack(&key(9), 120), Ok(()));
    assert_eq!(accounts.user_pack.revealed, [0, 1, 9, 9, 9]);
    assert!(same_key(&accounts.user_pack.nft_mints[2], &Key::zero()));
}

#[test]
fn open_pack_refused_for_a_foreign_rarity_table() {
    let mut accounts = opening(PackStatus::Committed, randomness_bytes(99, 120, sample_value()));
    accounts.rarity.pack = key(3);
    assert_eq!(accounts.open_pack(&key(9), 120), Err(GachaError::InvalidRarity));
    assert_eq!(accounts.user_pack.status, PackStatus::Committed);
}

#[test]
fn open_pack_refused_unless_committed() {
    for status in [PackStatus::Unopened, PackStatus::Opened] {
        let mut accounts = opening(status, randomness_bytes(99, 120, sample_value()));
        assert_eq!(accounts.open_pack(&key(9), 120), Err(GachaError::NotCommitted));
        assert_eq!(accounts.user_pack.revealed, [0; 5]);
    }
}

#[test]
fn open_pack_refused_for_another_randomness_account() {
    let mut accounts = opening(PackStatus::Committed, randomness_bytes(99, 120, sample_value()));
    accounts.randomness_account = key(6);
    assert_eq!(accounts.open_pack(&key(9), 120), Err(GachaError::InvalidRandomness));
    let mut garbled = opening(PackStatus::Committed, vec![1, 2, 3]);
    assert_eq!(garbled.open_pack(&key(9), 120), Err(GachaError::InvalidRandomness));
}

#[test]
fn open_pack_refused_for_another_seed() {
    let mut accounts = opening(PackStatus::Committed, randomness_bytes(98, 120, sample_value()));
    assert_eq!(accounts.open_pack(&key(9), 120), Err(GachaError::RandomnessExpired));
}

#[test]
fn open_pack_refused_outside_the_reveal_slot() {
    let mut accounts = opening(PackStatus::Committed, randomness_bytes(99, 120, sample_value()));
    assert_eq!(accounts.open_pack(&key(9), 121), Err(GachaError::RandomnessNotReady));
    assert_eq!(accounts.open_pack(&key(9), 119), Err(GachaError::RandomnessNotReady));
    assert_eq!(accounts.user_pack.status, PackStatus::Committed);
}

#[test]
fn a_pack_goes_from_purchase_to_opened_once() {
    let mut buy = BuyPack {
        pack: live_pack(0, 100),
        pack_key: key(2),
        user_pack: empty_user_pack(),
        treasury: key(1),
        buyer: key(4),
    };
    buy.buy_pack(1).unwrap();
    let mut commit = CommitOpen {
        buyer: key(4),
        pack: buy.pack,
        pack_key: key(2),
        user_pack: buy.user_pack,
        randomness_account: key(5),
        randomness_data: randomness_bytes(99, 120, sample_value()),
    };
    commit.commit_open(key(5), 100).unwrap();
    let mut open = OpenPack {
        buyer: key(4),
        user_pack: commit.user_pack,
        pack: commit.pack,
        pack_key: key(2),
        rarity: rarity_table(key(2)),
        randomness_account: key(5),
        randomness_data: commit.randomness_data.clone(),
    };
    open.open_pack(&key(9), 120).unwrap();
    assert_eq!(open.user_pack.status, PackStatus::Opened);
    let opened = open.user_pack;
    assert_eq!(open.open_pack(&key(9), 120), Err(GachaError::NotCommitted));
    assert_eq!(open.user_pack.revealed, opened.revealed);
    let mut recommit = CommitOpen { user_pack: opened, ..commit };
    assert_eq!(recommit.commit_open(key(5), 100), Err(GachaError::AlreadyCommitted));
}

#[test]
fn get_value_only_in_the_reveal_slot() {
    let d = RandomnessData { seed_slot: 1, reveal_slot: 5, value: [7; 32] };
    assert_eq!(d.get_value(5), Some([7; 32]));
    assert_eq!(d.get_value(4), None);
    assert_eq!(d.get_value(6), None);
}

#[test]
fn keys_compare_by_bytes() {
    assert!(key(3).same(&key(3)));
    assert!(!key(3).same(&key(4)));
    let mut k = key(3);
    k.bytes[31] = 0;
    assert!(!key(3).same(&k));
    assert_eq!(Key::zero().bytes, [0u8; 32]);
}

#[test]
fn slot_zero_is_caught_before_committing() {
    let accounts = committing(PackStatus::Unopened, randomness_bytes(99, 0, [0; 32]));
    assert!(accounts.slot_underflows(key(5), 0));
    assert!(!accounts.slot_underflows(key(5), 1));
    assert!(!accounts.slot_underflows(key(6), 0));
    let opened = committing(PackStatus::Opened, randomness_bytes(99, 0, [0; 32]));
    assert!(!opened.slot_underflows(key(5), 0));
}

#[test]
fn oversized_packs_are_caught_before_opening() {
    let mut accounts = opening(PackStatus::Committed, randomness_bytes(99, 120, sample_value()));
    assert!(!accounts.draws_overflow(120));
    accounts.pack.pack_size = 6;
    assert!(accounts.draws_overflow(120));
    assert!(!accounts.draws_overflow(121));
    accounts.pack.pack_size = 5;
    accounts.rarity.weights = [0, 0, 0, 0];
    assert!(accounts.draws_overflow(120));
    accounts.rarity.weights = [u16::MAX, 1, 0, 0];
    assert!(accounts.draws_overflow(120));
    accounts.pack.pack_size = 0;
    assert!(!accounts.draws_overflow(120));
}
