use piers_rugyard::pool::MockOciPool;
use piers_rugyard::engine::PiersRugyard;
use piers_rugyard::errors::AuctionError;
use piers_rugyard::types::Funds;
use piers_rugyard::types::Item;
use piers_rugyard::types::NFT;
use piers_rugyard::types::NFT_RESOURCE;
use piers_rugyard::types::SUBUNITS_PER_UNIT;
use piers_rugyard::types::XRD;

const ONE: u128 = SUBUNITS_PER_UNIT;
const EARLY_RESOURCE: u64 = 3;
const OWNER_RESOURCE: u64 = 4;
const DOMAIN_RESOURCE: u64 = 5;
const POOL_ADDRESS: u64 = 6;
const T0: u64 = 1_000_000;
const ACCOUNT1: u64 = 101;
const ACCOUNT2: u64 = 102;

fn nft(url: &str, name: &str) -> NFT {
    NFT { key_image_url: url.to_string(), name: name.to_string() }
}

fn xrd(units: u128) -> Funds {
    Funds { resource: XRD, amount: units * ONE }
}

fn new_pool() -> MockOciPool {
    MockOciPool::instantiate(
        Funds { resource: XRD, amount: 100_000_000 * ONE },
        Funds { resource: EARLY_RESOURCE, amount: 100_000_000 * ONE },
    )
}

/// An engine with duration 360, buffer 5 and minimum increase 50, two minted
/// collectibles and the auction system enabled.
fn prepared() -> (PiersRugyard, MockOciPool) {
    let pool = new_pool();
    let mut engine = PiersRugyard::instantiate(
        360,
        5,
        50 * ONE,
        OWNER_RESOURCE,
        POOL_ADDRESS,
        EARLY_RESOURCE,
        DOMAIN_RESOURCE,
    );
    engine
        .mint_nfts(
            vec![
                nft("https://www.google.com/", "My NFT!"),
                nft("https://www.google.com/2", "My NFT 2!"),
            ],
            true,
        )
        .unwrap();
    engine.flip_status(true).unwrap();
    (engine, pool)
}

#[test]
fn can_instantiate() {
    let (_, _) = prepared();
}

#[test]
fn can_mint_nft() {
    let (mut engine, _) = prepared();
    let available_nfts_count = engine.available_nfts_list.len();
    let nft_count = engine.catalog.len();

    engine
        .mint_nfts(vec![nft("https://www.google.com/", "My NFT!")], true)
        .unwrap();

    assert!(
        engine.available_nfts_list.len() - available_nfts_count == 1,
        "Available NFT count did not increase by 1"
    );
    assert!(
        engine.catalog.len() - nft_count == 1,
        "NFT supply did not increase by 1"
    );
}

#[test]
fn cannot_mint_nft_without_owner() {
    let (mut engine, _) = prepared();
    let result = engine.mint_nfts(vec![nft("https://www.google.com/", "My NFT!")], false);
    assert!(result.is_err(), "Could mint NFT without owner badge!");
}

#[test]
fn can_switch_auction_status() {
    let (mut engine, _) = prepared();
    let active = engine.active;
    engine.flip_status(true).unwrap();
    assert!(engine.active != active, "Could not switch auction status");
}

#[test]
fn cannot_switch_auction_status_without_owner() {
    let (mut engine, _) = prepared();
    let result = engine.flip_status(false);
    assert!(
        result.is_err(),
        "Could switch auction status without owner badge"
    );
}

#[test]
fn can_delete_nft() {
    let (mut engine, _) = prepared();
    let available_nfts_count = engine.available_nfts_list.len();
    let nft_count = engine.catalog.len();
    let local_id_to_delete: u64 = 1;

    engine.delete_nft(local_id_to_delete, true).unwrap();

    assert!(
        available_nfts_count - engine.available_nfts_list.len() == 1,
        "Available NFT count did not decrease by 1"
    );
    assert!(
        nft_count - engine.catalog.len() == 1,
        "NFT supply did not increase by 1"
    );
    assert!(
        !engine.available_nfts_list.contains(&local_id_to_delete),
        "NFT is still in the list of available NFTs"
    );
    assert!(
        engine.catalog.iter().all(|entry| entry.id != local_id_to_delete),
        "Was able to get NFT data for id"
    );
}

#[test]
fn cannot_delete_nft_without_owner() {
    let (mut engine, _) = prepared();
    let result = engine.delete_nft(1, false);
    assert!(result.is_err(), "Could delete NFT without owner badge!");
}

#[test]
fn can_update_pool_address() {
    let (mut engine, _) = prepared();
    let old_pool_address = engine.early_pool;
    let new_address: u64 = old_pool_address + 1;

    engine.update_pool_address(new_address, true).unwrap();

    assert!(
        engine.early_pool != old_pool_address,
        "New and old pool address are the same!"
    );
    assert!(
        engine.early_pool == new_address,
        "Pool address was not updated to new one!"
    );
}

#[test]
fn cannot_update_pool_address_without_owner() {
    let (mut engine, _) = prepared();
    let result = engine.update_pool_address(engine.early_pool + 1, false);
    assert!(
        result.is_err(),
        "Could change pool address without owner badge!"
    );
}

#[test]
fn can_update_auction_duration() {
    let (mut engine, _) = prepared();
    let old_auction_duration = engine.auction_duration_minutes;

    engine
        .update_auction_duration(old_auction_duration + 5, true)
        .unwrap();

    assert!(
        engine.auction_duration_minutes == old_auction_duration + 5,
        "Auction duration has not changed!"
    );
}

#[test]
fn cannot_update_auction_duration_shorter_than_auction_buffer() {
    let (mut engine, _) = prepared();
    let auction_buffer = engine.auction_buffer_minutes;
    let result = engine.update_auction_duration(auction_buffer - 1, true);
    assert!(
        result.is_err(),
        "Was able to set auction duration lower than auction buffer!"
    );
}

#[test]
fn cannot_update_auction_duration_to_zero() {
    let (mut engine, _) = prepared();
    let result = engine.update_auction_duration(0, true);
    assert!(result.is_err(), "Was able to set auction duration to 0!");
}

#[test]
fn cannot_update_auction_duration_without_owner() {
    let (mut engine, _) = prepared();
    let old_auction_duration = engine.auction_duration_minutes;
    let result = engine.update_auction_duration(old_auction_duration + 5, false);
    assert!(
        result.is_err(),
        "Could change auction duration without owner badge!"
    );
}

#[test]
fn can_update_auction_buffer() {
    let (mut engine, _) = prepared();
    let old_auction_buffer = engine.auction_buffer_minutes;

    engine
        .update_auction_buffer(old_auction_buffer - 1, true)
        .unwrap();

    assert!(
        engine.auction_buffer_minutes == old_auction_buffer - 1,
        "Auction buffer has not changed!"
    );
}

#[test]
fn cannot_update_auction_buffer_longer_than_auction_duration() {
    let (mut engine, _) = prepared();
    let auction_duration = engine.auction_duration_minutes;
    let result = engine.update_auction_buffer(auction_duration + 1, true);
    assert!(
        result.is_err(),
        "Could set auction buffer longer than auction duration!"
    );
}

#[test]
fn cannot_update_auction_buffer_to_zero() {
    let (mut engine, _) = prepared();
    let result = engine.update_auction_buffer(0, true);
    assert!(result.is_err(), "Could set auction buffer to zero!");
}

#[test]
fn cannot_update_auction_buffer_without_owner() {
    let (mut engine, _) = prepared();
    let old_auction_buffer = engine.auction_buffer_minutes;
    let result = engine.update_auction_buffer(old_auction_buffer - 1, false);
    assert!(
        result.is_err(),
        "Could change auction buffer without owner badge!"
    );
}

#[test]
fn can_update_minimum_bid_increase() {
    let (mut engine, _) = prepared();
    let old_minimum_bid_increase = engine.minimum_bid_increase;

    engine
        .update_minimum_bid_increase(old_minimum_bid_increase + 25 * ONE, true)
        .unwrap();

    assert!(
        engine.minimum_bid_increase == old_minimum_bid_increase + 25 * ONE,
        "Minimum bid incease has not changed!"
    );
}

#[test]
fn cannot_update_minimum_bid_increase_to_zero() {
    let (mut engine, _) = prepared();
    let result = engine.update_minimum_bid_increase(0, true);
    assert!(result.is_err(), "Minimum bid incease was changed to 0!");
}

#[test]
fn cannot_update_minimum_bid_increase_without_owner() {
    let (mut engine, _) = prepared();
    let old_minimum_bid_increase = engine.minimum_bid_increase;
    let result = engine.update_minimum_bid_increase(old_minimum_bid_increase + 25 * ONE, false);
    assert!(
        result.is_err(),
        "Minimum bid increase was changed without an owner badge!"
    );
}

#[test]
fn can_settle_auction_after_auction_ended() {
    let (mut engine, mut pool) = prepared();
    engine.start_new_auction(T0).unwrap();
    engine
        .bid(&mut pool, xrd(1000), ACCOUNT1, true, 1, T0)
        .unwrap();

    let current_auction = engine
        .get_current_auction()
        .expect("No active auction");
    let settle_time = current_auction.end_timestamp + 60;

    let result = engine.settle_auction(&mut pool, ACCOUNT1, true, settle_time);
    assert!(result.is_ok(), "Could not settle auction!");
}

#[test]
fn can_settle_auction_after_auction_ended_with_no_new_nfts() {
    let (mut engine, mut pool) = prepared();
    engine.delete_nft(2, true).unwrap(); // Only 1 NFT left after this
    engine.start_new_auction(T0).unwrap();
    engine
        .bid(&mut pool, xrd(1000), ACCOUNT1, true, 1, T0)
        .unwrap();

    let current_auction = engine
        .get_current_auction()
        .expect("No active auction");
    let settle_time = current_auction.end_timestamp + 60;

    let result = engine.settle_auction(&mut pool, ACCOUNT1, true, settle_time);
    assert!(result.is_ok(), "Could not settle auction!");
    assert!(engine.get_current_auction().is_none());
}

#[test]
fn cannot_settle_auction_before_auction_ended() {
    let (mut engine, mut pool) = prepared();
    engine.start_new_auction(T0).unwrap();
    engine
        .bid(&mut pool, xrd(1000), ACCOUNT1, true, 1, T0)
        .unwrap();

    let current_auction = engine
        .get_current_auction()
        .expect("No active auction");
    let settle_time = current_auction.end_timestamp - 60;

    let result = engine.settle_auction(&mut pool, ACCOUNT1, true, settle_time);
    assert!(result.is_err(), "Could settle auction before endtime!");
}

#[test]
fn cannot_settle_auction_without_bids() {
    let (mut engine, mut pool) = prepared();
    engine.start_new_auction(T0).unwrap();

    let current_auction = engine
        .get_current_auction()
        .expect("No active auction");
    let settle_time = current_auction.end_timestamp + 60;

    let result = engine.settle_auction(&mut pool, ACCOUNT1, true, settle_time);
    assert!(result.is_err(), "Could settle auction without bids!");
}

#[test]
fn can_withdraw_profits() {
    let (mut engine, mut pool) = prepared();
    engine.start_new_auction(T0).unwrap();
    engine
        .bid(&mut pool, xrd(1000), ACCOUNT1, true, 1, T0)
        .unwrap();

    let current_auction = engine
        .get_current_auction()
        .expect("No active auction");
    let settle_time = current_auction.end_timestamp + 60;
    engine
        .settle_auction(&mut pool, ACCOUNT1, true, settle_time)
        .unwrap();

    let profits = engine.withdraw_profits(true).unwrap();
    assert!(profits.amount > 0, "Profits not higher than 0!");
}

#[test]
fn can_bid_active_auction() {
    let (mut engine, mut pool) = prepared();
    engine.start_new_auction(T0).unwrap();

    let result = engine.bid(&mut pool, xrd(1000), ACCOUNT1, true, 1, T0);

    let current_auction = engine
        .get_current_auction()
        .expect("No active auction");
    assert!(result.is_ok(), "Could not bid on active auction");
    assert!(
        current_auction.highest_bid.unwrap() == 1000 * ONE,
        "Highest bid was not 1000"
    );
}

#[test]
fn cannot_bid_below_minimum_bid_amount() {
    let (mut engine, mut pool) = prepared();
    let minimum_bid_increase = engine.minimum_bid_increase;
    engine.start_new_auction(T0).unwrap();

    // Bid below the minimum increase
    let payment = Funds { resource: XRD, amount: minimum_bid_increase - 1 };
    let result = engine.bid(&mut pool, payment, ACCOUNT1, true, 1, T0);

    assert!(result.is_err(), "Could bid below minimum bid increase");
}

#[test]
fn cannot_bid_same_as_highest_bid() {
    let (mut engine, mut pool) = prepared();
    engine.start_new_auction(T0).unwrap();

    engine
        .bid(&mut pool, xrd(1000), ACCOUNT1, true, 1, T0)
        .unwrap();
    let result = engine.bid(&mut pool, xrd(1000), ACCOUNT2, true, 2, T0);

    assert!(result.is_err(), "Could bid the same as current highest bid");
}

#[test]
fn cannot_bid_lower_than_highest_bid() {
    let (mut engine, mut pool) = prepared();
    engine.start_new_auction(T0).unwrap();

    engine
        .bid(&mut pool, xrd(1000), ACCOUNT1, true, 1, T0)
        .unwrap();
    let result = engine.bid(&mut pool, xrd(990), ACCOUNT2, true, 2, T0);

    assert!(result.is_err(), "Could bid below current highest bid");
}

#[test]
fn can_bid_ended_auction_without_bids() {
    let (mut engine, mut pool) = prepared();
    engine.start_new_auction(T0).unwrap();

    let current_auction = engine
        .get_current_auction()
        .expect("No active auction");
    // Move time past the end time
    let bid_time = current_auction.end_timestamp + 3600;

    let result = engine.bid(&mut pool, xrd(1000), ACCOUNT1, true, 1, bid_time);
    assert!(result.is_ok(), "Could not bid on ended auction without bids");

    // The first bid on an ended auction wins and settles it at once: the bid
    // is archived as the auction's highest, the bidder takes the item and
    // the settlement reward, and the next auction opens.
    let outcome = result.unwrap();
    assert!(outcome.reward.is_some(), "Did not get settlement reward");
    assert_eq!(outcome.item, Some(Item { resource: NFT_RESOURCE, id: 1 }));
    let archived = engine.get_completed_auction(1).unwrap();
    assert!(
        archived.highest_bid.unwrap() == 1000 * ONE,
        "Highest bid was not 1000"
    );
    assert!(engine.get_current_auction().is_some(), "No active auction");
}

#[test]
fn cannot_bid_after_auction_end_with_existing_bids() {
    let (mut engine, mut pool) = prepared();
    engine.start_new_auction(T0).unwrap();

    engine
        .bid(&mut pool, xrd(1000), ACCOUNT1, true, 1, T0)
        .unwrap(); // Bid 1
    let current_auction = engine
        .get_current_auction()
        .expect("No active auction");
    // Move time past the end time
    let bid_time = current_auction.end_timestamp + 3600;
    let result = engine.bid(&mut pool, xrd(1500), ACCOUNT2, true, 2, bid_time); // Bid 2

    assert!(result.is_err(), "Could bid on ended auction with active bids");
    assert_eq!(result.unwrap_err(), AuctionError::AuctionEnded);
}

#[test]
fn active_auction_is_extended() {
    let (mut engine, mut pool) = prepared();
    engine.start_new_auction(T0).unwrap();

    let current_auction = engine
        .get_current_auction()
        .expect("No active auction");
    let time_buffer = engine.auction_buffer_minutes;
    // Set time within the time buffer
    let bid_time = current_auction.end_timestamp - (time_buffer - 1) * 60;
    // This ends up being (previous endtime + 1 minute)
    let new_end_timestamp = bid_time + time_buffer * 60;

    engine
        .bid(&mut pool, xrd(1000), ACCOUNT1, true, 1, bid_time)
        .unwrap();

    let current_auction = engine
        .get_current_auction()
        .expect("No active auction");
    assert!(
        current_auction.end_timestamp == new_end_timestamp,
        "End timestamp was not changed"
    );
}
