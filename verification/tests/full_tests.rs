use piers_rugyard::engine::PiersRugyard;
use piers_rugyard::pool::MockOciPool;
use piers_rugyard::types::Asset;
use piers_rugyard::types::Funds;
use piers_rugyard::types::NFT;
use piers_rugyard::types::SUBUNITS_PER_UNIT;
use piers_rugyard::types::XRD;

const ONE: u128 = SUBUNITS_PER_UNIT;
const EARLY_RESOURCE: u64 = 3;
const OWNER_RESOURCE: u64 = 4;
const DOMAIN_RESOURCE: u64 = 5;
const POOL_ADDRESS: u64 = 6;
const T0: u64 = 1_000_000;
const ACCOUNT1: u64 = 101;
const ACCOUNT2: u64 = 102;
const ACCOUNT3: u64 = 103;

fn xrd(units: u128) -> Funds {
    Funds { resource: XRD, amount: units * ONE }
}

/// An engine with duration 360, buffer 5 and minimum increase 50, eighty
/// minted collectibles, the system enabled and the first auction running.
fn prepared() -> (PiersRugyard, MockOciPool) {
    let pool = MockOciPool::instantiate(
        Funds { resource: XRD, amount: 100_000 * ONE },
        Funds { resource: EARLY_RESOURCE, amount: 100_000 * ONE },
    );
    let mut engine = PiersRugyard::instantiate(
        360,
        5,
        50 * ONE,
        OWNER_RESOURCE,
        POOL_ADDRESS,
        EARLY_RESOURCE,
        DOMAIN_RESOURCE,
    );
    let mut nfts = vec![];
    for i in 0..80 {
        nfts.push(NFT {
            key_image_url: "https://www.google.com".to_string(),
            name: format!("My NFT {i}"),
        });
    }
    engine.mint_nfts(nfts, true).unwrap();
    engine.flip_status(true).unwrap();
    engine.start_new_auction(T0).unwrap();
    (engine, pool)
}

#[test]
fn tests_can_instantiate() {
    let (_, _) = prepared();
}

#[test]
fn perform_complete_auction() {
    let (mut engine, mut pool) = prepared();

    // Place bid with account 1
    let outcome1 = engine
        .bid(&mut pool, xrd(50), ACCOUNT1, true, 1, T0)
        .unwrap();
    assert!(outcome1.deliveries.is_empty());

    // Place bid with account 2; account 1 gets their bid back
    let outcome2 = engine
        .bid(&mut pool, xrd(100), ACCOUNT2, true, 2, T0)
        .unwrap();
    assert_eq!(outcome2.deliveries.len(), 1);
    assert_eq!(outcome2.deliveries[0].recipient, ACCOUNT1);
    assert!(
        matches!(
            outcome2.deliveries[0].asset,
            Asset::Fungible(f) if f.resource == XRD && f.amount == 50 * ONE
        ),
        "Account 1 balance incorrect"
    );

    // Place bid with account 3; account 2 gets their bid back
    let outcome3 = engine
        .bid(&mut pool, xrd(150), ACCOUNT3, true, 3, T0)
        .unwrap();
    assert_eq!(outcome3.deliveries.len(), 1);
    assert_eq!(outcome3.deliveries[0].recipient, ACCOUNT2);
    assert!(
        matches!(
            outcome3.deliveries[0].asset,
            Asset::Fungible(f) if f.resource == XRD && f.amount == 100 * ONE
        ),
        "Account 2 balance incorrect"
    );

    // Forward time to end the auction, settle with account 1
    let end_timestamp = engine.get_current_auction().unwrap().end_timestamp;
    let settled = engine
        .settle_auction(&mut pool, ACCOUNT1, true, end_timestamp)
        .unwrap();

    // Account 3 got the NFT through the delivery channel
    assert!(settled.item.is_none());
    assert_eq!(settled.deliveries.len(), 1);
    assert_eq!(settled.deliveries[0].recipient, ACCOUNT3, "Did not get NFT");
    assert!(matches!(
        settled.deliveries[0].asset,
        Asset::NonFungible(it) if it.id == 1
    ));

    // Account 1 got the settlement reward of 7.5
    assert_eq!(
        settled.reward.amount,
        7_500_000_000_000_000_000,
        "Did not get settlement reward"
    );
    assert_eq!(settled.reward.resource, XRD);

    // Check profit: the remaining 142.5 were converted one-for-one
    let profit_amount = engine.get_profit_amount();
    assert_eq!(profit_amount, 142_500_000_000_000_000_000);

    // Withdraw profit
    let profits = engine.withdraw_profits(true).unwrap();
    assert_eq!(profits.resource, EARLY_RESOURCE);
    assert_eq!(
        profits.amount, profit_amount,
        "Did not withdraw profit succesfully"
    );
    assert_eq!(engine.get_profit_amount(), 0);
}

#[test]
fn perform_massive_auction_cost_test() {
    let (mut engine, mut pool) = prepared();

    let mut now = T0;
    for _ in 0..80 {
        // Nine rising bids, each one minimum increase over the last
        for i in 1..10u64 {
            let bid_amount = (i as u128) * 50;
            engine
                .bid(&mut pool, xrd(bid_amount), ACCOUNT2, true, i, now)
                .unwrap();
        }
        let auction = engine.get_current_auction().unwrap();
        assert_eq!(auction.bid_count, 9);
        // Forward time to end the auction and settle; the next auction
        // starts within the same call while inventory remains
        now = auction.end_timestamp;
        engine
            .settle_auction(&mut pool, ACCOUNT2, true, now)
            .unwrap();
    }
    assert!(engine.get_current_auction().is_none());
    assert_eq!(engine.completed_auctions.len(), 80);
    assert!(engine.available_nfts_list.is_empty());
}
