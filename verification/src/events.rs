//! Observable notifications. Each operation returns, in order, the events it
//! emits; they are one-way and carry snapshots of the state at emission time.

use crate::types::Auction;
use crate::types::Bid;
use crate::types::NFT;
use vstd::prelude::*;

verus! {

/// One collectible was minted into the inventory.
#[derive(Debug)]
pub struct PiersRugyardMinted {
    pub id: u64,
    pub nft_data: NFT,
}

/// A new auction was opened; the payload is the fresh auction.
#[derive(Debug)]
pub struct PiersRugyardAuctionStarted {
    pub auction: Auction,
}

/// An ended auction was settled; the payload is the auction as it stood when
/// settlement began.
#[derive(Debug)]
pub struct PiersRugyardAuctionSettled {
    pub auction: Auction,
}

/// A bid was recorded; the payload holds the bid and the auction snapshot
/// taken right after the bid entered the history, before validation of its
/// amount or timing.
#[derive(Debug)]
pub struct PiersRugyardAuctionBid {
    pub auction: Auction,
    pub bid: Bid,
}

/// Settlement proceeds were converted through the exchange pool: the amount
/// of bid currency sent and the amount of settlement asset received.
#[derive(Debug)]
pub struct PiersRugyardEarlyBuy {
    pub xrd_amount: u128,
    pub early_amount: u128,
}

/// Any notification of the engine, in the order emitted.
#[derive(Debug)]
pub enum Event {
    Minted(PiersRugyardMinted),
    AuctionStarted(PiersRugyardAuctionStarted),
    AuctionSettled(PiersRugyardAuctionSettled),
    AuctionBid(PiersRugyardAuctionBid),
    EarlyBuy(PiersRugyardEarlyBuy),
}

} // verus!
