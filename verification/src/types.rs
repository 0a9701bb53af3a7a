//! Core data types: assets, bids, auctions and their mathematical views.

use vstd::prelude::*;

verus! {

/// Resource identity of the bid currency. Every bid must be paid in it.
pub const XRD: u64 = 0;

/// Resource identity of the auctioned collection: every minted collectible
/// belongs to this resource.
pub const NFT_RESOURCE: u64 = 1;

/// Amounts are fixed-point values with 18 decimal places: one whole token of
/// any fungible resource is this many subunits.
pub const SUBUNITS_PER_UNIT: u128 = 1_000_000_000_000_000_000;

/// A quantity of one fungible resource, as moved between vaults and parties.
#[derive(Clone, Copy, Debug, PartialEq, Eq, Structural)]
pub struct Funds {
    pub resource: u64,
    pub amount: u128,
}

/// A single identified non-fungible item of one resource.
#[derive(Clone, Copy, Debug, PartialEq, Eq, Structural)]
pub struct Item {
    pub resource: u64,
    pub id: u64,
}

/// An asset in transit: either fungible funds or one non-fungible item.
#[derive(Clone, Copy, Debug, PartialEq, Eq, Structural)]
pub enum Asset {
    Fungible(Funds),
    NonFungible(Item),
}

/// One deposit into the deferred-delivery channel: the engine hands assets
/// addressed to parties other than the caller to this channel, which holds
/// them until claimed.
#[derive(Clone, Copy, Debug, PartialEq, Eq, Structural)]
pub struct Delivery {
    pub recipient: u64,
    pub asset: Asset,
}

/// Catalog metadata of one collectible.
#[derive(Debug)]
pub struct NFT {
    pub key_image_url: String,
    pub name: String,
}

impl NFT {
    /// An explicit copy whose equality to the original is known to the verifier.
    pub fn dup(&self) -> (r: NFT)
        ensures
            r == *self,
    {
        NFT { key_image_url: self.key_image_url.clone(), name: self.name.clone() }
    }
}

/// One minted, not yet burned collectible: its identity and its metadata.
#[derive(Debug)]
pub struct NftEntry {
    pub id: u64,
    pub data: NFT,
}

/// An immutable record of one accepted bid.
#[derive(Clone, Copy, Debug, PartialEq, Eq, Structural)]
pub struct Bid {
    pub amount: u128,
    pub bidder: u64,
    pub timestamp: u64,
    pub transaction_hash: u64,
}

/// Copies a bid history element by element; bids are plain values, so the
/// copy's view equals the original's.
pub fn copy_bids(v: &Vec<Bid>) -> (r: Vec<Bid>)
    ensures
        r@ == v@,
{
    let mut r: Vec<Bid> = Vec::new();
    let n: usize = v.len();
    let mut i: usize = 0;
    while i < n
        invariant
            n == v.len(),
            i <= n,
            r@ == v@.subrange(0, i as int),
        decreases n - i,
    {
        r.push(v[i]);
        i = i + 1;
    }
    proof {
        assert(r@ == v@.subrange(0, n as int));
        assert(v@.subrange(0, n as int) == v@);
    }
    r
}

/// The unit of sale: one item under the hammer, with its timing, its current
/// highest bid and the full history of accepted bids.
#[derive(Debug)]
pub struct Auction {
    pub id: u64,
    pub start_timestamp: u64,
    pub end_timestamp: u64,
    pub nft: u64,
    pub highest_bid: Option<u128>,
    pub highest_bidder: Option<u64>,
    pub bid_count: u64,
    pub bid_history: Vec<Bid>,
}

/// The mathematical value of an [`Auction`]: the same fields with the bid
/// history as a sequence.
#[verifier::ext_equal]
pub struct AuctionView {
    pub id: u64,
    pub start_timestamp: u64,
    pub end_timestamp: u64,
    pub nft: u64,
    pub highest_bid: Option<u128>,
    pub highest_bidder: Option<u64>,
    pub bid_count: u64,
    pub bid_history: Seq<Bid>,
}

impl View for Auction {
    type V = AuctionView;

    open spec fn view(&self) -> AuctionView {
        AuctionView {
            id: self.id,
            start_timestamp: self.start_timestamp,
            end_timestamp: self.end_timestamp,
            nft: self.nft,
            highest_bid: self.highest_bid,
            highest_bidder: self.highest_bidder,
            bid_count: self.bid_count,
            bid_history: self.bid_history@,
        }
    }
}

impl Auction {
    /// An explicit copy with the same view, used for event payloads and for
    /// archive snapshots.
    pub fn snapshot(&self) -> (r: Auction)
        ensures
            r@ == self@,
    {
        Auction {
            id: self.id,
            start_timestamp: self.start_timestamp,
            end_timestamp: self.end_timestamp,
            nft: self.nft,
            highest_bid: self.highest_bid,
            highest_bidder: self.highest_bidder,
            bid_count: self.bid_count,
            bid_history: copy_bids(&self.bid_history),
        }
    }
}

impl AuctionView {
    /// The amount a new bid must outbid: the highest bid so far, or zero
    /// before the first bid.
    pub open spec fn highest_bid_or_zero(self) -> u128 {
        match self.highest_bid {
            Some(h) => h,
            None => 0,
        }
    }

    /// Internal consistency of one auction: its clock interval is non-empty,
    /// the bid counter counts the history, the highest bid and bidder are the
    /// last accepted bid's, and accepted amounts strictly increase.
    pub open spec fn wf(self) -> bool {
        &&& self.start_timestamp < self.end_timestamp
        &&& self.bid_count == self.bid_history.len()
        &&& (self.highest_bid is Some <==> self.highest_bidder is Some)
        &&& (self.highest_bid is Some <==> self.bid_history.len() > 0)
        &&& (self.bid_history.len() > 0 ==> {
            &&& self.highest_bid == Some(self.bid_history.last().amount)
            &&& self.highest_bidder == Some(self.bid_history.last().bidder)
        })
        &&& (forall|i: int|
            0 <= i < self.bid_history.len() - 1 ==> (#[trigger] self.bid_history[i]).amount
                < self.bid_history[i + 1].amount)
    }

    /// The auction as it looks the moment a bid is recorded into history,
    /// before any validation, extension or commit of the amount.
    pub open spec fn recorded(self, b: Bid) -> AuctionView {
        AuctionView {
            bid_count: (self.bid_count + 1) as u64,
            bid_history: self.bid_history.push(b),
            ..self
        }
    }

    /// The end of the auction after the anti-snipe rule: a bid landing within
    /// the buffer of a still-open auction pushes the end forward to the bid
    /// time plus the buffer; the end never moves backward.
    pub open spec fn extended_end(self, now: u64, buffer_minutes: u64) -> u64 {
        if now + 60 * buffer_minutes >= self.end_timestamp && now < self.end_timestamp {
            (now + 60 * buffer_minutes) as u64
        } else {
            self.end_timestamp
        }
    }

    /// The auction after one accepted bid: the bid is recorded, the end time
    /// is extended if the bid was late, and the bid becomes the highest.
    pub open spec fn after_bid(self, b: Bid, now: u64, buffer_minutes: u64) -> AuctionView {
        AuctionView {
            end_timestamp: self.extended_end(now, buffer_minutes),
            highest_bid: Some(b.amount),
            highest_bidder: Some(b.bidder),
            ..self.recorded(b)
        }
    }
}

} // verus!
