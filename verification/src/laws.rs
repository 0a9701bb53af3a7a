//! The engine's global laws, stated over the mathematical views and proved
//! once and for all.

use crate::engine::EngineView;
use crate::errors::AuctionError;
use crate::pool::MockOciPool;
use crate::types::AuctionView;
use crate::types::Bid;
use crate::types::Funds;
use crate::types::XRD;
use vstd::prelude::*;

verus! {

/// Identities are monotonic: collectible ids in the catalog and auction ids
/// in the archive strictly increase, the current auction is newer than
/// everything archived, and every id ever assigned stays below the counter
/// that the next mint or start draws from — so no id is ever reused.
pub proof fn lemma_ids_strictly_increasing(s: EngineView)
    requires
        s.wf(),
    ensures
        forall|i: int, j: int|
            0 <= i < j < s.catalog.len() ==> (#[trigger] s.catalog[i]).id
                < (#[trigger] s.catalog[j]).id,
        forall|i: int|
            0 <= i < s.catalog.len() ==> (#[trigger] s.catalog[i]).id < s.next_nft_id,
        forall|i: int, j: int|
            0 <= i < j < s.completed_auctions.len() ==> (#[trigger] s.completed_auctions[i]).id
                < (#[trigger] s.completed_auctions[j]).id,
        forall|i: int|
            0 <= i < s.completed_auctions.len() ==> (#[trigger] s.completed_auctions[i]).id
                < s.next_auction_id,
        s.current_auction matches Some(a) ==> a.id < s.next_auction_id && (forall|i: int|
            0 <= i < s.completed_auctions.len() ==> (#[trigger] s.completed_auctions[i]).id < a.id),
{
}

/// Bid monotonicity: within one auction's history, every later accepted bid
/// is strictly higher than every earlier one.
pub proof fn lemma_bid_history_strictly_increasing(a: AuctionView, i: int, j: int)
    requires
        a.wf(),
        0 <= i < j < a.bid_history.len(),
    ensures
        a.bid_history[i].amount < a.bid_history[j].amount,
    decreases j - i,
{
    if j > i + 1 {
        lemma_bid_history_strictly_increasing(a, i, j - 1);
    }
}

/// Bid monotonicity, margin half: a bid is only ever accepted when its
/// amount exceeds the highest bid so far — zero before the first bid — by
/// at least the minimum increase.
pub proof fn lemma_accepted_bid_margin(
    s: EngineView,
    pool: MockOciPool,
    payment: Funds,
    account_authorized: bool,
    now: u64,
)
    requires
        s.bid_error(pool, payment, account_authorized, now) is None,
    ensures
        s.current_auction matches Some(a),
        payment.amount >= (s.current_auction->Some_0).highest_bid_or_zero()
            + s.minimum_bid_increase,
{
}

/// The first-bid floor: a first bid of the bid currency below
/// `minimum_bid_increase` — in particular one subunit below — is always
/// refused as too low, and, while the auction is open, one of at least
/// `minimum_bid_increase` — in particular exactly it — is always accepted.
/// (A first bid on an already ended auction is accepted too, but settles at
/// once, so its acceptance also needs a solvent exchange pool.)
pub proof fn lemma_first_bid_floor(s: EngineView, pool: MockOciPool, payment: Funds, now: u64)
    requires
        s.wf(),
        s.current_auction matches Some(a) && a.highest_bidder is None,
        payment.resource == XRD,
    ensures
        payment.amount < s.minimum_bid_increase ==> s.bid_error(pool, payment, true, now) == Some(
            AuctionError::BidTooLow,
        ),
        payment.amount >= s.minimum_bid_increase && now < (
        s.current_auction->Some_0).end_timestamp ==> s.bid_error(pool, payment, true, now) is None,
{
}

/// An accepted bid never moves the end of the auction backward: after any
/// bid, `end_timestamp` is at least what it was before.
pub proof fn lemma_extension_monotonic(a: AuctionView, b: Bid, now: u64, buffer_minutes: u64)
    requires
        now + 60 * buffer_minutes <= u64::MAX,
    ensures
        a.after_bid(b, now, buffer_minutes).end_timestamp >= a.end_timestamp,
{
}

/// Archive immutability: as long as operations only append to the archive —
/// which every operation's contract states — the snapshot stored under an
/// archived auction id never changes.
pub proof fn lemma_archive_immutable(pre: EngineView, post: EngineView, id: u64)
    requires
        pre.wf(),
        post.wf(),
        pre.completed_auctions.is_prefix_of(post.completed_auctions),
        pre.archive_lookup(id) is Some,
    ensures
        post.archive_lookup(id) == pre.archive_lookup(id),
{
    let i = choose|i: int|
        0 <= i < pre.completed_auctions.len() && (#[trigger] pre.completed_auctions[i]).id == id;
    assert(post.completed_auctions[i] == pre.completed_auctions[i]);
    let j = choose|j: int|
        0 <= j < post.completed_auctions.len() && (#[trigger] post.completed_auctions[j]).id == id;
    if i < j {
        assert(post.completed_auctions[i].id < post.completed_auctions[j].id);
    }
    if j < i {
        assert(post.completed_auctions[j].id < post.completed_auctions[i].id);
    }
    assert(j == i);
}

} // verus!
