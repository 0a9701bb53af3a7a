//! The failure taxonomy of the engine. Every operation is atomic pass/fail:
//! an error leaves all state exactly as it was.

use vstd::prelude::*;

verus! {

/// Why an operation was refused.
#[derive(Clone, Copy, Debug, PartialEq, Eq, Structural)]
pub enum AuctionError {
    /// A start was attempted while an auction is current.
    AuctionAlreadyActive,
    /// A bid or settlement was attempted with no current auction.
    NoAuctionActive,
    /// A start was attempted while the auction system is disabled.
    AuctionsDisabled,
    /// A start was attempted with nothing pending in the inventory.
    NoItemsAvailable,
    /// A bid was paid in a resource other than the bid currency.
    WrongAssetKind,
    /// A bid did not exceed the highest bid by the minimum increase.
    BidTooLow,
    /// A new auction duration was zero or did not exceed the buffer.
    DurationOutOfRange,
    /// A new anti-snipe buffer was zero or not below the duration.
    BufferOutOfRange,
    /// A new minimum bid increase was zero.
    IncreaseOutOfRange,
    /// A settlement was attempted before the auction's end time.
    AuctionNotEnded,
    /// A bid other than the first arrived at or after the end time.
    AuctionEnded,
    /// A settlement was attempted on an auction without bids.
    NoBidsPlaced,
    /// No archived auction has the requested id.
    AuctionNotFound,
    /// The requested item is not in the pending inventory.
    ItemNotAvailable,
    /// The requested item is the current auction's item.
    ItemUnderAuction,
    /// The caller lacks the required role or does not own the claimed
    /// identity.
    NotAuthorized,
    /// The proceeds-conversion stage could not complete: the exchange pool
    /// refused the swap, or the returned funds could not be deposited.
    ExchangeFailed,
}

} // verus!
