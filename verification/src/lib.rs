//! A timed English-auction engine with escrow custody.
//!
//! The engine auctions collectibles from an inventory queue one at a time,
//! accepts strictly increasing bids with an anti-snipe time extension, and on
//! settlement delivers the sold item, pays a settlement reward, and converts
//! the remaining proceeds through an exchange pool.
//!
//! All state lives in plain values: amounts are fixed-point subunits,
//! identities and timestamps are integers, and the wall clock, caller
//! authorization and the deferred-delivery channel are supplied by the caller
//! as arguments and returned as explicit outputs, so that every rule of the
//! engine is stated in contracts and proved.

pub mod engine;
pub mod errors;
pub mod events;
pub mod laws;
pub mod pool;
pub mod types;
