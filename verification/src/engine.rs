//! The auction engine: lifecycle state machine, bid acceptor, settlement
//! engine and inventory manager over one shared state.

use crate::errors::AuctionError;
use crate::events::Event;
use crate::events::PiersRugyardAuctionBid;
use crate::events::PiersRugyardAuctionSettled;
use crate::events::PiersRugyardAuctionStarted;
use crate::events::PiersRugyardEarlyBuy;
use crate::events::PiersRugyardMinted;
use crate::pool::MockOciPool;
use crate::types::copy_bids;
use crate::types::Asset;
use crate::types::Auction;
use crate::types::AuctionView;
use crate::types::Bid;
use crate::types::Delivery;
use crate::types::Funds;
use crate::types::Item;
use crate::types::NftEntry;
use crate::types::NFT;
use crate::types::NFT_RESOURCE;
use crate::types::XRD;
use vstd::prelude::*;

verus! {

/// The engine's whole state.
///
/// Custody is part of this state: the item vault's content is exactly the
/// pending inventory plus the current auction's item, and the highest-bid
/// vault's content is exactly [`EngineView::escrow_amount`], so neither needs
/// a field of its own. The deferred-delivery channel and the wall clock are
/// outside the engine: deliveries are returned as explicit outputs and the
/// current time is an argument of each operation.
pub struct PiersRugyard {
    /// Address of the exchange pool that settlement proceeds are swapped
    /// through; the caller resolves it to the pool it passes to `bid` and
    /// `settle_auction`.
    pub early_pool: u64,
    /// Resource identity of the settlement asset received from the pool.
    pub early_address: u64,
    /// Identity of the owner credential, recorded at instantiation.
    pub owner_resource: u64,
    /// Resource identity accepted by the domain vault.
    pub xrd_domain_resource: u64,
    /// Length of a fresh auction, in minutes.
    pub auction_duration_minutes: u64,
    /// Anti-snipe buffer, in minutes.
    pub auction_buffer_minutes: u64,
    /// Least amount by which a bid must exceed the highest bid.
    pub minimum_bid_increase: u128,
    /// Whether new auctions may start.
    pub active: bool,
    /// Identity the next minted collectible receives.
    pub next_nft_id: u64,
    /// Identity the next auction receives.
    pub next_auction_id: u64,
    /// Every minted, not yet burned collectible with its metadata.
    pub catalog: Vec<NftEntry>,
    /// Identities of the collectibles awaiting auction, oldest minted first.
    pub available_nfts_list: Vec<u64>,
    /// The at most one auction in progress.
    pub current_auction: Option<Auction>,
    /// Snapshots of settled auctions, in settlement order, keyed by their id.
    pub completed_auctions: Vec<Auction>,
    /// Settlement-asset subunits accumulated and not yet withdrawn.
    pub early_vault: u128,
    /// Settlement-asset subunits ever received from the pool.
    pub total_early_bought: u128,
    /// Identities of the domain tokens held for the owner.
    pub xrd_domain_vault: Vec<u64>,
}

/// The mathematical value of the engine state: the same fields with every
/// collection as a sequence and the current auction as a view.
#[verifier::ext_equal]
pub struct EngineView {
    pub early_pool: u64,
    pub early_address: u64,
    pub owner_resource: u64,
    pub xrd_domain_resource: u64,
    pub auction_duration_minutes: u64,
    pub auction_buffer_minutes: u64,
    pub minimum_bid_increase: u128,
    pub active: bool,
    pub next_nft_id: u64,
    pub next_auction_id: u64,
    pub catalog: Seq<NftEntry>,
    pub available_nfts_list: Seq<u64>,
    pub current_auction: Option<AuctionView>,
    pub completed_auctions: Seq<AuctionView>,
    pub early_vault: u128,
    pub total_early_bought: u128,
    pub xrd_domain_vault: Seq<u64>,
}

impl View for PiersRugyard {
    type V = EngineView;

    open spec fn view(&self) -> EngineView {
        EngineView {
            early_pool: self.early_pool,
            early_address: self.early_address,
            owner_resource: self.owner_resource,
            xrd_domain_resource: self.xrd_domain_resource,
            auction_duration_minutes: self.auction_duration_minutes,
            auction_buffer_minutes: self.auction_buffer_minutes,
            minimum_bid_increase: self.minimum_bid_increase,
            active: self.active,
            next_nft_id: self.next_nft_id,
            next_auction_id: self.next_auction_id,
            catalog: self.catalog@,
            available_nfts_list: self.available_nfts_list@,
            current_auction: match self.current_auction {
                Some(a) => Some(a@),
                None => None,
            },
            completed_auctions: self.completed_auctions@.map_values(|a: Auction| a@),
            early_vault: self.early_vault,
            total_early_bought: self.total_early_bought,
            xrd_domain_vault: self.xrd_domain_vault@,
        }
    }
}

impl EngineView {
    /// Whether some minted collectible carries this identity.
    pub open spec fn catalog_has(self, id: u64) -> bool {
        exists|j: int| 0 <= j < self.catalog.len() && (#[trigger] self.catalog[j]).id == id
    }

    /// The engine invariant. Configuration is in range; collectible and
    /// auction identities are assigned from the counters, so they strictly
    /// increase and are never reused; the pending inventory is a queue of
    /// distinct minted items that excludes the item under auction; the
    /// current auction is internally consistent and newer than everything
    /// archived; and every archived auction is a consistent snapshot that
    /// ended with a bid.
    pub open spec fn wf(self) -> bool {
        &&& self.auction_buffer_minutes >= 1
        &&& self.auction_duration_minutes > self.auction_buffer_minutes
        &&& self.minimum_bid_increase >= 1
        &&& self.next_nft_id >= 1
        &&& self.next_auction_id >= 1
        &&& (forall|i: int, j: int|
            0 <= i < j < self.catalog.len() ==> (#[trigger] self.catalog[i]).id
                < (#[trigger] self.catalog[j]).id)
        &&& (forall|i: int|
            0 <= i < self.catalog.len() ==> (#[trigger] self.catalog[i]).id < self.next_nft_id)
        &&& (forall|i: int, j: int|
            0 <= i < j < self.available_nfts_list.len() ==> #[trigger] self.available_nfts_list[i]
                < #[trigger] self.available_nfts_list[j])
        &&& (forall|i: int|
            0 <= i < self.available_nfts_list.len() ==> #[trigger] self.available_nfts_list[i]
                < self.next_nft_id)
        &&& (forall|i: int|
            0 <= i < self.available_nfts_list.len() ==> self.catalog_has(
                #[trigger] self.available_nfts_list[i],
            ))
        &&& (self.current_auction matches Some(a) ==> {
            &&& a.wf()
            &&& a.id < self.next_auction_id
            &&& (forall|i: int|
                0 <= i < self.completed_auctions.len()
                    ==> (#[trigger] self.completed_auctions[i]).id < a.id)
            &&& a.nft < self.next_nft_id
            &&& self.catalog_has(a.nft)
            &&& !self.available_nfts_list.contains(a.nft)
        })
        &&& (forall|i: int, j: int|
            0 <= i < j < self.completed_auctions.len() ==> (#[trigger] self.completed_auctions[i]).id
                < (#[trigger] self.completed_auctions[j]).id)
        &&& (forall|i: int|
            0 <= i < self.completed_auctions.len() ==> (#[trigger] self.completed_auctions[i]).id
                < self.next_auction_id)
        &&& (forall|i: int|
            0 <= i < self.completed_auctions.len() ==> (#[trigger] self.completed_auctions[i]).wf()
                && self.completed_auctions[i].highest_bid is Some)
    }

    /// The archived snapshot stored under an auction id, or `None` if the id
    /// was never archived.
    pub open spec fn archive_lookup(self, id: u64) -> Option<AuctionView> {
        if exists|i: int|
            0 <= i < self.completed_auctions.len() && (#[trigger] self.completed_auctions[i]).id
                == id {
            Some(
                self.completed_auctions[
                    choose|i: int|
                        0 <= i < self.completed_auctions.len() && (
                        #[trigger] self.completed_auctions[i]).id == id
                ],
            )
        } else {
            None
        }
    }

    /// Exact content of the highest-bid escrow vault: the current highest
    /// bid, or nothing.
    pub open spec fn escrow_amount(self) -> u128 {
        match self.current_auction {
            Some(a) => a.highest_bid_or_zero(),
            None => 0,
        }
    }

    /// Why a start would be refused, or `None` if it would succeed.
    pub open spec fn start_error(self) -> Option<AuctionError> {
        if self.current_auction is Some {
            Some(AuctionError::AuctionAlreadyActive)
        } else if self.available_nfts_list.len() == 0 {
            Some(AuctionError::NoItemsAvailable)
        } else if !self.active {
            Some(AuctionError::AuctionsDisabled)
        } else {
            None
        }
    }

    /// The fresh auction a successful start creates at time `now`: the next
    /// auction id, the oldest pending item, and an empty bid state.
    pub open spec fn started_auction(self, now: u64) -> AuctionView {
        AuctionView {
            id: self.next_auction_id,
            start_timestamp: now,
            end_timestamp: (now + 60 * self.auction_duration_minutes) as u64,
            nft: self.available_nfts_list[0],
            highest_bid: None,
            highest_bidder: None,
            bid_count: 0,
            bid_history: Seq::empty(),
        }
    }

    /// The state after a successful start at time `now`.
    pub open spec fn after_start(self, now: u64) -> EngineView {
        EngineView {
            current_auction: Some(self.started_auction(now)),
            available_nfts_list: self.available_nfts_list.drop_first(),
            next_auction_id: (self.next_auction_id + 1) as u64,
            ..self
        }
    }

    /// The bid-currency amount a settlement sends to the exchange pool: the
    /// winning bid minus the settlement reward.
    pub open spec fn settlement_input(self) -> u128
        recommends
            self.current_auction matches Some(a) && a.highest_bid is Some,
    {
        let h = (self.current_auction->Some_0).highest_bid->Some_0;
        (h - reward_of(h)) as u128
    }

    /// Whether the proceeds-conversion stage of a settlement can complete:
    /// the pool trades the bid currency for the settlement asset, covers the
    /// input, and every vault on both sides can take its deposit.
    pub open spec fn exchange_ok(self, pool: MockOciPool, input: u128) -> bool {
        &&& pool.resource_a == XRD
        &&& pool.resource_b == self.early_address
        &&& pool.vault_b >= input
        &&& pool.vault_a + input <= u128::MAX
        &&& self.early_vault + input <= u128::MAX
        &&& self.total_early_bought + input <= u128::MAX
    }

    /// Whether a settlement immediately opens the next auction: inventory
    /// remains and the system is enabled.
    pub open spec fn restarts(self) -> bool {
        self.available_nfts_list.len() > 0 && self.active
    }

    /// Why a settlement would be refused, or `None` if it would succeed, in
    /// the order the checks are made.
    pub open spec fn settle_error(
        self,
        pool: MockOciPool,
        account_authorized: bool,
        now: u64,
    ) -> Option<AuctionError> {
        if !account_authorized {
            Some(AuctionError::NotAuthorized)
        } else if !(self.current_auction is Some) {
            Some(AuctionError::NoAuctionActive)
        } else {
            let a = self.current_auction->Some_0;
            if now < a.end_timestamp {
                Some(AuctionError::AuctionNotEnded)
            } else if !(a.highest_bid is Some) {
                Some(AuctionError::NoBidsPlaced)
            } else if !self.exchange_ok(pool, self.settlement_input()) {
                Some(AuctionError::ExchangeFailed)
            } else {
                None
            }
        }
    }

    /// Why a bid would be refused, or `None` if it would be accepted, in the
    /// order the checks are made. A bid must be paid in the bid currency and
    /// exceed the highest bid so far (zero before the first bid) by at least
    /// the minimum increase. A bid after the end time is refused once a
    /// highest bidder exists; the first bid is accepted even then, and
    /// settles the auction on the spot, so it also needs the conversion
    /// stage to be feasible.
    pub open spec fn bid_error(
        self,
        pool: MockOciPool,
        payment: Funds,
        account_authorized: bool,
        now: u64,
    ) -> Option<AuctionError> {
        if !account_authorized {
            Some(AuctionError::NotAuthorized)
        } else if !(self.current_auction is Some) {
            Some(AuctionError::NoAuctionActive)
        } else {
            let a = self.current_auction->Some_0;
            if payment.resource != XRD {
                Some(AuctionError::WrongAssetKind)
            } else if payment.amount < a.highest_bid_or_zero() + self.minimum_bid_increase {
                Some(AuctionError::BidTooLow)
            } else if a.highest_bidder is Some && now >= a.end_timestamp {
                Some(AuctionError::AuctionEnded)
            } else if a.highest_bidder is None && now >= a.end_timestamp && !self.exchange_ok(
                pool,
                (payment.amount - reward_of(payment.amount)) as u128,
            ) {
                Some(AuctionError::ExchangeFailed)
            } else {
                None
            }
        }
    }

    /// The state after a successful settlement at time `now`: the auction is
    /// archived and cleared, the converted proceeds join the proceeds vault,
    /// and, if inventory remains and the system is enabled, the next auction
    /// starts within the same operation.
    pub open spec fn after_settle(self, now: u64) -> EngineView {
        let a = self.current_auction->Some_0;
        let input = self.settlement_input();
        let s1 = EngineView {
            completed_auctions: self.completed_auctions.push(a),
            current_auction: None,
            early_vault: (self.early_vault + input) as u128,
            total_early_bought: (self.total_early_bought + input) as u128,
            ..self
        };
        if s1.restarts() {
            s1.after_start(now)
        } else {
            s1
        }
    }
}

/// Whether `events` ends, from position `offset` on, with the notifications
/// of one successful settlement: the settled snapshot, the conversion of
/// `input`, and, when the settlement restarts the system, the next auction's
/// opening.
pub open spec fn settle_events_ok(
    events: Seq<Event>,
    offset: int,
    snapshot: AuctionView,
    input: u128,
    restart: bool,
    next: AuctionView,
) -> bool {
    &&& events.len() == offset + (if restart {
        3int
    } else {
        2int
    })
    &&& (events[offset] matches Event::AuctionSettled(ev) && ev.auction@ == snapshot)
    &&& (events[offset + 1] matches Event::EarlyBuy(ev) && ev.xrd_amount == input
        && ev.early_amount == input)
    &&& (restart ==> (events[offset + 2] matches Event::AuctionStarted(ev) && ev.auction@ == next))
}

/// Beyond the configuration ranges, the invariant reads only the counters,
/// the catalog, the inventory and the auctions: a state that keeps those of
/// a well-formed one and whose configuration is in range is well-formed.
proof fn lemma_wf_unaffected(a: EngineView, b: EngineView)
    requires
        a.wf(),
        b.auction_buffer_minutes >= 1,
        b.auction_duration_minutes > b.auction_buffer_minutes,
        b.minimum_bid_increase >= 1,
        b.next_nft_id == a.next_nft_id,
        b.next_auction_id == a.next_auction_id,
        b.catalog == a.catalog,
        b.available_nfts_list == a.available_nfts_list,
        b.current_auction == a.current_auction,
        b.completed_auctions == a.completed_auctions,
    ensures
        b.wf(),
{
    assert forall|x: u64| a.catalog_has(x) implies b.catalog_has(x) by {
        let w = choose|j: int| 0 <= j < a.catalog.len() && (#[trigger] a.catalog[j]).id == x;
        assert(b.catalog[w].id == x);
    }
}

/// What a successful settlement hands back to its caller: the settlement
/// reward, the sold item when the settler is the winner (otherwise the item
/// goes out as a delivery), the deposits made into the deferred-delivery
/// channel, and the notifications emitted.
#[derive(Debug)]
pub struct SettleOutcome {
    pub reward: Funds,
    pub item: Option<Item>,
    pub deliveries: Vec<Delivery>,
    pub events: Vec<Event>,
}

/// What a successful bid hands back to its caller: a settlement reward and
/// the sold item when the bid settled the auction on the spot, the deposits
/// made into the deferred-delivery channel (the displaced bidder's refund),
/// and the notifications emitted.
#[derive(Debug)]
pub struct BidOutcome {
    pub reward: Option<Funds>,
    pub item: Option<Item>,
    pub deliveries: Vec<Delivery>,
    pub events: Vec<Event>,
}

/// The settlement reward: a fixed five percent of the winning bid, rounded
/// toward zero.
pub open spec fn reward_of(amount: u128) -> u128 {
    ((amount as int) / 20) as u128
}

impl PiersRugyard {
    /// Creates the engine with the given configuration, an empty inventory,
    /// empty vaults and auctions disabled.
    pub fn instantiate(
        auction_duration_minutes: u64,
        auction_buffer_minutes: u64,
        minimum_bid_increase: u128,
        owner_resource: u64,
        early_pool: u64,
        early_address: u64,
        xrd_domain_resource: u64,
    ) -> (engine: PiersRugyard)
        requires
            auction_buffer_minutes >= 1,
            auction_duration_minutes > auction_buffer_minutes,
            minimum_bid_increase >= 1,
        ensures
            engine@.wf(),
            engine@ == (EngineView {
                early_pool,
                early_address,
                owner_resource,
                xrd_domain_resource,
                auction_duration_minutes,
                auction_buffer_minutes,
                minimum_bid_increase,
                active: false,
                next_nft_id: 1,
                next_auction_id: 1,
                catalog: Seq::empty(),
                available_nfts_list: Seq::empty(),
                current_auction: None,
                completed_auctions: Seq::empty(),
                early_vault: 0,
                total_early_bought: 0,
                xrd_domain_vault: Seq::empty(),
            }),
    {
        let engine = PiersRugyard {
            early_pool,
            early_address,
            owner_resource,
            xrd_domain_resource,
            auction_duration_minutes,
            auction_buffer_minutes,
            minimum_bid_increase,
            active: false,
            next_nft_id: 1,
            next_auction_id: 1,
            catalog: Vec::new(),
            available_nfts_list: Vec::new(),
            current_auction: None,
            completed_auctions: Vec::new(),
            early_vault: 0,
            total_early_bought: 0,
            xrd_domain_vault: Vec::new(),
        };
        proof {
            assert(engine@.catalog =~= Seq::<NftEntry>::empty());
            assert(engine@.available_nfts_list =~= Seq::<u64>::empty());
            assert(engine@.completed_auctions =~= Seq::<AuctionView>::empty());
            assert(engine@.xrd_domain_vault =~= Seq::<u64>::empty());
        }
        engine
    }

    /// The current auction, or `None` while idle.
    pub fn get_current_auction(&self) -> (r: Option<Auction>)
        ensures
            match r {
                Some(a) => self@.current_auction == Some(a@),
                None => self@.current_auction is None,
            },
    {
        match &self.current_auction {
            Some(a) => Some(a.snapshot()),
            None => None,
        }
    }

    /// The amount of settlement asset accumulated and not yet withdrawn.
    pub fn get_profit_amount(&self) -> (r: u128)
        ensures
            r == self@.early_vault,
    {
        self.early_vault
    }

    /// Takes all accumulated settlement-asset profits. Owner only.
    pub fn withdraw_profits(&mut self, owner_authorized: bool) -> (r: Result<
        Funds,
        AuctionError,
    >)
        ensures
            old(self)@.wf() ==> final(self)@.wf(),
            !owner_authorized ==> r == Err::<Funds, AuctionError>(AuctionError::NotAuthorized)
                && final(self)@ == old(self)@,
            owner_authorized ==> {
                &&& r == Ok::<Funds, AuctionError>(Funds {
                    resource: old(self)@.early_address,
                    amount: old(self)@.early_vault,
                })
                &&& final(self)@ == (EngineView { early_vault: 0, ..old(self)@ })
            },
    {
        if !owner_authorized {
            return Err(AuctionError::NotAuthorized);
        }
        let amount: u128 = self.early_vault;
        self.early_vault = 0;
        Ok(Funds { resource: self.early_address, amount })
    }

    /// Points the engine at another exchange pool. Owner only.
    pub fn update_pool_address(&mut self, address: u64, owner_authorized: bool) -> (r: Result<
        (),
        AuctionError,
    >)
        ensures
            old(self)@.wf() ==> final(self)@.wf(),
            !owner_authorized ==> r == Err::<(), AuctionError>(AuctionError::NotAuthorized)
                && final(self)@ == old(self)@,
            owner_authorized ==> r == Ok::<(), AuctionError>(()) && final(self)@ == (EngineView {
                early_pool: address,
                ..old(self)@
            }),
    {
        if !owner_authorized {
            return Err(AuctionError::NotAuthorized);
        }
        self.early_pool = address;
        proof {
            if old(self)@.wf() {
                lemma_wf_unaffected(old(self)@, self@);
            }
        }
        Ok(())
    }

    /// Sets the auction duration; it must be positive and exceed the buffer.
    /// Owner only.
    pub fn update_auction_duration(&mut self, minutes: u64, owner_authorized: bool) -> (r: Result<
        (),
        AuctionError,
    >)
        ensures
            old(self)@.wf() ==> final(self)@.wf(),
            !owner_authorized ==> r == Err::<(), AuctionError>(AuctionError::NotAuthorized)
                && final(self)@ == old(self)@,
            owner_authorized && (minutes < 1 || minutes <= old(self)@.auction_buffer_minutes) ==> r
                == Err::<(), AuctionError>(AuctionError::DurationOutOfRange) && final(self)@ == old(
                self,
            )@,
            owner_authorized && minutes >= 1 && minutes > old(self)@.auction_buffer_minutes ==> r
                == Ok::<(), AuctionError>(()) && final(self)@ == (EngineView {
                auction_duration_minutes: minutes,
                ..old(self)@
            }),
    {
        if !owner_authorized {
            return Err(AuctionError::NotAuthorized);
        }
        if minutes < 1 || minutes <= self.auction_buffer_minutes {
            return Err(AuctionError::DurationOutOfRange);
        }
        self.auction_duration_minutes = minutes;
        proof {
            if old(self)@.wf() {
                lemma_wf_unaffected(old(self)@, self@);
            }
        }
        Ok(())
    }

    /// Sets the anti-snipe buffer; it must be positive and below the
    /// duration. Owner only.
    pub fn update_auction_buffer(&mut self, minutes: u64, owner_authorized: bool) -> (r: Result<
        (),
        AuctionError,
    >)
        ensures
            old(self)@.wf() ==> final(self)@.wf(),
            !owner_authorized ==> r == Err::<(), AuctionError>(AuctionError::NotAuthorized)
                && final(self)@ == old(self)@,
            owner_authorized && (minutes < 1 || minutes >= old(self)@.auction_duration_minutes)
                ==> r == Err::<(), AuctionError>(AuctionError::BufferOutOfRange) && final(self)@
                == old(self)@,
            owner_authorized && minutes >= 1 && minutes < old(self)@.auction_duration_minutes ==> r
                == Ok::<(), AuctionError>(()) && final(self)@ == (EngineView {
                auction_buffer_minutes: minutes,
                ..old(self)@
            }),
    {
        if !owner_authorized {
            return Err(AuctionError::NotAuthorized);
        }
        if minutes < 1 || minutes >= self.auction_duration_minutes {
            return Err(AuctionError::BufferOutOfRange);
        }
        self.auction_buffer_minutes = minutes;
        proof {
            if old(self)@.wf() {
                lemma_wf_unaffected(old(self)@, self@);
            }
        }
        Ok(())
    }

    /// Sets the minimum bid increase; it must be positive. Owner only.
    pub fn update_minimum_bid_increase(
        &mut self,
        minimum_bid_increase: u128,
        owner_authorized: bool,
    ) -> (r: Result<(), AuctionError>)
        ensures
            old(self)@.wf() ==> final(self)@.wf(),
            !owner_authorized ==> r == Err::<(), AuctionError>(AuctionError::NotAuthorized)
                && final(self)@ == old(self)@,
            owner_authorized && minimum_bid_increase < 1 ==> r == Err::<(), AuctionError>(
                AuctionError::IncreaseOutOfRange,
            ) && final(self)@ == old(self)@,
            owner_authorized && minimum_bid_increase >= 1 ==> r == Ok::<(), AuctionError>(())
                && final(self)@ == (EngineView { minimum_bid_increase, ..old(self)@ }),
    {
        if !owner_authorized {
            return Err(AuctionError::NotAuthorized);
        }
        if minimum_bid_increase < 1 {
            return Err(AuctionError::IncreaseOutOfRange);
        }
        self.minimum_bid_increase = minimum_bid_increase;
        proof {
            if old(self)@.wf() {
                lemma_wf_unaffected(old(self)@, self@);
            }
        }
        Ok(())
    }

    /// Enables the auction system if disabled, and disables it if enabled.
    /// Owner only.
    pub fn flip_status(&mut self, owner_authorized: bool) -> (r: Result<(), AuctionError>)
        ensures
            old(self)@.wf() ==> final(self)@.wf(),
            !owner_authorized ==> r == Err::<(), AuctionError>(AuctionError::NotAuthorized)
                && final(self)@ == old(self)@,
            owner_authorized ==> r == Ok::<(), AuctionError>(()) && final(self)@ == (EngineView {
                active: !old(self)@.active,
                ..old(self)@
            }),
    {
        if !owner_authorized {
            return Err(AuctionError::NotAuthorized);
        }
        self.active = !self.active;
        Ok(())
    }

    /// Stores a domain token in the domain vault; the token must be of the
    /// domain resource. Owner only.
    pub fn deposit_xrd_domain(&mut self, domain: Item, owner_authorized: bool) -> (r: Result<
        (),
        AuctionError,
    >)
        ensures
            old(self)@.wf() ==> final(self)@.wf(),
            !owner_authorized ==> r == Err::<(), AuctionError>(AuctionError::NotAuthorized)
                && final(self)@ == old(self)@,
            owner_authorized && domain.resource != old(self)@.xrd_domain_resource ==> r == Err::<
                (),
                AuctionError,
            >(AuctionError::WrongAssetKind) && final(self)@ == old(self)@,
            owner_authorized && domain.resource == old(self)@.xrd_domain_resource ==> r == Ok::<
                (),
                AuctionError,
            >(()) && final(self)@ == (EngineView {
                xrd_domain_vault: old(self)@.xrd_domain_vault.push(domain.id),
                ..old(self)@
            }),
    {
        if !owner_authorized {
            return Err(AuctionError::NotAuthorized);
        }
        if domain.resource != self.xrd_domain_resource {
            return Err(AuctionError::WrongAssetKind);
        }
        self.xrd_domain_vault.push(domain.id);
        Ok(())
    }

    /// Takes the domain token with the given identity out of the domain
    /// vault. Owner only.
    pub fn withdraw_xrd_domain(&mut self, local_id: u64, owner_authorized: bool) -> (r: Result<
        Item,
        AuctionError,
    >)
        ensures
            old(self)@.wf() ==> final(self)@.wf(),
            !owner_authorized ==> r == Err::<Item, AuctionError>(AuctionError::NotAuthorized)
                && final(self)@ == old(self)@,
            owner_authorized && !old(self)@.xrd_domain_vault.contains(local_id) ==> r == Err::<
                Item,
                AuctionError,
            >(AuctionError::ItemNotAvailable) && final(self)@ == old(self)@,
            owner_authorized && old(self)@.xrd_domain_vault.contains(local_id) ==> {
                &&& r == Ok::<Item, AuctionError>(Item {
                    resource: old(self)@.xrd_domain_resource,
                    id: local_id,
                })
                &&& (exists|i: int|
                    {
                        &&& 0 <= i < old(self)@.xrd_domain_vault.len()
                        &&& old(self)@.xrd_domain_vault[i] == local_id
                        &&& final(self)@ == (EngineView {
                            xrd_domain_vault: old(self)@.xrd_domain_vault.remove(i),
                            ..old(self)@
                        })
                    })
            },
    {
        if !owner_authorized {
            return Err(AuctionError::NotAuthorized);
        }
        let n: usize = self.xrd_domain_vault.len();
        let mut i: usize = 0;
        while i < n
            invariant
                owner_authorized,
                n == self.xrd_domain_vault.len(),
                i <= n,
                *self == *old(self),
                forall|j: int| 0 <= j < i ==> self.xrd_domain_vault@[j] != local_id,
            decreases n - i,
        {
            if self.xrd_domain_vault[i] == local_id {
                self.xrd_domain_vault.remove(i);
                proof {
                    assert(old(self)@.xrd_domain_vault[i as int] == local_id);
                    assert(self@ =~= (EngineView {
                        xrd_domain_vault: old(self)@.xrd_domain_vault.remove(i as int),
                        ..old(self)@
                    }));
                }
                proof {
                    if old(self)@.wf() {
                        lemma_wf_unaffected(old(self)@, self@);
                    }
                }
                return Ok(Item { resource: self.xrd_domain_resource, id: local_id });
            }
            i = i + 1;
        }
        Err(AuctionError::ItemNotAvailable)
    }

    /// Opens a new auction at time `now`: pops the oldest pending item,
    /// schedules the end one duration ahead, and publishes the fresh
    /// auction. Refused while an auction is current, while the inventory is
    /// empty, or while the system is disabled.
    pub fn start_new_auction(&mut self, now: u64) -> (r: Result<
        PiersRugyardAuctionStarted,
        AuctionError,
    >)
        requires
            old(self)@.wf(),
            now + 60 * old(self)@.auction_duration_minutes <= u64::MAX,
            old(self)@.next_auction_id < u64::MAX,
        ensures
            final(self)@.wf(),
            match old(self)@.start_error() {
                Some(e) => r == Err::<PiersRugyardAuctionStarted, AuctionError>(e) && final(self)@
                    == old(self)@,
                None => {
                    &&& r matches Ok(ev) && ev.auction@ == old(self)@.started_auction(now)
                    &&& final(self)@ == old(self)@.after_start(now)
                },
            },
    {
        if self.current_auction.is_some() {
            return Err(AuctionError::AuctionAlreadyActive);
        }
        if self.available_nfts_list.len() == 0 {
            return Err(AuctionError::NoItemsAvailable);
        }
        if !self.active {
            return Err(AuctionError::AuctionsDisabled);
        }
        let end_timestamp: u64 = now + self.auction_duration_minutes * 60;
        let nft: u64 = self.available_nfts_list.remove(0);
        let auction = Auction {
            id: self.next_auction_id,
            start_timestamp: now,
            end_timestamp,
            nft,
            highest_bid: None,
            highest_bidder: None,
            bid_count: 0,
            bid_history: Vec::new(),
        };
        let ev = PiersRugyardAuctionStarted { auction: auction.snapshot() };
        self.current_auction = Some(auction);
        self.next_auction_id = self.next_auction_id + 1;
        proof {
            let pre = old(self)@;
            assert(self@.available_nfts_list =~= pre.available_nfts_list.drop_first());
            assert(ev.auction@ =~= pre.started_auction(now));
            assert(self@ =~~= pre.after_start(now));
            assert(pre.catalog_has(nft));
            let w = choose|j: int|
                0 <= j < pre.catalog.len() && (#[trigger] pre.catalog[j]).id == nft;
            assert(self@.catalog[w].id == nft);
            assert(self@.catalog_has(nft));
            assert forall|i: int, j: int|
                0 <= i < j < self@.available_nfts_list.len() implies #[trigger] self@
                .available_nfts_list[i] < #[trigger] self@.available_nfts_list[j] by {
                assert(self@.available_nfts_list[i] == pre.available_nfts_list[i + 1]);
                assert(self@.available_nfts_list[j] == pre.available_nfts_list[j + 1]);
            }
            assert forall|i: int|
                0 <= i < self@.available_nfts_list.len() implies #[trigger] self@
                .available_nfts_list[i] != nft by {
                assert(self@.available_nfts_list[i] == pre.available_nfts_list[i + 1]);
                assert(pre.available_nfts_list[0] < pre.available_nfts_list[i + 1]);
            }
            assert(!self@.available_nfts_list.contains(nft));
        }
        Ok(ev)
    }

    /// Mints the given collectibles in order: each receives the next
    /// sequential identity, enters the catalog and joins the back of the
    /// pending inventory. Owner only.
    #[verifier::rlimit(50)]
    pub fn mint_nfts(&mut self, nft_data: Vec<NFT>, owner_authorized: bool) -> (r: Result<
        Vec<PiersRugyardMinted>,
        AuctionError,
    >)
        requires
            old(self)@.wf(),
            old(self)@.next_nft_id + nft_data@.len() <= u64::MAX,
        ensures
            final(self)@.wf(),
            !owner_authorized ==> r == Err::<Vec<PiersRugyardMinted>, AuctionError>(
                AuctionError::NotAuthorized,
            ) && final(self)@ == old(self)@,
            owner_authorized ==> {
                let n = nft_data@.len();
                let first = old(self)@.next_nft_id;
                &&& final(self)@ == (EngineView {
                    next_nft_id: (first + n) as u64,
                    catalog: old(self)@.catalog + Seq::new(
                        n,
                        |j: int| NftEntry { id: (first + j) as u64, data: nft_data@[j] },
                    ),
                    available_nfts_list: old(self)@.available_nfts_list + Seq::new(
                        n,
                        |j: int| (first + j) as u64,
                    ),
                    ..old(self)@
                })
                &&& (r matches Ok(events) && events@.len() == n && (forall|j: int|
                    0 <= j < n ==> (#[trigger] events@[j]).id == first + j && events@[j].nft_data
                        == nft_data@[j]))
            },
    {
        if !owner_authorized {
            return Err(AuctionError::NotAuthorized);
        }
        let mut events: Vec<PiersRugyardMinted> = Vec::new();
        let n: usize = nft_data.len();
        let mut i: usize = 0;
        while i < n
            invariant
                owner_authorized,
                old(self)@.wf(),
                self@.wf(),
                n == nft_data@.len(),
                i <= n,
                old(self)@.next_nft_id + n <= u64::MAX,
                self@.next_nft_id == old(self)@.next_nft_id + i,
                self@ == (EngineView {
                    next_nft_id: (old(self)@.next_nft_id + i) as u64,
                    catalog: old(self)@.catalog + Seq::new(
                        i as nat,
                        |j: int| NftEntry {
                            id: (old(self)@.next_nft_id + j) as u64,
                            data: nft_data@[j],
                        },
                    ),
                    available_nfts_list: old(self)@.available_nfts_list + Seq::new(
                        i as nat,
                        |j: int| (old(self)@.next_nft_id + j) as u64,
                    ),
                    ..old(self)@
                }),
                events@.len() == i,
                forall|j: int|
                    0 <= j < i ==> (#[trigger] events@[j]).id == old(self)@.next_nft_id + j
                        && events@[j].nft_data == nft_data@[j],
            decreases n - i,
        {
            let id: u64 = self.next_nft_id;
            self.catalog.push(NftEntry { id, data: nft_data[i].dup() });
            self.available_nfts_list.push(id);
            events.push(PiersRugyardMinted { id, nft_data: nft_data[i].dup() });
            self.next_nft_id = id + 1;
            i = i + 1;
            proof {
                let first = old(self)@.next_nft_id;
                assert(self@.catalog =~= old(self)@.catalog + Seq::new(
                    i as nat,
                    |j: int| NftEntry { id: (first + j) as u64, data: nft_data@[j] },
                ));
                assert(self@.available_nfts_list =~= old(self)@.available_nfts_list + Seq::new(
                    i as nat,
                    |j: int| (first + j) as u64,
                ));
                assert forall|k: int|
                    0 <= k < self@.available_nfts_list.len() implies self@.catalog_has(
                    #[trigger] self@.available_nfts_list[k],
                ) by {
                    if k < old(self)@.available_nfts_list.len() {
                        let w = choose|j: int|
                            0 <= j < old(self)@.catalog.len() && (#[trigger] old(
                                self,
                            )@.catalog[j]).id == old(self)@.available_nfts_list[k];
                        assert(self@.catalog[w].id == self@.available_nfts_list[k]);
                    } else {
                        let d = k - old(self)@.available_nfts_list.len();
                        let w = old(self)@.catalog.len() + d;
                        assert(self@.catalog[w].id == self@.available_nfts_list[k]);
                    }
                }
                match self@.current_auction {
                    Some(a) => {
                        assert(old(self)@.catalog_has(a.nft));
                        let w = choose|j: int|
                            0 <= j < old(self)@.catalog.len() && (#[trigger] old(
                                self,
                            )@.catalog[j]).id == a.nft;
                        assert(self@.catalog[w].id == a.nft);
                        assert(self@.catalog_has(a.nft));
                        assert forall|k: int|
                            0 <= k < self@.available_nfts_list.len() implies #[trigger] self@
                            .available_nfts_list[k] != a.nft by {
                            if k >= old(self)@.available_nfts_list.len() {
                                assert(self@.available_nfts_list[k] >= first);
                            }
                        }
                        assert(!self@.available_nfts_list.contains(a.nft));
                    },
                    None => {},
                }
            }
        }
        proof {
            assert(self@ =~~= (EngineView {
                next_nft_id: (old(self)@.next_nft_id + n) as u64,
                catalog: old(self)@.catalog + Seq::new(
                    n as nat,
                    |j: int| NftEntry { id: (old(self)@.next_nft_id + j) as u64, data: nft_data@[j] },
                ),
                available_nfts_list: old(self)@.available_nfts_list + Seq::new(
                    n as nat,
                    |j: int| (old(self)@.next_nft_id + j) as u64,
                ),
                ..old(self)@
            }));
        }
        Ok(events)
    }

    /// Burns the collectible with the given identity: it leaves the pending
    /// inventory and the catalog irreversibly. Refused for an identity not
    /// pending, and for the item under auction. Owner only.
    #[verifier::rlimit(50)]
    pub fn delete_nft(&mut self, id: u64, owner_authorized: bool) -> (r: Result<(), AuctionError>)
        requires
            old(self)@.wf(),
        ensures
            final(self)@.wf(),
            !owner_authorized ==> r == Err::<(), AuctionError>(AuctionError::NotAuthorized)
                && final(self)@ == old(self)@,
            owner_authorized && !old(self)@.available_nfts_list.contains(id) ==> r == Err::<
                (),
                AuctionError,
            >(AuctionError::ItemNotAvailable) && final(self)@ == old(self)@,
            owner_authorized && old(self)@.available_nfts_list.contains(id) && (old(
                self,
            )@.current_auction matches Some(a) && a.nft == id) ==> r == Err::<(), AuctionError>(
                AuctionError::ItemUnderAuction,
            ) && final(self)@ == old(self)@,
            owner_authorized && old(self)@.available_nfts_list.contains(id) && !(old(
                self,
            )@.current_auction matches Some(a) && a.nft == id) ==> {
                &&& r == Ok::<(), AuctionError>(())
                &&& (exists|li: int, ci: int|
                    #![trigger old(self)@.available_nfts_list[li], old(self)@.catalog[ci]]
                    {
                        &&& 0 <= li < old(self)@.available_nfts_list.len()
                        &&& old(self)@.available_nfts_list[li] == id
                        &&& 0 <= ci < old(self)@.catalog.len()
                        &&& old(self)@.catalog[ci].id == id
                        &&& final(self)@ == (EngineView {
                            available_nfts_list: old(self)@.available_nfts_list.remove(li),
                            catalog: old(self)@.catalog.remove(ci),
                            ..old(self)@
                        })
                    })
            },
    {
        if !owner_authorized {
            return Err(AuctionError::NotAuthorized);
        }
        let n: usize = self.available_nfts_list.len();
        let mut li: usize = 0;
        while li < n && self.available_nfts_list[li] != id
            invariant
                n == self.available_nfts_list.len(),
                li <= n,
                *self == *old(self),
                forall|j: int| 0 <= j < li ==> self.available_nfts_list@[j] != id,
            decreases n - li,
        {
            li = li + 1;
        }
        if li == n {
            return Err(AuctionError::ItemNotAvailable);
        }
        match &self.current_auction {
            Some(cur) => {
                if cur.nft == id {
                    return Err(AuctionError::ItemUnderAuction);
                }
            },
            None => {},
        }
        self.available_nfts_list.remove(li);
        let m: usize = self.catalog.len();
        let mut ci: usize = 0;
        while ci < m && self.catalog[ci].id != id
            invariant
                m == self.catalog.len(),
                ci <= m,
                self.catalog == old(self).catalog,
                forall|j: int| 0 <= j < ci ==> (#[trigger] self.catalog@[j]).id != id,
            decreases m - ci,
        {
            ci = ci + 1;
        }
        if ci == m {
            // Unreachable: the invariant puts every pending identity in the
            // catalog.
            proof {
                assert(old(self)@.catalog_has(id));
            }
            return Err(AuctionError::ItemNotAvailable);
        }
        self.catalog.remove(ci);
        proof {
            let pre = old(self)@;
            let lv = self@.available_nfts_list;
            let cv = self@.catalog;
            assert(pre.available_nfts_list[li as int] == id);
            assert(pre.catalog[ci as int].id == id);
            assert(lv =~= pre.available_nfts_list.remove(li as int));
            assert(cv =~= pre.catalog.remove(ci as int));
            assert(self@ =~~= (EngineView {
                available_nfts_list: pre.available_nfts_list.remove(li as int),
                catalog: pre.catalog.remove(ci as int),
                ..pre
            }));
            // The invariant survives the two removals: indices only shift.
            assert forall|k: int| 0 <= k < lv.len() implies self@.catalog_has(
                #[trigger] lv[k],
            ) by {
                let k0 = if k < li as int {
                    k
                } else {
                    k + 1
                };
                assert(lv[k] == pre.available_nfts_list[k0]);
                assert(pre.catalog_has(pre.available_nfts_list[k0]));
                let w = choose|j: int|
                    0 <= j < pre.catalog.len() && (#[trigger] pre.catalog[j]).id
                        == pre.available_nfts_list[k0];
                assert(lv[k] != id);
                assert(w != ci as int);
                let w1 = if w < ci as int {
                    w
                } else {
                    w - 1
                };
                assert(cv[w1].id == lv[k]);
            }
            match pre.current_auction {
                Some(a) => {
                    assert(a.nft != id);
                    assert(pre.catalog_has(a.nft));
                    let w = choose|j: int|
                        0 <= j < pre.catalog.len() && (#[trigger] pre.catalog[j]).id == a.nft;
                    assert(w != ci as int);
                    let w1 = if w < ci as int {
                        w
                    } else {
                        w - 1
                    };
                    assert(cv[w1].id == a.nft);
                    assert(self@.catalog_has(a.nft));
                    assert forall|k: int| 0 <= k < lv.len() implies #[trigger] lv[k] != a.nft by {
                        let k0 = if k < li as int {
                            k
                        } else {
                            k + 1
                        };
                        assert(lv[k] == pre.available_nfts_list[k0]);
                    }
                    assert(!lv.contains(a.nft));
                },
                None => {},
            }
        }
        Ok(())
    }

    /// Places a bid of `payment` for `account` at time `now`. The bid enters
    /// the history before its amount and timing are judged, so the recorded
    /// notification's snapshot already counts and holds it while the end
    /// time and the highest bid are still the old ones. On acceptance the
    /// displaced bidder, if any, is refunded in full through the
    /// deferred-delivery channel, a late bid extends the auction, and a
    /// first bid arriving at or after the end time settles the auction
    /// within the same operation, with the bidder as settler. The whole
    /// operation is atomic: on any refusal nothing changes.
    #[verifier::rlimit(75)]
    pub fn bid(
        &mut self,
        pool: &mut MockOciPool,
        payment: Funds,
        account: u64,
        account_authorized: bool,
        transaction_hash: u64,
        now: u64,
    ) -> (r: Result<BidOutcome, AuctionError>)
        requires
            old(self)@.wf(),
            now + 60 * old(self)@.auction_duration_minutes <= u64::MAX,
            old(self)@.next_auction_id < u64::MAX,
            old(self)@.current_auction matches Some(a) ==> a.bid_count < u64::MAX,
        ensures
            final(self)@.wf(),
            old(self)@.completed_auctions.is_prefix_of(final(self)@.completed_auctions),
            match old(self)@.bid_error(*old(pool), payment, account_authorized, now) {
                Some(e) => r == Err::<BidOutcome, AuctionError>(e) && final(self)@ == old(self)@
                    && *final(pool) == *old(pool),
                None => {
                    let a = old(self)@.current_auction->Some_0;
                    let b = (Bid { amount: payment.amount, bidder: account, timestamp: now, transaction_hash });
                    let committed = (EngineView {
                        current_auction: Some(
                            a.after_bid(b, now, old(self)@.auction_buffer_minutes),
                        ),
                        ..old(self)@
                    });
                    r matches Ok(o) && {
                        &&& o.events@.len() >= 1
                        &&& (o.events@[0] matches Event::AuctionBid(ev) && ev.auction@
                            == a.recorded(b) && ev.bid == b)
                        &&& (a.highest_bidder matches Some(prev) ==> o.deliveries@ == seq![
                            Delivery {
                                recipient: prev,
                                asset: Asset::Fungible(
                                    Funds {
                                        resource: XRD,
                                        amount: old(self)@.escrow_amount(),
                                    },
                                ),
                            },
                        ])
                        &&& (a.highest_bidder is None ==> o.deliveries@ == Seq::<Delivery>::empty())
                        &&& if a.highest_bidder is None && now >= a.end_timestamp {
                            let input = (payment.amount - reward_of(payment.amount)) as u128;
                            &&& final(self)@ == committed.after_settle(now)
                            &&& *final(pool) == old(pool).after_swap(input)
                            &&& o.reward == Some(Funds {
                                resource: XRD,
                                amount: reward_of(payment.amount),
                            })
                            &&& o.item == Some(Item { resource: NFT_RESOURCE, id: a.nft })
                            &&& settle_events_ok(
                                o.events@,
                                1,
                                a.after_bid(b, now, old(self)@.auction_buffer_minutes),
                                input,
                                old(self)@.restarts(),
                                old(self)@.started_auction(now),
                            )
                        } else {
                            &&& final(self)@ == committed
                            &&& *final(pool) == *old(pool)
                            &&& o.reward is None && o.item is None
                            &&& o.events@.len() == 1
                        }
                    }
                },
            },
    {
        if !account_authorized {
            return Err(AuctionError::NotAuthorized);
        }
        let (cur_id, cur_start, cur_end, cur_nft, cur_highest, cur_bidder, cur_count, hist) =
            match &self.current_auction {
            None => {
                return Err(AuctionError::NoAuctionActive);
            },
            Some(cur) => (
                cur.id,
                cur.start_timestamp,
                cur.end_timestamp,
                cur.nft,
                cur.highest_bid,
                cur.highest_bidder,
                cur.bid_count,
                copy_bids(&cur.bid_history),
            ),
        };
        let highest_bid_amount: u128 = match cur_highest {
            Some(h) => h,
            None => 0,
        };
        if payment.resource != XRD {
            return Err(AuctionError::WrongAssetKind);
        }
        if payment.amount < highest_bid_amount || payment.amount - highest_bid_amount
            < self.minimum_bid_increase {
            return Err(AuctionError::BidTooLow);
        }
        let first_bidder: bool = cur_bidder.is_none();
        if !first_bidder && now >= cur_end {
            return Err(AuctionError::AuctionEnded);
        }
        // A first bid at or after the end time settles the auction below;
        // make sure first that the conversion stage can complete, so that
        // nothing is committed for a bid whose settlement would fail.
        let settles_now: bool = first_bidder && now >= cur_end;
        if settles_now {
            let reward_amount: u128 = payment.amount / 20;
            let input: u128 = payment.amount - reward_amount;
            if pool.resource_a != XRD || pool.resource_b != self.early_address || pool.vault_b
                < input || pool.vault_a > u128::MAX - input || self.early_vault > u128::MAX - input
                || self.total_early_bought > u128::MAX - input {
                return Err(AuctionError::ExchangeFailed);
            }
        }
        proof {
            assert(old(self)@.bid_error(*old(pool), payment, account_authorized, now) is None);
        }
        // Record the bid; the notification's snapshot holds it already,
        // with the end time and highest bid still unvalidated and uncommitted.
        let new_bid = Bid { amount: payment.amount, bidder: account, timestamp: now, transaction_hash };
        let mut hist = hist;
        hist.push(new_bid);
        let ev_hist = copy_bids(&hist);
        let mut events: Vec<Event> = Vec::new();
        events.push(
            Event::AuctionBid(
                PiersRugyardAuctionBid {
                    auction: Auction {
                        id: cur_id,
                        start_timestamp: cur_start,
                        end_timestamp: cur_end,
                        nft: cur_nft,
                        highest_bid: cur_highest,
                        highest_bidder: cur_bidder,
                        bid_count: cur_count + 1,
                        bid_history: ev_hist,
                    },
                    bid: new_bid,
                },
            ),
        );
        // Refund the displaced bidder in full through the deferred-delivery
        // channel; the escrow vault holds exactly the old highest bid.
        let mut deliveries: Vec<Delivery> = Vec::new();
        match cur_bidder {
            Some(prev) => {
                deliveries.push(
                    Delivery {
                        recipient: prev,
                        asset: Asset::Fungible(
                            Funds { resource: XRD, amount: highest_bid_amount },
                        ),
                    },
                );
            },
            None => {},
        }
        // Anti-snipe extension: a bid within the buffer of a still-open
        // auction pushes the end forward.
        let buffer_seconds: u64 = self.auction_buffer_minutes * 60;
        let new_end: u64 = if now + buffer_seconds >= cur_end && now < cur_end {
            now + buffer_seconds
        } else {
            cur_end
        };
        // Commit: the bid becomes the highest and its funds the escrow.
        self.current_auction = Some(
            Auction {
                id: cur_id,
                start_timestamp: cur_start,
                end_timestamp: new_end,
                nft: cur_nft,
                highest_bid: Some(payment.amount),
                highest_bidder: Some(account),
                bid_count: cur_count + 1,
                bid_history: hist,
            },
        );
        proof {
            let pre = old(self)@;
            let a = pre.current_auction->Some_0;
            let b = Bid { amount: payment.amount, bidder: account, timestamp: now, transaction_hash };
            let committed = a.after_bid(b, now, pre.auction_buffer_minutes);
            assert((self@.current_auction->Some_0).bid_history =~= committed.bid_history);
            assert(self@.current_auction->Some_0 =~~= committed);
            assert(self@ =~~= (EngineView { current_auction: Some(committed), ..pre }));
            assert forall|i: int|
                0 <= i < committed.bid_history.len() - 1 implies (#[trigger] committed
                .bid_history[i]).amount < committed.bid_history[i + 1].amount by {
                if i == a.bid_history.len() - 1 {
                    assert(committed.bid_history[i] == a.bid_history.last());
                    assert(committed.bid_history[i + 1] == b);
                }
            }
            assert(committed.wf());
            assert(self@.wf());
        }
        if settles_now {
            let ghost committed_state = self@;
            match self.settle_auction(pool, account, true, now) {
                Ok(so) => {
                    let mut so = so;
                    events.append(&mut so.events);
                    deliveries.append(&mut so.deliveries);
                    proof {
                        let pre = old(self)@;
                        assert(committed_state.restarts() == pre.restarts());
                        assert(committed_state.started_auction(now) =~~= pre.started_auction(
                            now,
                        ));
                        assert(committed_state.settlement_input() == payment.amount - reward_of(
                            payment.amount,
                        ));
                        assert(deliveries@ =~= Seq::<Delivery>::empty());
                    }
                    return Ok(
                        BidOutcome {
                            reward: Some(so.reward),
                            item: so.item,
                            deliveries,
                            events,
                        },
                    );
                },
                Err(_) => {
                    // Unreachable: the conversion stage was checked feasible
                    // before anything was committed.
                    return Err(AuctionError::ExchangeFailed);
                },
            }
        }
        Ok(BidOutcome { reward: None, item: None, deliveries, events })
    }

    /// Settles the ended current auction: delivers the sold item to the
    /// winner (directly when the settler is the winner, through the
    /// deferred-delivery channel otherwise), pays the settler the reward,
    /// converts the remaining proceeds through the pool into the proceeds
    /// vault, archives the auction, and, if inventory remains and the system
    /// is enabled, opens the next auction within the same operation. The
    /// whole settlement is atomic: on any refusal nothing changes.
    #[verifier::rlimit(50)]
    pub fn settle_auction(
        &mut self,
        pool: &mut MockOciPool,
        account: u64,
        account_authorized: bool,
        now: u64,
    ) -> (r: Result<SettleOutcome, AuctionError>)
        requires
            old(self)@.wf(),
            now + 60 * old(self)@.auction_duration_minutes <= u64::MAX,
            old(self)@.next_auction_id < u64::MAX,
        ensures
            final(self)@.wf(),
            old(self)@.completed_auctions.is_prefix_of(final(self)@.completed_auctions),
            match old(self)@.settle_error(*old(pool), account_authorized, now) {
                Some(e) => r == Err::<SettleOutcome, AuctionError>(e) && final(self)@ == old(
                    self,
                )@ && *final(pool) == *old(pool),
                None => {
                    let a = old(self)@.current_auction->Some_0;
                    let input = old(self)@.settlement_input();
                    &&& final(self)@ == old(self)@.after_settle(now)
                    &&& *final(pool) == old(pool).after_swap(input)
                    &&& (r matches Ok(o) && {
                        &&& o.reward == (Funds {
                            resource: XRD,
                            amount: reward_of(a.highest_bid->Some_0),
                        })
                        &&& (account == a.highest_bidder->Some_0 ==> o.item == Some(Item {
                            resource: NFT_RESOURCE,
                            id: a.nft,
                        }) && o.deliveries@ == Seq::<Delivery>::empty())
                        &&& (account != a.highest_bidder->Some_0 ==> o.item is None
                            && o.deliveries@ == seq![
                            Delivery {
                                recipient: a.highest_bidder->Some_0,
                                asset: Asset::NonFungible(
                                    Item { resource: NFT_RESOURCE, id: a.nft },
                                ),
                            },
                        ])
                        &&& settle_events_ok(
                            o.events@,
                            0,
                            a,
                            input,
                            old(self)@.restarts(),
                            old(self)@.started_auction(now),
                        )
                    })
                },
            },
    {
        if !account_authorized {
            return Err(AuctionError::NotAuthorized);
        }
        let (cur_id, cur_start, cur_end, cur_nft, cur_highest, cur_bidder, cur_count, hist) =
            match &self.current_auction {
            None => {
                return Err(AuctionError::NoAuctionActive);
            },
            Some(cur) => (
                cur.id,
                cur.start_timestamp,
                cur.end_timestamp,
                cur.nft,
                cur.highest_bid,
                cur.highest_bidder,
                cur.bid_count,
                copy_bids(&cur.bid_history),
            ),
        };
        if now < cur_end {
            return Err(AuctionError::AuctionNotEnded);
        }
        let highest: u128 = match cur_highest {
            Some(h) => h,
            None => {
                return Err(AuctionError::NoBidsPlaced);
            },
        };
        let winner: u64 = match cur_bidder {
            Some(w) => w,
            None => {
                // Unreachable: the invariant ties the highest bidder to the
                // highest bid.
                return Err(AuctionError::NoBidsPlaced);
            },
        };
        let reward_amount: u128 = highest / 20;
        let input: u128 = highest - reward_amount;
        if pool.resource_a != XRD || pool.resource_b != self.early_address || pool.vault_b < input
            || pool.vault_a > u128::MAX - input || self.early_vault > u128::MAX - input
            || self.total_early_bought > u128::MAX - input {
            return Err(AuctionError::ExchangeFailed);
        }
        proof {
            assert(old(self)@.settle_error(*old(pool), account_authorized, now) is None);
        }
        // The settlement notification carries the auction as it stands when
        // settlement begins.
        let hist2 = copy_bids(&hist);
        let mut events: Vec<Event> = Vec::new();
        events.push(
            Event::AuctionSettled(
                PiersRugyardAuctionSettled {
                    auction: Auction {
                        id: cur_id,
                        start_timestamp: cur_start,
                        end_timestamp: cur_end,
                        nft: cur_nft,
                        highest_bid: cur_highest,
                        highest_bidder: cur_bidder,
                        bid_count: cur_count,
                        bid_history: hist2,
                    },
                },
            ),
        );
        // The item goes to the winner: directly when the settler is the
        // winner, through the deferred-delivery channel otherwise.
        let mut deliveries: Vec<Delivery> = Vec::new();
        let item: Option<Item> = if winner == account {
            Some(Item { resource: NFT_RESOURCE, id: cur_nft })
        } else {
            deliveries.push(
                Delivery {
                    recipient: winner,
                    asset: Asset::NonFungible(Item { resource: NFT_RESOURCE, id: cur_nft }),
                },
            );
            None
        };
        // Convert the remaining proceeds into the settlement asset.
        let out: Funds = match pool.swap(Funds { resource: XRD, amount: input }) {
            Some(o) => o,
            None => {
                // Unreachable: the feasibility of the swap was checked above.
                return Err(AuctionError::ExchangeFailed);
            },
        };
        events.push(Event::EarlyBuy(PiersRugyardEarlyBuy { xrd_amount: input, early_amount: out.amount }));
        self.early_vault = self.early_vault + out.amount;
        self.total_early_bought = self.total_early_bought + out.amount;
        // Archive the auction and clear the slot.
        self.completed_auctions.push(
            Auction {
                id: cur_id,
                start_timestamp: cur_start,
                end_timestamp: cur_end,
                nft: cur_nft,
                highest_bid: cur_highest,
                highest_bidder: cur_bidder,
                bid_count: cur_count,
                bid_history: hist,
            },
        );
        self.current_auction = None;
        proof {
            let pre = old(self)@;
            let a = pre.current_auction->Some_0;
            assert(self@.completed_auctions =~= pre.completed_auctions.push(a));
            assert(self@ =~~= (EngineView {
                completed_auctions: pre.completed_auctions.push(a),
                current_auction: None,
                early_vault: (pre.early_vault + input) as u128,
                total_early_bought: (pre.total_early_bought + input) as u128,
                ..pre
            }));
            assert forall|i: int, j: int|
                0 <= i < j < self@.completed_auctions.len() implies (#[trigger] self@
                .completed_auctions[i]).id < (#[trigger] self@.completed_auctions[j]).id by {
                if j < pre.completed_auctions.len() {
                    assert(pre.completed_auctions[i].id < pre.completed_auctions[j].id);
                } else {
                    assert(self@.completed_auctions[j] == a);
                }
            }
            assert(self@.wf());
        }
        // Start the next auction when inventory remains and the system is
        // enabled; settlement and that start are one atomic operation.
        if self.available_nfts_list.len() > 0 && self.active {
            let mid = Ghost(self@);
            match self.start_new_auction(now) {
                Ok(ev) => {
                    events.push(Event::AuctionStarted(ev));
                },
                Err(_) => {
                    // Unreachable: no auction is current, inventory remains
                    // and the system is enabled.
                    proof {
                        assert(mid@.start_error() is None);
                    }
                },
            }
        }
        proof {
            assert(self@ =~~= old(self)@.after_settle(now));
        }
        Ok(SettleOutcome {
            reward: Funds { resource: XRD, amount: reward_amount },
            item,
            deliveries,
            events,
        })
    }

    /// The archived snapshot of the settled auction with the given id.
    pub fn get_completed_auction(&self, id: u64) -> (r: Result<Auction, AuctionError>)
        ensures
            match r {
                Ok(a) => {
                    &&& a@.id == id
                    &&& (exists|i: int|
                        0 <= i < self@.completed_auctions.len()
                            && #[trigger] self@.completed_auctions[i] == a@)
                },
                Err(e) => {
                    &&& e == AuctionError::AuctionNotFound
                    &&& (forall|i: int|
                        0 <= i < self@.completed_auctions.len()
                            ==> (#[trigger] self@.completed_auctions[i]).id != id)
                },
            },
            self@.wf() ==> match self@.archive_lookup(id) {
                Some(v) => r matches Ok(a) && a@ == v,
                None => r == Err::<Auction, AuctionError>(AuctionError::AuctionNotFound),
            },
    {
        let n: usize = self.completed_auctions.len();
        let mut i: usize = 0;
        while i < n
            invariant
                n == self.completed_auctions.len(),
                forall|j: int| 0 <= j < i ==> (#[trigger] self@.completed_auctions[j]).id != id,
            decreases n - i,
        {
            if self.completed_auctions[i].id == id {
                let a = self.completed_auctions[i].snapshot();
                proof {
                    assert(self@.completed_auctions[i as int] == a@);
                    if self@.wf() {
                        // Archived ids strictly increase, so the found index
                        // is the only one carrying this id.
                        let j = choose|j: int|
                            0 <= j < self@.completed_auctions.len() && (
                            #[trigger] self@.completed_auctions[j]).id == id;
                        if j < i as int {
                            assert(self@.completed_auctions[j].id
                                < self@.completed_auctions[i as int].id);
                        }
                        if (i as int) < j {
                            assert(self@.completed_auctions[i as int].id
                                < self@.completed_auctions[j].id);
                        }
                        assert(j == i as int);
                    }
                }
                return Ok(a);
            }
            i = i + 1;
        }
        Err(AuctionError::AuctionNotFound)
    }
}

} // verus!
