use vstd::prelude::*;
use crate::address::Address;
use crate::env::Host;
use crate::error::Error;
use crate::event::{Effect, Event};
use crate::offer::LenderOffer;

verus! {

/// The mathematical content of the marketplace's durable storage.
///
/// The offer with id `i` is `offers[i]`: ids are handed out from zero without
/// gaps, a record exists for every id handed out, and no record is ever removed.
/// The allocator's counter is therefore the number of records.
pub struct Book {
    /// Every offer ever created, by id.
    pub offers: Seq<LenderOffer>,
    /// The principal asset, once configured.
    pub usdc: Option<Address>,
    /// The collateral asset, once configured.
    pub xlm: Option<Address>,
}

impl Book {
    /// Books without offers and without configured assets.
    pub open spec fn empty() -> Book {
        Book { offers: Seq::empty(), usdc: None, xlm: None }
    }

    /// The id that the next offer will get.
    pub open spec fn next_offer_id(self) -> nat {
        self.offers.len()
    }

    /// Whether every id handed out so far fits the id type.
    pub open spec fn wf(self) -> bool {
        self.offers.len() <= u64::MAX
    }

    /// Whether the offer `id` exists and is still open.
    pub open spec fn is_open(self, id: u64) -> bool {
        id < self.offers.len() && self.offers[id as int].active
    }

    /// The record that `create_offer` stores.
    pub open spec fn new_offer(host: Host, lender: Address, amount: i128, rate_bps: u32) -> LenderOffer {
        LenderOffer { lender, amount, rate_bps, timestamp: host.timestamp, active: true }
    }

    /// Why `create_offer` is refused, if it is.
    pub open spec fn create_refusal(self, host: Host, lender: Address) -> Option<Error> {
        if !host.authorizes(lender) {
            Some(Error::Unauthorized)
        } else if self.usdc is None {
            Some(Error::AssetNotConfigured)
        } else {
            None
        }
    }

    /// What a successful `create_offer` asks of the host: take the principal
    /// into escrow, then persist counter and record, then announce.
    pub open spec fn create_effects(
        self,
        host: Host,
        lender: Address,
        amount: i128,
        rate_bps: u32,
    ) -> Seq<Effect> {
        let id = self.offers.len() as u64;
        seq![
            Effect::Transfer { asset: self.usdc->0, from: lender, to: host.contract, amount },
            Effect::PutCounter { next: (id + 1) as u64 },
            Effect::PutOffer { id, offer: Book::new_offer(host, lender, amount, rate_bps) },
            Effect::Publish { event: Event::Created { id, lender, amount, rate_bps } },
        ]
    }

    /// The books after a successful `create_offer`.
    pub open spec fn after_create(
        self,
        host: Host,
        lender: Address,
        amount: i128,
        rate_bps: u32,
    ) -> Book {
        Book { offers: self.offers.push(Book::new_offer(host, lender, amount, rate_bps)), ..self }
    }

    /// Why `cancel_offer` is refused, if it is.
    pub open spec fn cancel_refusal(self, host: Host, lender: Address, offer_id: u64) -> Option<Error> {
        if !host.authorizes(lender) {
            Some(Error::Unauthorized)
        } else if offer_id >= self.offers.len() {
            Some(Error::OfferNotFound)
        } else if !self.offers[offer_id as int].active {
            Some(Error::OfferInactive)
        } else if self.offers[offer_id as int].lender@ != lender@ {
            Some(Error::NotOfferLender)
        } else if self.usdc is None {
            Some(Error::AssetNotConfigured)
        } else {
            None
        }
    }

    /// What a successful `cancel_offer` asks of the host: persist the closed
    /// record first, then return the principal, then announce.
    pub open spec fn cancel_effects(self, host: Host, lender: Address, offer_id: u64) -> Seq<Effect> {
        let offer = self.offers[offer_id as int];
        seq![
            Effect::PutOffer { id: offer_id, offer: offer.closed() },
            Effect::Transfer {
                asset: self.usdc->0,
                from: host.contract,
                to: lender,
                amount: offer.amount,
            },
            Effect::Publish { event: Event::Cancelled { id: offer_id } },
        ]
    }

    /// Why `take_offer` is refused, if it is.
    pub open spec fn take_refusal(self, host: Host, borrower: Address, offer_id: u64) -> Option<Error> {
        if !host.authorizes(borrower) {
            Some(Error::Unauthorized)
        } else if offer_id >= self.offers.len() {
            Some(Error::OfferNotFound)
        } else if !self.offers[offer_id as int].active {
            Some(Error::OfferInactive)
        } else if self.xlm is None || self.usdc is None {
            Some(Error::AssetNotConfigured)
        } else {
            None
        }
    }

    /// What a successful `take_offer` asks of the host: persist the closed
    /// record first, then take the collateral in, and only then let the
    /// principal out; then announce.
    pub open spec fn take_effects(
        self,
        host: Host,
        borrower: Address,
        offer_id: u64,
        collateral: i128,
    ) -> Seq<Effect> {
        let offer = self.offers[offer_id as int];
        seq![
            Effect::PutOffer { id: offer_id, offer: offer.closed() },
            Effect::Transfer {
                asset: self.xlm->0,
                from: borrower,
                to: host.contract,
                amount: collateral,
            },
            Effect::Transfer {
                asset: self.usdc->0,
                from: host.contract,
                to: borrower,
                amount: offer.amount,
            },
            Effect::Publish { event: Event::Taken { id: offer_id, borrower, collateral } },
        ]
    }

    /// The books after the offer `offer_id` was cancelled or taken.
    pub open spec fn after_close(self, offer_id: u64) -> Book {
        Book {
            offers: self.offers.update(offer_id as int, self.offers[offer_id as int].closed()),
            ..self
        }
    }

    /// The open offers with their ids, by ascending id.
    pub open spec fn listing(self) -> Seq<(u64, LenderOffer)> {
        open_offers(self.offers)
    }
}

/// The records of `offers` that are still open, each with its index, in order.
pub open spec fn open_offers(offers: Seq<LenderOffer>) -> Seq<(u64, LenderOffer)>
    decreases offers.len(),
{
    if offers.len() == 0 {
        Seq::empty()
    } else if offers.last().active {
        open_offers(offers.drop_last()).push(((offers.len() - 1) as u64, offers.last()))
    } else {
        open_offers(offers.drop_last())
    }
}

} // verus!
