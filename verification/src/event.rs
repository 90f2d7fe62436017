use vstd::prelude::*;
use crate::address::Address;
use crate::offer::{DataKey, LenderOffer};

verus! {

/// What the marketplace announces on the host's event log.
#[derive(Debug, PartialEq, Eq)]
pub enum Event {
    /// An offer was posted and funded.
    Created { id: u64, lender: Address, amount: i128, rate_bps: u32 },
    /// The lender withdrew an open offer.
    Cancelled { id: u64 },
    /// A borrower took an open offer against collateral.
    Taken { id: u64, borrower: Address, collateral: i128 },
}

impl Event {
    /// The tag shared by every event of the marketplace.
    pub open spec fn domain_tag() -> Seq<char> {
        "LEND"@
    }

    /// The tag that tells the three kinds of event apart.
    pub open spec fn action_tag(self) -> Seq<char> {
        match self {
            Event::Created { .. } => "O_CRT"@,
            Event::Cancelled { .. } => "O_CAN"@,
            Event::Taken { .. } => "O_TKN"@,
        }
    }

    /// The id of the offer that the event is about.
    pub open spec fn offer_id(self) -> u64 {
        match self {
            Event::Created { id, .. } => id,
            Event::Cancelled { id } => id,
            Event::Taken { id, .. } => id,
        }
    }

    /// The topic pair under which the event is published: domain, then action.
    pub fn topics(&self) -> (t: (&'static str, &'static str))
        ensures
            t.0@ == Event::domain_tag(),
            t.1@ == self.action_tag(),
    {
        match self {
            Event::Created { .. } => ("LEND", "O_CRT"),
            Event::Cancelled { .. } => ("LEND", "O_CAN"),
            Event::Taken { .. } => ("LEND", "O_TKN"),
        }
    }

    /// The id of the offer that the event is about.
    pub fn id(&self) -> (id: u64)
        ensures
            id == self.offer_id(),
    {
        match self {
            Event::Created { id, .. } => *id,
            Event::Cancelled { id } => *id,
            Event::Taken { id, .. } => *id,
        }
    }
}

impl Clone for Event {
    fn clone(&self) -> (e: Event)
        ensures
            e == *self,
    {
        match self {
            Event::Created { id, lender, amount, rate_bps } => Event::Created {
                id: *id,
                lender: lender.clone(),
                amount: *amount,
                rate_bps: *rate_bps,
            },
            Event::Cancelled { id } => Event::Cancelled { id: *id },
            Event::Taken { id, borrower, collateral } => Event::Taken {
                id: *id,
                borrower: borrower.clone(),
                collateral: *collateral,
            },
        }
    }
}

/// One thing that the marketplace asks of the ledger host.
///
/// A call leaves its effects in the order in which the host has to carry them
/// out.  The host runs a call as one atomic unit: if it cannot carry out one of
/// them, none of them happened.
#[derive(Debug, PartialEq, Eq)]
pub enum Effect {
    /// Persist the allocator's counter.
    PutCounter { next: u64 },
    /// Persist the record of an offer.
    PutOffer { id: u64, offer: LenderOffer },
    /// Move `amount` of `asset` from `from`'s balance to `to`'s balance.
    Transfer { asset: Address, from: Address, to: Address, amount: i128 },
    /// Append an event to the host's log.
    Publish { event: Event },
}

impl Effect {
    /// The storage slot that the effect writes, if it writes one.
    pub open spec fn slot(self) -> Option<DataKey> {
        match self {
            Effect::PutCounter { .. } => Some(DataKey::NextOfferId),
            Effect::PutOffer { id, .. } => Some(DataKey::Offer(id)),
            _ => None,
        }
    }

    /// The storage slot that the effect writes, if it writes one.
    pub fn key(&self) -> (k: Option<DataKey>)
        ensures
            k == self.slot(),
    {
        match self {
            Effect::PutCounter { .. } => Some(DataKey::NextOfferId),
            Effect::PutOffer { id, .. } => Some(DataKey::Offer(*id)),
            _ => None,
        }
    }
}

impl Clone for Effect {
    fn clone(&self) -> (e: Effect)
        ensures
            e == *self,
    {
        match self {
            Effect::PutCounter { next } => Effect::PutCounter { next: *next },
            Effect::PutOffer { id, offer } => Effect::PutOffer { id: *id, offer: offer.clone() },
            Effect::Transfer { asset, from, to, amount } => Effect::Transfer {
                asset: asset.clone(),
                from: from.clone(),
                to: to.clone(),
                amount: *amount,
            },
            Effect::Publish { event } => Effect::Publish { event: event.clone() },
        }
    }
}

} // verus!
