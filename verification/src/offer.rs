use vstd::prelude::*;
use crate::address::Address;

verus! {

/// A loan offer as the marketplace keeps it.
///
/// Everything but `active` is fixed when the offer is created.  `active` goes
/// from `true` to `false` once, when the offer is cancelled or taken, and the
/// record stays in the books afterwards.
#[derive(Debug, PartialEq, Eq)]
pub struct LenderOffer {
    /// The party who posted the offer.
    pub lender: Address,
    /// How much of the principal asset the lender committed.
    pub amount: i128,
    /// The interest rate in basis points.  The marketplace only records it.
    pub rate_bps: u32,
    /// Ledger time at creation.
    pub timestamp: u64,
    /// Whether the offer is still open.
    pub active: bool,
}

impl LenderOffer {
    /// This offer, closed: the same record with `active` cleared.
    pub open spec fn closed(self) -> LenderOffer {
        LenderOffer { active: false, ..self }
    }
}

impl Clone for LenderOffer {
    fn clone(&self) -> (o: LenderOffer)
        ensures
            o == *self,
    {
        LenderOffer {
            lender: self.lender.clone(),
            amount: self.amount,
            rate_bps: self.rate_bps,
            timestamp: self.timestamp,
            active: self.active,
        }
    }
}

/// The slots of the marketplace's durable storage.
#[derive(Clone, Copy, Debug, PartialEq, Eq, Hash, Structural)]
pub enum DataKey {
    /// The id that the next offer will get.
    NextOfferId,
    /// The record of the offer with the given id.
    Offer(u64),
}

} // verus!
