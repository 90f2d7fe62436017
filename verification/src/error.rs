use vstd::prelude::*;

verus! {

/// Why the marketplace refused a call.  A refused call changes nothing.
#[derive(Clone, Copy, Debug, PartialEq, Eq, Structural)]
pub enum Error {
    /// The invocation carries no credential for the acting identity.
    Unauthorized,
    /// No offer was ever allocated under the given id.
    OfferNotFound,
    /// The offer was already cancelled or taken.
    OfferInactive,
    /// The caller is not the lender who posted the offer.
    NotOfferLender,
    /// The asset that the call has to move was never configured.
    AssetNotConfigured,
}

} // verus!
