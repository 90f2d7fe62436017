use vstd::prelude::*;
use crate::address::Address;
use crate::book::{open_offers, Book};
use crate::env::Env;
use crate::error::Error;
use crate::event::{Effect, Event};
use crate::laws::lemma_listing_is_exact;
use crate::offer::LenderOffer;

verus! {

/// The lending marketplace: its offers and its two configured assets.
pub struct LendingP2P {
    offers: Vec<LenderOffer>,
    usdc: Option<Address>,
    xlm: Option<Address>,
}

impl View for LendingP2P {
    type V = Book;

    closed spec fn view(&self) -> Book {
        Book { offers: self.offers@, usdc: self.usdc, xlm: self.xlm }
    }
}

/// The configured principal asset.
pub fn load_usdc(market: &LendingP2P) -> (r: Result<Address, Error>)
    ensures
        match r {
            Ok(asset) => market@.usdc == Some(asset),
            Err(e) => market@.usdc is None && e == Error::AssetNotConfigured,
        },
{
    match &market.usdc {
        Some(asset) => Ok(asset.clone()),
        None => Err(Error::AssetNotConfigured),
    }
}

/// The configured collateral asset.
pub fn load_xlm(market: &LendingP2P) -> (r: Result<Address, Error>)
    ensures
        match r {
            Ok(asset) => market@.xlm == Some(asset),
            Err(e) => market@.xlm is None && e == Error::AssetNotConfigured,
        },
{
    match &market.xlm {
        Some(asset) => Ok(asset.clone()),
        None => Err(Error::AssetNotConfigured),
    }
}

impl LendingP2P {
    /// A marketplace without offers and without configured assets.
    pub fn new() -> (market: LendingP2P)
        ensures
            market@ == Book::empty(),
    {
        LendingP2P { offers: Vec::new(), usdc: None, xlm: None }
    }

    /// The marketplace whose storage holds `offers`, by id, and the two asset
    /// slots as given.
    pub fn restore(
        offers: Vec<LenderOffer>,
        usdc: Option<Address>,
        xlm: Option<Address>,
    ) -> (market: LendingP2P)
        ensures
            market@ == (Book { offers: offers@, usdc, xlm }),
    {
        LendingP2P { offers, usdc, xlm }
    }

    /// Configures the principal asset.
    pub fn set_usdc(&mut self, asset: Address)
        ensures
            final(self)@ == (Book { usdc: Some(asset), ..old(self)@ }),
    {
        self.usdc = Some(asset);
    }

    /// Configures the collateral asset.
    pub fn set_xlm(&mut self, asset: Address)
        ensures
            final(self)@ == (Book { xlm: Some(asset), ..old(self)@ }),
    {
        self.xlm = Some(asset);
    }

    /// The id that the next offer will get: the number of offers created so far.
    pub fn next_offer_id(&self) -> (id: u64)
        ensures
            id == self@.next_offer_id(),
            self@.wf(),
    {
        self.offers.len() as u64
    }

    /// The record of the offer `offer_id`, if that id was ever handed out.
    pub fn get_offer(&self, offer_id: u64) -> (r: Option<&LenderOffer>)
        ensures
            match r {
                Some(offer) => offer_id < self@.offers.len() && *offer == self@.offers[offer_id as int],
                None => offer_id >= self@.offers.len(),
            },
    {
        if offer_id < self.offers.len() as u64 {
            Some(&self.offers[offer_id as usize])
        } else {
            None
        }
    }

    /// Hands out the next id and asks the host to persist the advanced counter.
    fn gen_offer_id(&self, env: &mut Env) -> (id: u64)
        requires
            self@.offers.len() < u64::MAX,
        ensures
            id == self@.offers.len(),
            final(env)@ == old(env)@.emit(seq![Effect::PutCounter { next: (id + 1) as u64 }]),
    {
        let id: u64 = self.offers.len() as u64;
        env.emit(Effect::PutCounter { next: id + 1 });
        assert(env@.log == old(env)@.log + seq![Effect::PutCounter { next: (id + 1) as u64 }]);
        id
    }

    /// Posts an offer of `amount` at `rate_bps` for `lender` and funds it.
    ///
    /// The call is refused unless `lender` authorized it and the principal asset
    /// is configured.  Otherwise the offer gets the next id, is recorded as
    /// open with the current ledger time, and the host is asked to move
    /// `amount` of the principal asset from the lender into escrow, to persist
    /// the counter and the record, and to announce the creation.
    pub fn create_offer(
        &mut self,
        env: &mut Env,
        lender: Address,
        amount: i128,
        rate_bps: u32,
    ) -> (r: Result<u64, Error>)
        requires
            old(self)@.offers.len() < u64::MAX,
        ensures
            match r {
                Ok(id) => {
                    &&& old(self)@.create_refusal(old(env)@, lender) is None
                    &&& id == old(self)@.next_offer_id()
                    &&& final(self)@ == old(self)@.after_create(old(env)@, lender, amount, rate_bps)
                    &&& final(env)@ == old(env)@.emit(
                        old(self)@.create_effects(old(env)@, lender, amount, rate_bps),
                    )
                },
                Err(e) => {
                    &&& old(self)@.create_refusal(old(env)@, lender) == Some(e)
                    &&& final(self)@ == old(self)@
                    &&& final(env)@ == old(env)@
                },
            },
    {
        match env.require_auth(&lender) {
            Ok(()) => {},
            Err(e) => {
                return Err(e);
            },
        }
        let usdc = match load_usdc(self) {
            Ok(asset) => asset,
            Err(e) => {
                return Err(e);
            },
        };
        let escrow = env.current_contract_address();
        env.emit(Effect::Transfer { asset: usdc, from: lender.clone(), to: escrow, amount });
        let id = self.gen_offer_id(env);
        let offer = LenderOffer {
            lender: lender.clone(),
            amount,
            rate_bps,
            timestamp: env.timestamp(),
            active: true,
        };
        env.emit(Effect::PutOffer { id, offer: offer.clone() });
        self.offers.push(offer);
        env.emit(Effect::Publish { event: Event::Created { id, lender, amount, rate_bps } });
        assert(env@.log == old(env)@.log + old(self)@.create_effects(
            old(env)@,
            lender,
            amount,
            rate_bps,
        ));
        Ok(id)
    }

    /// Closes the open offer `offer_id` in the books and hands back its record
    /// as it now stands.
    fn close_offer(&mut self, offer_id: u64) -> (closed: LenderOffer)
        requires
            old(self)@.is_open(offer_id),
        ensures
            final(self)@ == old(self)@.after_close(offer_id),
            closed == old(self)@.offers[offer_id as int].closed(),
    {
        let idx = offer_id as usize;
        let offer = &self.offers[idx];
        let closed = LenderOffer {
            lender: offer.lender.clone(),
            amount: offer.amount,
            rate_bps: offer.rate_bps,
            timestamp: offer.timestamp,
            active: false,
        };
        self.offers.set(idx, closed.clone());
        closed
    }

    /// Withdraws the open offer `offer_id` for its lender.
    ///
    /// The call is refused unless `lender` authorized it, the offer exists, is
    /// still open and was posted by `lender`, and the principal asset is
    /// configured.  Otherwise the offer is closed, and the host is asked to
    /// persist the closed record, then to return the offer's amount of the
    /// principal asset from escrow to the lender, then to announce the
    /// cancellation.
    pub fn cancel_offer(&mut self, env: &mut Env, lender: Address, offer_id: u64) -> (r: Result<(), Error>)
        ensures
            match r {
                Ok(()) => {
                    &&& old(self)@.cancel_refusal(old(env)@, lender, offer_id) is None
                    &&& final(self)@ == old(self)@.after_close(offer_id)
                    &&& final(env)@ == old(env)@.emit(
                        old(self)@.cancel_effects(old(env)@, lender, offer_id),
                    )
                },
                Err(e) => {
                    &&& old(self)@.cancel_refusal(old(env)@, lender, offer_id) == Some(e)
                    &&& final(self)@ == old(self)@
                    &&& final(env)@ == old(env)@
                },
            },
    {
        match env.require_auth(&lender) {
            Ok(()) => {},
            Err(e) => {
                return Err(e);
            },
        }
        match self.get_offer(offer_id) {
            None => {
                return Err(Error::OfferNotFound);
            },
            Some(offer) => {
                if !offer.active {
                    return Err(Error::OfferInactive);
                }
                if !offer.lender.same(&lender) {
                    return Err(Error::NotOfferLender);
                }
            },
        }
        let usdc = match load_usdc(self) {
            Ok(asset) => asset,
            Err(e) => {
                return Err(e);
            },
        };
        let closed = self.close_offer(offer_id);
        let amount = closed.amount;
        env.emit(Effect::PutOffer { id: offer_id, offer: closed });
        let escrow = env.current_contract_address();
        env.emit(Effect::Transfer { asset: usdc, from: escrow, to: lender, amount });
        env.emit(Effect::Publish { event: Event::Cancelled { id: offer_id } });
        assert(env@.log == old(env)@.log + old(self)@.cancel_effects(old(env)@, lender, offer_id));
        Ok(())
    }

    /// Takes the open offer `offer_id` for `borrower` against `collateral`.
    ///
    /// The call is refused unless `borrower` authorized it, the offer exists and
    /// is still open, and both assets are configured.  Otherwise the offer is
    /// closed, and the host is asked to persist the closed record, then to move
    /// `collateral` of the collateral asset from the borrower into escrow, then
    /// to move the offer's amount of the principal asset from escrow to the
    /// borrower, then to announce the match.
    pub fn take_offer(
        &mut self,
        env: &mut Env,
        borrower: Address,
        offer_id: u64,
        collateral: i128,
    ) -> (r: Result<(), Error>)
        ensures
            match r {
                Ok(()) => {
                    &&& old(self)@.take_refusal(old(env)@, borrower, offer_id) is None
                    &&& final(self)@ == old(self)@.after_close(offer_id)
                    &&& final(env)@ == old(env)@.emit(
                        old(self)@.take_effects(old(env)@, borrower, offer_id, collateral),
                    )
                },
                Err(e) => {
                    &&& old(self)@.take_refusal(old(env)@, borrower, offer_id) == Some(e)
                    &&& final(self)@ == old(self)@
                    &&& final(env)@ == old(env)@
                },
            },
    {
        match env.require_auth(&borrower) {
            Ok(()) => {},
            Err(e) => {
                return Err(e);
            },
        }
        match self.get_offer(offer_id) {
            None => {
                return Err(Error::OfferNotFound);
            },
            Some(offer) => {
                if !offer.active {
                    return Err(Error::OfferInactive);
                }
            },
        }
        let xlm = match load_xlm(self) {
            Ok(asset) => asset,
            Err(e) => {
                return Err(e);
            },
        };
        let usdc = match load_usdc(self) {
            Ok(asset) => asset,
            Err(e) => {
                return Err(e);
            },
        };
        let closed = self.close_offer(offer_id);
        let amount = closed.amount;
        env.emit(Effect::PutOffer { id: offer_id, offer: closed });
        env.emit(
            Effect::Transfer {
                asset: xlm,
                from: borrower.clone(),
                to: env.current_contract_address(),
                amount: collateral,
            },
        );
        env.emit(
            Effect::Transfer {
                asset: usdc,
                from: env.current_contract_address(),
                to: borrower.clone(),
                amount,
            },
        );
        env.emit(Effect::Publish { event: Event::Taken { id: offer_id, borrower, collateral } });
        assert(env@.log == old(env)@.log + old(self)@.take_effects(
            old(env)@,
            borrower,
            offer_id,
            collateral,
        ));
        Ok(())
    }

    /// The open offers with their ids, by ascending id: no closed offer is
    /// listed, no open one is left out, and none is listed twice.
    pub fn list_offers(&self) -> (listing: Vec<(u64, LenderOffer)>)
        ensures
            listing@ == self@.listing(),
            forall|k: int|
                0 <= k < listing@.len() ==> {
                    let entry = #[trigger] listing@[k];
                    &&& entry.0 < self@.offers.len()
                    &&& entry.1 == self@.offers[entry.0 as int]
                    &&& entry.1.active
                },
            forall|j: int, k: int|
                0 <= j < k < listing@.len() ==> (#[trigger] listing@[j]).0 < (#[trigger] listing@[k]).0,
            forall|i: int|
                0 <= i < self@.offers.len() && (#[trigger] self@.offers[i]).active ==> exists|k: int|
                    0 <= k < listing@.len() && (#[trigger] listing@[k]).0 == i,
    {
        let mut listing: Vec<(u64, LenderOffer)> = Vec::new();
        let mut i: usize = 0;
        while i < self.offers.len()
            invariant
                i <= self.offers@.len(),
                listing@ == open_offers(self.offers@.take(i as int)),
            decreases self.offers@.len() - i,
        {
            assert(self.offers@.take(i + 1).drop_last() == self.offers@.take(i as int));
            let offer = &self.offers[i];
            if offer.active {
                listing.push((i as u64, offer.clone()));
            }
            i += 1;
        }
        assert(self.offers@.take(i as int) == self.offers@);
        proof {
            lemma_listing_is_exact(self.offers@);
        }
        listing
    }
}

} // verus!
