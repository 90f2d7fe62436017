use vstd::prelude::*;
use crate::address::Address;
use crate::book::Book;
use crate::env::Host;
use crate::error::Error;
use crate::event::Effect;

verus! {

/// One of the three state-changing calls of the marketplace, with its arguments.
pub enum Call {
    CreateOffer { lender: Address, amount: i128, rate_bps: u32 },
    CancelOffer { lender: Address, offer_id: u64 },
    TakeOffer { borrower: Address, offer_id: u64, collateral: i128 },
}

impl Call {
    /// The identity as which the call is made.
    pub open spec fn actor(self) -> Address {
        match self {
            Call::CreateOffer { lender, .. } => lender,
            Call::CancelOffer { lender, .. } => lender,
            Call::TakeOffer { borrower, .. } => borrower,
        }
    }

    /// Whether the call, if it succeeds, closes the offer `offer_id`.
    pub open spec fn closes(self, offer_id: u64) -> bool {
        match self {
            Call::CreateOffer { .. } => false,
            Call::CancelOffer { offer_id: id, .. } => id == offer_id,
            Call::TakeOffer { offer_id: id, .. } => id == offer_id,
        }
    }
}

/// A call together with the host as the call finds it.
pub struct Invocation {
    pub host: Host,
    pub call: Call,
}

impl Book {
    /// Why `call` is refused on these books, if it is.
    pub open spec fn refusal(self, host: Host, call: Call) -> Option<Error> {
        match call {
            Call::CreateOffer { lender, .. } => self.create_refusal(host, lender),
            Call::CancelOffer { lender, offer_id } => self.cancel_refusal(host, lender, offer_id),
            Call::TakeOffer { borrower, offer_id, .. } => self.take_refusal(host, borrower, offer_id),
        }
    }

    /// The books after `call`: changed as the call says if it succeeds, and
    /// untouched if it is refused.
    pub open spec fn after(self, host: Host, call: Call) -> Book {
        if self.refusal(host, call) is Some {
            self
        } else {
            match call {
                Call::CreateOffer { lender, amount, rate_bps } => self.after_create(
                    host,
                    lender,
                    amount,
                    rate_bps,
                ),
                Call::CancelOffer { offer_id, .. } => self.after_close(offer_id),
                Call::TakeOffer { offer_id, .. } => self.after_close(offer_id),
            }
        }
    }

    /// What `call` asks of the host: nothing if it is refused.
    pub open spec fn effects(self, host: Host, call: Call) -> Seq<Effect> {
        if self.refusal(host, call) is Some {
            Seq::empty()
        } else {
            match call {
                Call::CreateOffer { lender, amount, rate_bps } => self.create_effects(
                    host,
                    lender,
                    amount,
                    rate_bps,
                ),
                Call::CancelOffer { lender, offer_id } => self.cancel_effects(host, lender, offer_id),
                Call::TakeOffer { borrower, offer_id, collateral } => self.take_effects(
                    host,
                    borrower,
                    offer_id,
                    collateral,
                ),
            }
        }
    }

    /// The books after the calls of `trace`, made one after another.
    pub open spec fn run(self, trace: Seq<Invocation>) -> Book
        decreases trace.len(),
    {
        if trace.len() == 0 {
            self
        } else {
            self.run(trace.drop_last()).after(trace.last().host, trace.last().call)
        }
    }

    /// Everything that the calls of `trace` ask of the host, in order.
    pub open spec fn trace_effects(self, trace: Seq<Invocation>) -> Seq<Effect>
        decreases trace.len(),
    {
        if trace.len() == 0 {
            Seq::empty()
        } else {
            self.trace_effects(trace.drop_last()) + self.run(trace.drop_last()).effects(
                trace.last().host,
                trace.last().call,
            )
        }
    }

    /// The ids handed out by the successful creations of `trace`, in the order
    /// of the calls.
    pub open spec fn assigned_ids(self, trace: Seq<Invocation>) -> Seq<u64>
        decreases trace.len(),
    {
        if trace.len() == 0 {
            Seq::empty()
        } else {
            let before = self.run(trace.drop_last());
            let earlier = self.assigned_ids(trace.drop_last());
            let last = trace.last();
            if last.call is CreateOffer && before.refusal(last.host, last.call) is None {
                earlier.push(before.next_offer_id() as u64)
            } else {
                earlier
            }
        }
    }
}

} // verus!
