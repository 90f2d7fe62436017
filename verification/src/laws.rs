use vstd::prelude::*;
use crate::address::Address;
use crate::book::{open_offers, Book};
use crate::env::Host;
use crate::error::Error;
use crate::event::Effect;
use crate::history::{Call, Invocation};
use crate::offer::LenderOffer;

verus! {

/// A call never removes a record and never rewrites one, except that it may
/// close an open offer: lender, amount, rate and creation time of every offer
/// stay as they were, and an offer that is closed stays closed.
pub proof fn lemma_records_are_kept(book: Book, host: Host, call: Call, offer_id: u64)
    requires
        offer_id < book.offers.len(),
    ensures
        offer_id < book.after(host, call).offers.len(),
        book.after(host, call).offers[offer_id as int] == book.offers[offer_id as int]
            || book.after(host, call).offers[offer_id as int] == book.offers[offer_id as int].closed(),
        !book.offers[offer_id as int].active ==> book.after(host, call).offers[offer_id as int]
            == book.offers[offer_id as int],
{
}

/// A refused call changes nothing and asks nothing of the host.
pub proof fn lemma_refusal_changes_nothing(book: Book, host: Host, call: Call)
    requires
        book.refusal(host, call) is Some,
    ensures
        book.after(host, call) == book,
        book.effects(host, call) == Seq::<Effect>::empty(),
        host.emit(book.effects(host, call)) == host,
{
    assert(host.log + Seq::<Effect>::empty() == host.log);
}

/// A call that lacks a credential for the identity it is made as is refused as
/// unauthorized, whatever else holds of it; the books stay as they were and no
/// storage write, transfer or event is asked of the host.
pub proof fn lemma_unauthorized_is_refused(book: Book, host: Host, call: Call)
    requires
        !host.authorizes(call.actor()),
    ensures
        book.refusal(host, call) == Some(Error::Unauthorized),
        book.after(host, call) == book,
        book.effects(host, call) == Seq::<Effect>::empty(),
{
}

/// Cancelling or taking an offer that is already closed is always refused,
/// whoever asks and whatever the host.
pub proof fn lemma_closed_offer_refuses(book: Book, host: Host, who: Address, offer_id: u64)
    requires
        offer_id < book.offers.len(),
        !book.offers[offer_id as int].active,
    ensures
        book.cancel_refusal(host, who, offer_id) is Some,
        book.take_refusal(host, who, offer_id) is Some,
        host.authorizes(who) ==> book.cancel_refusal(host, who, offer_id) == Some(Error::OfferInactive),
        host.authorizes(who) ==> book.take_refusal(host, who, offer_id) == Some(Error::OfferInactive),
{
}

/// Once closed, an offer is closed after any further calls.
pub proof fn lemma_closed_stays_closed(book: Book, trace: Seq<Invocation>, offer_id: u64)
    requires
        offer_id < book.offers.len(),
        !book.offers[offer_id as int].active,
    ensures
        offer_id < book.run(trace).offers.len(),
        !book.run(trace).offers[offer_id as int].active,
    decreases trace.len(),
{
    if trace.len() > 0 {
        lemma_closed_stays_closed(book, trace.drop_last(), offer_id);
        lemma_records_are_kept(
            book.run(trace.drop_last()),
            trace.last().host,
            trace.last().call,
            offer_id,
        );
    }
}

/// No offer is closed twice: after a successful cancellation or take of an
/// offer, and whatever calls follow it, every further cancellation or take of
/// that offer is refused.
pub proof fn lemma_never_closed_twice(
    book: Book,
    host: Host,
    call: Call,
    offer_id: u64,
    later: Seq<Invocation>,
    again: Invocation,
)
    requires
        call.closes(offer_id),
        book.refusal(host, call) is None,
        again.call.closes(offer_id),
    ensures
        book.after(host, call).run(later).refusal(again.host, again.call) is Some,
{
    let closed = book.after(host, call);
    lemma_closed_stays_closed(closed, later, offer_id);
    match again.call {
        Call::CreateOffer { .. } => {},
        Call::CancelOffer { lender, .. } => {
            lemma_closed_offer_refuses(closed.run(later), again.host, lender, offer_id);
        },
        Call::TakeOffer { borrower, .. } => {
            lemma_closed_offer_refuses(closed.run(later), again.host, borrower, offer_id);
        },
    }
}

/// The number of offers never goes down.
pub proof fn lemma_counter_never_decreases(book: Book, trace: Seq<Invocation>)
    ensures
        book.next_offer_id() <= book.run(trace).next_offer_id(),
    decreases trace.len(),
{
    if trace.len() > 0 {
        lemma_counter_never_decreases(book, trace.drop_last());
    }
}

/// The counter advances by one with each successful creation and with nothing
/// else, and the creations get consecutive ids: the `k`-th of them gets the
/// counter's starting value plus `k`.
pub proof fn lemma_ids_are_consecutive(book: Book, trace: Seq<Invocation>)
    requires
        book.run(trace).wf(),
    ensures
        book.run(trace).next_offer_id() == book.next_offer_id() + book.assigned_ids(trace).len(),
        forall|k: int|
            0 <= k < book.assigned_ids(trace).len() ==> #[trigger] book.assigned_ids(trace)[k]
                == book.next_offer_id() + k,
    decreases trace.len(),
{
    if trace.len() > 0 {
        let earlier = trace.drop_last();
        assert(book.run(earlier).offers.len() <= book.run(trace).offers.len());
        lemma_ids_are_consecutive(book, earlier);
    }
}

/// On a marketplace that starts without offers, after `n` successful creations
/// among any calls the counter is `n`, and the ids handed out are `0`, `1`, ...,
/// `n - 1`, in the order of the creations.
pub proof fn lemma_ids_count_from_zero(book: Book, trace: Seq<Invocation>)
    requires
        book.offers.len() == 0,
        book.run(trace).wf(),
    ensures
        book.run(trace).next_offer_id() == book.assigned_ids(trace).len(),
        book.assigned_ids(trace) == Seq::new(book.assigned_ids(trace).len(), |k: int| k as u64),
{
    lemma_ids_are_consecutive(book, trace);
    assert(book.assigned_ids(trace) =~= Seq::new(
        book.assigned_ids(trace).len(),
        |k: int| k as u64,
    ));
}

/// The listing holds exactly the open offers, each once and under its own id,
/// by strictly ascending id.
pub proof fn lemma_listing_is_exact(offers: Seq<LenderOffer>)
    requires
        offers.len() <= u64::MAX,
    ensures
        forall|k: int|
            0 <= k < open_offers(offers).len() ==> {
                let entry = #[trigger] open_offers(offers)[k];
                &&& entry.0 < offers.len()
                &&& entry.1 == offers[entry.0 as int]
                &&& entry.1.active
            },
        forall|j: int, k: int|
            0 <= j < k < open_offers(offers).len() ==> (#[trigger] open_offers(offers)[j]).0 < (
            #[trigger] open_offers(offers)[k]).0,
        forall|i: int|
            0 <= i < offers.len() && (#[trigger] offers[i]).active ==> exists|k: int|
                0 <= k < open_offers(offers).len() && (#[trigger] open_offers(offers)[k]).0 == i,
    decreases offers.len(),
{
    if offers.len() > 0 {
        let rest = offers.drop_last();
        lemma_listing_is_exact(rest);
        let listing = open_offers(offers);
        let shorter = open_offers(rest);
        assert forall|i: int| 0 <= i < offers.len() && (#[trigger] offers[i]).active implies exists|
            k: int,
        |
            0 <= k < listing.len() && (#[trigger] listing[k]).0 == i by {
            if i < rest.len() {
                assert(rest[i].active);
                let k = choose|k: int| 0 <= k < shorter.len() && (#[trigger] shorter[k]).0 == i;
                assert(listing[k] == shorter[k]);
            } else {
                assert(listing[listing.len() - 1].0 == i);
            }
        }
    }
}

} // verus!
