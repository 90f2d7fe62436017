use vstd::prelude::*;
use crate::address::Address;
use crate::book::Book;
use crate::env::Host;
use crate::event::Effect;
use crate::history::{Call, Invocation};
use crate::offer::LenderOffer;

verus! {

/// How much of `asset` one effect brings into the balance of `escrow`: the
/// amount of a transfer to it, less the amount of a transfer from it.
pub open spec fn flow(effect: Effect, asset: Address, escrow: Address) -> int {
    match effect {
        Effect::Transfer { asset: moved, from, to, amount } => {
            if moved@ == asset@ {
                (if to@ == escrow@ {
                    amount as int
                } else {
                    0
                }) - (if from@ == escrow@ {
                    amount as int
                } else {
                    0
                })
            } else {
                0
            }
        },
        _ => 0,
    }
}

/// How much of `asset` the effects bring into the balance of `escrow`, all told.
pub open spec fn inflow(effects: Seq<Effect>, asset: Address, escrow: Address) -> int
    decreases effects.len(),
{
    if effects.len() == 0 {
        0
    } else {
        inflow(effects.drop_last(), asset, escrow) + flow(effects.last(), asset, escrow)
    }
}

/// The principal that the open offers among `offers` have committed.
pub open spec fn escrowed(offers: Seq<LenderOffer>) -> int
    decreases offers.len(),
{
    if offers.len() == 0 {
        0
    } else {
        escrowed(offers.drop_last()) + if offers.last().active {
            offers.last().amount as int
        } else {
            0
        }
    }
}

proof fn lemma_inflow_push(effects: Seq<Effect>, effect: Effect, asset: Address, escrow: Address)
    ensures
        inflow(effects.push(effect), asset, escrow) == inflow(effects, asset, escrow) + flow(
            effect,
            asset,
            escrow,
        ),
{
    assert(effects.push(effect).drop_last() == effects);
}

proof fn lemma_inflow_of_three(a: Effect, b: Effect, c: Effect, asset: Address, escrow: Address)
    ensures
        inflow(seq![a, b, c], asset, escrow) == flow(a, asset, escrow) + flow(b, asset, escrow)
            + flow(c, asset, escrow),
{
    let none = Seq::<Effect>::empty();
    lemma_inflow_push(none, a, asset, escrow);
    lemma_inflow_push(none.push(a), b, asset, escrow);
    lemma_inflow_push(none.push(a).push(b), c, asset, escrow);
    assert(seq![a, b, c] == none.push(a).push(b).push(c));
}

proof fn lemma_inflow_of_four(
    a: Effect,
    b: Effect,
    c: Effect,
    d: Effect,
    asset: Address,
    escrow: Address,
)
    ensures
        inflow(seq![a, b, c, d], asset, escrow) == flow(a, asset, escrow) + flow(b, asset, escrow)
            + flow(c, asset, escrow) + flow(d, asset, escrow),
{
    lemma_inflow_of_three(a, b, c, asset, escrow);
    lemma_inflow_push(seq![a, b, c], d, asset, escrow);
    assert(seq![a, b, c, d] == seq![a, b, c].push(d));
}

proof fn lemma_escrowed_push(offers: Seq<LenderOffer>, offer: LenderOffer)
    ensures
        escrowed(offers.push(offer)) == escrowed(offers) + if offer.active {
            offer.amount as int
        } else {
            0
        },
{
    assert(offers.push(offer).drop_last() == offers);
}

proof fn lemma_escrowed_close(offers: Seq<LenderOffer>, i: int)
    requires
        0 <= i < offers.len(),
        offers[i].active,
    ensures
        escrowed(offers.update(i, offers[i].closed())) == escrowed(offers) - offers[i].amount,
    decreases offers.len(),
{
    let closed = offers.update(i, offers[i].closed());
    if i == offers.len() - 1 {
        assert(closed.drop_last() == offers.drop_last());
    } else {
        lemma_escrowed_close(offers.drop_last(), i);
        assert(closed.drop_last() == offers.drop_last().update(i, offers[i].closed()));
    }
}

/// Creation is conservative: a successful `create_offer` raises the principal
/// committed by open offers by exactly the offer's amount, and, where the
/// lender is not the marketplace itself, the transfers it asks for bring exactly
/// that amount of the principal asset into escrow.
pub proof fn lemma_create_conserves(book: Book, host: Host, lender: Address, amount: i128, rate_bps: u32)
    requires
        book.create_refusal(host, lender) is None,
    ensures
        escrowed(book.after_create(host, lender, amount, rate_bps).offers) == escrowed(book.offers)
            + amount,
        lender@ != host.contract@ ==> inflow(
            book.create_effects(host, lender, amount, rate_bps),
            book.usdc->0,
            host.contract,
        ) == amount,
{
    let effects = book.create_effects(host, lender, amount, rate_bps);
    lemma_escrowed_push(book.offers, Book::new_offer(host, lender, amount, rate_bps));
    lemma_inflow_of_four(effects[0], effects[1], effects[2], effects[3], book.usdc->0, host.contract);
    assert(effects == seq![effects[0], effects[1], effects[2], effects[3]]);
}

/// Cancellation is conservative: a successful `cancel_offer` lowers the
/// principal committed by open offers by exactly the offer's amount, and, where
/// the lender is not the marketplace itself, the transfers it asks for take
/// exactly that amount of the principal asset out of escrow, to the lender.
pub proof fn lemma_cancel_conserves(book: Book, host: Host, lender: Address, offer_id: u64)
    requires
        book.cancel_refusal(host, lender, offer_id) is None,
    ensures
        escrowed(book.after_close(offer_id).offers) == escrowed(book.offers)
            - book.offers[offer_id as int].amount,
        lender@ != host.contract@ ==> inflow(
            book.cancel_effects(host, lender, offer_id),
            book.usdc->0,
            host.contract,
        ) == -book.offers[offer_id as int].amount,
        lender@ != host.contract@ ==> inflow(
            book.cancel_effects(host, lender, offer_id),
            book.usdc->0,
            lender,
        ) == book.offers[offer_id as int].amount,
{
    let effects = book.cancel_effects(host, lender, offer_id);
    lemma_escrowed_close(book.offers, offer_id as int);
    lemma_inflow_of_three(effects[0], effects[1], effects[2], book.usdc->0, host.contract);
    lemma_inflow_of_three(effects[0], effects[1], effects[2], book.usdc->0, lender);
    assert(effects == seq![effects[0], effects[1], effects[2]]);
}

/// Taking is conservative: a successful `take_offer` lowers the principal
/// committed by open offers by exactly the offer's amount, and, where the
/// borrower is not the marketplace itself and the two assets differ, the
/// transfers it asks for take exactly that amount of the principal asset out of
/// escrow, to the borrower, and bring exactly `collateral` of the collateral
/// asset into escrow, from the borrower.
pub proof fn lemma_take_conserves(
    book: Book,
    host: Host,
    borrower: Address,
    offer_id: u64,
    collateral: i128,
)
    requires
        book.take_refusal(host, borrower, offer_id) is None,
    ensures
        escrowed(book.after_close(offer_id).offers) == escrowed(book.offers)
            - book.offers[offer_id as int].amount,
        borrower@ != host.contract@ && (book.usdc->0)@ != (book.xlm->0)@ ==> {
            let effects = book.take_effects(host, borrower, offer_id, collateral);
            let amount = book.offers[offer_id as int].amount;
            &&& inflow(effects, book.usdc->0, host.contract) == -amount
            &&& inflow(effects, book.usdc->0, borrower) == amount
            &&& inflow(effects, book.xlm->0, host.contract) == collateral
            &&& inflow(effects, book.xlm->0, borrower) == -collateral
        },
{
    let effects = book.take_effects(host, borrower, offer_id, collateral);
    lemma_escrowed_close(book.offers, offer_id as int);
    lemma_inflow_of_four(effects[0], effects[1], effects[2], effects[3], book.usdc->0, host.contract);
    lemma_inflow_of_four(effects[0], effects[1], effects[2], effects[3], book.usdc->0, borrower);
    lemma_inflow_of_four(effects[0], effects[1], effects[2], effects[3], book.xlm->0, host.contract);
    lemma_inflow_of_four(effects[0], effects[1], effects[2], effects[3], book.xlm->0, borrower);
    assert(effects == seq![effects[0], effects[1], effects[2], effects[3]]);
}

/// Custody follows the books: whatever the call, and whether it succeeds or is
/// refused, the principal committed by open offers changes by exactly what the
/// call's transfers bring into escrow of the principal asset.  This holds of
/// every call whose actor is not the marketplace itself, on books whose two
/// assets differ.
pub proof fn lemma_custody_follows_books(book: Book, host: Host, call: Call)
    requires
        call.actor()@ != host.contract@,
        book.usdc is Some,
        book.xlm is Some ==> (book.usdc->0)@ != (book.xlm->0)@,
    ensures
        escrowed(book.after(host, call).offers) - escrowed(book.offers) == inflow(
            book.effects(host, call),
            book.usdc->0,
            host.contract,
        ),
{
    if book.refusal(host, call) is None {
        match call {
            Call::CreateOffer { lender, amount, rate_bps } => {
                lemma_create_conserves(book, host, lender, amount, rate_bps);
            },
            Call::CancelOffer { lender, offer_id } => {
                lemma_cancel_conserves(book, host, lender, offer_id);
            },
            Call::TakeOffer { borrower, offer_id, collateral } => {
                lemma_take_conserves(book, host, borrower, offer_id, collateral);
            },
        }
    }
}

proof fn lemma_inflow_concat(first: Seq<Effect>, second: Seq<Effect>, asset: Address, escrow: Address)
    ensures
        inflow(first + second, asset, escrow) == inflow(first, asset, escrow) + inflow(
            second,
            asset,
            escrow,
        ),
    decreases second.len(),
{
    if second.len() == 0 {
        assert(first + second == first);
    } else {
        lemma_inflow_concat(first, second.drop_last(), asset, escrow);
        assert((first + second).drop_last() == first + second.drop_last());
    }
}

proof fn lemma_inflow_same_party(effects: Seq<Effect>, asset: Address, escrow: Address, other: Address)
    requires
        escrow@ == other@,
    ensures
        inflow(effects, asset, escrow) == inflow(effects, asset, other),
    decreases effects.len(),
{
    if effects.len() > 0 {
        lemma_inflow_same_party(effects.drop_last(), asset, escrow, other);
    }
}

/// Calls never touch the configured assets.
pub proof fn lemma_assets_are_kept(book: Book, trace: Seq<Invocation>)
    ensures
        book.run(trace).usdc == book.usdc,
        book.run(trace).xlm == book.xlm,
    decreases trace.len(),
{
    if trace.len() > 0 {
        lemma_assets_are_kept(book, trace.drop_last());
    }
}

/// Custody follows the books over any history: after any calls made to the
/// marketplace at `escrow`, none of them by the marketplace itself, the
/// principal committed by open offers has changed by exactly what all their
/// transfers together brought into escrow of the principal asset.  So if
/// escrow held what the open offers had committed, it still does.
pub proof fn lemma_custody_over_history(book: Book, trace: Seq<Invocation>, escrow: Address)
    requires
        book.usdc is Some,
        book.xlm is Some ==> (book.usdc->0)@ != (book.xlm->0)@,
        forall|k: int|
            0 <= k < trace.len() ==> (#[trigger] trace[k]).host.contract@ == escrow@
                && trace[k].call.actor()@ != escrow@,
    ensures
        escrowed(book.run(trace).offers) - escrowed(book.offers) == inflow(
            book.trace_effects(trace),
            book.usdc->0,
            escrow,
        ),
    decreases trace.len(),
{
    if trace.len() > 0 {
        let earlier = trace.drop_last();
        let last = trace.last();
        let before = book.run(earlier);
        assert forall|k: int| 0 <= k < earlier.len() implies (#[trigger] earlier[k]).host.contract@
            == escrow@ && earlier[k].call.actor()@ != escrow@ by {
            assert(earlier[k] == trace[k]);
        }
        lemma_custody_over_history(book, earlier, escrow);
        lemma_assets_are_kept(book, earlier);
        lemma_custody_follows_books(before, last.host, last.call);
        lemma_inflow_same_party(
            before.effects(last.host, last.call),
            book.usdc->0,
            last.host.contract,
            escrow,
        );
        lemma_inflow_concat(
            book.trace_effects(earlier),
            before.effects(last.host, last.call),
            book.usdc->0,
            escrow,
        );
    }
}

} // verus!
