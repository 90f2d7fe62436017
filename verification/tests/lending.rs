use lending_p2p::{
    load_usdc, load_xlm, Address, DataKey, Effect, Env, Error, Event, LenderOffer, LendingP2P,
};

fn escrow() -> Address {
    Address::from_str("CESCROW")
}

fn usdc() -> Address {
    Address::from_str("CUSDC")
}

fn xlm() -> Address {
    Address::from_str("CXLM")
}

fn lender() -> Address {
    Address::from_str("GLENDER")
}

fn borrower() -> Address {
    Address::from_str("GBORROWER")
}

fn market() -> LendingP2P {
    let mut market = LendingP2P::new();
    market.set_usdc(usdc());
    market.set_xlm(xlm());
    market
}

fn signed_by(who: &[Address]) -> Env {
    let mut env = Env::new(escrow(), 1_700_000_000);
    for a in who {
        env.authorize(a.clone());
    }
    env
}

/// What the transfers among `effects` bring into the balance of `who`, of `asset`.
fn net_inflow(effects: &[Effect], asset: &Address, who: &Address) -> i128 {
    let mut net: i128 = 0;
    for e in effects {
        if let Effect::Transfer { asset: moved, from, to, amount } = e {
            if moved == asset {
                if to == who {
                    net += amount;
                }
                if from == who {
                    net -= amount;
                }
            }
        }
    }
    net
}

fn has_action(env: &Env, tag: &str) -> bool {
    env.events().iter().any(|e| {
        let (domain, action) = e.topics();
        domain == "LEND" && action == tag
    })
}

#[test]
fn test_flows() {
    let mut env = Env::new(escrow(), 0);
    let mut client = market();

    let lender = lender();
    let borrower = borrower();
    env.authorize(lender.clone());
    env.authorize(borrower.clone());

    let amount = 1000i128;
    let rate = 500u32;

    let offer_id = client.create_offer(&mut env, lender.clone(), amount, rate).unwrap();
    assert_eq!(offer_id, 0);

    assert!(has_action(&env, "O_CRT"));

    let stored = client.get_offer(0).unwrap();
    assert_eq!(stored.amount, amount);
    assert!(stored.active);

    client.cancel_offer(&mut env, lender.clone(), 0).unwrap();
    let stored2 = client.get_offer(0).unwrap();
    assert!(!stored2.active);
    assert!(has_action(&env, "O_CAN"));

    let offer_id2 = client.create_offer(&mut env, lender.clone(), 200, 700).unwrap();
    client.take_offer(&mut env, borrower.clone(), offer_id2, 50).unwrap();
    let stored3 = client.get_offer(offer_id2).unwrap();
    assert!(!stored3.active);
    assert!(has_action(&env, "O_TKN"));
}

#[test]
fn create_asks_for_transfer_then_storage_then_event() {
    let mut env = signed_by(&[lender()]);
    let mut market = market();
    let id = market.create_offer(&mut env, lender(), 1000, 500).unwrap();
    assert_eq!(id, 0);
    let offer = LenderOffer {
        lender: lender(),
        amount: 1000,
        rate_bps: 500,
        timestamp: 1_700_000_000,
        active: true,
    };
    assert_eq!(market.get_offer(0), Some(&offer));
    assert_eq!(market.next_offer_id(), 1);
    assert_eq!(
        env.effects(),
        &vec![
            Effect::Transfer { asset: usdc(), from: lender(), to: escrow(), amount: 1000 },
            Effect::PutCounter { next: 1 },
            Effect::PutOffer { id: 0, offer },
            Effect::Publish {
                event: Event::Created { id: 0, lender: lender(), amount: 1000, rate_bps: 500 }
            },
        ]
    );
    assert_eq!(net_inflow(env.effects(), &usdc(), &escrow()), 1000);
    assert_eq!(net_inflow(env.effects(), &usdc(), &lender()), -1000);
}

#[test]
fn cancel_closes_first_then_refunds_then_announces() {
    let mut env = signed_by(&[lender()]);
    let mut market = market();
    market.create_offer(&mut env, lender(), 1000, 500).unwrap();
    let before = env.effects().len();

    assert_eq!(market.cancel_offer(&mut env, lender(), 0), Ok(()));

    let closed = LenderOffer {
        lender: lender(),
        amount: 1000,
        rate_bps: 500,
        timestamp: 1_700_000_000,
        active: false,
    };
    assert_eq!(market.get_offer(0), Some(&closed));
    assert_eq!(market.next_offer_id(), 1);
    let issued = &env.effects()[before..];
    assert_eq!(
        issued,
        &[
            Effect::PutOffer { id: 0, offer: closed },
            Effect::Transfer { asset: usdc(), from: escrow(), to: lender(), amount: 1000 },
            Effect::Publish { event: Event::Cancelled { id: 0 } },
        ]
    );
    assert_eq!(net_inflow(issued, &usdc(), &escrow()), -1000);
    assert_eq!(net_inflow(issued, &usdc(), &lender()), 1000);
    assert_eq!(net_inflow(env.effects(), &usdc(), &escrow()), 0);
}

#[test]
fn take_brings_collateral_in_before_principal_leaves() {
    let mut env = signed_by(&[lender(), borrower()]);
    let mut market = market();
    market.create_offer(&mut env, lender(), 1000, 500).unwrap();
    market.cancel_offer(&mut env, lender(), 0).unwrap();
    let id = market.create_offer(&mut env, lender(), 200, 700).unwrap();
    assert_eq!(id, 1);
    let before = env.effects().len();

    assert_eq!(market.take_offer(&mut env, borrower(), 1, 50), Ok(()));

    let closed = LenderOffer {
        lender: lender(),
        amount: 200,
        rate_bps: 700,
        timestamp: 1_700_000_000,
        active: false,
    };
    assert_eq!(market.get_offer(1), Some(&closed));
    let issued = &env.effects()[before..];
    assert_eq!(
        issued,
        &[
            Effect::PutOffer { id: 1, offer: closed },
            Effect::Transfer { asset: xlm(), from: borrower(), to: escrow(), amount: 50 },
            Effect::Transfer { asset: usdc(), from: escrow(), to: borrower(), amount: 200 },
            Effect::Publish { event: Event::Taken { id: 1, borrower: borrower(), collateral: 50 } },
        ]
    );
    assert_eq!(net_inflow(issued, &xlm(), &escrow()), 50);
    assert_eq!(net_inflow(issued, &xlm(), &borrower()), -50);
    assert_eq!(net_inflow(issued, &usdc(), &escrow()), -200);
    assert_eq!(net_inflow(issued, &usdc(), &borrower()), 200);
}

#[test]
fn ids_count_up_from_zero_without_gaps() {
    let mut env = signed_by(&[lender(), borrower()]);
    let mut market = market();
    assert_eq!(market.next_offer_id(), 0);
    for n in 0..20u64 {
        let id = market.create_offer(&mut env, lender(), 10 + n as i128, 1).unwrap();
        assert_eq!(id, n);
        assert_eq!(market.next_offer_id(), n + 1);
        // Calls that create nothing leave the counter alone, succeed or not.
        if n % 3 == 0 {
            market.cancel_offer(&mut env, lender(), n).unwrap();
        }
        if n % 3 == 1 {
            market.take_offer(&mut env, borrower(), n, 5).unwrap();
        }
        assert!(market.cancel_offer(&mut env, borrower(), 999).is_err());
        assert_eq!(market.next_offer_id(), n + 1);
    }
    for n in 0..20u64 {
        assert_eq!(market.get_offer(n).unwrap().amount, 10 + n as i128);
    }
    assert_eq!(market.get_offer(20), None);
}

#[test]
fn refused_creation_hands_out_no_id() {
    let mut env = signed_by(&[lender()]);
    let mut market = market();
    assert_eq!(market.create_offer(&mut env, borrower(), 1, 1), Err(Error::Unauthorized));
    assert_eq!(market.next_offer_id(), 0);
    assert_eq!(market.create_offer(&mut env, lender(), 1, 1), Ok(0));
    assert_eq!(market.create_offer(&mut env, borrower(), 1, 1), Err(Error::Unauthorized));
    assert_eq!(market.create_offer(&mut env, lender(), 1, 1), Ok(1));
}

#[test]
fn closed_offer_cannot_be_closed_again() {
    let mut env = signed_by(&[lender(), borrower()]);
    let mut market = market();
    market.create_offer(&mut env, lender(), 1000, 500).unwrap();
    market.create_offer(&mut env, lender(), 200, 700).unwrap();

    assert_eq!(market.cancel_offer(&mut env, lender(), 0), Ok(()));
    let log = env.effects().clone();
    assert_eq!(market.cancel_offer(&mut env, lender(), 0), Err(Error::OfferInactive));
    assert_eq!(market.take_offer(&mut env, borrower(), 0, 50), Err(Error::OfferInactive));

    assert_eq!(market.take_offer(&mut env, borrower(), 1, 50), Ok(()));
    let log2 = env.effects().clone();
    assert_eq!(market.take_offer(&mut env, borrower(), 1, 50), Err(Error::OfferInactive));
    assert_eq!(market.cancel_offer(&mut env, lender(), 1), Err(Error::OfferInactive));

    // Later calls do not reopen it.
    market.create_offer(&mut env, lender(), 5, 5).unwrap();
    assert_eq!(market.cancel_offer(&mut env, lender(), 0), Err(Error::OfferInactive));
    assert_eq!(market.take_offer(&mut env, lender(), 1, 0), Err(Error::OfferInactive));
    assert!(!market.get_offer(0).unwrap().active);
    assert!(!market.get_offer(1).unwrap().active);
    assert!(log.len() < log2.len());
    assert_eq!(&env.effects()[..log.len()], &log[..]);
}

#[test]
fn refused_calls_change_nothing() {
    let mut env = signed_by(&[lender()]);
    let mut market = market();
    market.create_offer(&mut env, lender(), 1000, 500).unwrap();
    let offers = market.list_offers();
    let log = env.effects().clone();

    assert_eq!(market.create_offer(&mut env, borrower(), 7, 7), Err(Error::Unauthorized));
    assert_eq!(market.cancel_offer(&mut env, borrower(), 0), Err(Error::Unauthorized));
    assert_eq!(market.take_offer(&mut env, borrower(), 0, 50), Err(Error::Unauthorized));
    assert_eq!(market.cancel_offer(&mut env, lender(), 1), Err(Error::OfferNotFound));
    assert_eq!(market.take_offer(&mut env, lender(), u64::MAX, 1), Err(Error::OfferNotFound));

    assert_eq!(market.list_offers(), offers);
    assert_eq!(market.next_offer_id(), 1);
    assert_eq!(env.effects(), &log);
    assert_eq!(env.events().len(), 1);
}

#[test]
fn unauthorized_comes_before_every_other_refusal() {
    let mut env = Env::new(escrow(), 0);
    let mut bare = LendingP2P::new();
    assert_eq!(bare.create_offer(&mut env, lender(), 1, 1), Err(Error::Unauthorized));
    assert_eq!(bare.cancel_offer(&mut env, lender(), 3), Err(Error::Unauthorized));
    assert_eq!(bare.take_offer(&mut env, lender(), 3, 1), Err(Error::Unauthorized));
    env.authorize(lender());
    assert_eq!(bare.create_offer(&mut env, lender(), 1, 1), Err(Error::AssetNotConfigured));
    assert_eq!(bare.cancel_offer(&mut env, lender(), 3), Err(Error::OfferNotFound));
    assert_eq!(bare.take_offer(&mut env, lender(), 3, 1), Err(Error::OfferNotFound));
    env.clear_auths();
    assert_eq!(env.require_auth(&lender()), Err(Error::Unauthorized));
    assert_eq!(bare.cancel_offer(&mut env, lender(), 3), Err(Error::Unauthorized));
    assert!(env.effects().is_empty());
}

#[test]
fn only_the_lender_may_cancel() {
    let mut env = signed_by(&[lender(), borrower()]);
    let mut market = market();
    market.create_offer(&mut env, lender(), 1000, 500).unwrap();
    let log = env.effects().clone();
    assert_eq!(market.cancel_offer(&mut env, borrower(), 0), Err(Error::NotOfferLender));
    assert!(market.get_offer(0).unwrap().active);
    assert_eq!(env.effects(), &log);
    // Anyone who signs may take it, the lender too.
    assert_eq!(market.take_offer(&mut env, lender(), 0, 1), Ok(()));
    // A closed offer is refused as closed, whoever asks.
    assert_eq!(market.cancel_offer(&mut env, borrower(), 0), Err(Error::OfferInactive));
}

#[test]
fn missing_asset_refuses_before_anything_moves() {
    let open = LenderOffer {
        lender: lender(),
        amount: 300,
        rate_bps: 10,
        timestamp: 5,
        active: true,
    };
    let mut env = signed_by(&[lender(), borrower()]);

    let mut no_assets = LendingP2P::restore(vec![open.clone()], None, None);
    assert_eq!(no_assets.create_offer(&mut env, lender(), 1, 1), Err(Error::AssetNotConfigured));
    assert_eq!(no_assets.cancel_offer(&mut env, lender(), 0), Err(Error::AssetNotConfigured));
    assert_eq!(no_assets.take_offer(&mut env, borrower(), 0, 1), Err(Error::AssetNotConfigured));
    assert_eq!(load_usdc(&no_assets), Err(Error::AssetNotConfigured));
    assert_eq!(load_xlm(&no_assets), Err(Error::AssetNotConfigured));

    let mut no_xlm = LendingP2P::restore(vec![open.clone()], Some(usdc()), None);
    assert_eq!(no_xlm.take_offer(&mut env, borrower(), 0, 1), Err(Error::AssetNotConfigured));
    assert_eq!(load_usdc(&no_xlm), Ok(usdc()));

    let mut no_usdc = LendingP2P::restore(vec![open.clone()], None, Some(xlm()));
    assert_eq!(no_usdc.take_offer(&mut env, borrower(), 0, 1), Err(Error::AssetNotConfigured));
    assert_eq!(load_xlm(&no_usdc), Ok(xlm()));

    for m in [&no_assets, &no_xlm, &no_usdc] {
        assert_eq!(m.get_offer(0), Some(&open));
        assert_eq!(m.next_offer_id(), 1);
    }
    assert!(env.effects().is_empty());

    // Cancelling needs the principal asset only.
    assert_eq!(no_xlm.cancel_offer(&mut env, lender(), 0), Ok(()));
    assert_eq!(env.effects().len(), 3);
}

#[test]
fn listing_holds_the_open_offers_by_ascending_id() {
    let mut env = signed_by(&[lender(), borrower()]);
    let mut market = market();
    assert_eq!(market.list_offers(), vec![]);
    for n in 0..6i128 {
        market.create_offer(&mut env, lender(), 100 * (n + 1), 1).unwrap();
    }
    market.cancel_offer(&mut env, lender(), 1).unwrap();
    market.take_offer(&mut env, borrower(), 4, 9).unwrap();

    let listing = market.list_offers();
    let ids: Vec<u64> = listing.iter().map(|(id, _)| *id).collect();
    assert_eq!(ids, vec![0, 2, 3, 5]);
    for (id, offer) in &listing {
        assert!(offer.active);
        assert_eq!(Some(offer), market.get_offer(*id));
        assert_eq!(offer.amount, 100 * (*id as i128 + 1));
    }

    market.cancel_offer(&mut env, lender(), 0).unwrap();
    market.cancel_offer(&mut env, lender(), 5).unwrap();
    let ids: Vec<u64> = market.list_offers().iter().map(|(id, _)| *id).collect();
    assert_eq!(ids, vec![2, 3]);
    market.take_offer(&mut env, borrower(), 2, 0).unwrap();
    market.take_offer(&mut env, borrower(), 3, 0).unwrap();
    assert_eq!(market.list_offers(), vec![]);
    assert_eq!(market.next_offer_id(), 6);
}

#[test]
fn offer_records_the_ledger_time_of_its_creation() {
    let mut env = signed_by(&[lender()]);
    let mut market = market();
    env.set_timestamp(11);
    market.create_offer(&mut env, lender(), 1, 2).unwrap();
    env.set_timestamp(u64::MAX);
    market.create_offer(&mut env, lender(), 3, 4).unwrap();
    env.set_timestamp(0);
    market.cancel_offer(&mut env, lender(), 0).unwrap();
    assert_eq!(env.timestamp(), 0);
    assert_eq!(market.get_offer(0).unwrap().timestamp, 11);
    assert_eq!(market.get_offer(1).unwrap().timestamp, u64::MAX);
    assert_eq!(market.get_offer(1).unwrap().rate_bps, 4);
}

#[test]
fn amounts_are_taken_as_given() {
    let mut env = signed_by(&[lender(), borrower()]);
    let mut market = market();
    market.create_offer(&mut env, lender(), 0, 0).unwrap();
    market.create_offer(&mut env, lender(), i128::MAX, u32::MAX).unwrap();
    market.create_offer(&mut env, lender(), i128::MIN, 1).unwrap();
    assert_eq!(market.get_offer(1).unwrap().amount, i128::MAX);
    assert_eq!(market.get_offer(1).unwrap().rate_bps, u32::MAX);
    assert_eq!(market.get_offer(2).unwrap().amount, i128::MIN);
    let before = env.effects().len();
    market.take_offer(&mut env, borrower(), 1, i128::MIN).unwrap();
    assert_eq!(
        env.effects()[before + 1],
        Effect::Transfer { asset: xlm(), from: borrower(), to: escrow(), amount: i128::MIN }
    );
    assert_eq!(
        env.effects()[before + 2],
        Effect::Transfer { asset: usdc(), from: escrow(), to: borrower(), amount: i128::MAX }
    );
}

#[test]
fn restored_market_continues_where_storage_left_off() {
    let kept = vec![
        LenderOffer { lender: lender(), amount: 1, rate_bps: 1, timestamp: 1, active: false },
        LenderOffer { lender: borrower(), amount: 2, rate_bps: 2, timestamp: 2, active: true },
    ];
    let mut market = LendingP2P::restore(kept.clone(), Some(usdc()), Some(xlm()));
    assert_eq!(market.next_offer_id(), 2);
    assert_eq!(market.list_offers(), vec![(1, kept[1].clone())]);
    let mut env = signed_by(&[lender()]);
    assert_eq!(market.create_offer(&mut env, lender(), 3, 3), Ok(2));
    assert_eq!(env.effects()[1], Effect::PutCounter { next: 3 });
    assert_eq!(market.cancel_offer(&mut env, lender(), 1), Err(Error::NotOfferLender));
    assert_eq!(market.cancel_offer(&mut env, lender(), 0), Err(Error::OfferInactive));
}

#[test]
fn events_carry_their_topics_and_effects_their_slots() {
    let created = Event::Created { id: 4, lender: lender(), amount: 1, rate_bps: 2 };
    let cancelled = Event::Cancelled { id: 5 };
    let taken = Event::Taken { id: 6, borrower: borrower(), collateral: 3 };
    assert_eq!(created.topics(), ("LEND", "O_CRT"));
    assert_eq!(cancelled.topics(), ("LEND", "O_CAN"));
    assert_eq!(taken.topics(), ("LEND", "O_TKN"));
    assert_eq!((created.id(), cancelled.id(), taken.id()), (4, 5, 6));
    assert_eq!(created.clone(), created);
    assert_eq!(taken.clone(), taken);

    let offer = LenderOffer { lender: lender(), amount: 1, rate_bps: 1, timestamp: 1, active: true };
    assert_eq!(Effect::PutCounter { next: 9 }.key(), Some(DataKey::NextOfferId));
    assert_eq!(Effect::PutOffer { id: 8, offer: offer.clone() }.key(), Some(DataKey::Offer(8)));
    assert_eq!(Effect::Publish { event: cancelled }.key(), None);
    let transfer = Effect::Transfer { asset: usdc(), from: lender(), to: escrow(), amount: 1 };
    assert_eq!(transfer.key(), None);
    assert_eq!(transfer.clone(), transfer);
    assert_eq!(Effect::PutOffer { id: 8, offer: offer.clone() }.clone().key(), Some(DataKey::Offer(8)));
}

#[test]
fn published_events_are_the_publish_effects_in_order() {
    let mut env = signed_by(&[lender(), borrower()]);
    let mut market = market();
    assert!(env.events().is_empty());
    market.create_offer(&mut env, lender(), 1000, 500).unwrap();
    market.cancel_offer(&mut env, lender(), 0).unwrap();
    market.create_offer(&mut env, lender(), 200, 700).unwrap();
    market.take_offer(&mut env, borrower(), 1, 50).unwrap();
    assert_eq!(
        env.events(),
        vec![
            Event::Created { id: 0, lender: lender(), amount: 1000, rate_bps: 500 },
            Event::Cancelled { id: 0 },
            Event::Created { id: 1, lender: lender(), amount: 200, rate_bps: 700 },
            Event::Taken { id: 1, borrower: borrower(), collateral: 50 },
        ]
    );
    assert_eq!(env.effects().len(), 4 + 3 + 4 + 4);
}

#[test]
fn identities_are_told_apart_by_their_keys() {
    let a = Address::from_str("GABC");
    let b = Address::from_str("GABD");
    assert!(a.same(&a.clone()));
    assert!(a.same(&Address::from_str("GABC")));
    assert!(!a.same(&b));
    assert!(!a.same(&Address::from_str("")));
    assert_eq!(a.as_str(), "GABC");
    assert_eq!(a.clone(), a);

    let mut env = Env::new(escrow(), 3);
    assert_eq!(env.current_contract_address(), escrow());
    assert_eq!(env.require_auth(&a), Err(Error::Unauthorized));
    env.authorize(b.clone());
    assert_eq!(env.require_auth(&a), Err(Error::Unauthorized));
    assert_eq!(env.require_auth(&b), Ok(()));
    env.authorize(a.clone());
    assert_eq!(env.require_auth(&a), Ok(()));
    assert_eq!(env.require_auth(&b), Ok(()));
}

#[test]
fn escrow_holds_what_the_open_offers_committed() {
    let mut env = signed_by(&[lender(), borrower()]);
    let mut market = market();
    let committed = |m: &LendingP2P| -> i128 { m.list_offers().iter().map(|(_, o)| o.amount).sum() };

    market.create_offer(&mut env, lender(), 1000, 500).unwrap();
    market.create_offer(&mut env, borrower(), 250, 40).unwrap();
    market.create_offer(&mut env, lender(), 75, 9).unwrap();
    assert_eq!(committed(&market), 1325);
    assert_eq!(net_inflow(env.effects(), &usdc(), &escrow()), 1325);

    market.cancel_offer(&mut env, borrower(), 1).unwrap();
    assert_eq!(committed(&market), 1075);
    assert_eq!(net_inflow(env.effects(), &usdc(), &escrow()), 1075);

    assert!(market.cancel_offer(&mut env, borrower(), 1).is_err());
    assert!(market.cancel_offer(&mut env, borrower(), 0).is_err());
    assert_eq!(net_inflow(env.effects(), &usdc(), &escrow()), 1075);

    market.take_offer(&mut env, borrower(), 0, 300).unwrap();
    assert_eq!(committed(&market), 75);
    assert_eq!(net_inflow(env.effects(), &usdc(), &escrow()), 75);
    assert_eq!(net_inflow(env.effects(), &xlm(), &escrow()), 300);
    assert_eq!(net_inflow(env.effects(), &usdc(), &borrower()), 1000);
    assert_eq!(net_inflow(env.effects(), &usdc(), &lender()), -1075);

    market.take_offer(&mut env, lender(), 2, 1).unwrap();
    assert_eq!(committed(&market), 0);
    assert_eq!(net_inflow(env.effects(), &usdc(), &escrow()), 0);
    assert_eq!(net_inflow(env.effects(), &xlm(), &escrow()), 301);
}
