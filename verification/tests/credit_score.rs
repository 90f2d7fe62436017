use lending_p2p::{Address, CreditScoreContract, Env, Error};

fn registry_address() -> Address {
    Address::from_str("CSCORE")
}

#[test]
fn test_set_and_get_score() {
    let mut env = Env::new(registry_address(), 0);
    let mut client = CreditScoreContract::new();

    let user = Address::from_str("GUSER");

    env.authorize(user.clone());
    client.set_score(&env, user.clone(), 85).unwrap();

    let auths = env.auths();
    assert_eq!(auths.len(), 1);
    assert_eq!(auths[0], user.clone());

    let score = client.get_score(&user);
    assert_eq!(score, 85);

    let other = Address::from_str("GOTHER");
    assert_eq!(client.get_score(&other), 0);
}

#[test]
fn test_get_score_without_setting() {
    let client = CreditScoreContract::new();

    let user = Address::from_str("GUSER");
    assert_eq!(client.get_score(&user), 0);
}

#[test]
fn set_score_without_credential_is_refused() {
    let mut env = Env::new(registry_address(), 0);
    let mut client = CreditScoreContract::new();
    let user = Address::from_str("GUSER");
    let other = Address::from_str("GOTHER");

    assert_eq!(client.set_score(&env, user.clone(), 70), Err(Error::Unauthorized));
    assert_eq!(client.get_score(&user), 0);

    env.authorize(other.clone());
    assert_eq!(client.set_score(&env, user.clone(), 70), Err(Error::Unauthorized));
    assert_eq!(client.get_score(&user), 0);
    assert_eq!(client.set_score(&env, other.clone(), 12), Ok(()));
    assert_eq!(client.get_score(&other), 12);
    assert_eq!(client.get_score(&user), 0);
}

#[test]
fn set_score_overwrites_and_touches_no_other_identity() {
    let mut env = Env::new(registry_address(), 0);
    let mut client = CreditScoreContract::new();
    let users: Vec<Address> =
        ["GA", "GB", "GC", "GD"].iter().map(|k| Address::from_str(k)).collect();
    for u in &users {
        env.authorize(u.clone());
    }
    for (i, u) in users.iter().enumerate() {
        client.set_score(&env, u.clone(), 10 * (i as u32 + 1)).unwrap();
    }
    assert_eq!(client.get_score(&users[0]), 10);
    assert_eq!(client.get_score(&users[3]), 40);

    client.set_score(&env, users[1].clone(), u32::MAX).unwrap();
    client.set_score(&env, users[3].clone(), 0).unwrap();
    client.set_score(&env, users[1].clone(), 7).unwrap();

    assert_eq!(client.get_score(&users[0]), 10);
    assert_eq!(client.get_score(&users[1]), 7);
    assert_eq!(client.get_score(&users[2]), 30);
    assert_eq!(client.get_score(&users[3]), 0);
    assert_eq!(client.get_score(&Address::from_str("GE")), 0);
}
