use oracle::decimal::Decimal;
use oracle::ledger::Ledger;
use oracle::oracle::Oracle;
use oracle::oracle::OracleError;

const ATTOS_PER_UNIT: i128 = 1_000_000_000_000_000_000;

#[test]
fn test_oracle() {
    let mut ledger = Ledger::new();
    let (badges, mut oracle) =
        Oracle::instantiate_oracle(&mut ledger, 1).expect("instantiation with one admin succeeds");

    assert_eq!(
        ledger.resource_name(badges.resource),
        Some("Oracle Admin Badge".to_string())
    );
    assert_eq!(badges.amount, 1);

    let resource1 = ledger.new_fungible("resource1", 1).resource;
    let resource2 = ledger.new_fungible("resource2", 1).resource;

    assert_eq!(oracle.get_price(resource1, resource2), None);

    let new_price = Decimal::from_attos(ATTOS_PER_UNIT * 3 / 2);
    assert_eq!(
        oracle.update_price(&badges, resource1, resource2, new_price),
        Ok(())
    );

    assert_eq!(oracle.get_price(resource1, resource2), Some(new_price));
    assert_eq!(
        oracle.get_price(resource2, resource1),
        Some(new_price.reciprocal())
    );
    assert_eq!(
        oracle.get_price(resource2, resource1),
        Some(Decimal::from_attos(666_666_666_666_666_666))
    );
}

#[test]
fn test_invalid_num_admins() {
    let mut ledger = Ledger::new();
    let result = Oracle::instantiate_oracle(&mut ledger, 0);
    match result {
        Err(e) => assert_eq!(e.message(), "Must have at least one admin"),
        Ok(_) => panic!("instantiation with zero admins must fail"),
    }
}

#[test]
fn unset_pair_reads_none() {
    let mut ledger = Ledger::new();
    let (badges, mut oracle) = Oracle::instantiate_oracle(&mut ledger, 1).unwrap();
    let a = ledger.new_fungible("a", 1).resource;
    let b = ledger.new_fungible("b", 1).resource;
    let c = ledger.new_fungible("c", 1).resource;
    assert_eq!(oracle.get_price(a, b), None);
    assert_eq!(oracle.get_price(b, a), None);
    assert_eq!(oracle.get_price(a, c), None);

    // Pricing one pair leaves every other pair unset.
    oracle
        .update_price(&badges, a, b, Decimal::from_integer(2))
        .unwrap();
    assert_eq!(oracle.get_price(a, c), None);
    assert_eq!(oracle.get_price(c, a), None);
}

#[test]
fn update_reads_back_both_directions() {
    let mut ledger = Ledger::new();
    let (badges, mut oracle) = Oracle::instantiate_oracle(&mut ledger, 1).unwrap();
    let a = ledger.new_fungible("a", 1).resource;
    let b = ledger.new_fungible("b", 1).resource;

    let two = Decimal::from_integer(2);
    assert_eq!(oracle.update_price(&badges, a, b, two), Ok(()));
    assert_eq!(oracle.get_price(a, b), Some(two));
    assert_eq!(
        oracle.get_price(b, a),
        Some(Decimal::from_attos(ATTOS_PER_UNIT / 2))
    );

    // A negative price: its reciprocal is negative too, truncated toward zero.
    let minus_two = Decimal::from_integer(-2);
    assert_eq!(oracle.update_price(&badges, b, a, minus_two), Ok(()));
    assert_eq!(oracle.get_price(b, a), Some(minus_two));
    assert_eq!(
        oracle.get_price(a, b),
        Some(Decimal::from_attos(-ATTOS_PER_UNIT / 2))
    );
}

#[test]
fn overwrite_leaves_only_last() {
    let mut ledger = Ledger::new();
    let (badges, mut oracle) = Oracle::instantiate_oracle(&mut ledger, 1).unwrap();
    let a = ledger.new_fungible("a", 1).resource;
    let b = ledger.new_fungible("b", 1).resource;

    let p1 = Decimal::from_integer(2);
    let p2 = Decimal::from_integer(4);
    oracle.update_price(&badges, a, b, p1).unwrap();
    oracle.update_price(&badges, a, b, p2).unwrap();

    assert_eq!(oracle.get_price(a, b), Some(p2));
    assert_eq!(
        oracle.get_price(b, a),
        Some(Decimal::from_attos(ATTOS_PER_UNIT / 4))
    );
}

#[test]
fn zero_admins_leaves_no_trace() {
    let mut ledger = Ledger::new();
    let result = Oracle::instantiate_oracle(&mut ledger, 0);
    assert!(matches!(result, Err(OracleError::InvalidArgument)));

    // No credential resource was defined: the first address is still unused.
    let probe = ledger.new_fungible("probe", 1).resource;
    assert_eq!(probe.index, 0);
}

#[test]
fn mints_requested_admin_count() {
    let mut ledger = Ledger::new();
    let (badges, oracle) = Oracle::instantiate_oracle(&mut ledger, 3).unwrap();
    assert_eq!(badges.amount, 3);
    assert_eq!(
        ledger.resource_name(badges.resource),
        Some("Oracle Admin Badge".to_string())
    );

    let a = ledger.new_fungible("a", 1).resource;
    let b = ledger.new_fungible("b", 1).resource;
    assert_eq!(oracle.get_price(a, b), None);
    assert_eq!(oracle.get_price(b, a), None);
    assert_eq!(oracle.get_price(badges.resource, a), None);
}

#[test]
fn non_admin_update_is_rejected() {
    let mut ledger = Ledger::new();
    let (badges, mut oracle) = Oracle::instantiate_oracle(&mut ledger, 1).unwrap();
    let a = ledger.new_fungible("a", 1).resource;
    let b = ledger.new_fungible("b", 1).resource;

    let price = Decimal::from_integer(2);
    oracle.update_price(&badges, a, b, price).unwrap();

    // A bucket of some other resource is not the credential.
    let impostor = ledger.new_fungible("impostor", 100);
    let denied = oracle.update_price(&impostor, a, b, Decimal::from_integer(9));
    assert_eq!(denied, Err(OracleError::Unauthorized));
    assert_eq!(denied.unwrap_err().message(), "Unauthorized");

    // The store is unchanged.
    assert_eq!(oracle.get_price(a, b), Some(price));
    assert_eq!(
        oracle.get_price(b, a),
        Some(Decimal::from_attos(ATTOS_PER_UNIT / 2))
    );
    assert_eq!(oracle.get_price(b, badges.resource), None);
}

#[test]
fn empty_bucket_of_credential_is_rejected() {
    let mut ledger = Ledger::new();
    let (mut badges, mut oracle) = Oracle::instantiate_oracle(&mut ledger, 1).unwrap();
    let a = ledger.new_fungible("a", 1).resource;
    let b = ledger.new_fungible("b", 1).resource;

    // The right resource, but zero units of it.
    let empty = badges.take(0);
    assert_eq!(
        oracle.update_price(&empty, a, b, Decimal::from_integer(2)),
        Err(OracleError::Unauthorized)
    );
    assert_eq!(oracle.get_price(a, b), None);
}

#[test]
fn distributed_credential_units_authorize() {
    let mut ledger = Ledger::new();
    let (mut badges, mut oracle) = Oracle::instantiate_oracle(&mut ledger, 2).unwrap();
    let a = ledger.new_fungible("a", 1).resource;
    let b = ledger.new_fungible("b", 1).resource;

    let first_admin = badges.take(1);
    let second_admin = badges.take(1);
    assert_eq!(badges.amount, 0);

    assert_eq!(
        oracle.update_price(&first_admin, a, b, Decimal::from_integer(2)),
        Ok(())
    );
    assert_eq!(
        oracle.update_price(&second_admin, a, b, Decimal::from_integer(3)),
        Ok(())
    );
    assert_eq!(oracle.get_price(a, b), Some(Decimal::from_integer(3)));

    // The drained original bucket no longer authorizes.
    assert_eq!(
        oracle.update_price(&badges, a, b, Decimal::from_integer(4)),
        Err(OracleError::Unauthorized)
    );
}

#[test]
fn zero_price_is_rejected() {
    let mut ledger = Ledger::new();
    let (badges, mut oracle) = Oracle::instantiate_oracle(&mut ledger, 1).unwrap();
    let a = ledger.new_fungible("a", 1).resource;
    let b = ledger.new_fungible("b", 1).resource;

    let price = Decimal::from_integer(5);
    oracle.update_price(&badges, a, b, price).unwrap();

    assert_eq!(
        oracle.update_price(&badges, a, b, Decimal::from_attos(0)),
        Err(OracleError::InvalidArgument)
    );
    assert_eq!(oracle.get_price(a, b), Some(price));
    assert_eq!(
        oracle.get_price(b, a),
        Some(Decimal::from_attos(ATTOS_PER_UNIT / 5))
    );
}

#[test]
fn reciprocal_truncates_toward_zero() {
    let three = Decimal::from_integer(3);
    assert_eq!(
        three.reciprocal(),
        Decimal::from_attos(333_333_333_333_333_333)
    );
    let minus_three = Decimal::from_integer(-3);
    assert_eq!(
        minus_three.reciprocal(),
        Decimal::from_attos(-333_333_333_333_333_333)
    );

    // A value so large that its reciprocal has no subunits at all.
    let huge = Decimal::from_attos(2 * ATTOS_PER_UNIT * ATTOS_PER_UNIT);
    assert_eq!(huge.reciprocal(), Decimal::from_attos(0));
}

#[test]
fn from_integer_scales_to_attos() {
    assert_eq!(Decimal::from_integer(2), Decimal::from_attos(2 * ATTOS_PER_UNIT));
    assert_eq!(Decimal::from_integer(0), Decimal::from_attos(0));
    assert_eq!(
        Decimal::from_integer(-7),
        Decimal::from_attos(-7 * ATTOS_PER_UNIT)
    );
}
