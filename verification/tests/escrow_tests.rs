use chainpe_escrow::ledger::Ledger;
use chainpe_escrow::registry::ChainPeEscrow;
use chainpe_escrow::types::Address;
use chainpe_escrow::types::Error;
use chainpe_escrow::types::EscrowStatus;

fn setup() -> (ChainPeEscrow, Ledger, Address, Address, Address, Address) {
    let custody = Address { id: 0 };
    let admin = Address { id: 9 };
    let customer = Address { id: 1 };
    let merchant = Address { id: 2 };
    let registry = ChainPeEscrow::new(custody);
    let ledger = Ledger::new();
    (registry, ledger, custody, admin, customer, merchant)
}

#[test]
fn test_escrow_flow() {
    let (mut registry, mut ledger, _custody, admin, customer, merchant) = setup();

    // Mint tokens to customer
    ledger.mint(customer, 10000);

    // Initialize escrow contract
    assert!(registry.initialize(admin).is_ok());

    // Create escrow, 24 hour timeout
    let session_id = String::from("pay_test123");
    assert!(registry
        .create_escrow(
            &mut ledger,
            customer,
            customer,
            merchant,
            1000,
            session_id.clone(),
            86400,
            0,
        )
        .is_ok());

    // Verify escrow created
    let escrow = registry.get_escrow(session_id.clone()).unwrap();
    assert_eq!(escrow.amount, 1000);
    assert_eq!(escrow.status, EscrowStatus::Pending);

    // Merchant releases payment
    assert!(registry
        .release_payment(&mut ledger, merchant, session_id.clone())
        .is_ok());

    // Verify completed
    let escrow = registry.get_escrow(session_id).unwrap();
    assert_eq!(escrow.status, EscrowStatus::Completed);

    // Verify merchant received funds
    assert_eq!(ledger.balance_of(merchant), 1000);
}

#[test]
fn test_refund_after_timeout() {
    let (mut registry, mut ledger, _custody, admin, customer, merchant) = setup();

    ledger.mint(customer, 10000);
    assert!(registry.initialize(admin).is_ok());

    // 100 seconds timeout, created at time 0
    let session_id = String::from("pay_refund123");
    assert!(registry
        .create_escrow(
            &mut ledger,
            customer,
            customer,
            merchant,
            1000,
            session_id.clone(),
            100,
            0,
        )
        .is_ok());

    // Customer refunds once the clock has moved past the timeout
    assert!(registry
        .refund_payment(&mut ledger, customer, session_id.clone(), 200)
        .is_ok());

    // Verify refunded
    let escrow = registry.get_escrow(session_id).unwrap();
    assert_eq!(escrow.status, EscrowStatus::Refunded);

    // Verify customer got funds back
    assert_eq!(ledger.balance_of(customer), 10000);
}

#[test]
fn test_create_records_clock_reading() {
    let (mut registry, mut ledger, _custody, admin, customer, merchant) = setup();
    ledger.mint(customer, 5000);
    registry.initialize(admin).unwrap();
    registry
        .create_escrow(
            &mut ledger,
            customer,
            customer,
            merchant,
            500,
            String::from("s1"),
            60,
            42,
        )
        .unwrap();
    let escrow = registry.get_escrow(String::from("s1")).unwrap();
    assert_eq!(escrow.status, EscrowStatus::Pending);
    assert_eq!(escrow.amount, 500);
    assert_eq!(escrow.created_at, 42);
    assert_eq!(escrow.timeout_seconds, 60);
    assert_eq!(escrow.customer, customer);
    assert_eq!(escrow.merchant, merchant);
    assert_eq!(ledger.balance_of(customer), 4500);
}

#[test]
fn test_create_requires_customer_identity() {
    let (mut registry, mut ledger, _custody, admin, customer, merchant) = setup();
    ledger.mint(customer, 5000);
    registry.initialize(admin).unwrap();
    let r = registry.create_escrow(
        &mut ledger,
        merchant,
        customer,
        merchant,
        500,
        String::from("s1"),
        60,
        0,
    );
    assert_eq!(r, Err(Error::Unauthorized));
    assert_eq!(
        registry.get_escrow(String::from("s1")),
        Err(Error::NotFound)
    );
    assert_eq!(ledger.balance_of(customer), 5000);
}

#[test]
fn test_create_rejects_session_reuse() {
    let (mut registry, mut ledger, _custody, admin, customer, merchant) = setup();
    ledger.mint(customer, 5000);
    registry.initialize(admin).unwrap();
    registry
        .create_escrow(
            &mut ledger,
            customer,
            customer,
            merchant,
            500,
            String::from("s1"),
            60,
            0,
        )
        .unwrap();
    let r = registry.create_escrow(
        &mut ledger,
        customer,
        customer,
        merchant,
        700,
        String::from("s1"),
        90,
        5,
    );
    assert_eq!(r, Err(Error::InvalidStatus));
    // The first record is untouched and no second deposit was taken.
    let escrow = registry.get_escrow(String::from("s1")).unwrap();
    assert_eq!(escrow.amount, 500);
    assert_eq!(ledger.balance_of(customer), 4500);
}

#[test]
fn test_get_escrow_missing_session() {
    let (registry, _ledger, _custody, _admin, _customer, _merchant) = setup();
    assert_eq!(
        registry.get_escrow(String::from("nope")),
        Err(Error::NotFound)
    );
}

#[test]
fn test_release_requires_merchant_identity() {
    let (mut registry, mut ledger, _custody, admin, customer, merchant) = setup();
    ledger.mint(customer, 5000);
    registry.initialize(admin).unwrap();
    registry
        .create_escrow(
            &mut ledger,
            customer,
            customer,
            merchant,
            500,
            String::from("s1"),
            60,
            0,
        )
        .unwrap();
    let r = registry.release_payment(&mut ledger, customer, String::from("s1"));
    assert_eq!(r, Err(Error::Unauthorized));
    let escrow = registry.get_escrow(String::from("s1")).unwrap();
    assert_eq!(escrow.status, EscrowStatus::Pending);
    assert_eq!(ledger.balance_of(merchant), 0);
}

#[test]
fn test_release_missing_session() {
    let (mut registry, mut ledger, _custody, admin, _customer, merchant) = setup();
    registry.initialize(admin).unwrap();
    let r = registry.release_payment(&mut ledger, merchant, String::from("nope"));
    assert_eq!(r, Err(Error::NotFound));
}

#[test]
fn test_second_release_fails_and_moves_nothing() {
    let (mut registry, mut ledger, _custody, admin, customer, merchant) = setup();
    ledger.mint(customer, 5000);
    registry.initialize(admin).unwrap();
    registry
        .create_escrow(
            &mut ledger,
            customer,
            customer,
            merchant,
            500,
            String::from("s1"),
            60,
            0,
        )
        .unwrap();
    registry
        .release_payment(&mut ledger, merchant, String::from("s1"))
        .unwrap();
    assert_eq!(ledger.balance_of(merchant), 500);

    let again = registry.release_payment(&mut ledger, merchant, String::from("s1"));
    assert_eq!(again, Err(Error::AlreadyCompleted));
    assert_eq!(ledger.balance_of(merchant), 500);
    let escrow = registry.get_escrow(String::from("s1")).unwrap();
    assert_eq!(escrow.status, EscrowStatus::Completed);
}

#[test]
fn test_refund_after_release_fails() {
    let (mut registry, mut ledger, _custody, admin, customer, merchant) = setup();
    ledger.mint(customer, 5000);
    registry.initialize(admin).unwrap();
    registry
        .create_escrow(
            &mut ledger,
            customer,
            customer,
            merchant,
            500,
            String::from("s1"),
            60,
            0,
        )
        .unwrap();
    registry
        .release_payment(&mut ledger, merchant, String::from("s1"))
        .unwrap();

    let refund = registry.refund_payment(&mut ledger, customer, String::from("s1"), 1000);
    assert_eq!(refund, Err(Error::InvalidStatus));
    let forced = registry.admin_refund(&mut ledger, admin, String::from("s1"));
    assert_eq!(forced, Err(Error::InvalidStatus));
    assert_eq!(ledger.balance_of(customer), 4500);
    assert_eq!(ledger.balance_of(merchant), 500);
}

#[test]
fn test_release_after_refund_reports_already_completed() {
    let (mut registry, mut ledger, _custody, admin, customer, merchant) = setup();
    ledger.mint(customer, 5000);
    registry.initialize(admin).unwrap();
    registry
        .create_escrow(
            &mut ledger,
            customer,
            customer,
            merchant,
            500,
            String::from("s1"),
            60,
            0,
        )
        .unwrap();
    registry
        .refund_payment(&mut ledger, customer, String::from("s1"), 60)
        .unwrap();

    // The release path reports every settled record as AlreadyCompleted,
    // including one that was in fact refunded.
    let r = registry.release_payment(&mut ledger, merchant, String::from("s1"));
    assert_eq!(r, Err(Error::AlreadyCompleted));
    assert_eq!(ledger.balance_of(merchant), 0);
}

#[test]
fn test_refund_requires_customer_identity() {
    let (mut registry, mut ledger, _custody, admin, customer, merchant) = setup();
    ledger.mint(customer, 5000);
    registry.initialize(admin).unwrap();
    registry
        .create_escrow(
            &mut ledger,
            customer,
            customer,
            merchant,
            500,
            String::from("s1"),
            60,
            0,
        )
        .unwrap();
    let r = registry.refund_payment(&mut ledger, merchant, String::from("s1"), 1000);
    assert_eq!(r, Err(Error::Unauthorized));
    assert_eq!(ledger.balance_of(customer), 4500);
}

#[test]
fn test_refund_scenario_timeline() {
    // Customer deposits 1000 units with a 100 second timeout; an early refund
    // attempt fails, a late one succeeds, and the session is then settled.
    let (mut registry, mut ledger, _custody, admin, customer, merchant) = setup();
    ledger.mint(customer, 1000);
    registry.initialize(admin).unwrap();
    registry
        .create_escrow(
            &mut ledger,
            customer,
            customer,
            merchant,
            1000,
            String::from("s1"),
            100,
            0,
        )
        .unwrap();
    assert_eq!(ledger.balance_of(customer), 0);

    // At t=50s the timeout window has not elapsed.
    let early = registry.refund_payment(&mut ledger, customer, String::from("s1"), 50);
    assert_eq!(early, Err(Error::TimeoutNotReached));
    assert_eq!(ledger.balance_of(customer), 0);
    let escrow = registry.get_escrow(String::from("s1")).unwrap();
    assert_eq!(escrow.status, EscrowStatus::Pending);

    // At t=200s the same call succeeds.
    let late = registry.refund_payment(&mut ledger, customer, String::from("s1"), 200);
    assert_eq!(late, Ok(()));
    assert_eq!(ledger.balance_of(customer), 1000);
    let escrow = registry.get_escrow(String::from("s1")).unwrap();
    assert_eq!(escrow.status, EscrowStatus::Refunded);

    // Any later release fails and moves nothing.
    let r = registry.release_payment(&mut ledger, merchant, String::from("s1"));
    assert_eq!(r, Err(Error::AlreadyCompleted));
    assert_eq!(ledger.balance_of(merchant), 0);
    assert_eq!(ledger.balance_of(customer), 1000);
}

#[test]
fn test_refund_exactly_at_timeout() {
    let (mut registry, mut ledger, _custody, admin, customer, merchant) = setup();
    ledger.mint(customer, 1000);
    registry.initialize(admin).unwrap();
    registry
        .create_escrow(
            &mut ledger,
            customer,
            customer,
            merchant,
            1000,
            String::from("s1"),
            100,
            7,
        )
        .unwrap();
    // created_at + timeout_seconds is the earliest permitted moment.
    let r = registry.refund_payment(&mut ledger, customer, String::from("s1"), 107);
    assert_eq!(r, Ok(()));
    assert_eq!(ledger.balance_of(customer), 1000);
}

#[test]
fn test_admin_refund_ignores_timeout() {
    let (mut registry, mut ledger, _custody, admin, customer, merchant) = setup();
    ledger.mint(customer, 5000);
    registry.initialize(admin).unwrap();
    registry
        .create_escrow(
            &mut ledger,
            customer,
            customer,
            merchant,
            500,
            String::from("s1"),
            86400,
            0,
        )
        .unwrap();
    // Long before the timeout window elapses, the admin can force the refund.
    let r = registry.admin_refund(&mut ledger, admin, String::from("s1"));
    assert_eq!(r, Ok(()));
    let escrow = registry.get_escrow(String::from("s1")).unwrap();
    assert_eq!(escrow.status, EscrowStatus::Refunded);
    assert_eq!(ledger.balance_of(customer), 5000);
}

#[test]
fn test_admin_refund_requires_initialization() {
    let (mut registry, mut ledger, _custody, _admin, customer, merchant) = setup();
    ledger.mint(customer, 5000);
    registry
        .create_escrow(
            &mut ledger,
            customer,
            customer,
            merchant,
            500,
            String::from("s1"),
            60,
            0,
        )
        .unwrap();
    let r = registry.admin_refund(&mut ledger, customer, String::from("s1"));
    assert_eq!(r, Err(Error::Unauthorized));
    assert_eq!(ledger.balance_of(customer), 4500);
}

#[test]
fn test_admin_refund_rejects_other_principals() {
    let (mut registry, mut ledger, _custody, admin, customer, merchant) = setup();
    ledger.mint(customer, 5000);
    registry.initialize(admin).unwrap();
    registry
        .create_escrow(
            &mut ledger,
            customer,
            customer,
            merchant,
            500,
            String::from("s1"),
            60,
            0,
        )
        .unwrap();
    let r = registry.admin_refund(&mut ledger, merchant, String::from("s1"));
    assert_eq!(r, Err(Error::Unauthorized));
    let escrow = registry.get_escrow(String::from("s1")).unwrap();
    assert_eq!(escrow.status, EscrowStatus::Pending);
}

#[test]
fn test_admin_refund_missing_session() {
    let (mut registry, mut ledger, _custody, admin, _customer, _merchant) = setup();
    registry.initialize(admin).unwrap();
    let r = registry.admin_refund(&mut ledger, admin, String::from("nope"));
    assert_eq!(r, Err(Error::NotFound));
}

#[test]
fn test_custody_holds_deposit_until_resolution() {
    let (mut registry, mut ledger, custody, admin, customer, merchant) = setup();
    ledger.mint(customer, 5000);
    registry.initialize(admin).unwrap();
    registry
        .create_escrow(
            &mut ledger,
            customer,
            customer,
            merchant,
            2000,
            String::from("s1"),
            60,
            0,
        )
        .unwrap();
    // The deposit sits at the registry's custody address while Pending.
    assert_eq!(ledger.balance_of(custody), 2000);
    assert_eq!(ledger.balance_of(customer), 3000);

    registry
        .release_payment(&mut ledger, merchant, String::from("s1"))
        .unwrap();
    // Resolution empties custody: the full amount went to the merchant.
    assert_eq!(ledger.balance_of(custody), 0);
    assert_eq!(ledger.balance_of(merchant), 2000);
    assert_eq!(ledger.balance_of(customer), 3000);
}

#[test]
fn test_initialize_twice_keeps_first_admin() {
    let (mut registry, mut ledger, _custody, admin, customer, merchant) = setup();
    let impostor = Address { id: 77 };
    assert_eq!(registry.initialize(admin), Ok(()));
    assert_eq!(registry.initialize(impostor), Err(Error::AlreadyInitialized));

    // The stored admin is unchanged: the first admin can still force a
    // refund, the rejected second candidate cannot.
    ledger.mint(customer, 5000);
    registry
        .create_escrow(
            &mut ledger,
            customer,
            customer,
            merchant,
            500,
            String::from("s1"),
            86400,
            0,
        )
        .unwrap();
    assert_eq!(
        registry.admin_refund(&mut ledger, impostor, String::from("s1")),
        Err(Error::Unauthorized)
    );
    assert_eq!(
        registry.admin_refund(&mut ledger, admin, String::from("s1")),
        Ok(())
    );
    assert_eq!(ledger.balance_of(customer), 5000);
}
