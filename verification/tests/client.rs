use payments_engine::models::client::{Client, ClientAccountStatus, ClientOperationError, WithdrawFundsError};

#[test]
pub fn test_client_init() {
    let client = Client::builder().with_client_id(1).build();
    assert_eq!(client.client_id(), 1);
}

#[test]
pub fn test_negative_withdrawal() {
    let mut client = Client::builder().with_client_id(1).build();

    assert!(client.withdraw(1).is_err())
}

#[test]
pub fn test_frozen_movement() {
    let mut client = Client::builder()
        .with_client_id(1)
        .with_available(100)
        .with_held(100)
        .with_account_status(ClientAccountStatus::Frozen)
        .build();

    assert!(client.withdraw(1).is_err());
    assert!(client.deposit(1).is_err());
}

#[test]
pub fn test_overflow_held() {
    let mut client = Client::builder().with_client_id(1).build();

    assert!(client.resolve_funds(100).is_err());
    assert!(client.chargeback_funds(100).is_err());
}

#[test]
pub fn test_resolved_dispute() {
    let mut client = Client::builder().with_client_id(1).build();

    client.deposit(100).unwrap();

    client.dispute_deposited_funds(100).unwrap();

    assert_eq!(client.available(), 0);
    assert_eq!(client.held(), 100);

    client.resolve_funds(100).unwrap();

    assert_eq!(client.available(), 100);
    assert_eq!(client.held(), 0);
    assert_eq!(client.total(), 100);
}

#[test]
pub fn test_charged_back_dispute() {
    let mut client = Client::builder().with_client_id(1).build();

    client.deposit(100).unwrap();

    client.dispute_deposited_funds(100).unwrap();

    assert_eq!(client.available(), 0);
    assert_eq!(client.held(), 100);

    client.chargeback_funds(100).unwrap();

    assert_eq!(client.available(), 0);
    assert_eq!(client.held(), 0);
    assert_eq!(client.total(), 0);
    match client.account_status() {
        ClientAccountStatus::Active => {
            panic!("Account should be frozen")
        }
        _ => {}
    }
}

// The strict-inequality withdrawal policy: withdrawing exactly the full
// available balance is rejected, as specified (intentional, not an
// off-by-one); any smaller amount succeeds and decrements `available` by
// exactly that amount.
#[test]
pub fn test_withdraw_strict_inequality_policy() {
    let mut client = Client::builder().with_client_id(1).with_available(100).build();

    let full = client.withdraw(100);
    assert!(matches!(
        full,
        Err(ClientOperationError::WithdrawError(WithdrawFundsError::NotEnoughFunds(100, 100)))
    ));
    assert_eq!(client.available(), 100);

    let over = client.withdraw(101);
    assert!(matches!(over, Err(ClientOperationError::WithdrawError(_))));
    assert_eq!(client.available(), 100);

    client.withdraw(99).unwrap();
    assert_eq!(client.available(), 1);
    assert_eq!(client.held(), 0);
}

// Every operation on a frozen account fails with `AccountFrozen` and leaves
// the balances untouched.
#[test]
pub fn test_frozen_is_terminal_all_operations() {
    let mut client = Client::builder()
        .with_client_id(7)
        .with_available(50)
        .with_held(20)
        .with_account_status(ClientAccountStatus::Frozen)
        .build();

    assert!(matches!(client.deposit(1), Err(ClientOperationError::AccountFrozen)));
    assert!(matches!(client.withdraw(1), Err(ClientOperationError::AccountFrozen)));
    assert!(matches!(client.dispute_deposited_funds(1), Err(ClientOperationError::AccountFrozen)));
    assert!(matches!(client.dispute_withdrawn_funds(1), Err(ClientOperationError::AccountFrozen)));
    assert!(matches!(client.resolve_funds(1), Err(ClientOperationError::AccountFrozen)));
    assert!(matches!(client.chargeback_funds(1), Err(ClientOperationError::AccountFrozen)));
    assert_eq!(client.available(), 50);
    assert_eq!(client.held(), 20);
}

// Disputing a deposit may drive `available` negative: the disputed funds
// were already spent through a withdrawal.
#[test]
pub fn test_dispute_can_drive_available_negative() {
    let mut client = Client::builder().with_client_id(1).build();

    client.deposit(100).unwrap();
    client.withdraw(60).unwrap();
    client.dispute_deposited_funds(100).unwrap();

    assert_eq!(client.available(), -60);
    assert_eq!(client.held(), 100);
    assert_eq!(client.total(), 40);
}

// Disputing a withdrawal leaves `available` alone and only raises `held`.
#[test]
pub fn test_dispute_withdrawal_leaves_available() {
    let mut client = Client::builder().with_client_id(1).build();

    client.deposit(100).unwrap();
    client.withdraw(40).unwrap();
    client.dispute_withdrawn_funds(40).unwrap();

    assert_eq!(client.available(), 60);
    assert_eq!(client.held(), 40);

    let resolve_too_much = client.resolve_funds(41);
    assert!(matches!(resolve_too_much, Err(ClientOperationError::ResolveError(_))));
    let chargeback_too_much = client.chargeback_funds(41);
    assert!(matches!(chargeback_too_much, Err(ClientOperationError::ChargebackError(_))));
}
