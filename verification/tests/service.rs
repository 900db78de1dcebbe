use payments_engine::infrastructure::in_mem_dbs::{
    ClientInMemRepository, TransactionInMemRepository,
};
use payments_engine::models::client::{ClientAccountStatus, ClientOperationError};
use payments_engine::models::transactions::{Transaction, TransactionType};
use payments_engine::models::{ClientID, MoneyType, TransactionID};
use payments_engine::services::transaction_service::{
    TransactionProcessingError, TransactionService,
};

fn new_service() -> TransactionService {
    TransactionService::new(ClientInMemRepository::new(), TransactionInMemRepository::new())
}

fn deposit(client: ClientID, tx: TransactionID, amount: MoneyType) -> Transaction {
    Transaction::builder()
        .with_tx_id(tx)
        .with_tx_type(TransactionType::Deposit { amount, dispute: None })
        .with_client_id(client)
        .build()
}

fn withdrawal(client: ClientID, tx: TransactionID, amount: MoneyType) -> Transaction {
    Transaction::builder()
        .with_tx_id(tx)
        .with_tx_type(TransactionType::Withdrawal { amount, dispute: None })
        .with_client_id(client)
        .build()
}

fn reference(client: ClientID, tx: TransactionID, kind: TransactionType) -> Transaction {
    Transaction::builder().with_tx_id(tx).with_tx_type(kind).with_client_id(client).build()
}

#[test]
fn test_deposit_transaction_processing() {
    let mut service = new_service();

    let test_tx = deposit(1, 1, 1000);
    service.process_transaction(test_tx).unwrap();

    let client = service.find_client_by_id(1).unwrap();
    assert_eq!(client.available(), 1000);
    assert_eq!(client.held(), 0);
}

// Two deposits accumulate: amounts are fixed-point with four implied decimal
// digits, so 1.5000 and 0.5 arrive as 15000 and 5000.
#[test]
fn test_two_deposits_accumulate() {
    let mut service = new_service();

    service.process_transaction(deposit(1, 1, 15000)).unwrap();
    service.process_transaction(deposit(1, 2, 5000)).unwrap();

    let client = service.find_client_by_id(1).unwrap();
    assert_eq!(client.available(), 20000);
    assert_eq!(client.held(), 0);
    assert_eq!(client.total(), 20000);
    assert!(matches!(client.account_status(), ClientAccountStatus::Active));
}

// Withdrawing exactly the full available balance is rejected by the
// strict-inequality policy, and `available` stays put.
#[test]
fn test_withdraw_full_balance_rejected() {
    let mut service = new_service();

    service.process_transaction(deposit(1, 1, 10000)).unwrap();
    let res = service.process_transaction(withdrawal(1, 2, 10000));
    assert!(matches!(
        res,
        Err(TransactionProcessingError::ClientError(ClientOperationError::WithdrawError(_)))
    ));

    let client = service.find_client_by_id(1).unwrap();
    assert_eq!(client.available(), 10000);
}

// Deposit, dispute, resolve: the dispute holds the funds, the resolve
// releases them back, restoring the pre-dispute balances exactly.
#[test]
fn test_dispute_then_resolve() {
    let mut service = new_service();

    service.process_transaction(deposit(1, 1, 50000)).unwrap();
    service.process_transaction(reference(1, 1, TransactionType::Dispute)).unwrap();

    let held_client = service.find_client_by_id(1).unwrap();
    assert_eq!(held_client.available(), 0);
    assert_eq!(held_client.held(), 50000);

    service.process_transaction(reference(1, 1, TransactionType::Resolve)).unwrap();

    let client = service.find_client_by_id(1).unwrap();
    assert_eq!(client.available(), 50000);
    assert_eq!(client.held(), 0);
    assert!(matches!(client.account_status(), ClientAccountStatus::Active));
}

// Deposit, dispute, chargeback: the held funds leave for good, the account
// freezes, and any later transaction for the client fails with AccountFrozen.
#[test]
fn test_dispute_then_chargeback_freezes() {
    let mut service = new_service();

    service.process_transaction(deposit(1, 1, 50000)).unwrap();
    service.process_transaction(reference(1, 1, TransactionType::Dispute)).unwrap();
    service.process_transaction(reference(1, 1, TransactionType::Chargeback)).unwrap();

    let client = service.find_client_by_id(1).unwrap();
    assert_eq!(client.available(), 0);
    assert_eq!(client.held(), 0);
    assert_eq!(client.total(), 0);
    assert!(matches!(client.account_status(), ClientAccountStatus::Frozen));

    let res = service.process_transaction(deposit(1, 2, 100));
    assert!(matches!(
        res,
        Err(TransactionProcessingError::ClientError(ClientOperationError::AccountFrozen))
    ));
    let client = service.find_client_by_id(1).unwrap();
    assert_eq!(client.available(), 0);
    assert_eq!(client.total(), 0);
}

// A dispute referencing a transaction id never seen fails with
// DisputedTransactionDoesNotExist; the only side effect is the lazy creation
// of the targeted client, with zero balances.
#[test]
fn test_dispute_unknown_transaction() {
    let mut service = new_service();

    let res = service.process_transaction(reference(1, 99, TransactionType::Dispute));
    assert!(matches!(res, Err(TransactionProcessingError::DisputedTransactionDoesNotExist(99))));

    let client = service.find_client_by_id(1).unwrap();
    assert_eq!(client.available(), 0);
    assert_eq!(client.held(), 0);
    assert!(matches!(client.account_status(), ClientAccountStatus::Active));
}

// A resolve or chargeback referencing a transaction id never seen fails with
// SettledTransactionNotFound.
#[test]
fn test_settle_unknown_transaction() {
    let mut service = new_service();

    let res = service.process_transaction(reference(1, 42, TransactionType::Resolve));
    assert!(matches!(
        res,
        Err(TransactionProcessingError::SettledDisputedTransactionDoesNotExist(42))
    ));
}

// A second dispute, or a settlement of a settled dispute, fails without
// mutating the balances (idempotent failure).
#[test]
fn test_repeated_dispute_and_settlement_fail() {
    let mut service = new_service();

    service.process_transaction(deposit(1, 1, 30000)).unwrap();
    service.process_transaction(reference(1, 1, TransactionType::Dispute)).unwrap();

    let res = service.process_transaction(reference(1, 1, TransactionType::Dispute));
    assert!(matches!(res, Err(TransactionProcessingError::TransactionError(_))));
    let client = service.find_client_by_id(1).unwrap();
    assert_eq!(client.available(), 0);
    assert_eq!(client.held(), 30000);

    service.process_transaction(reference(1, 1, TransactionType::Resolve)).unwrap();
    let res = service.process_transaction(reference(1, 1, TransactionType::Resolve));
    assert!(matches!(res, Err(TransactionProcessingError::TransactionError(_))));
    let res = service.process_transaction(reference(1, 1, TransactionType::Chargeback));
    assert!(matches!(res, Err(TransactionProcessingError::TransactionError(_))));

    let client = service.find_client_by_id(1).unwrap();
    assert_eq!(client.available(), 30000);
    assert_eq!(client.held(), 0);
    assert!(matches!(client.account_status(), ClientAccountStatus::Active));
}

// Disputing a withdrawal raises only `held`: the funds already left
// `available` when they were withdrawn.
#[test]
fn test_dispute_withdrawal_through_service() {
    let mut service = new_service();

    service.process_transaction(deposit(1, 1, 10000)).unwrap();
    service.process_transaction(withdrawal(1, 2, 4000)).unwrap();
    service.process_transaction(reference(1, 2, TransactionType::Dispute)).unwrap();

    let client = service.find_client_by_id(1).unwrap();
    assert_eq!(client.available(), 6000);
    assert_eq!(client.held(), 4000);
    assert_eq!(client.total(), 10000);
}

// The machine-limit check: a deposit that would overflow the balance is
// reported as not processable, a reasonable one as processable.
#[test]
fn test_can_process_overflow_guard() {
    let mut service = new_service();

    service.process_transaction(deposit(1, 1, i64::MAX as u64)).unwrap();
    assert!(service.can_process(&deposit(1, 2, 1)) == false);
    assert!(service.can_process(&withdrawal(1, 3, 1)));
    assert!(service.can_process(&deposit(2, 4, 500)));
}

// Only deposits and withdrawals are stored for later dispute reference;
// dispute-family transactions are transient.
#[test]
fn test_only_amount_bearing_transactions_are_stored() {
    let mut service = new_service();

    service.process_transaction(deposit(1, 1, 1000)).unwrap();
    service.process_transaction(withdrawal(1, 2, 300)).unwrap();
    service.process_transaction(reference(1, 1, TransactionType::Dispute)).unwrap();

    assert!(service.find_tx_by_id(1).is_some());
    assert!(service.find_tx_by_id(2).is_some());
    assert!(service.find_tx_by_id(3).is_none());
}

// The final snapshot lists every client exactly once, with its final state.
#[test]
fn test_final_snapshot_lists_all_clients() {
    let mut service = new_service();

    service.process_transaction(deposit(1, 1, 100)).unwrap();
    service.process_transaction(deposit(2, 2, 200)).unwrap();
    service.process_transaction(deposit(1, 3, 50)).unwrap();

    let mut all = service.find_all_clients();
    all.sort_by_key(|c| c.client_id());
    assert_eq!(all.len(), 2);
    assert_eq!(all[0].client_id(), 1);
    assert_eq!(all[0].available(), 150);
    assert_eq!(all[1].client_id(), 2);
    assert_eq!(all[1].available(), 200);
}

// Held-balance accounting: `held` is at all times the sum of the amounts
// under open dispute, and `available` is what was deposited minus that sum.
#[test]
fn test_held_is_sum_of_open_disputes() {
    let mut service = new_service();

    service.process_transaction(deposit(1, 1, 10000)).unwrap();
    service.process_transaction(deposit(1, 2, 2500)).unwrap();
    service.process_transaction(deposit(1, 3, 400)).unwrap();

    service.process_transaction(reference(1, 1, TransactionType::Dispute)).unwrap();
    service.process_transaction(reference(1, 3, TransactionType::Dispute)).unwrap();

    let client = service.find_client_by_id(1).unwrap();
    assert_eq!(client.held(), 10400);
    assert_eq!(client.available(), 12900 - 10400);
    assert_eq!(client.total(), 12900);

    service.process_transaction(reference(1, 1, TransactionType::Resolve)).unwrap();

    let client = service.find_client_by_id(1).unwrap();
    assert_eq!(client.held(), 400);
    assert_eq!(client.available(), 12900 - 400);
    assert_eq!(client.total(), 12900);
}

// A transaction of one client never touches another client's account.
#[test]
fn test_clients_are_independent() {
    let mut service = new_service();

    service.process_transaction(deposit(1, 1, 1000)).unwrap();
    service.process_transaction(deposit(2, 2, 2000)).unwrap();
    service.process_transaction(reference(2, 2, TransactionType::Dispute)).unwrap();

    let one = service.find_client_by_id(1).unwrap();
    assert_eq!(one.available(), 1000);
    assert_eq!(one.held(), 0);
    let two = service.find_client_by_id(2).unwrap();
    assert_eq!(two.available(), 0);
    assert_eq!(two.held(), 2000);
}
