//! The transaction processing service: it resolves the targeted client
//! (creating one on first sight), resolves the referenced transaction for
//! dispute-family operations, applies the legal state transition on both,
//! and persists through the repositories. One transaction's failure never
//! aborts the batch: every error is local to the transaction that caused it.

use vstd::prelude::*;

use crate::infrastructure::in_mem_dbs::{ClientInMemRepository, TransactionInMemRepository};
use crate::models::client::{Client, ClientAccountStatus, ClientOperationError};
use crate::models::transactions::{Transaction, TransactionError, TransactionType};
use crate::models::{ClientID, MoneyType, TransactionID};

verus! {

/// The abstract state of the service: the stored client accounts and the
/// stored amount-bearing transactions, each keyed by id.
#[verifier::ext_equal]
pub struct ServiceState {
    pub clients: Map<ClientID, Client>,
    pub txs: Map<TransactionID, Transaction>,
}

impl ServiceState {
    /// The state after the targeted client is resolved: a fresh, zero-balance
    /// active account is created on first sight.
    pub open spec fn with_client(self, client_id: ClientID) -> ServiceState {
        if self.clients.contains_key(client_id) {
            self
        } else {
            ServiceState {
                clients: self.clients.insert(client_id, Client::spec_initial(client_id)),
                ..self
            }
        }
    }

    /// What processing `t` does to the state and returns, step by step as
    /// the service works: the targeted client is resolved first (and kept
    /// even when the rest fails), then the operation is validated against
    /// the transaction store and the client, and only a fully legal
    /// operation mutates anything beyond that.
    pub open spec fn spec_process(self, t: Transaction) -> (ServiceState, Result<
        (),
        TransactionProcessingError,
    >) {
        let s = self.with_client(t.client);
        let c = s.clients[t.client];
        match t.tx_type {
            TransactionType::Deposit { amount, .. } => match c.spec_deposit(amount) {
                Ok(c2) => (
                    ServiceState {
                        clients: s.clients.insert(t.client, c2),
                        txs: s.txs.insert(t.transaction_id, t),
                    },
                    Ok(()),
                ),
                Err(e) => (s, Err(TransactionProcessingError::ClientError(e))),
            },
            TransactionType::Withdrawal { amount, .. } => match c.spec_withdraw(amount) {
                Ok(c2) => (
                    ServiceState {
                        clients: s.clients.insert(t.client, c2),
                        txs: s.txs.insert(t.transaction_id, t),
                    },
                    Ok(()),
                ),
                Err(e) => (s, Err(TransactionProcessingError::ClientError(e))),
            },
            TransactionType::Dispute => {
                if !s.txs.contains_key(t.transaction_id) {
                    (
                        s,
                        Err(TransactionProcessingError::DisputedTransactionDoesNotExist(
                            t.transaction_id,
                        )),
                    )
                } else {
                    let found = s.txs[t.transaction_id];
                    match found.spec_dispute_result(t) {
                        Err(e) => (s, Err(TransactionProcessingError::TransactionError(e))),
                        Ok(_) => {
                            let cres = if found.is_deposit() {
                                c.spec_dispute_deposited(found.spec_amount())
                            } else {
                                c.spec_dispute_withdrawn(found.spec_amount())
                            };
                            match cres {
                                Err(e) => (s, Err(TransactionProcessingError::ClientError(e))),
                                Ok(c2) => (
                                    ServiceState {
                                        clients: s.clients.insert(t.client, c2),
                                        txs: s.txs.insert(
                                            t.transaction_id,
                                            found.spec_with_dispute(t),
                                        ),
                                    },
                                    Ok(()),
                                ),
                            }
                        },
                    }
                }
            },
            TransactionType::Resolve => s.spec_process_settlement(t, true),
            TransactionType::Chargeback => s.spec_process_settlement(t, false),
        }
    }

    /// The settlement half of `spec_process`, applied to the state in which
    /// the client has already been resolved: a resolve releases the held
    /// amount back, a chargeback removes it and freezes the account.
    pub open spec fn spec_process_settlement(self, t: Transaction, is_resolve: bool) -> (
        ServiceState,
        Result<(), TransactionProcessingError>,
    ) {
        let c = self.clients[t.client];
        if !self.txs.contains_key(t.transaction_id) {
            (
                self,
                Err(TransactionProcessingError::SettledDisputedTransactionDoesNotExist(
                    t.transaction_id,
                )),
            )
        } else {
            let found = self.txs[t.transaction_id];
            match found.spec_settle_result(t) {
                Err(e) => (self, Err(TransactionProcessingError::TransactionError(e))),
                Ok(_) => {
                    let cres = if is_resolve {
                        c.spec_resolve(found.spec_amount())
                    } else {
                        c.spec_chargeback(found.spec_amount())
                    };
                    match cres {
                        Err(e) => (self, Err(TransactionProcessingError::ClientError(e))),
                        Ok(c2) => (
                            ServiceState {
                                clients: self.clients.insert(t.client, c2),
                                txs: self.txs.insert(
                                    t.transaction_id,
                                    found.spec_with_settlement(t),
                                ),
                            },
                            Ok(()),
                        ),
                    }
                },
            }
        }
    }

    /// The machine limits under which processing `t` is defined: wherever
    /// the operation would legally mutate a balance, the new balance must
    /// fit its type.
    pub open spec fn spec_process_fits(self, t: Transaction) -> bool {
        let s = self.with_client(t.client);
        let c = s.clients[t.client];
        match t.tx_type {
            TransactionType::Deposit { amount, .. } => c.deposit_fits(amount),
            TransactionType::Withdrawal { .. } => true,
            TransactionType::Dispute => s.txs.contains_key(t.transaction_id) ==> {
                let found = s.txs[t.transaction_id];
                found.spec_dispute_result(t) is Ok ==> (if found.is_deposit() {
                    c.dispute_deposited_fits(found.spec_amount())
                } else {
                    c.dispute_withdrawn_fits(found.spec_amount())
                })
            },
            TransactionType::Resolve => s.txs.contains_key(t.transaction_id) ==> {
                let found = s.txs[t.transaction_id];
                found.spec_settle_result(t) is Ok ==> c.resolve_fits(found.spec_amount())
            },
            TransactionType::Chargeback => true,
        }
    }
}

/// The transaction service, handling one incoming transaction at a time
/// against the two stores it owns.
pub struct TransactionService {
    client_repository: ClientInMemRepository,
    transaction_repository: TransactionInMemRepository,
}

impl View for TransactionService {
    type V = ServiceState;

    closed spec fn view(&self) -> ServiceState {
        ServiceState { clients: self.client_repository@, txs: self.transaction_repository@ }
    }
}

impl TransactionService {
    /// Well-formedness of the service's stores; established by `new` and
    /// preserved by every operation.
    pub closed spec fn wf(self) -> bool {
        self.client_repository.wf()
    }

    pub fn new(client_repo: ClientInMemRepository, transaction_repo: TransactionInMemRepository) -> (r: Self)
        requires
            client_repo.wf(),
        ensures
            r.wf(),
            r@ == (ServiceState { clients: client_repo@, txs: transaction_repo@ }),
    {
        Self { client_repository: client_repo, transaction_repository: transaction_repo }
    }

    /// Initialize a zero-balance active client and register it.
    fn initialize_empty_client(&mut self, client_id: ClientID) -> (r: Client)
        requires
            old(self).wf(),
        ensures
            final(self).wf(),
            final(self)@ == (ServiceState {
                clients: old(self)@.clients.insert(client_id, Client::spec_initial(client_id)),
                txs: old(self)@.txs,
            }),
            r == Client::spec_initial(client_id),
    {
        let client = Client::builder().with_client_id(client_id).build();
        self.client_repository.store_client(client)
    }

    /// All the clients currently stored, each exactly once.
    pub fn find_all_clients(&self) -> (r: Vec<Client>)
        requires
            self.wf(),
        ensures
            r@.map_values(|c: Client| c.client_id).no_duplicates(),
            r@.map_values(|c: Client| c.client_id).to_set() =~= self@.clients.dom(),
            forall|i: int|
                0 <= i < r@.len() ==> #[trigger] r@[i] == self@.clients[r@[i].client_id],
    {
        self.client_repository.find_all_clients()
    }

    pub fn find_client_by_id(&self, client_id: ClientID) -> (r: Option<Client>)
        ensures
            r == (if self@.clients.contains_key(client_id) {
                Some(self@.clients[client_id])
            } else {
                None::<Client>
            }),
    {
        self.client_repository.find_client_by_id(client_id)
    }

    pub fn find_tx_by_id(&self, tx_id: TransactionID) -> (r: Option<&Transaction>)
        ensures
            match r {
                Some(t) => self@.txs.contains_key(tx_id) && *t == self@.txs[tx_id],
                None => !self@.txs.contains_key(tx_id),
            },
    {
        self.transaction_repository.find_tx_by_id(tx_id)
    }

    /// Whether the machine limits allow processing `transaction` right now:
    /// exactly the precondition of `process_transaction` beyond
    /// well-formedness. A caller that cannot establish it statically tests
    /// it first.
    pub fn can_process(&self, transaction: &Transaction) -> (r: bool)
        ensures
            r == self@.spec_process_fits(*transaction),
    {
        let client: Client = match self.client_repository.find_client_by_id(transaction.client()) {
            Some(c) => c,
            None => Client::builder().with_client_id(transaction.client()).build(),
        };
        let frozen = matches!(client.account_status, ClientAccountStatus::Frozen);
        match &transaction.tx_type {
            TransactionType::Deposit { amount, .. } => {
                frozen || client.available as i128 + *amount as i128 <= i64::MAX as i128
            },
            TransactionType::Withdrawal { .. } => true,
            TransactionType::Dispute => {
                match self.transaction_repository.find_tx_by_id(transaction.transaction_id()) {
                    None => true,
                    Some(found) => {
                        if found.check_dispute(transaction).is_err() {
                            true
                        } else if frozen {
                            true
                        } else {
                            let amount: MoneyType = match found.amount() {
                                Ok(a) => a,
                                Err(_) => {
                                    proof {
                                        assert(false);
                                    }
                                    0
                                },
                            };
                            let held_ok = client.held as u128 + amount as u128 <= u64::MAX as u128;
                            if matches!(found.tx_type, TransactionType::Deposit { .. }) {
                                client.available as i128 - amount as i128 >= i64::MIN as i128
                                    && held_ok
                            } else {
                                held_ok
                            }
                        }
                    },
                }
            },
            TransactionType::Resolve => {
                match self.transaction_repository.find_tx_by_id(transaction.transaction_id()) {
                    None => true,
                    Some(found) => {
                        if found.check_settle(transaction).is_err() {
                            true
                        } else if frozen {
                            true
                        } else {
                            let amount: MoneyType = match found.amount() {
                                Ok(a) => a,
                                Err(_) => {
                                    proof {
                                        assert(false);
                                    }
                                    0
                                },
                            };
                            if client.held < amount {
                                true
                            } else {
                                client.available as i128 + amount as i128 <= i64::MAX as i128
                            }
                        }
                    },
                }
            },
            TransactionType::Chargeback => true,
        }
    }

    /// Process a single incoming transaction, as the batch driver does for
    /// each in arrival order. The returned error, if any, is local to this
    /// transaction; the state is exactly `spec_process` of the old state.
    pub fn process_transaction(&mut self, transaction: Transaction) -> (r: Result<
        (),
        TransactionProcessingError,
    >)
        requires
            old(self).wf(),
            old(self)@.spec_process_fits(transaction),
        ensures
            final(self).wf(),
            ({
                let (s2, res) = old(self)@.spec_process(transaction);
                final(self)@ == s2 && r == res
            }),
    {
        let client_id: ClientID = transaction.client();
        let mut client: Client = match self.client_repository.find_client_by_id(client_id) {
            Some(c) => c,
            None => self.initialize_empty_client(client_id),
        };
        let ghost s = old(self)@.with_client(transaction.client);
        proof {
            assert(self@ =~= s);
        }

        let is_deposit = matches!(transaction.tx_type, TransactionType::Deposit { .. });
        let is_withdrawal = matches!(transaction.tx_type, TransactionType::Withdrawal { .. });
        let is_dispute = matches!(transaction.tx_type, TransactionType::Dispute);
        let is_resolve = matches!(transaction.tx_type, TransactionType::Resolve);

        let result: Result<(), TransactionProcessingError> = if is_deposit || is_withdrawal {
            let amount: MoneyType = match transaction.amount() {
                Ok(a) => a,
                Err(_) => {
                    proof {
                        assert(false);
                    }
                    0
                },
            };
            let op_result = if is_deposit {
                client.deposit(amount)
            } else {
                client.withdraw(amount)
            };
            match op_result {
                Err(e) => Err(TransactionProcessingError::ClientError(e)),
                Ok(()) => {
                    self.client_repository.store_client(client);
                    self.transaction_repository.store_tx(transaction);
                    Ok(())
                },
            }
        } else if is_dispute {
            let tx_id: TransactionID = transaction.transaction_id();
            let check: Result<(bool, MoneyType), TransactionError> = match self
                .transaction_repository
                .find_tx_by_id(tx_id) {
                None => {
                    return Err(TransactionProcessingError::DisputedTransactionDoesNotExist(tx_id));
                },
                Some(found) => match found.check_dispute(&transaction) {
                    Err(e) => Err(e),
                    Ok(()) => {
                        let found_is_deposit = matches!(
                            found.tx_type,
                            TransactionType::Deposit { .. }
                        );
                        let amount: MoneyType = match found.amount() {
                            Ok(a) => a,
                            Err(_) => {
                                proof {
                                    assert(false);
                                }
                                0
                            },
                        };
                        Ok((found_is_deposit, amount))
                    },
                },
            };
            match check {
                Err(e) => Err(TransactionProcessingError::TransactionError(e)),
                Ok((found_is_deposit, amount)) => {
                    let op_result = if found_is_deposit {
                        client.dispute_deposited_funds(amount)
                    } else {
                        client.dispute_withdrawn_funds(amount)
                    };
                    match op_result {
                        Err(e) => Err(TransactionProcessingError::ClientError(e)),
                        Ok(()) => {
                            let mut found = match self.transaction_repository.take_tx_by_id(tx_id) {
                                Some(f) => f,
                                None => vstd::pervasive::unreached(),
                            };
                            if let Err(_) = found.dispute(transaction) {
                                proof {
                                    assert(false);
                                }
                            }
                            self.transaction_repository.store_tx(found);
                            self.client_repository.store_client(client);
                            proof {
                                assert(self.transaction_repository@ =~= s.txs.insert(
                                    tx_id,
                                    s.txs[tx_id].spec_with_dispute(transaction),
                                ));
                            }
                            Ok(())
                        },
                    }
                },
            }
        } else {
            // a resolve or a chargeback
            let tx_id: TransactionID = transaction.transaction_id();
            let check: Result<MoneyType, TransactionError> = match self
                .transaction_repository
                .find_tx_by_id(tx_id) {
                None => {
                    return Err(TransactionProcessingError::SettledDisputedTransactionDoesNotExist(
                        tx_id,
                    ));
                },
                Some(found) => match found.check_settle(&transaction) {
                    Err(e) => Err(e),
                    Ok(()) => {
                        let amount: MoneyType = match found.amount() {
                            Ok(a) => a,
                            Err(_) => {
                                proof {
                                    assert(false);
                                }
                                0
                            },
                        };
                        Ok(amount)
                    },
                },
            };
            match check {
                Err(e) => Err(TransactionProcessingError::TransactionError(e)),
                Ok(amount) => {
                    let op_result = if is_resolve {
                        client.resolve_funds(amount)
                    } else {
                        client.chargeback_funds(amount)
                    };
                    match op_result {
                        Err(e) => Err(TransactionProcessingError::ClientError(e)),
                        Ok(()) => {
                            let mut found = match self.transaction_repository.take_tx_by_id(tx_id) {
                                Some(f) => f,
                                None => vstd::pervasive::unreached(),
                            };
                            if let Err(_) = found.settle_dispute(transaction) {
                                proof {
                                    assert(false);
                                }
                            }
                            self.transaction_repository.store_tx(found);
                            self.client_repository.store_client(client);
                            proof {
                                assert(self.transaction_repository@ =~= s.txs.insert(
                                    tx_id,
                                    s.txs[tx_id].spec_with_settlement(transaction),
                                ));
                            }
                            Ok(())
                        },
                    }
                },
            }
        };

        // Regardless of outcome, notify the client repository to persist the
        // (possibly unchanged) client record.
        self.client_repository.save_client(client);
        proof {
            let (s2, res) = old(self)@.spec_process(transaction);
            assert(self@ =~= s2);
            assert(result == res);
        }
        result
    }
}

impl ServiceState {
    /// The state after processing a whole batch, one transaction at a time
    /// in arrival order; errors are logged and skipped, never fatal.
    pub open spec fn spec_process_seq(self, ts: Seq<Transaction>) -> ServiceState
        decreases ts.len(),
    {
        if ts.len() == 0 {
            self
        } else {
            self.spec_process(ts[0]).0.spec_process_seq(ts.skip(1))
        }
    }
}

/// The sum of the amounts of a sequence of transactions.
pub open spec fn amounts_sum(ts: Seq<Transaction>) -> int
    decreases ts.len(),
{
    if ts.len() == 0 {
        0
    } else {
        ts[0].spec_amount() + amounts_sum(ts.skip(1))
    }
}

/// Law: for a sequence made only of deposits targeting one client, the
/// client's `available` after processing has grown by exactly the sum of the
/// amounts, while `held` and the status are untouched; with nothing under
/// dispute, `held` of a client first seen here stays zero.
pub proof fn lemma_deposit_sequence(s: ServiceState, ts: Seq<Transaction>, client_id: ClientID)
    requires
        forall|i: int|
            0 <= i < ts.len() ==> (#[trigger] ts[i]).tx_type is Deposit && ts[i].client
                == client_id,
        !s.with_client(client_id).clients[client_id].is_frozen(),
        s.with_client(client_id).clients[client_id].available + amounts_sum(ts) <= i64::MAX,
    ensures
        ({
            let c0 = s.with_client(client_id).clients[client_id];
            let c1 = s.spec_process_seq(ts).with_client(client_id).clients[client_id];
            c1.available == c0.available + amounts_sum(ts) && c1.held == c0.held && !c1.is_frozen()
        }),
    decreases ts.len(),
{
    lemma_amounts_sum_nonneg(ts);
    if ts.len() > 0 {
        let t = ts[0];
        let rest = ts.skip(1);
        lemma_amounts_sum_nonneg(rest);
        let s1 = s.spec_process(t).0;
        assert(s1.with_client(client_id) == s1);
        assert forall|i: int|
            0 <= i < rest.len() implies (#[trigger] rest[i]).tx_type is Deposit && rest[i].client
            == client_id by {
            assert(rest[i] == ts[i + 1]);
        }
        lemma_deposit_sequence(s1, rest, client_id);
    }
}

/// The amounts of a sequence of deposits are never negative.
proof fn lemma_amounts_sum_nonneg(ts: Seq<Transaction>)
    ensures
        amounts_sum(ts) >= 0,
    decreases ts.len(),
{
    if ts.len() > 0 {
        lemma_amounts_sum_nonneg(ts.skip(1));
    }
}

/// Law: a frozen account can never be touched again through the service.
/// Whatever transaction arrives for it, processing fails and the whole state
/// is unchanged; where the operation reaches the account itself the error is
/// `AccountFrozen` (see `lemma_frozen_is_terminal` for the account-level
/// statement).
pub proof fn lemma_frozen_client_untouched(s: ServiceState, t: Transaction)
    requires
        s.clients.contains_key(t.client),
        s.clients[t.client].is_frozen(),
    ensures
        ({
            let (s2, res) = s.spec_process(t);
            s2 == s && res is Err
        }),
{
}

/// Law: a dispute referencing a transaction id that was never stored fails
/// with `DisputedTransactionDoesNotExist` and alters no client balance; the
/// only side effect is the lazy creation of the targeted client, with zero
/// balances, where it did not exist yet.
pub proof fn lemma_dispute_unknown_tx(s: ServiceState, t: Transaction)
    requires
        t.tx_type is Dispute,
        !s.txs.contains_key(t.transaction_id),
    ensures
        ({
            let (s2, res) = s.spec_process(t);
            &&& res == Err::<(), TransactionProcessingError>(
                TransactionProcessingError::DisputedTransactionDoesNotExist(t.transaction_id),
            )
            &&& s2 == s.with_client(t.client)
            &&& s2.txs == s.txs
            &&& forall|k: ClientID| #[trigger]
                s.clients.contains_key(k) ==> s2.clients[k] == s.clients[k]
            &&& s2.clients[t.client] == (if s.clients.contains_key(t.client) {
                s.clients[t.client]
            } else {
                Client::spec_initial(t.client)
            })
        }),
{
}

/// Law: a second dispute against an already-disputed transaction, or a
/// resolve or chargeback against a transaction whose dispute is settled (or
/// was never opened), fails without mutating anything; the only side effect
/// is the lazy creation of the targeted client where it did not exist yet.
pub proof fn lemma_settled_or_disputed_is_immutable(s: ServiceState, t: Transaction)
    requires
        s.txs.contains_key(t.transaction_id),
        t.tx_type is Dispute || t.tx_type is Resolve || t.tx_type is Chargeback,
        t.tx_type is Dispute ==> s.txs[t.transaction_id].is_disputed(),
        (t.tx_type is Resolve || t.tx_type is Chargeback) ==> !s.txs[
            t.transaction_id
        ].has_open_dispute(),
    ensures
        ({
            let (s2, res) = s.spec_process(t);
            res is Err && s2 == s.with_client(t.client)
        }),
{
}

/// Law: no partial state is committed on error. Whenever processing a
/// transaction fails, whatever the error, the stores are exactly as before,
/// except that the targeted client now exists (the lazy creation performed
/// by the client lookup is kept, with zero balances).
pub proof fn lemma_no_partial_state_on_error(s: ServiceState, t: Transaction)
    ensures
        ({
            let (s2, res) = s.spec_process(t);
            res is Err ==> s2 == s.with_client(t.client)
        }),
{
}

/// The ids of the stored transactions of `client_id` that are under open
/// dispute.
pub open spec fn open_disputed_ids(
    txs: Map<TransactionID, Transaction>,
    client_id: ClientID,
) -> Set<TransactionID> {
    txs.dom().filter(
        |tid: TransactionID| txs[tid].client == client_id && txs[tid].has_open_dispute(),
    )
}

/// The sum of the amounts of the stored transactions named by `ids`.
pub open spec fn amounts_of(txs: Map<TransactionID, Transaction>, ids: Set<TransactionID>) -> int {
    ids.fold(0, |acc: int, tid: TransactionID| acc + txs[tid].spec_amount())
}

/// The held-balance accounting predicate: the client's `held` balance equals
/// the sum of the amounts of its stored transactions currently under open
/// dispute, and a client not seen yet has nothing under open dispute.
pub open spec fn held_matches_open_disputes(s: ServiceState, client_id: ClientID) -> bool {
    (if s.clients.contains_key(client_id) {
        s.clients[client_id].held as int
    } else {
        0
    }) == amounts_of(s.txs, open_disputed_ids(s.txs, client_id))
}

proof fn lemma_amounts_of_empty(txs: Map<TransactionID, Transaction>)
    ensures
        amounts_of(txs, Set::empty()) == 0,
{
    broadcast use vstd::set::fold::lemma_fold_empty;

}

proof fn lemma_amounts_of_insert(
    txs: Map<TransactionID, Transaction>,
    ids: Set<TransactionID>,
    tid: TransactionID,
)
    requires
        ids.finite(),
        !ids.contains(tid),
    ensures
        amounts_of(txs, ids.insert(tid)) == amounts_of(txs, ids) + txs[tid].spec_amount(),
{
    broadcast use vstd::set::fold::lemma_fold_insert;

    assert(vstd::set::fold::is_fun_commutative(
        |acc: int, tid2: TransactionID| acc + txs[tid2].spec_amount(),
    ));
}

/// The sum depends only on the amounts of the named transactions: two stores
/// that agree on them give the same sum.
proof fn lemma_amounts_of_agree(
    txs1: Map<TransactionID, Transaction>,
    txs2: Map<TransactionID, Transaction>,
    ids: Set<TransactionID>,
)
    requires
        ids.finite(),
        forall|tid: TransactionID| #[trigger]
            ids.contains(tid) ==> txs1[tid].spec_amount() == txs2[tid].spec_amount(),
    ensures
        amounts_of(txs1, ids) == amounts_of(txs2, ids),
    decreases ids.len(),
{
    broadcast use vstd::set_lib::lemma_set_empty_equivalency_len;

    if ids.len() == 0 {
        assert(ids == Set::<TransactionID>::empty());
        lemma_amounts_of_empty(txs1);
        lemma_amounts_of_empty(txs2);
    } else {
        let tid = ids.choose();
        assert(ids.contains(tid));
        let rest = ids.remove(tid);
        lemma_amounts_of_agree(txs1, txs2, rest);
        assert(rest.insert(tid) == ids);
        lemma_amounts_of_insert(txs1, rest, tid);
        lemma_amounts_of_insert(txs2, rest, tid);
    }
}

/// Law: held-balance accounting, the second clause of the batch accounting
/// story. For a well-formed incoming transaction — deposits and withdrawals
/// arrive undisputed under a fresh id, and a dispute-family transaction
/// targets the client owning the transaction it references — processing
/// preserves, for every client, the property that `held` equals the sum of
/// the amounts of that client's stored transactions under open dispute.
/// Every state the service reaches from empty stores over such a batch
/// therefore satisfies it.
pub proof fn lemma_held_accounting_preserved(s: ServiceState, t: Transaction, client_id: ClientID)
    requires
        s.txs.dom().finite(),
        s.spec_process_fits(t),
        held_matches_open_disputes(s, client_id),
        t.is_amount_bearing() ==> !t.is_disputed() && !s.txs.contains_key(t.transaction_id),
        (!t.is_amount_bearing() && s.txs.contains_key(t.transaction_id)) ==> s.txs[
            t.transaction_id
        ].client == t.client,
    ensures
        s.spec_process(t).0.txs.dom().finite(),
        held_matches_open_disputes(s.spec_process(t).0, client_id),
{
    let s1 = s.with_client(t.client);
    let c = s1.clients[t.client];
    let s2 = s.spec_process(t).0;
    let tid = t.transaction_id;
    let ids_old = open_disputed_ids(s.txs, client_id);
    let ids_new = open_disputed_ids(s2.txs, client_id);
    s.txs.dom().lemma_len_filter(
        |tid2: TransactionID| s.txs[tid2].client == client_id && s.txs[tid2].has_open_dispute(),
    );
    assert(held_matches_open_disputes(s1, client_id));
    if s2.txs == s.txs {
        // every failing arm leaves the stores untouched and the client at
        // most lazily created
        assert(ids_new =~= ids_old);
        lemma_amounts_of_agree(s.txs, s2.txs, ids_old);
        assert(held_matches_open_disputes(s2, client_id));
    } else {
        match t.tx_type {
            TransactionType::Deposit { .. } | TransactionType::Withdrawal { .. } => {
                // the stored transaction is fresh and undisputed: nothing
                // under open dispute changes
                assert(s2.txs == s1.txs.insert(tid, t));
                assert(!t.has_open_dispute());
                assert(ids_new =~= ids_old);
                lemma_amounts_of_agree(s.txs, s2.txs, ids_old);
                assert(s2.clients[t.client].held == c.held);
                assert(held_matches_open_disputes(s2, client_id));
            },
            TransactionType::Dispute => {
                let found = s.txs[tid];
                let found2 = found.spec_with_dispute(t);
                assert(found2.client == found.client && found2.spec_amount()
                    == found.spec_amount() && found2.has_open_dispute());
                assert(!found.has_open_dispute());
                assert(s2.txs == s.txs.insert(tid, found2));
                if client_id == t.client {
                    assert(!ids_old.contains(tid));
                    assert(ids_new =~= ids_old.insert(tid));
                    lemma_amounts_of_agree(s.txs, s2.txs, ids_old);
                    lemma_amounts_of_insert(s2.txs, ids_old, tid);
                    assert(s2.clients[client_id].held == c.held + found.spec_amount());
                } else {
                    assert(ids_new =~= ids_old);
                    lemma_amounts_of_agree(s.txs, s2.txs, ids_old);
                }
                assert(held_matches_open_disputes(s2, client_id));
            },
            TransactionType::Resolve | TransactionType::Chargeback => {
                let found = s.txs[tid];
                let found2 = found.spec_with_settlement(t);
                assert(found.has_open_dispute());
                assert(found2.client == found.client && found2.spec_amount()
                    == found.spec_amount() && !found2.has_open_dispute());
                assert(s2.txs == s.txs.insert(tid, found2));
                if client_id == t.client {
                    let mid = ids_old.remove(tid);
                    assert(ids_old.contains(tid));
                    assert(mid.insert(tid) == ids_old);
                    lemma_amounts_of_insert(s.txs, mid, tid);
                    assert(ids_new =~= mid);
                    lemma_amounts_of_agree(s.txs, s2.txs, mid);
                    assert(s2.clients[client_id].held == c.held - found.spec_amount());
                } else {
                    assert(ids_new =~= ids_old);
                    lemma_amounts_of_agree(s.txs, s2.txs, ids_old);
                }
                assert(held_matches_open_disputes(s2, client_id));
            },
        }
    }
}

/// Law: total-balance conservation, the first clause of the batch accounting
/// story. For the transactions a sequence of deposits gives rise to — the
/// deposits themselves, disputes referencing stored deposits, and resolves —
/// processing moves `available + held` only through a successful deposit,
/// and by exactly its amount. With `lemma_held_accounting_preserved` this
/// pins `available` down: it equals the sum of the deposited amounts minus
/// whatever is currently under open dispute, which is exactly `held`.
pub proof fn lemma_total_conservation(s: ServiceState, t: Transaction)
    requires
        s.spec_process_fits(t),
        t.tx_type matches TransactionType::Dispute ==> (s.txs.contains_key(t.transaction_id)
            ==> s.txs[t.transaction_id].is_deposit()),
        !(t.tx_type matches TransactionType::Withdrawal { .. }),
        !(t.tx_type matches TransactionType::Chargeback),
    ensures
        ({
            let c = s.with_client(t.client).clients[t.client];
            let (s2, res) = s.spec_process(t);
            let c2 = s2.clients[t.client];
            if res is Ok && t.is_deposit() {
                c2.spec_total() == c.spec_total() + t.spec_amount()
            } else {
                c2.spec_total() == c.spec_total()
            }
        }),
{
}

/// The processing errors of the transaction service: the wrapped client and
/// transaction errors, and the lookup failures of the dispute family.
#[derive(Debug)]
pub enum TransactionProcessingError {
    ClientError(ClientOperationError),
    TransactionError(TransactionError),
    /// The disputed transaction does not exist; holds the referenced id.
    DisputedTransactionDoesNotExist(TransactionID),
    /// The transaction whose dispute was to be settled does not exist; holds
    /// the referenced id.
    SettledDisputedTransactionDoesNotExist(TransactionID),
}

} // verus!
