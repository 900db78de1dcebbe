//! The transaction model and the dispute state machine: a transaction
//! enforces, against itself, which dispute/resolve/chargeback moves are
//! legal.

use vstd::prelude::*;

use crate::models::{ClientID, MoneyType, NoVal, TransactionID};

verus! {

/// A transaction made in the system: its id and type, and the client it
/// targets.
#[derive(Debug)]
pub struct Transaction {
    pub transaction_id: TransactionID,
    pub tx_type: TransactionType,
    pub client: ClientID,
}

/// The type of transaction being performed.
///
/// Only deposits and withdrawals carry an amount; the other kinds act purely
/// as references to a prior transaction. A deposit or withdrawal also owns
/// its dispute record, if one was opened against it: a dispute has no
/// identity of its own.
#[derive(Debug)]
pub enum TransactionType {
    Deposit { amount: MoneyType, dispute: Option<Box<Dispute>> },
    Withdrawal { amount: MoneyType, dispute: Option<Box<Dispute>> },
    Dispute,
    Resolve,
    Chargeback,
}

/// The dispute record embedded in the transaction it disputes. It owns the
/// dispute-opening transaction and, once settled, the resolve or chargeback
/// transaction that settled it. A dispute is settled at most once.
#[derive(Debug)]
pub struct Dispute {
    pub dispute_transaction: Transaction,
    pub resolution: Option<Transaction>,
}

impl Transaction {
    pub open spec fn is_deposit(self) -> bool {
        self.tx_type is Deposit
    }

    pub open spec fn is_withdrawal(self) -> bool {
        self.tx_type is Withdrawal
    }

    /// Only deposits and withdrawals carry an amount, and only they can be
    /// disputed.
    pub open spec fn is_amount_bearing(self) -> bool {
        self.is_deposit() || self.is_withdrawal()
    }

    /// The amount of a deposit or withdrawal; meaningless for other kinds
    /// (the executable `amount` fails on those).
    pub open spec fn spec_amount(self) -> MoneyType {
        match self.tx_type {
            TransactionType::Deposit { amount, .. } => amount,
            TransactionType::Withdrawal { amount, .. } => amount,
            _ => 0,
        }
    }

    /// The dispute record of a deposit or withdrawal, if one was opened.
    pub open spec fn spec_dispute(self) -> Option<Box<Dispute>> {
        match self.tx_type {
            TransactionType::Deposit { dispute, .. } => dispute,
            TransactionType::Withdrawal { dispute, .. } => dispute,
            _ => None,
        }
    }

    pub open spec fn is_disputed(self) -> bool {
        self.spec_dispute() is Some
    }

    /// A dispute was opened and has not been settled yet.
    pub open spec fn has_open_dispute(self) -> bool {
        self.spec_dispute() matches Some(d) && d.resolution is None
    }

    /// Whether `dispute(dispute_tx)` succeeds, and with which error it
    /// fails: `dispute_tx` must be of kind `Dispute`, must reference this
    /// transaction's id, this transaction must be a deposit or withdrawal,
    /// and no dispute may exist against it yet.
    pub open spec fn spec_dispute_result(self, dispute_tx: Transaction) -> Result<
        (),
        TransactionError,
    > {
        if !(dispute_tx.tx_type is Dispute) {
            Err(TransactionError::DisputeError(
                TransactionDisputeError::ProvidedTransactionNotDispute,
            ))
        } else if dispute_tx.transaction_id != self.transaction_id {
            Err(TransactionError::DisputeError(
                TransactionDisputeError::TransactionNotDisputingThisOne(
                    self.transaction_id,
                    dispute_tx.transaction_id,
                ),
            ))
        } else if !self.is_amount_bearing() {
            Err(TransactionError::DisputeError(TransactionDisputeError::TransactionNotDisputable))
        } else if self.is_disputed() {
            Err(TransactionError::DisputeError(TransactionDisputeError::TransactionAlreadyDisputed))
        } else {
            Ok(())
        }
    }

    /// The transaction after a successful `dispute(dispute_tx)`: the same
    /// transaction, now owning an open dispute record.
    pub open spec fn spec_with_dispute(self, dispute_tx: Transaction) -> Transaction {
        let record = Some(
            Box::new(Dispute { dispute_transaction: dispute_tx, resolution: None }),
        );
        Transaction {
            tx_type: match self.tx_type {
                TransactionType::Deposit { amount, .. } => TransactionType::Deposit {
                    amount,
                    dispute: record,
                },
                TransactionType::Withdrawal { amount, .. } => TransactionType::Withdrawal {
                    amount,
                    dispute: record,
                },
                other => other,
            },
            ..self
        }
    }

    /// Whether `settle_dispute(settlement)` succeeds, and with which error
    /// it fails: `settlement` must be a resolve or chargeback referencing
    /// this transaction's id, a dispute must be open against this
    /// transaction, and it must not have been settled already.
    pub open spec fn spec_settle_result(self, settlement: Transaction) -> Result<
        (),
        TransactionError,
    > {
        if !(settlement.tx_type is Resolve || settlement.tx_type is Chargeback) {
            Err(TransactionError::ResolveDisputeError(
                TransactionResolveDisputeError::ProvidedTransactionNotResolution,
            ))
        } else if settlement.transaction_id != self.transaction_id {
            Err(TransactionError::ResolveDisputeError(
                TransactionResolveDisputeError::TransactionNotResolvingThisOne(
                    self.transaction_id,
                    settlement.transaction_id,
                ),
            ))
        } else if !self.is_amount_bearing() {
            Err(TransactionError::DisputeError(TransactionDisputeError::TransactionNotDisputable))
        } else if !self.is_disputed() {
            Err(TransactionError::ResolveDisputeError(
                TransactionResolveDisputeError::TransactionNotDisputed,
            ))
        } else if !self.has_open_dispute() {
            Err(TransactionError::ResolveDisputeError(
                TransactionResolveDisputeError::DisputeAlreadyResolved,
            ))
        } else {
            Ok(())
        }
    }

    /// The transaction after a successful `settle_dispute(settlement)`: the
    /// open dispute record now owns the settlement.
    pub open spec fn spec_with_settlement(self, settlement: Transaction) -> Transaction {
        let record = match self.spec_dispute() {
            Some(d) => Some(
                Box::new(
                    Dispute {
                        dispute_transaction: d.dispute_transaction,
                        resolution: Some(settlement),
                    },
                ),
            ),
            None => None,
        };
        Transaction {
            tx_type: match self.tx_type {
                TransactionType::Deposit { amount, .. } => TransactionType::Deposit {
                    amount,
                    dispute: record,
                },
                TransactionType::Withdrawal { amount, .. } => TransactionType::Withdrawal {
                    amount,
                    dispute: record,
                },
                other => other,
            },
            ..self
        }
    }

    pub fn builder() -> (r: TransactionBuilder<NoVal, NoVal, NoVal>)
        ensures
            r == (TransactionBuilder {
                transaction_id: NoVal {},
                tx_type: NoVal {},
                client_id: NoVal {},
            }),
    {
        Default::default()
    }

    pub fn transaction_id(&self) -> (r: TransactionID)
        ensures
            r == self.transaction_id,
    {
        self.transaction_id
    }

    pub fn tx_type(&self) -> (r: &TransactionType)
        ensures
            r == self.tx_type,
    {
        &self.tx_type
    }

    pub fn client(&self) -> (r: ClientID)
        ensures
            r == self.client,
    {
        self.client
    }

    /// The monetary amount of this transaction; only deposits and
    /// withdrawals have one.
    pub fn amount(&self) -> (r: Result<MoneyType, TransactionError>)
        ensures
            self.is_amount_bearing() ==> r == Ok::<MoneyType, TransactionError>(
                self.spec_amount(),
            ),
            !self.is_amount_bearing() ==> r == Err::<MoneyType, TransactionError>(
                TransactionError::IllegalAmountCheck,
            ),
    {
        match &self.tx_type {
            TransactionType::Deposit { amount, .. } => Ok(*amount),
            TransactionType::Withdrawal { amount, .. } => Ok(*amount),
            _ => Err(TransactionError::IllegalAmountCheck),
        }
    }

    /// Whether disputing this transaction with `dispute_tx` would be legal,
    /// without performing it. `dispute` commits exactly when this returns
    /// `Ok`.
    pub(crate) fn check_dispute(&self, dispute_tx: &Transaction) -> (r: Result<(), TransactionError>)
        ensures
            r == self.spec_dispute_result(*dispute_tx),
    {
        match &dispute_tx.tx_type {
            TransactionType::Dispute => {},
            _ => {
                return Err(TransactionError::DisputeError(
                    TransactionDisputeError::ProvidedTransactionNotDispute,
                ));
            },
        }
        if dispute_tx.transaction_id != self.transaction_id {
            return Err(TransactionError::DisputeError(
                TransactionDisputeError::TransactionNotDisputingThisOne(
                    self.transaction_id,
                    dispute_tx.transaction_id,
                ),
            ));
        }
        match &self.tx_type {
            TransactionType::Deposit { dispute, .. } | TransactionType::Withdrawal {
                dispute,
                ..
            } => {
                if dispute.is_some() {
                    Err(TransactionError::DisputeError(
                        TransactionDisputeError::TransactionAlreadyDisputed,
                    ))
                } else {
                    Ok(())
                }
            },
            _ => Err(TransactionError::DisputeError(
                TransactionDisputeError::TransactionNotDisputable,
            )),
        }
    }

    /// Attempt to dispute this transaction with the given dispute-kind
    /// transaction. On success the transaction owns a new open dispute
    /// record; on failure it is left untouched.
    pub fn dispute(&mut self, dispute_tx: Transaction) -> (r: Result<(), TransactionError>)
        ensures
            r is Ok <==> old(self).spec_dispute_result(dispute_tx) is Ok,
            r is Ok ==> *final(self) == old(self).spec_with_dispute(dispute_tx),
            r is Err ==> r == old(self).spec_dispute_result(dispute_tx) && *final(self) == *old(
                self,
            ),
    {
        if let Err(e) = self.check_dispute(&dispute_tx) {
            return Err(e);
        }
        match &mut self.tx_type {
            TransactionType::Deposit { dispute, .. } => {
                *dispute = Some(
                    Box::new(Dispute { dispute_transaction: dispute_tx, resolution: None }),
                );
                Ok(())
            },
            TransactionType::Withdrawal { dispute, .. } => {
                *dispute = Some(
                    Box::new(Dispute { dispute_transaction: dispute_tx, resolution: None }),
                );
                Ok(())
            },
            _ => {
                proof {
                    assert(false);
                }
                Err(TransactionError::DisputeError(
                    TransactionDisputeError::TransactionNotDisputable,
                ))
            },
        }
    }

    /// Whether settling this transaction's dispute with `settlement` would
    /// be legal, without performing it. `settle_dispute` commits exactly
    /// when this returns `Ok`.
    pub(crate) fn check_settle(&self, settlement: &Transaction) -> (r: Result<(), TransactionError>)
        ensures
            r == self.spec_settle_result(*settlement),
    {
        match &settlement.tx_type {
            TransactionType::Resolve | TransactionType::Chargeback => {},
            _ => {
                return Err(TransactionError::ResolveDisputeError(
                    TransactionResolveDisputeError::ProvidedTransactionNotResolution,
                ));
            },
        }
        if settlement.transaction_id != self.transaction_id {
            return Err(TransactionError::ResolveDisputeError(
                TransactionResolveDisputeError::TransactionNotResolvingThisOne(
                    self.transaction_id,
                    settlement.transaction_id,
                ),
            ));
        }
        match &self.tx_type {
            TransactionType::Deposit { dispute, .. } | TransactionType::Withdrawal {
                dispute,
                ..
            } => {
                match dispute {
                    None => Err(TransactionError::ResolveDisputeError(
                        TransactionResolveDisputeError::TransactionNotDisputed,
                    )),
                    Some(d) => {
                        if d.resolution.is_some() {
                            Err(TransactionError::ResolveDisputeError(
                                TransactionResolveDisputeError::DisputeAlreadyResolved,
                            ))
                        } else {
                            Ok(())
                        }
                    },
                }
            },
            _ => Err(TransactionError::DisputeError(
                TransactionDisputeError::TransactionNotDisputable,
            )),
        }
    }

    /// Settle the dispute ongoing in this transaction with the given resolve
    /// or chargeback transaction. On success the open dispute record owns
    /// the settlement; on failure the transaction is left untouched.
    pub fn settle_dispute(&mut self, dispute_settlement: Transaction) -> (r: Result<
        (),
        TransactionError,
    >)
        ensures
            r is Ok <==> old(self).spec_settle_result(dispute_settlement) is Ok,
            r is Ok ==> *final(self) == old(self).spec_with_settlement(dispute_settlement),
            r is Err ==> r == old(self).spec_settle_result(dispute_settlement) && *final(self)
                == *old(self),
    {
        if let Err(e) = self.check_settle(&dispute_settlement) {
            return Err(e);
        }
        match &mut self.tx_type {
            TransactionType::Deposit { dispute, .. } => {
                match dispute {
                    Some(d) => {
                        d.resolution = Some(dispute_settlement);
                        Ok(())
                    },
                    None => {
                        proof {
                            assert(false);
                        }
                        Err(TransactionError::ResolveDisputeError(
                            TransactionResolveDisputeError::TransactionNotDisputed,
                        ))
                    },
                }
            },
            TransactionType::Withdrawal { dispute, .. } => {
                match dispute {
                    Some(d) => {
                        d.resolution = Some(dispute_settlement);
                        Ok(())
                    },
                    None => {
                        proof {
                            assert(false);
                        }
                        Err(TransactionError::ResolveDisputeError(
                            TransactionResolveDisputeError::TransactionNotDisputed,
                        ))
                    },
                }
            },
            _ => {
                proof {
                    assert(false);
                }
                Err(TransactionError::DisputeError(
                    TransactionDisputeError::TransactionNotDisputable,
                ))
            },
        }
    }
}

fn clone_transaction(t: &Transaction) -> (r: Transaction)
    ensures
        r == *t,
    decreases *t,
{
    Transaction {
        transaction_id: t.transaction_id,
        tx_type: clone_tx_type(&t.tx_type),
        client: t.client,
    }
}

fn clone_tx_type(ty: &TransactionType) -> (r: TransactionType)
    ensures
        r == *ty,
    decreases *ty,
{
    match ty {
        TransactionType::Deposit { amount, dispute } => TransactionType::Deposit {
            amount: *amount,
            dispute: clone_dispute_slot(dispute),
        },
        TransactionType::Withdrawal { amount, dispute } => TransactionType::Withdrawal {
            amount: *amount,
            dispute: clone_dispute_slot(dispute),
        },
        TransactionType::Dispute => TransactionType::Dispute,
        TransactionType::Resolve => TransactionType::Resolve,
        TransactionType::Chargeback => TransactionType::Chargeback,
    }
}

fn clone_dispute_slot(slot: &Option<Box<Dispute>>) -> (r: Option<Box<Dispute>>)
    ensures
        r == *slot,
    decreases *slot,
{
    match slot {
        None => None,
        Some(d) => Some(Box::new(clone_dispute(d))),
    }
}

fn clone_dispute(d: &Dispute) -> (r: Dispute)
    ensures
        r == *d,
    decreases *d,
{
    Dispute {
        dispute_transaction: clone_transaction(&d.dispute_transaction),
        resolution: match &d.resolution {
            None => None,
            Some(t) => Some(clone_transaction(t)),
        },
    }
}

impl Clone for Transaction {
    /// A cloned transaction equals the original, dispute record included.
    fn clone(&self) -> (r: Self)
        ensures
            r == *self,
    {
        clone_transaction(self)
    }
}

impl Clone for TransactionType {
    fn clone(&self) -> (r: Self)
        ensures
            r == *self,
    {
        clone_tx_type(self)
    }
}

impl Clone for Dispute {
    fn clone(&self) -> (r: Self)
        ensures
            r == *self,
    {
        clone_dispute(self)
    }
}

/// The transaction-level errors produced while maintaining the invariants of
/// the dispute model.
#[derive(Debug)]
pub enum TransactionDisputeError {
    /// This transaction cannot be disputed: it is not a deposit or
    /// withdrawal.
    TransactionNotDisputable,
    /// The provided transaction is not a dispute transaction.
    ProvidedTransactionNotDispute,
    /// The transaction has already been disputed.
    TransactionAlreadyDisputed,
    /// The provided transaction is not disputing this one: it holds this
    /// transaction's id, then the disputing one's.
    TransactionNotDisputingThisOne(TransactionID, TransactionID),
}

#[derive(Debug)]
pub enum TransactionResolveDisputeError {
    DisputeError(TransactionDisputeError),
    /// Cannot settle a dispute in a transaction that is not disputed.
    TransactionNotDisputed,
    /// The provided transaction is not a dispute resolution.
    ProvidedTransactionNotResolution,
    /// The provided transaction is not resolving this one: it holds this
    /// transaction's id, then the resolving one's.
    TransactionNotResolvingThisOne(TransactionID, TransactionID),
    /// This dispute has already been settled.
    DisputeAlreadyResolved,
}

#[derive(Debug)]
pub enum TransactionError {
    DisputeError(TransactionDisputeError),
    ResolveDisputeError(TransactionResolveDisputeError),
    /// Only deposits and withdrawals carry an amount.
    IllegalAmountCheck,
}

/// The type-state builder for `Transaction`: id, type and client id must all
/// be supplied, each exactly once, before `build` becomes available, so no
/// malformed transaction is ever created.
pub struct TransactionBuilder<TID, TTY, CLID> {
    pub transaction_id: TID,
    pub tx_type: TTY,
    pub client_id: CLID,
}

impl<TTY, CLID> TransactionBuilder<NoVal, TTY, CLID> {
    pub fn with_tx_id(self, transaction_id: TransactionID) -> (r: TransactionBuilder<
        TransactionID,
        TTY,
        CLID,
    >)
        ensures
            r == (TransactionBuilder {
                transaction_id,
                tx_type: self.tx_type,
                client_id: self.client_id,
            }),
    {
        TransactionBuilder { transaction_id, tx_type: self.tx_type, client_id: self.client_id }
    }
}

impl<TID, CLID> TransactionBuilder<TID, NoVal, CLID> {
    pub fn with_tx_type(self, tx_type: TransactionType) -> (r: TransactionBuilder<
        TID,
        TransactionType,
        CLID,
    >)
        ensures
            r == (TransactionBuilder {
                transaction_id: self.transaction_id,
                tx_type,
                client_id: self.client_id,
            }),
    {
        TransactionBuilder { transaction_id: self.transaction_id, tx_type, client_id: self.client_id }
    }
}

impl<TID, TTY> TransactionBuilder<TID, TTY, NoVal> {
    pub fn with_client_id(self, client_id: ClientID) -> (r: TransactionBuilder<
        TID,
        TTY,
        ClientID,
    >)
        ensures
            r == (TransactionBuilder {
                transaction_id: self.transaction_id,
                tx_type: self.tx_type,
                client_id,
            }),
    {
        TransactionBuilder { transaction_id: self.transaction_id, tx_type: self.tx_type, client_id }
    }
}

impl TransactionBuilder<TransactionID, TransactionType, ClientID> {
    pub fn build(self) -> (r: Transaction)
        ensures
            r == (Transaction {
                transaction_id: self.transaction_id,
                tx_type: self.tx_type,
                client: self.client_id,
            }),
    {
        Transaction {
            transaction_id: self.transaction_id,
            tx_type: self.tx_type,
            client: self.client_id,
        }
    }
}

impl Default for TransactionBuilder<NoVal, NoVal, NoVal> {
    fn default() -> (r: Self)
        ensures
            r == (TransactionBuilder {
                transaction_id: NoVal {},
                tx_type: NoVal {},
                client_id: NoVal {},
            }),
    {
        TransactionBuilder { transaction_id: NoVal {}, tx_type: NoVal {}, client_id: NoVal {} }
    }
}

} // verus!
