//! The client account: available/held balances and frozen status, together
//! with the balance invariants of every account operation.

use vstd::prelude::*;

use crate::models::{BalanceType, ClientID, MoneyType, NoVal};

verus! {

/// The current status of the account. `Frozen` is terminal: once an account
/// freezes (through a successful chargeback), every further operation on it
/// fails.
#[derive(Clone, Copy, Debug, PartialEq, Eq, Structural, Default)]
pub enum ClientAccountStatus {
    #[default]
    Active,
    Frozen,
}

/// A client account.
///
/// `held` can never go negative (its type says so). `available` may go
/// negative, but only as the artifact of disputing a deposit whose funds the
/// client has already withdrawn; a withdrawal can never make it negative.
#[derive(Clone, Copy, Debug, PartialEq, Eq, Structural)]
pub struct Client {
    pub client_id: ClientID,
    pub available: BalanceType,
    pub held: MoneyType,
    pub account_status: ClientAccountStatus,
}

impl Client {
    /// The account a client starts with when first referenced: zero
    /// balances, active.
    pub open spec fn spec_initial(client_id: ClientID) -> Client {
        Client { client_id, available: 0, held: 0, account_status: ClientAccountStatus::Active }
    }

    pub open spec fn is_frozen(self) -> bool {
        self.account_status is Frozen
    }

    /// Total funds of the account, frozen or not: `available + held`.
    pub open spec fn spec_total(self) -> int {
        self.available + self.held
    }

    /// What `deposit` returns and does: on an active account the amount is
    /// added to `available`; a frozen account rejects the operation.
    pub open spec fn spec_deposit(self, amount: MoneyType) -> Result<Client, ClientOperationError> {
        if self.is_frozen() {
            Err(ClientOperationError::AccountFrozen)
        } else {
            Ok(Client { available: (self.available + amount) as BalanceType, ..self })
        }
    }

    /// The machine limit under which `deposit` is defined: the new
    /// `available` must fit its type.
    pub open spec fn deposit_fits(self, amount: MoneyType) -> bool {
        !self.is_frozen() ==> self.available + amount <= BalanceType::MAX
    }

    /// What `withdraw` returns and does. The policy is a strict inequality:
    /// withdrawing exactly the full available balance is rejected as well.
    /// This is intentional, not an off-by-one.
    pub open spec fn spec_withdraw(self, amount: MoneyType) -> Result<Client, ClientOperationError> {
        if self.is_frozen() {
            Err(ClientOperationError::AccountFrozen)
        } else if amount >= self.available {
            Err(ClientOperationError::WithdrawError(
                WithdrawFundsError::NotEnoughFunds(self.available, amount),
            ))
        } else {
            Ok(Client { available: (self.available - amount) as BalanceType, ..self })
        }
    }

    /// What `dispute_deposited_funds` returns and does: the amount moves
    /// from `available` to `held`. This is the one place `available` may go
    /// negative: the disputed funds were already spendable and must be
    /// clawed back from whatever the client did with them.
    pub open spec fn spec_dispute_deposited(self, amount: MoneyType) -> Result<
        Client,
        ClientOperationError,
    > {
        if self.is_frozen() {
            Err(ClientOperationError::AccountFrozen)
        } else {
            Ok(
                Client {
                    available: (self.available - amount) as BalanceType,
                    held: (self.held + amount) as MoneyType,
                    ..self
                },
            )
        }
    }

    /// The machine limits under which `dispute_deposited_funds` is defined.
    pub open spec fn dispute_deposited_fits(self, amount: MoneyType) -> bool {
        !self.is_frozen() ==> {
            &&& self.available - amount >= BalanceType::MIN
            &&& self.held + amount <= MoneyType::MAX
        }
    }

    /// What `dispute_withdrawn_funds` returns and does: only `held` grows.
    /// The funds already left `available` when they were withdrawn, so
    /// touching it too would spend them twice.
    pub open spec fn spec_dispute_withdrawn(self, amount: MoneyType) -> Result<
        Client,
        ClientOperationError,
    > {
        if self.is_frozen() {
            Err(ClientOperationError::AccountFrozen)
        } else {
            Ok(Client { held: (self.held + amount) as MoneyType, ..self })
        }
    }

    /// The machine limit under which `dispute_withdrawn_funds` is defined.
    pub open spec fn dispute_withdrawn_fits(self, amount: MoneyType) -> bool {
        !self.is_frozen() ==> self.held + amount <= MoneyType::MAX
    }

    /// What `resolve_funds` returns and does: the disputed amount is
    /// released from `held` back to `available`.
    pub open spec fn spec_resolve(self, amount: MoneyType) -> Result<Client, ClientOperationError> {
        if self.is_frozen() {
            Err(ClientOperationError::AccountFrozen)
        } else if self.held < amount {
            Err(ClientOperationError::ResolveError(
                ResolveError::NotEnoughHeldFunds(self.held, amount),
            ))
        } else {
            Ok(
                Client {
                    held: (self.held - amount) as MoneyType,
                    available: (self.available + amount) as BalanceType,
                    ..self
                },
            )
        }
    }

    /// The machine limit under which `resolve_funds` is defined.
    pub open spec fn resolve_fits(self, amount: MoneyType) -> bool {
        (!self.is_frozen() && self.held >= amount) ==> self.available + amount
            <= BalanceType::MAX
    }

    /// What `chargeback_funds` returns and does: the disputed amount leaves
    /// `held` for good and the account freezes permanently.
    pub open spec fn spec_chargeback(self, amount: MoneyType) -> Result<
        Client,
        ClientOperationError,
    > {
        if self.is_frozen() {
            Err(ClientOperationError::AccountFrozen)
        } else if self.held < amount {
            Err(ClientOperationError::ChargebackError(
                ChargeBackError::NotEnoughHeldFunds(self.held, amount),
            ))
        } else {
            Ok(
                Client {
                    held: (self.held - amount) as MoneyType,
                    account_status: ClientAccountStatus::Frozen,
                    ..self
                },
            )
        }
    }

    pub fn builder() -> (r: ClientBuilder<NoVal>)
        ensures
            r == (ClientBuilder {
                client_id: NoVal {},
                available: 0 as BalanceType,
                held: 0 as MoneyType,
                account_status: ClientAccountStatus::Active,
            }),
    {
        Default::default()
    }

    pub fn client_id(&self) -> (r: ClientID)
        ensures
            r == self.client_id,
    {
        self.client_id
    }

    pub fn available(&self) -> (r: BalanceType)
        ensures
            r == self.available,
    {
        self.available
    }

    pub fn held(&self) -> (r: MoneyType)
        ensures
            r == self.held,
    {
        self.held
    }

    pub fn account_status(&self) -> (r: &ClientAccountStatus)
        ensures
            r == self.account_status,
    {
        &self.account_status
    }

    pub fn total(&self) -> (r: BalanceType)
        requires
            self.spec_total() <= BalanceType::MAX,
        ensures
            r == self.spec_total(),
    {
        let sum: i128 = self.available as i128 + self.held as i128;
        sum as BalanceType
    }

    pub fn deposit(&mut self, amount: MoneyType) -> (r: Result<(), ClientOperationError>)
        requires
            old(self).deposit_fits(amount),
        ensures
            ({
                match old(self).spec_deposit(amount) {
                    Ok(c) => r is Ok && *final(self) == c,
                    Err(e) => r == Err::<(), ClientOperationError>(e) && *final(self) == *old(self),
                }
            }),
    {
        if let ClientAccountStatus::Frozen = self.account_status {
            return Err(ClientOperationError::AccountFrozen);
        }
        let sum: i128 = self.available as i128 + amount as i128;
        self.available = sum as BalanceType;
        Ok(())
    }

    pub fn withdraw(&mut self, amount: MoneyType) -> (r: Result<(), ClientOperationError>)
        ensures
            ({
                match old(self).spec_withdraw(amount) {
                    Ok(c) => r is Ok && *final(self) == c,
                    Err(e) => r == Err::<(), ClientOperationError>(e) && *final(self) == *old(self),
                }
            }),
    {
        if let ClientAccountStatus::Frozen = self.account_status {
            return Err(ClientOperationError::AccountFrozen);
        }
        if amount as i128 >= self.available as i128 {
            return Err(ClientOperationError::WithdrawError(
                WithdrawFundsError::NotEnoughFunds(self.available, amount),
            ));
        }
        self.available = self.available - amount as BalanceType;
        Ok(())
    }

    /// When disputing a deposit, the funds leave `available` (possibly
    /// driving it negative) and move to `held`.
    pub fn dispute_deposited_funds(&mut self, amount: MoneyType) -> (r: Result<
        (),
        ClientOperationError,
    >)
        requires
            old(self).dispute_deposited_fits(amount),
        ensures
            ({
                match old(self).spec_dispute_deposited(amount) {
                    Ok(c) => r is Ok && *final(self) == c,
                    Err(e) => r == Err::<(), ClientOperationError>(e) && *final(self) == *old(self),
                }
            }),
    {
        if let ClientAccountStatus::Frozen = self.account_status {
            return Err(ClientOperationError::AccountFrozen);
        }
        let diff: i128 = self.available as i128 - amount as i128;
        self.available = diff as BalanceType;
        self.held = self.held + amount;
        Ok(())
    }

    /// When disputing a withdrawal, `available` is untouched (the funds
    /// already left it when withdrawn); only `held` grows by the amount now
    /// provisionally reclaimable.
    pub fn dispute_withdrawn_funds(&mut self, amount: MoneyType) -> (r: Result<
        (),
        ClientOperationError,
    >)
        requires
            old(self).dispute_withdrawn_fits(amount),
        ensures
            ({
                match old(self).spec_dispute_withdrawn(amount) {
                    Ok(c) => r is Ok && *final(self) == c,
                    Err(e) => r == Err::<(), ClientOperationError>(e) && *final(self) == *old(self),
                }
            }),
    {
        if let ClientAccountStatus::Frozen = self.account_status {
            return Err(ClientOperationError::AccountFrozen);
        }
        self.held = self.held + amount;
        Ok(())
    }

    /// Charge back a disputed amount: the funds leave `held` for good and
    /// the account freezes permanently.
    pub fn chargeback_funds(&mut self, amount: MoneyType) -> (r: Result<(), ClientOperationError>)
        ensures
            ({
                match old(self).spec_chargeback(amount) {
                    Ok(c) => r is Ok && *final(self) == c,
                    Err(e) => r == Err::<(), ClientOperationError>(e) && *final(self) == *old(self),
                }
            }),
    {
        if let ClientAccountStatus::Frozen = self.account_status {
            return Err(ClientOperationError::AccountFrozen);
        }
        if self.held < amount {
            return Err(ClientOperationError::ChargebackError(
                ChargeBackError::NotEnoughHeldFunds(self.held, amount),
            ));
        }
        self.held = self.held - amount;
        self.account_status = ClientAccountStatus::Frozen;
        Ok(())
    }

    /// Resolve a disputed amount: the funds return from `held` to
    /// `available`.
    pub fn resolve_funds(&mut self, amount: MoneyType) -> (r: Result<(), ClientOperationError>)
        requires
            old(self).resolve_fits(amount),
        ensures
            ({
                match old(self).spec_resolve(amount) {
                    Ok(c) => r is Ok && *final(self) == c,
                    Err(e) => r == Err::<(), ClientOperationError>(e) && *final(self) == *old(self),
                }
            }),
    {
        if let ClientAccountStatus::Frozen = self.account_status {
            return Err(ClientOperationError::AccountFrozen);
        }
        if self.held < amount {
            return Err(ClientOperationError::ResolveError(
                ResolveError::NotEnoughHeldFunds(self.held, amount),
            ));
        }
        self.held = self.held - amount;
        let sum: i128 = self.available as i128 + amount as i128;
        self.available = sum as BalanceType;
        Ok(())
    }
}

/// Law: on an active account, withdrawing an amount equal to or exceeding
/// `available` always fails with the insufficient-funds error and changes
/// nothing, while withdrawing any smaller amount always succeeds and
/// decrements `available` by exactly that amount, leaving `held` and the
/// status alone. (On a frozen account a withdrawal fails with
/// `AccountFrozen` instead: see `lemma_frozen_is_terminal`.)
pub proof fn lemma_withdraw_policy(c: Client, amount: MoneyType)
    requires
        !c.is_frozen(),
    ensures
        amount >= c.available ==> c.spec_withdraw(amount) == Err::<Client, ClientOperationError>(
            ClientOperationError::WithdrawError(
                WithdrawFundsError::NotEnoughFunds(c.available, amount),
            ),
        ),
        amount < c.available ==> (c.spec_withdraw(amount) matches Ok(c2) && c2.available
            == c.available - amount && c2.held == c.held && !c2.is_frozen() && c2.client_id
            == c.client_id),
{
}

/// Law: `Frozen` is terminal. Every operation on a frozen account fails with
/// `AccountFrozen`, and since a failing operation returns the error without
/// touching the account, the balances and the status can never change again.
pub proof fn lemma_frozen_is_terminal(c: Client, amount: MoneyType)
    requires
        c.is_frozen(),
    ensures
        c.spec_deposit(amount) == Err::<Client, ClientOperationError>(
            ClientOperationError::AccountFrozen,
        ),
        c.spec_withdraw(amount) == Err::<Client, ClientOperationError>(
            ClientOperationError::AccountFrozen,
        ),
        c.spec_dispute_deposited(amount) == Err::<Client, ClientOperationError>(
            ClientOperationError::AccountFrozen,
        ),
        c.spec_dispute_withdrawn(amount) == Err::<Client, ClientOperationError>(
            ClientOperationError::AccountFrozen,
        ),
        c.spec_resolve(amount) == Err::<Client, ClientOperationError>(
            ClientOperationError::AccountFrozen,
        ),
        c.spec_chargeback(amount) == Err::<Client, ClientOperationError>(
            ClientOperationError::AccountFrozen,
        ),
{
}

/// Law: disputing a deposited amount and then resolving it restores
/// `available` and `held` to their pre-dispute values exactly; disputing and
/// then charging it back leaves the total reduced by the disputed amount and
/// the account frozen.
pub proof fn lemma_dispute_roundtrip(c: Client, amount: MoneyType)
    requires
        !c.is_frozen(),
        c.dispute_deposited_fits(amount),
    ensures
        c.spec_dispute_deposited(amount) matches Ok(c1) && c1.spec_resolve(amount) matches Ok(c2)
            && c2 == c,
        c.spec_dispute_deposited(amount) matches Ok(c1) && c1.spec_chargeback(amount) matches Ok(
            c2,
        ) && c2.spec_total() == c.spec_total() - amount && c2.is_frozen() && c2.available
            == c1.available && c2.held == c.held,
{
}

/// Deposits have no failure of their own beyond the frozen check; the type
/// is kept as a placeholder so the error wrapper stays uniform.
#[derive(Debug)]
pub struct DepositFundsError {}

#[derive(Debug)]
pub enum WithdrawFundsError {
    /// The account does not have enough funds: it holds the first value
    /// while the second was to be withdrawn.
    NotEnoughFunds(BalanceType, MoneyType),
}

#[derive(Debug)]
pub enum DisputeFundsError {
    /// Not enough funds are available to dispute.
    DisputedFundsNotAvailable(MoneyType, MoneyType),
}

#[derive(Debug)]
pub enum ChargeBackError {
    /// A larger amount is being charged back (second value) than what is
    /// held (first value).
    NotEnoughHeldFunds(MoneyType, MoneyType),
}

#[derive(Debug)]
pub enum ResolveError {
    /// A larger amount is being resolved (second value) than what is held
    /// (first value).
    NotEnoughHeldFunds(MoneyType, MoneyType),
}

/// A wrapper for all client errors, so they can be propagated upwards
/// without the caller knowing each individual one.
#[derive(Debug)]
pub enum ClientOperationError {
    AccountFrozen,
    DepositError(DepositFundsError),
    WithdrawError(WithdrawFundsError),
    DisputeError(DisputeFundsError),
    ChargebackError(ChargeBackError),
    ResolveError(ResolveError),
}

/// The type-state builder for `Client`: the client id must be supplied
/// before `build` becomes available, while balances and status default to a
/// fresh active account.
pub struct ClientBuilder<CLID> {
    pub client_id: CLID,
    pub available: BalanceType,
    pub held: MoneyType,
    pub account_status: ClientAccountStatus,
}

impl<CLID> ClientBuilder<CLID> {
    pub fn with_available(self, available: BalanceType) -> (r: Self)
        ensures
            r == (ClientBuilder { available, ..self }),
    {
        ClientBuilder { available, ..self }
    }

    pub fn with_held(self, held: MoneyType) -> (r: Self)
        ensures
            r == (ClientBuilder { held, ..self }),
    {
        ClientBuilder { held, ..self }
    }

    pub fn with_account_status(self, status: ClientAccountStatus) -> (r: Self)
        ensures
            r == (ClientBuilder { account_status: status, ..self }),
    {
        ClientBuilder { account_status: status, ..self }
    }
}

impl ClientBuilder<NoVal> {
    pub fn with_client_id(self, client_id: ClientID) -> (r: ClientBuilder<ClientID>)
        ensures
            r == (ClientBuilder {
                client_id,
                available: self.available,
                held: self.held,
                account_status: self.account_status,
            }),
    {
        ClientBuilder {
            client_id,
            available: self.available,
            held: self.held,
            account_status: self.account_status,
        }
    }
}

impl ClientBuilder<ClientID> {
    pub fn build(self) -> (r: Client)
        ensures
            r == (Client {
                client_id: self.client_id,
                available: self.available,
                held: self.held,
                account_status: self.account_status,
            }),
    {
        Client {
            client_id: self.client_id,
            available: self.available,
            held: self.held,
            account_status: self.account_status,
        }
    }
}

impl Default for ClientBuilder<NoVal> {
    fn default() -> (r: Self)
        ensures
            r == (ClientBuilder {
                client_id: NoVal {},
                available: 0 as BalanceType,
                held: 0 as MoneyType,
                account_status: ClientAccountStatus::Active,
            }),
    {
        ClientBuilder {
            client_id: NoVal {},
            available: 0,
            held: 0,
            account_status: ClientAccountStatus::Active,
        }
    }
}

} // verus!
