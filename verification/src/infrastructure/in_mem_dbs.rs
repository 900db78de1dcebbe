//! In-memory stores for clients and transactions, each a map keyed by id.
//! Their abstract value is the map they hold.

use std::collections::HashMap;

use vstd::prelude::*;

use crate::models::client::Client;
use crate::models::transactions::Transaction;
use crate::models::{ClientID, TransactionID};

verus! {

/// The in-memory repository that handles the storage of all clients.
///
/// Beside the map itself it keeps the list of stored ids in insertion order,
/// so that the full state can be handed out deterministically.
pub struct ClientInMemRepository {
    stored_clients: HashMap<ClientID, Client>,
    client_ids: Vec<ClientID>,
}

impl View for ClientInMemRepository {
    type V = Map<ClientID, Client>;

    closed spec fn view(&self) -> Map<ClientID, Client> {
        self.stored_clients@
    }
}

impl ClientInMemRepository {
    /// Well-formedness: the id list enumerates the stored keys, each exactly
    /// once, and every stored account is keyed by its own id.
    pub closed spec fn wf(self) -> bool {
        &&& self.client_ids@.no_duplicates()
        &&& forall|k: ClientID|
            #![trigger self.stored_clients@.dom().contains(k)]
            #![trigger self.client_ids@.contains(k)]
            self.stored_clients@.dom().contains(k) <==> self.client_ids@.contains(k)
        &&& forall|k: ClientID| #[trigger]
            self.stored_clients@.dom().contains(k) ==> self.stored_clients@[k].client_id == k
    }

    pub fn new() -> (r: Self)
        ensures
            r@ == Map::<ClientID, Client>::empty(),
            r.wf(),
    {
        ClientInMemRepository { stored_clients: HashMap::new(), client_ids: Vec::new() }
    }

    /// All the clients stored in this repository, each exactly once, in
    /// insertion order.
    pub fn find_all_clients(&self) -> (r: Vec<Client>)
        requires
            self.wf(),
        ensures
            r@.map_values(|c: Client| c.client_id).no_duplicates(),
            r@.map_values(|c: Client| c.client_id).to_set() =~= self@.dom(),
            forall|i: int| 0 <= i < r@.len() ==> #[trigger] r@[i] == self@[r@[i].client_id],
    {
        let ghost ids = self.client_ids@;
        let mut result: Vec<Client> = Vec::new();
        let mut i: usize = 0;
        while i < self.client_ids.len()
            invariant
                self.wf(),
                ids == self.client_ids@,
                i <= ids.len(),
                result@.len() == i,
                forall|j: int| 0 <= j < i ==> #[trigger] result@[j] == self@[ids[j]]
                    && result@[j].client_id == ids[j],
            decreases ids.len() - i,
        {
            let id = self.client_ids[i];
            proof {
                assert(ids.contains(ids[i as int]));
            }
            match self.stored_clients.get(&id) {
                Some(c) => {
                    result.push(*c);
                },
                None => {
                    proof {
                        assert(false);
                    }
                },
            }
            i = i + 1;
        }
        proof {
            let mv = result@.map_values(|c: Client| c.client_id);
            assert(mv =~= ids);
            assert forall|k: ClientID| mv.to_set().contains(k) <==> self@.dom().contains(k) by {
                if self@.dom().contains(k) {
                    assert(ids.contains(k));
                }
                if mv.to_set().contains(k) {
                    assert(ids.contains(k));
                }
            }
            assert(mv.to_set() =~= self@.dom());
        }
        result
    }

    pub fn find_client_by_id(&self, client_id: ClientID) -> (r: Option<Client>)
        ensures
            r == (if self@.contains_key(client_id) {
                Some(self@[client_id])
            } else {
                None::<Client>
            }),
            self.wf() ==> (r matches Some(c) ==> c.client_id == client_id),
    {
        match self.stored_clients.get(&client_id) {
            Some(c) => Some(*c),
            None => None,
        }
    }

    /// Save the changes made to this client. The in-memory store applies
    /// changes in place when they are stored, so there is nothing further to
    /// persist and the state is untouched.
    pub fn save_client(&self, _client: Client) {
    }

    /// Register a client in the repository, overwriting any record stored
    /// under the same id.
    pub fn store_client(&mut self, client: Client) -> (r: Client)
        requires
            old(self).wf(),
        ensures
            final(self).wf(),
            final(self)@ == old(self)@.insert(client.client_id, client),
            r == client,
    {
        let existed = self.stored_clients.contains_key(&client.client_id);
        self.stored_clients.insert(client.client_id, client);
        if !existed {
            let ghost prev = self.client_ids@;
            self.client_ids.push(client.client_id);
            proof {
                let ids2 = self.client_ids@;
                let cid = client.client_id;
                assert(!prev.contains(cid));
                assert(ids2 == prev.push(cid));
                assert forall|a: int, b: int| 0 <= a < b < ids2.len() implies ids2[a] != ids2[b] by {
                    if b < prev.len() {
                        assert(prev[a] != prev[b]);
                    } else {
                        assert(prev.contains(prev[a]));
                    }
                }
                assert forall|k: ClientID| self.stored_clients@.dom().contains(k)
                    <==> ids2.contains(k) by {
                    if self.stored_clients@.dom().contains(k) {
                        if k == cid {
                            assert(ids2[prev.len() as int] == k);
                        } else {
                            assert(prev.contains(k));
                            let j = choose|j: int| 0 <= j < prev.len() && prev[j] == k;
                            assert(ids2[j] == k);
                        }
                    }
                    if ids2.contains(k) {
                        let j = choose|j: int| 0 <= j < ids2.len() && ids2[j] == k;
                        if j < prev.len() {
                            assert(prev[j] == k);
                            assert(prev.contains(k));
                        }
                    }
                }
            }
        }
        client
    }
}

/// The in-memory repository that handles the storage of the amount-bearing
/// transactions, so that later disputes can reference them by id.
pub struct TransactionInMemRepository {
    stored_transactions: HashMap<TransactionID, Transaction>,
}

impl View for TransactionInMemRepository {
    type V = Map<TransactionID, Transaction>;

    closed spec fn view(&self) -> Map<TransactionID, Transaction> {
        self.stored_transactions@
    }
}

impl TransactionInMemRepository {
    pub fn new() -> (r: Self)
        ensures
            r@ == Map::<TransactionID, Transaction>::empty(),
    {
        TransactionInMemRepository { stored_transactions: HashMap::new() }
    }

    pub fn find_tx_by_id(&self, tx_id: TransactionID) -> (r: Option<&Transaction>)
        ensures
            match r {
                Some(t) => self@.contains_key(tx_id) && *t == self@[tx_id],
                None => !self@.contains_key(tx_id),
            },
    {
        self.stored_transactions.get(&tx_id)
    }

    /// Take a stored transaction out for a read-modify-write sequence; the
    /// updated record is put back with `store_tx`.
    pub(crate) fn take_tx_by_id(&mut self, tx_id: TransactionID) -> (r: Option<Transaction>)
        ensures
            final(self)@ == old(self)@.remove(tx_id),
            r == (if old(self)@.contains_key(tx_id) {
                Some(old(self)@[tx_id])
            } else {
                None::<Transaction>
            }),
    {
        self.stored_transactions.remove(&tx_id)
    }

    /// Save the changes made to this stored transaction. The in-memory store
    /// applies changes in place when they are stored, so there is nothing
    /// further to persist and the state is untouched.
    pub fn save_tx(&self, _tx: Transaction) {
    }

    /// Store a transaction in the repository, overwriting any record stored
    /// under the same id.
    pub fn store_tx(&mut self, tx: Transaction)
        ensures
            final(self)@ == old(self)@.insert(tx.transaction_id, tx),
    {
        self.stored_transactions.insert(tx.transaction_id, tx);
    }
}

} // verus!
