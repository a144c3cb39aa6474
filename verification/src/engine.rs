//! The engine: the store of accounts and transfers, and the processor that
//! applies records to it.

use vstd::prelude::*;
use std::collections::HashMap;
use std::collections::hash_map::Entry;
use vstd::std_specs::iter::IteratorSpec;
use crate::account::{Account, AccountView};
use crate::error::UnknownTransactionError;
use crate::ledger::{heading, LedgerView, CAPACITY};
use crate::transaction::{Transaction, TransactionView, TxType};

verus! {

broadcast use vstd::std_specs::hash::group_hash_axioms;

/// The mathematical contents of a batch of records, in order.
pub open spec fn views_of(entries: Seq<Transaction>) -> Seq<TransactionView> {
    Seq::new(entries.len(), |i: int| entries[i]@)
}

/// The texts of a list of strings, in order.
pub open spec fn texts_of(rows: Seq<String>) -> Seq<Seq<char>> {
    Seq::new(rows.len(), |i: int| rows[i]@)
}

/// The ledger of one run: the transfers kept for later reference, one account
/// per client, and the mode chosen for records of unknown type.
pub struct PaymentEngine {
    transactions: HashMap<u32, Transaction>,
    accounts: HashMap<u16, Account>,
    strict: bool,
    processed: u64,
}

impl View for PaymentEngine {
    type V = LedgerView;

    closed spec fn view(&self) -> LedgerView {
        LedgerView {
            transfers: self.transactions@.map_values(|t: Transaction| t@),
            accounts: self.accounts@.map_values(|a: Account| a@),
            strict: self.strict,
            processed: self.processed as nat,
        }
    }
}

impl PaymentEngine {
    /// The invariant of the engine: that of the ledger it stands for.
    pub open spec fn wf(&self) -> bool {
        self@.wf()
    }

    /// An empty engine that skips records of unknown type.
    pub fn new() -> (engine: Self)
        ensures
            engine.wf(),
            engine@ == LedgerView::empty(false),
    {
        let engine = PaymentEngine {
            transactions: HashMap::new(),
            accounts: HashMap::new(),
            strict: false,
            processed: 0,
        };
        assert(engine@ =~= LedgerView::empty(false));
        engine
    }

    /// An empty engine in the given mode: a strict engine refuses a record of
    /// unknown type, a lenient one skips it.
    pub fn with_strict_parse(strict: bool) -> (engine: Self)
        ensures
            engine.wf(),
            engine@ == LedgerView::empty(strict),
    {
        let engine = PaymentEngine {
            transactions: HashMap::new(),
            accounts: HashMap::new(),
            strict,
            processed: 0,
        };
        assert(engine@ =~= LedgerView::empty(strict));
        engine
    }

    /// Whether the engine refuses records of unknown type.
    pub fn is_strict(&self) -> (strict: bool)
        ensures
            strict == self@.strict,
    {
        self.strict
    }

    /// How many records the engine has consumed.
    pub fn processed(&self) -> (count: u64)
        ensures
            count == self@.processed,
    {
        self.processed
    }

    /// The accounts of all clients that a record has referred to, by client.
    pub fn get_accounts(&self) -> (accounts: &HashMap<u16, Account>)
        ensures
            accounts@.dom() == self@.accounts.dom(),
            forall|c: u16| #[trigger]
                accounts@.contains_key(c) ==> accounts@[c]@ == self@.accounts[c],
    {
        assert(self.accounts@.dom() =~= self@.accounts.dom());
        &self.accounts
    }

    /// The output of a run: the heading, then one row for each client that
    /// has an account. The order of the clients is that in which the map of
    /// accounts hands them out, which nothing fixes.
    pub fn output_accounts(&self) -> (rows: Vec<String>)
        ensures
            exists|order: Seq<u16>| #[trigger]
                self@.lists_clients(order) && texts_of(rows@) == self@.rows_in(order),
    {
        let mut rows: Vec<String> = Vec::new();
        rows.push("client,\tavailable,\theld,\ttotal,\tlocked".to_owned());
        let ghost pairs = self.accounts.iter().remaining();
        for pair in it: self.accounts.iter()
            invariant
                it.seq() == pairs,
                rows.len() == it.index() + 1,
                rows[0]@ == heading(),
                forall|i: int|
                    0 <= i < it.index() ==> (#[trigger] rows[i + 1])@ == (*pairs[i].1)@.row(),
        {
            rows.push(pair.1.to_string());
        }
        proof {
            let order = Seq::new(pairs.len(), |i: int| *pairs[i].0);
            assert forall|i: int, j: int| 0 <= i < j < order.len() implies order[i]
                != order[j] by {
                assert(self.accounts@.contains_key(*pairs[i].0));
                assert(self.accounts@.contains_key(*pairs[j].0));
                assert(pairs[i] != pairs[j]);
            }
            assert forall|c: u16| order.contains(c) <==> self@.accounts.contains_key(c) by {
                if order.contains(c) {
                    let i = choose|i: int| 0 <= i < order.len() && order[i] == c;
                    assert(self.accounts@.contains_key(*pairs[i].0));
                }
                if self@.accounts.contains_key(c) {
                    assert(self.accounts@.contains_key(c));
                    assert(pairs.contains((&c, &self.accounts@[c])));
                    let i = choose|i: int|
                        0 <= i < pairs.len() && pairs[i] == (&c, &self.accounts@[c]);
                    assert(order[i] == c);
                }
            }
            assert(self@.lists_clients(order));
            let expected = self@.rows_in(order);
            assert(texts_of(rows@).len() == expected.len());
            assert forall|k: int| 0 <= k < expected.len() implies texts_of(rows@)[k]
                == expected[k] by {
                if k > 0 {
                    let i = k - 1;
                    assert(self.accounts@.contains_key(*pairs[i].0));
                    assert(*pairs[i].1 == self.accounts@[*pairs[i].0]);
                    assert(rows[i + 1]@ == (*pairs[i].1)@.row());
                    assert(self@.account(order[i]) == (*pairs[i].1)@);
                }
            }
            assert(texts_of(rows@) =~= expected);
        }
        rows
    }

    /// The account of `client_id`, for the caller to change; where the
    /// client has none yet, an empty one is stored first.
    pub fn get_or_create_account(&mut self, client_id: u16) -> (account: &mut Account)
        ensures
            account@ == old(self)@.account(client_id).with_id(client_id),
            old(self).wf() ==> account.wf() && account@ == old(self)@.account(client_id),
            final(self)@ == old(self)@.with_account(client_id, final(account)@),
    {
        let account = Self::account_entry(&mut self.accounts, client_id);
        proof {
            account.lemma_representable();
        }
        account
    }

    /// Stores `transaction` under `tx_id`, in place of any record stored
    /// under that identifier before.
    pub fn record_transfer(&mut self, tx_id: u32, transaction: Transaction)
        ensures
            final(self)@ == old(self)@.with_transfer(tx_id, transaction@),
            old(self).wf() && transaction@.is_valid_transfer() ==> final(self).wf(),
    {
        self.transactions.insert(tx_id, transaction);
        assert(self@ =~= old(self)@.with_transfer(tx_id, transaction@));
    }

    /// The record stored under `tx_id`, for the caller to change, if there
    /// is one.
    pub fn find_transfer(&mut self, tx_id: u32) -> (found: Option<&mut Transaction>)
        ensures
            match found {
                Some(transfer) => {
                    &&& old(self)@.transfers.contains_key(tx_id)
                    &&& transfer@ == old(self)@.transfers[tx_id]
                    &&& final(self)@ == old(self)@.with_transfer(tx_id, final(transfer)@)
                },
                None => {
                    &&& !old(self)@.transfers.contains_key(tx_id)
                    &&& final(self)@ == old(self)@
                },
            },
    {
        Self::transfer_entry(&mut self.transactions, tx_id)
    }

    /// The account stored for `client_id`, made first, empty, where there is
    /// none.
    fn account_entry(accounts: &mut HashMap<u16, Account>, client_id: u16) -> (account:
        &mut Account)
        ensures
            account@ == (if old(accounts)@.contains_key(client_id) {
                old(accounts)@[client_id]@.with_id(client_id)
            } else {
                AccountView::empty(client_id)
            }),
            final(accounts)@ == old(accounts)@.insert(client_id, *final(account)),
    {
        let account = accounts.entry(client_id).or_insert(Account::default());
        account.set_id(client_id);
        account
    }

    /// The transfer stored under `tx_id`, if there is one.
    fn transfer_entry(transactions: &mut HashMap<u32, Transaction>, tx_id: u32) -> (found: Option<
        &mut Transaction,
    >)
        ensures
            match found {
                Some(transfer) => {
                    &&& old(transactions)@.contains_key(tx_id)
                    &&& *transfer == old(transactions)@[tx_id]
                    &&& final(transactions)@ == old(transactions)@.insert(
                        tx_id,
                        *final(transfer),
                    )
                },
                None => {
                    &&& !old(transactions)@.contains_key(tx_id)
                    &&& final(transactions)@ == old(transactions)@
                },
            },
    {
        match transactions.entry(tx_id) {
            Entry::Occupied(found) => Some(found.into_mut()),
            Entry::Vacant(_) => {
                assert(old(transactions)@.remove(tx_id) =~= old(transactions)@);
                None
            },
        }
    }

    /// Applies one record.
    ///
    /// The ledger afterwards is the one that [`LedgerView::step`] gives. The
    /// record is refused, with nothing changed, exactly when its type is
    /// unknown and the engine is strict.
    pub fn process_entry(&mut self, entry: Transaction) -> (result: Result<
        (),
        UnknownTransactionError,
    >)
        requires
            old(self).wf(),
            old(self)@.processed < CAPACITY,
        ensures
            final(self).wf(),
            final(self)@ == old(self)@.step(entry@),
            result is Err <==> old(self)@.rejects(entry@),
    {
        let client_id = entry.get_client_id();
        match entry.get_type() {
            TxType::Deposit | TxType::Withdrawal => {
                let account = Self::account_entry(&mut self.accounts, client_id);
                proof {
                    account.lemma_representable();
                    assert(account@ == old(self)@.account(client_id));
                }
                if entry.is_valid_transfer() && !account.is_locked() {
                    if let Ok(()) = account.process_transfer(&entry) {
                        self.record_transfer(entry.get_tx_id(), entry);
                    }
                }
            },
            TxType::Dispute => {
                let account = Self::account_entry(&mut self.accounts, client_id);
                proof {
                    account.lemma_representable();
                    assert(account@ == old(self)@.account(client_id));
                }
                match Self::transfer_entry(&mut self.transactions, entry.get_tx_id()) {
                    Some(rel_tx) => {
                        proof {
                            assert(old(self)@.transfers.contains_key(entry@.tx_id));
                            assert(rel_tx@ == old(self)@.transfers[entry@.tx_id]);
                            assert(rel_tx@.is_valid_transfer());
                        }
                        if !rel_tx.is_disputed() && client_id == rel_tx.get_client_id() {
                            let settled = account.dispute_transaction(rel_tx);
                            assert(settled is Ok);
                        }
                    },
                    None => {},
                }
            },
            TxType::Resolve => {
                let account = Self::account_entry(&mut self.accounts, client_id);
                proof {
                    account.lemma_representable();
                    assert(account@ == old(self)@.account(client_id));
                }
                match Self::transfer_entry(&mut self.transactions, entry.get_tx_id()) {
                    Some(rel_tx) => {
                        proof {
                            assert(old(self)@.transfers.contains_key(entry@.tx_id));
                            assert(rel_tx@ == old(self)@.transfers[entry@.tx_id]);
                            assert(rel_tx@.is_valid_transfer());
                        }
                        if rel_tx.is_disputed() && client_id == rel_tx.get_client_id() {
                            let settled = account.resolve_transaction(rel_tx);
                            assert(settled is Ok);
                        }
                    },
                    None => {},
                }
            },
            TxType::Chargeback => {
                let account = Self::account_entry(&mut self.accounts, client_id);
                proof {
                    account.lemma_representable();
                    assert(account@ == old(self)@.account(client_id));
                }
                match Self::transfer_entry(&mut self.transactions, entry.get_tx_id()) {
                    Some(rel_tx) => {
                        proof {
                            assert(old(self)@.transfers.contains_key(entry@.tx_id));
                            assert(rel_tx@ == old(self)@.transfers[entry@.tx_id]);
                            assert(rel_tx@.is_valid_transfer());
                        }
                        if rel_tx.is_disputed() && client_id == rel_tx.get_client_id() {
                            let settled = account.chargeback_transaction(rel_tx);
                            assert(settled is Ok);
                        }
                    },
                    None => {},
                }
            },
            TxType::Unknown => {
                if self.strict {
                    return Err(UnknownTransactionError);
                }
            },
        }
        self.processed = self.processed + 1;
        assert(self@ =~= old(self)@.step(entry@));
        Ok(())
    }

    /// Applies a batch of records in order, up to the first one that is
    /// refused.
    ///
    /// The ledger afterwards is the one after the longest prefix of the batch
    /// that holds no refused record. The batch fails exactly when that prefix
    /// is not the whole batch.
    pub fn process_entries(&mut self, entries: Vec<Transaction>) -> (result: Result<
        (),
        UnknownTransactionError,
    >)
        requires
            old(self).wf(),
            old(self)@.processed + entries.len() <= CAPACITY,
        ensures
            final(self).wf(),
            final(self)@ == old(self)@.run(old(self)@.accepted(views_of(entries@))),
            result is Err <==> old(self)@.accepted(views_of(entries@)).len() < entries.len(),
    {
        let ghost batch = entries@;
        let ghost views = views_of(batch);
        let ghost start = self@;
        proof {
            assert(views.take(0) =~= Seq::<TransactionView>::empty());
        }
        for entry in it: entries.into_iter()
            invariant
                self.wf(),
                start.wf(),
                start.processed + views.len() <= CAPACITY,
                start == old(self)@,
                it.seq() == batch,
                views == views_of(batch),
                self@ == start.run(views.take(it.index() as int)),
                self@.strict == start.strict,
                self@.processed == start.processed + it.index(),
                forall|j: int| 0 <= j < it.index() ==> !start.rejects(#[trigger] views[j]),
        {
            let ghost i = it.index() as int;
            let outcome = self.process_entry(entry);
            proof {
                assert(views[i] == entry@);
                start.lemma_run_push(views.take(i), views[i]);
                assert(views.take(i).push(views[i]) =~= views.take(i + 1));
            }
            if outcome.is_err() {
                proof {
                    start.lemma_accepted_prefix(views, i);
                }
                return Err(UnknownTransactionError);
            }
        }
        proof {
            start.lemma_accepted_prefix(views, views.len() as int);
            assert(views.take(views.len() as int) =~= views);
        }
        Ok(())
    }
}

} // verus!
