//! The ledger as a state machine over mathematical values.
//!
//! [`LedgerView`] is what an engine stands for: the transfers kept for later
//! reference, the accounts, the mode, and the number of records consumed.
//! [`LedgerView::step`] is the rule that one record applies to it.

use vstd::prelude::*;
use crate::account::AccountView;
use crate::transaction::{TransactionView, TxType};

verus! {

/// The number of records that one engine takes: as many as its counter can
/// count. No balance can leave the range of its machine integer within that
/// many records.
pub const CAPACITY: u64 = 0xffff_ffff_ffff_ffff;

/// The heading of the output: the names of the columns of a row.
pub open spec fn heading() -> Seq<char> {
    "client,\tavailable,\theld,\ttotal,\tlocked"@
}

/// The mathematical content of an engine.
#[verifier::ext_equal]
pub struct LedgerView {
    /// The deposits and withdrawals that were applied, by the identifier
    /// under which they were stored.
    pub transfers: Map<u32, TransactionView>,
    /// The accounts of all clients that a record has referred to.
    pub accounts: Map<u16, AccountView>,
    /// Whether a record of unknown type stops the run.
    pub strict: bool,
    /// How many records were consumed.
    pub processed: nat,
}

impl LedgerView {
    /// The ledger before any record.
    pub open spec fn empty(strict: bool) -> LedgerView {
        LedgerView { transfers: Map::empty(), accounts: Map::empty(), strict, processed: 0 }
    }

    /// The account of a client: the stored one, or an empty one where no
    /// record has referred to the client yet.
    pub open spec fn account(self, client_id: u16) -> AccountView {
        if self.accounts.contains_key(client_id) {
            self.accounts[client_id]
        } else {
            AccountView::empty(client_id)
        }
    }

    /// The ledger with `account` stored for `client_id`.
    pub open spec fn with_account(self, client_id: u16, account: AccountView) -> LedgerView {
        LedgerView { accounts: self.accounts.insert(client_id, account), ..self }
    }

    /// The ledger with `transfer` stored under `tx_id`, in place of any
    /// earlier record under that identifier.
    pub open spec fn with_transfer(self, tx_id: u32, transfer: TransactionView) -> LedgerView {
        LedgerView { transfers: self.transfers.insert(tx_id, transfer), ..self }
    }

    /// The ledger after one more record was consumed.
    pub open spec fn counted(self) -> LedgerView {
        LedgerView { processed: self.processed + 1, ..self }
    }

    /// The ledger in which the account of `client_id` exists.
    pub open spec fn touch(self, client_id: u16) -> LedgerView {
        self.with_account(client_id, self.account(client_id))
    }

    /// The transfer that a record of the dispute family refers to: the one
    /// stored under the record's identifier, if it belongs to the record's
    /// client.
    pub open spec fn referenced(self, entry: TransactionView) -> Option<TransactionView> {
        if self.transfers.contains_key(entry.tx_id) && self.transfers[entry.tx_id].client_id
            == entry.client_id {
            Some(self.transfers[entry.tx_id])
        } else {
            None
        }
    }

    /// Whether a deposit or withdrawal is applied: its amount is present and
    /// positive, the account is not locked, and a withdrawal is covered.
    pub open spec fn accepts_transfer(self, entry: TransactionView) -> bool {
        &&& entry.is_valid_transfer()
        &&& !self.account(entry.client_id).locked
        &&& (entry.kind() is Withdrawal ==> self.account(entry.client_id).covers(
            entry.amount_or_zero(),
        ))
    }

    /// A deposit or withdrawal: where it is accepted, the account changes
    /// and the record is stored under its identifier; otherwise nothing
    /// changes but that the account exists.
    pub open spec fn apply_transfer(self, entry: TransactionView) -> LedgerView {
        if self.accepts_transfer(entry) {
            self.with_account(
                entry.client_id,
                self.account(entry.client_id).transfer(entry.kind(), entry.amount_or_zero()),
            ).with_transfer(entry.tx_id, entry)
        } else {
            self.touch(entry.client_id)
        }
    }

    /// A dispute: where the referenced transfer exists, belongs to the
    /// client and is not disputed yet, the account holds what the dispute
    /// freezes and the transfer is marked; otherwise nothing changes but that
    /// the account exists.
    pub open spec fn apply_dispute(self, entry: TransactionView) -> LedgerView {
        match self.referenced(entry) {
            Some(transfer) if !transfer.disputed => self.with_account(
                entry.client_id,
                self.account(entry.client_id).dispute(transfer.kind(), transfer.amount_or_zero()),
            ).with_transfer(entry.tx_id, transfer.with_dispute(true)),
            _ => self.touch(entry.client_id),
        }
    }

    /// A resolve: where the referenced transfer exists, belongs to the client
    /// and is disputed, the account gets back what the dispute held and the
    /// mark is cleared; otherwise nothing changes but that the account exists.
    pub open spec fn apply_resolve(self, entry: TransactionView) -> LedgerView {
        match self.referenced(entry) {
            Some(transfer) if transfer.disputed => self.with_account(
                entry.client_id,
                self.account(entry.client_id).resolve(transfer.kind(), transfer.amount_or_zero()),
            ).with_transfer(entry.tx_id, transfer.with_dispute(false)),
            _ => self.touch(entry.client_id),
        }
    }

    /// A chargeback: where the referenced transfer exists, belongs to the
    /// client and is disputed, what the dispute held leaves the account, the
    /// account is locked and the mark is cleared; otherwise nothing changes
    /// but that the account exists.
    pub open spec fn apply_chargeback(self, entry: TransactionView) -> LedgerView {
        match self.referenced(entry) {
            Some(transfer) if transfer.disputed => self.with_account(
                entry.client_id,
                self.account(entry.client_id).chargeback(
                    transfer.kind(),
                    transfer.amount_or_zero(),
                ),
            ).with_transfer(entry.tx_id, transfer.with_dispute(false)),
            _ => self.touch(entry.client_id),
        }
    }

    /// Whether the record stops the run: its type is unknown and the mode is
    /// strict.
    pub open spec fn rejects(self, entry: TransactionView) -> bool {
        self.strict && entry.kind() is Unknown
    }

    /// The ledger after one record. A rejected record changes nothing; every
    /// other record is counted, and a record of unknown type does no more.
    pub open spec fn step(self, entry: TransactionView) -> LedgerView {
        if self.rejects(entry) {
            self
        } else {
            (match entry.kind() {
                TxType::Deposit | TxType::Withdrawal => self.apply_transfer(entry),
                TxType::Dispute => self.apply_dispute(entry),
                TxType::Resolve => self.apply_resolve(entry),
                TxType::Chargeback => self.apply_chargeback(entry),
                TxType::Unknown => self,
            }).counted()
        }
    }

    /// The ledger after a sequence of records, applied in order.
    pub open spec fn run(self, entries: Seq<TransactionView>) -> LedgerView
        decreases entries.len(),
    {
        if entries.len() == 0 {
            self
        } else {
            self.run(entries.drop_last()).step(entries.last())
        }
    }

    /// The longest prefix of `entries` that holds no rejected record.
    pub open spec fn accepted(self, entries: Seq<TransactionView>) -> Seq<TransactionView>
        decreases entries.len(),
    {
        if entries.len() == 0 || self.rejects(entries.first()) {
            Seq::empty()
        } else {
            seq![entries.first()] + self.accepted(entries.drop_first())
        }
    }

    /// Whether `order` names every client that has an account, each once.
    pub open spec fn lists_clients(self, order: Seq<u16>) -> bool {
        &&& order.no_duplicates()
        &&& forall|c: u16| order.contains(c) <==> self.accounts.contains_key(c)
    }

    /// The output for the clients in the given order: the heading, then one
    /// row for each client.
    pub open spec fn rows_in(self, order: Seq<u16>) -> Seq<Seq<char>> {
        seq![heading()] + Seq::new(order.len(), |i: int| self.account(order[i]).row())
    }

    /// Running one more record is one more step.
    pub proof fn lemma_run_push(self, entries: Seq<TransactionView>, entry: TransactionView)
        ensures
            self.run(entries.push(entry)) == self.run(entries).step(entry),
    {
        assert(entries.push(entry).drop_last() =~= entries);
    }

    /// Where the first `n` records are not rejected, and the next one, if
    /// there is one, is, the accepted prefix is those `n` records.
    pub proof fn lemma_accepted_prefix(self, entries: Seq<TransactionView>, n: int)
        requires
            0 <= n <= entries.len(),
            forall|i: int| 0 <= i < n ==> !self.rejects(#[trigger] entries[i]),
            n < entries.len() ==> self.rejects(entries[n]),
        ensures
            self.accepted(entries) == entries.take(n),
        decreases n,
    {
        if n == 0 {
            assert(self.accepted(entries) =~= entries.take(0));
        } else {
            let rest = entries.drop_first();
            assert forall|i: int| 0 <= i < n - 1 implies !self.rejects(#[trigger] rest[i]) by {
                assert(rest[i] == entries[i + 1]);
            }
            self.lemma_accepted_prefix(rest, n - 1);
            assert(seq![entries.first()] + rest.take(n - 1) =~= entries.take(n));
        }
    }

    /// How far from zero a balance can be after the records consumed so far:
    /// one record moves a balance by no more than the largest amount that a
    /// record can carry.
    pub open spec fn reach(self) -> int {
        (self.processed * 0x7fff_ffff_ffff_ffff) as int
    }

    /// The invariant of the ledger.
    ///
    /// Every account is stored under its own client, is balanced, and has
    /// moved no further from zero than the records consumed so far allow.
    /// Every stored record is a valid transfer. No more records were consumed
    /// than the engine takes.
    pub open spec fn wf(self) -> bool {
        &&& self.processed <= CAPACITY
        &&& forall|c: u16| #[trigger]
            self.accounts.contains_key(c) ==> {
                &&& self.accounts[c].client_id == c
                &&& self.accounts[c].balanced()
                &&& -self.reach() <= self.accounts[c].available <= self.reach()
                &&& -self.reach() <= self.accounts[c].held <= self.reach()
                &&& -self.reach() <= self.accounts[c].total <= self.reach()
            }
        &&& forall|t: u32| #[trigger]
            self.transfers.contains_key(t) ==> self.transfers[t].is_valid_transfer()
    }
}

} // verus!
