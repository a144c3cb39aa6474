//! Client accounts and the balance rules of the ledger.

use vstd::prelude::*;
use crate::error::{InsufficientFundsError, NonActionableTransactionError};
use crate::text::{
    bool_text, digits, fixed_text, push_bool, push_digits, push_fixed, push_separator, separator,
};
use crate::transaction::{Transaction, TxType};

verus! {

/// The signed amount that an open dispute over a transfer keeps in `held`
/// and out of `available`.
///
/// A disputed deposit freezes its amount. A disputed withdrawal is treated as
/// money that should not have left: its amount goes back to `available` and is
/// taken out of `held`. This is the one place that fixes that policy; disputes,
/// resolves and chargebacks are all stated over it.
pub open spec fn dispute_hold(kind: TxType, amount: int) -> int {
    match kind {
        TxType::Deposit => amount,
        TxType::Withdrawal => -amount,
        _ => 0,
    }
}

/// The mathematical content of an [`Account`]: balances are unbounded
/// integers in ten-thousandths of a unit.
pub struct AccountView {
    /// The client that owns the account.
    pub client_id: u16,
    /// Funds that the client can withdraw now.
    pub available: int,
    /// Funds frozen while a dispute is open.
    pub held: int,
    /// Available and held funds together.
    pub total: int,
    /// Whether a chargeback has locked the account.
    pub locked: bool,
}

impl AccountView {
    /// The account of a client that no record has touched yet.
    pub open spec fn empty(client_id: u16) -> AccountView {
        AccountView { client_id, available: 0, held: 0, total: 0, locked: false }
    }

    /// The invariant of every account: the total is what is available plus
    /// what is held.
    pub open spec fn balanced(self) -> bool {
        self.total == self.available + self.held
    }

    /// Each of the three balances fits the machine integer that stores it.
    pub open spec fn representable(self) -> bool {
        &&& i128::MIN <= self.available <= i128::MAX
        &&& i128::MIN <= self.held <= i128::MAX
        &&& i128::MIN <= self.total <= i128::MAX
    }

    /// A balanced account whose balances can be stored.
    pub open spec fn wf(self) -> bool {
        self.balanced() && self.representable()
    }

    /// The account as one row of the output: client, available, held, total
    /// and lock, the balances with four decimal places.
    pub open spec fn row(self) -> Seq<char> {
        digits(self.client_id as nat) + separator() + fixed_text(self.available) + separator()
            + fixed_text(self.held) + separator() + fixed_text(self.total) + separator()
            + bool_text(self.locked)
    }

    /// The same account under another client identifier.
    pub open spec fn with_id(self, client_id: u16) -> AccountView {
        AccountView { client_id, ..self }
    }

    /// Whether a withdrawal of `amount` is covered by the available funds.
    pub open spec fn covers(self, amount: int) -> bool {
        self.available >= amount
    }

    /// The account after a deposit of `amount`.
    pub open spec fn deposit(self, amount: int) -> AccountView {
        AccountView {
            available: self.available + amount,
            total: self.total + amount,
            ..self
        }
    }

    /// The account after a withdrawal of `amount`; unchanged where the
    /// available funds do not cover it.
    pub open spec fn withdraw(self, amount: int) -> AccountView {
        if self.covers(amount) {
            AccountView {
                available: self.available - amount,
                total: self.total - amount,
                ..self
            }
        } else {
            self
        }
    }

    /// The account after a transfer of the given kind; unchanged for a kind
    /// that is no transfer.
    pub open spec fn transfer(self, kind: TxType, amount: int) -> AccountView {
        match kind {
            TxType::Deposit => self.deposit(amount),
            TxType::Withdrawal => self.withdraw(amount),
            _ => self,
        }
    }

    /// The account after a dispute is opened over a transfer of the given
    /// kind and amount: what the dispute holds moves from `available` to
    /// `held`.
    pub open spec fn dispute(self, kind: TxType, amount: int) -> AccountView {
        AccountView {
            available: self.available - dispute_hold(kind, amount),
            held: self.held + dispute_hold(kind, amount),
            ..self
        }
    }

    /// The account after a dispute is resolved: what the dispute held moves
    /// back from `held` to `available`.
    pub open spec fn resolve(self, kind: TxType, amount: int) -> AccountView {
        AccountView {
            available: self.available + dispute_hold(kind, amount),
            held: self.held - dispute_hold(kind, amount),
            ..self
        }
    }

    /// The account after a chargeback over a transfer: what the dispute held
    /// leaves the account, and the account is locked. Unchanged for a kind
    /// that is no transfer.
    pub open spec fn chargeback(self, kind: TxType, amount: int) -> AccountView {
        if kind.is_transfer() {
            AccountView {
                held: self.held - dispute_hold(kind, amount),
                total: self.total - dispute_hold(kind, amount),
                locked: true,
                ..self
            }
        } else {
            self
        }
    }
}

/// The balances of one client, in ten-thousandths of a unit.
#[derive(Clone, Copy, Debug)]
pub struct Account {
    client_id: u16,
    available: i128,
    held: i128,
    total: i128,
    locked: bool,
}

impl View for Account {
    type V = AccountView;

    closed spec fn view(&self) -> AccountView {
        AccountView {
            client_id: self.client_id,
            available: self.available as int,
            held: self.held as int,
            total: self.total as int,
            locked: self.locked,
        }
    }
}

impl Default for Account {
    /// An account with all balances zero, not locked, for client 0.
    fn default() -> (account: Self)
        ensures
            account@ == AccountView::empty(0),
            account.wf(),
    {
        Account { client_id: 0, available: 0, held: 0, total: 0, locked: false }
    }
}

impl Account {
    /// The account is balanced. (That its balances can be stored holds of
    /// every value of this type.)
    pub open spec fn wf(&self) -> bool {
        self@.wf()
    }

    /// The balances of a stored account always fit their machine integers.
    pub proof fn lemma_representable(&self)
        ensures
            self@.representable(),
    {
    }

    /// Whether a chargeback has locked the account.
    pub fn is_locked(&self) -> (locked: bool)
        ensures
            locked == self@.locked,
    {
        self.locked
    }

    /// Names the client that owns the account; nothing else changes.
    pub fn set_id(&mut self, client_id: u16)
        ensures
            final(self)@ == old(self)@.with_id(client_id),
    {
        self.client_id = client_id;
    }

    /// The client that owns the account.
    pub fn get_client_id(&self) -> (client_id: u16)
        ensures
            client_id == self@.client_id,
    {
        self.client_id
    }

    /// The funds that the client can withdraw now.
    pub fn get_available(&self) -> (available: i128)
        ensures
            available == self@.available,
    {
        self.available
    }

    /// The funds frozen by open disputes.
    pub fn get_held(&self) -> (held: i128)
        ensures
            held == self@.held,
    {
        self.held
    }

    /// Available and held funds together.
    pub fn get_total(&self) -> (total: i128)
        ensures
            total == self@.total,
    {
        self.total
    }

    /// The account as one row of the output.
    pub fn to_string(&self) -> (text: String)
        ensures
            text@ == self@.row(),
    {
        let mut text = String::new();
        push_digits(&mut text, self.client_id as u128);
        push_separator(&mut text);
        push_fixed(&mut text, self.available);
        push_separator(&mut text);
        push_fixed(&mut text, self.held);
        push_separator(&mut text);
        push_fixed(&mut text, self.total);
        push_separator(&mut text);
        push_bool(&mut text, self.locked);
        assert(text@ =~= self@.row());
        text
    }

    /// Applies a deposit or a withdrawal.
    ///
    /// A deposit always succeeds. A withdrawal succeeds exactly when the
    /// available funds cover it; otherwise the account stays as it was and
    /// the error says so. The record must be a transfer, and the new balances
    /// must fit their machine integers.
    pub fn process_transfer(&mut self, transaction: &Transaction) -> (result: Result<
        (),
        InsufficientFundsError,
    >)
        requires
            old(self).wf(),
            transaction@.kind().is_transfer(),
            old(self)@.transfer(
                transaction@.kind(),
                transaction@.amount_or_zero(),
            ).representable(),
        ensures
            final(self).wf(),
            final(self)@ == old(self)@.transfer(
                transaction@.kind(),
                transaction@.amount_or_zero(),
            ),
            result is Err <==> transaction@.kind() is Withdrawal && !old(self)@.covers(
                transaction@.amount_or_zero(),
            ),
    {
        let amount: i128 = match *transaction.get_amount() {
            Some(v) => v as i128,
            None => 0,
        };
        match transaction.get_type() {
            TxType::Deposit => {
                self.available = self.available + amount;
                self.total = self.total + amount;
                Ok(())
            },
            _ => {
                if self.available >= amount {
                    self.available = self.available - amount;
                    self.total = self.total - amount;
                    Ok(())
                } else {
                    Err(InsufficientFundsError)
                }
            },
        }
    }

    /// Opens a dispute over a transfer: marks the record as disputed and
    /// moves what the dispute holds from `available` to `held`.
    ///
    /// Fails, with nothing changed, exactly when the record is no transfer.
    pub fn dispute_transaction(&mut self, transaction: &mut Transaction) -> (result: Result<
        (),
        NonActionableTransactionError,
    >)
        requires
            old(self).wf(),
            old(self)@.dispute(
                old(transaction)@.kind(),
                old(transaction)@.amount_or_zero(),
            ).representable(),
        ensures
            final(self).wf(),
            result is Err <==> !old(transaction)@.kind().is_transfer(),
            result is Ok ==> final(self)@ == old(self)@.dispute(
                old(transaction)@.kind(),
                old(transaction)@.amount_or_zero(),
            ) && final(transaction)@ == old(transaction)@.with_dispute(true),
            result is Err ==> final(self)@ == old(self)@ && final(transaction)@ == old(
                transaction,
            )@,
    {
        let amount: i128 = match *transaction.get_amount() {
            Some(v) => v as i128,
            None => 0,
        };
        match transaction.get_type() {
            TxType::Deposit => {
                transaction.set_dispute(true);
                self.held = self.held + amount;
                self.available = self.available - amount;
                Ok(())
            },
            TxType::Withdrawal => {
                transaction.set_dispute(true);
                self.held = self.held - amount;
                self.available = self.available + amount;
                Ok(())
            },
            _ => Err(NonActionableTransactionError),
        }
    }

    /// Resolves a dispute over a transfer: clears the record's dispute flag
    /// and moves what the dispute held back from `held` to `available`.
    ///
    /// Fails, with nothing changed, exactly when the record is no transfer.
    pub fn resolve_transaction(&mut self, transaction: &mut Transaction) -> (result: Result<
        (),
        NonActionableTransactionError,
    >)
        requires
            old(self).wf(),
            old(self)@.resolve(
                old(transaction)@.kind(),
                old(transaction)@.amount_or_zero(),
            ).representable(),
        ensures
            final(self).wf(),
            result is Err <==> !old(transaction)@.kind().is_transfer(),
            result is Ok ==> final(self)@ == old(self)@.resolve(
                old(transaction)@.kind(),
                old(transaction)@.amount_or_zero(),
            ) && final(transaction)@ == old(transaction)@.with_dispute(false),
            result is Err ==> final(self)@ == old(self)@ && final(transaction)@ == old(
                transaction,
            )@,
    {
        let amount: i128 = match *transaction.get_amount() {
            Some(v) => v as i128,
            None => 0,
        };
        match transaction.get_type() {
            TxType::Deposit => {
                transaction.set_dispute(false);
                self.held = self.held - amount;
                self.available = self.available + amount;
                Ok(())
            },
            TxType::Withdrawal => {
                transaction.set_dispute(false);
                self.held = self.held + amount;
                self.available = self.available - amount;
                Ok(())
            },
            _ => Err(NonActionableTransactionError),
        }
    }

    /// Reverses a disputed transfer for good: clears the record's dispute
    /// flag, takes what the dispute held out of the account, and locks the
    /// account.
    ///
    /// Fails, with nothing changed, exactly when the record is no transfer.
    pub fn chargeback_transaction(&mut self, transaction: &mut Transaction) -> (result: Result<
        (),
        NonActionableTransactionError,
    >)
        requires
            old(self).wf(),
            old(self)@.chargeback(
                old(transaction)@.kind(),
                old(transaction)@.amount_or_zero(),
            ).representable(),
        ensures
            final(self).wf(),
            result is Err <==> !old(transaction)@.kind().is_transfer(),
            result is Ok ==> final(self)@ == old(self)@.chargeback(
                old(transaction)@.kind(),
                old(transaction)@.amount_or_zero(),
            ) && final(transaction)@ == old(transaction)@.with_dispute(false),
            result is Err ==> final(self)@ == old(self)@ && final(transaction)@ == old(
                transaction,
            )@,
    {
        let amount: i128 = match *transaction.get_amount() {
            Some(v) => v as i128,
            None => 0,
        };
        match transaction.get_type() {
            TxType::Deposit => {
                transaction.set_dispute(false);
                self.locked = true;
                self.held = self.held - amount;
                self.total = self.total - amount;
                Ok(())
            },
            TxType::Withdrawal => {
                transaction.set_dispute(false);
                self.locked = true;
                self.held = self.held + amount;
                self.total = self.total + amount;
                Ok(())
            },
            _ => Err(NonActionableTransactionError),
        }
    }
}

} // verus!
