//! What holds of the ledger whatever the records are.

use vstd::prelude::*;
use crate::ledger::{LedgerView, CAPACITY};
use crate::account::AccountView;
use crate::transaction::{TransactionView, TxType};

verus! {

/// Every rule of an account keeps it balanced: after a transfer, a dispute,
/// a resolve or a chargeback the total is still what is available plus what
/// is held.
pub proof fn account_rules_keep_balance(account: AccountView, kind: TxType, amount: int)
    requires
        account.balanced(),
    ensures
        account.transfer(kind, amount).balanced(),
        account.dispute(kind, amount).balanced(),
        account.resolve(kind, amount).balanced(),
        account.chargeback(kind, amount).balanced(),
{
}

/// A resolve undoes a dispute over the same transfer: the account is exactly
/// what it was before the dispute.
pub proof fn resolve_undoes_dispute(account: AccountView, kind: TxType, amount: int)
    ensures
        account.dispute(kind, amount).resolve(kind, amount) == account,
{
}

/// One record keeps the invariant of the ledger. In particular every account
/// is balanced after the record as it was before: its total is what is
/// available plus what is held.
pub proof fn step_keeps_invariant(state: LedgerView, entry: TransactionView)
    requires
        state.wf(),
        state.processed < CAPACITY,
    ensures
        state.step(entry).wf(),
        forall|c: u16| (#[trigger] state.step(entry).account(c)).balanced(),
{
    let next = state.step(entry);
    assert forall|c: u16| (#[trigger] next.account(c)).balanced() by {
        if next.accounts.contains_key(c) {
        }
    }
}

/// The invariant holds after every record of a run, not only at its end:
/// whatever prefix of the records has been applied, every account is
/// balanced.
pub proof fn run_keeps_invariant(state: LedgerView, entries: Seq<TransactionView>, n: int)
    requires
        state.wf(),
        state.processed + entries.len() <= CAPACITY,
        0 <= n <= entries.len(),
    ensures
        state.run(entries.take(n)).wf(),
        state.run(entries.take(n)).processed <= state.processed + n,
        forall|c: u16| (#[trigger] state.run(entries.take(n)).account(c)).balanced(),
    decreases n,
{
    let prefix = entries.take(n);
    if n == 0 {
        assert(state.run(prefix) == state);
        assert forall|c: u16| (#[trigger] state.account(c)).balanced() by {
            if state.accounts.contains_key(c) {
            }
        }
    } else {
        run_keeps_invariant(state, entries, n - 1);
        assert(prefix.drop_last() =~= entries.take(n - 1));
        step_keeps_invariant(state.run(entries.take(n - 1)), prefix.last());
    }
}

/// An accepted deposit, then a dispute over it, then a resolve of that
/// dispute leave every account and every stored record exactly as they were
/// after the deposit; only the count of records has grown by two.
pub proof fn dispute_then_resolve_restores(
    state: LedgerView,
    deposit: TransactionView,
    dispute: TransactionView,
    resolve: TransactionView,
)
    requires
        deposit.kind() is Deposit,
        !deposit.disputed,
        state.accepts_transfer(deposit),
        dispute.kind() is Dispute,
        resolve.kind() is Resolve,
        dispute.client_id == deposit.client_id && dispute.tx_id == deposit.tx_id,
        resolve.client_id == deposit.client_id && resolve.tx_id == deposit.tx_id,
    ensures
        ({
            let before = state.step(deposit);
            let after = before.step(dispute).step(resolve);
            &&& after.account(deposit.client_id).available == before.account(
                deposit.client_id,
            ).available
            &&& after.account(deposit.client_id).held == before.account(deposit.client_id).held
            &&& after.accounts == before.accounts
            &&& after.transfers == before.transfers
            &&& after.processed == before.processed + 2
        }),
{
    let before = state.step(deposit);
    let disputed = before.step(dispute);
    let after = disputed.step(resolve);
    assert(before.referenced(dispute) == Some(deposit));
    assert(disputed.referenced(resolve) == Some(deposit.with_dispute(true)));
    assert(after.accounts =~= before.accounts);
    assert(after.transfers =~= before.transfers);
}

/// A withdrawal of more than is available is not applied: the account keeps
/// its balances and its lock, and nothing is stored under the record's
/// identifier that was not there before.
pub proof fn overdraft_is_rejected(state: LedgerView, withdrawal: TransactionView)
    requires
        withdrawal.kind() is Withdrawal,
        withdrawal.amount_or_zero() > state.account(withdrawal.client_id).available,
    ensures
        state.step(withdrawal).account(withdrawal.client_id) == state.account(
            withdrawal.client_id,
        ),
        state.step(withdrawal).transfers == state.transfers,
{
}

/// A chargeback that is applied locks the account of its client.
pub proof fn applied_chargeback_locks(state: LedgerView, chargeback: TransactionView)
    requires
        state.wf(),
        chargeback.kind() is Chargeback,
        state.referenced(chargeback) matches Some(transfer) && transfer.disputed,
    ensures
        state.step(chargeback).account(chargeback.client_id).locked,
{
}

/// Only a chargeback locks: a record of any other type leaves the lock of
/// every account as it was, and a chargeback leaves the lock of every account
/// but that of its own client as it was.
pub proof fn only_chargeback_locks(state: LedgerView, entry: TransactionView, client_id: u16)
    requires
        !(entry.kind() is Chargeback) || client_id != entry.client_id,
    ensures
        state.step(entry).account(client_id).locked == state.account(client_id).locked,
{
}

/// A lock is for good: no record unlocks an account.
pub proof fn lock_is_permanent(state: LedgerView, entry: TransactionView, client_id: u16)
    requires
        state.account(client_id).locked,
    ensures
        state.step(entry).account(client_id).locked,
{
}

/// A deposit or a withdrawal for a locked account changes neither the
/// account nor the stored records.
pub proof fn locked_account_refuses_transfers(state: LedgerView, entry: TransactionView)
    requires
        entry.kind().is_transfer(),
        state.account(entry.client_id).locked,
    ensures
        state.step(entry).account(entry.client_id) == state.account(entry.client_id),
        state.step(entry).transfers == state.transfers,
{
}

/// Records of the dispute family do not look at the lock: on a locked
/// account they move the balances by the same rules as on any other.
pub proof fn locked_account_still_settles(state: LedgerView, entry: TransactionView)
    requires
        state.account(entry.client_id).locked,
        state.referenced(entry) is Some,
    ensures
        ({
            let transfer = state.referenced(entry)->0;
            let account = state.account(entry.client_id);
            let kind = transfer.kind();
            let amount = transfer.amount_or_zero();
            &&& entry.kind() is Dispute && !transfer.disputed ==> state.step(entry).account(
                entry.client_id,
            ) == account.dispute(kind, amount)
            &&& entry.kind() is Resolve && transfer.disputed ==> state.step(entry).account(
                entry.client_id,
            ) == account.resolve(kind, amount)
            &&& entry.kind() is Chargeback && transfer.disputed ==> state.step(entry).account(
                entry.client_id,
            ) == account.chargeback(kind, amount)
        }),
{
}

/// A dispute over an identifier under which no transfer is stored, or whose
/// transfer belongs to another client, changes no account and no stored
/// record.
pub proof fn unfounded_dispute_changes_nothing(
    state: LedgerView,
    dispute: TransactionView,
    client_id: u16,
)
    requires
        dispute.kind() is Dispute,
        state.referenced(dispute) is None,
    ensures
        state.step(dispute).account(client_id) == state.account(client_id),
        state.step(dispute).transfers == state.transfers,
{
}

} // verus!
