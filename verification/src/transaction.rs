//! Records of the input stream.

use vstd::prelude::*;
use crate::text::{
    bool_text, digits, fixed_text, push_bool, push_digits, push_fixed, push_separator, separator,
};

verus! {

/// What a record asks the ledger to do.
#[derive(Clone, Copy, Debug, PartialEq, Eq, Structural)]
pub enum TxType {
    Deposit,
    Withdrawal,
    Dispute,
    Resolve,
    Chargeback,
    Unknown,
}

impl TxType {
    /// A transfer moves money: it is a deposit or a withdrawal. Transfers are
    /// the only records that the ledger keeps for later reference.
    pub open spec fn is_transfer(self) -> bool {
        self is Deposit || self is Withdrawal
    }
}

/// The type that a keyword of the input names. Keywords are case-sensitive,
/// and every other text names `Unknown`.
pub open spec fn type_of_keyword(keyword: Seq<char>) -> TxType {
    if keyword == "deposit"@ {
        TxType::Deposit
    } else if keyword == "withdrawal"@ {
        TxType::Withdrawal
    } else if keyword == "dispute"@ {
        TxType::Dispute
    } else if keyword == "chargeback"@ {
        TxType::Chargeback
    } else if keyword == "resolve"@ {
        TxType::Resolve
    } else {
        TxType::Unknown
    }
}

/// The mathematical content of a [`Transaction`].
pub struct TransactionView {
    /// The type keyword as it stood in the input.
    pub keyword: Seq<char>,
    /// The client that owns the record.
    pub client_id: u16,
    /// For a transfer, its own identifier; for a record of the dispute
    /// family, the identifier of the transfer that it refers to.
    pub tx_id: u32,
    /// The amount in ten-thousandths of a unit, where the input gave one.
    pub amount: Option<i64>,
    /// Whether a dispute over this transfer is open.
    pub disputed: bool,
}

impl TransactionView {
    /// The type that the keyword names.
    pub open spec fn kind(self) -> TxType {
        type_of_keyword(self.keyword)
    }

    /// The amount, with 0 standing for a missing one.
    pub open spec fn amount_or_zero(self) -> int {
        match self.amount {
            Some(v) => v as int,
            None => 0,
        }
    }

    /// A transfer that may be applied: a deposit or a withdrawal with an
    /// amount that is present and positive.
    pub open spec fn is_valid_transfer(self) -> bool {
        &&& self.kind().is_transfer()
        &&& self.amount matches Some(v)
        &&& v > 0
    }

    /// The record as one row of text: keyword, client, identifier, amount
    /// with four decimal places (0 for a missing one) and dispute flag.
    pub open spec fn row(self) -> Seq<char> {
        self.keyword + separator() + digits(self.client_id as nat) + separator() + digits(
            self.tx_id as nat,
        ) + separator() + fixed_text(self.amount_or_zero()) + separator() + bool_text(
            self.disputed,
        )
    }

    /// The same record with its dispute flag set to `disputed`.
    pub open spec fn with_dispute(self, disputed: bool) -> TransactionView {
        TransactionView { disputed, ..self }
    }
}

/// One record of the input: a type keyword, the owning client, a transaction
/// identifier, an optional amount, and a dispute flag that only processing
/// changes.
#[derive(Debug)]
pub struct Transaction {
    tx_type: String,
    client_id: u16,
    tx_id: u32,
    amount: Option<i64>,
    dispute: bool,
}

impl View for Transaction {
    type V = TransactionView;

    closed spec fn view(&self) -> TransactionView {
        TransactionView {
            keyword: self.tx_type@,
            client_id: self.client_id,
            tx_id: self.tx_id,
            amount: self.amount,
            disputed: self.dispute,
        }
    }
}

impl Clone for Transaction {
    fn clone(&self) -> (copy: Self)
        ensures
            copy@ == self@,
    {
        Transaction {
            tx_type: self.tx_type.clone(),
            client_id: self.client_id,
            tx_id: self.tx_id,
            amount: self.amount,
            dispute: self.dispute,
        }
    }
}

/// Whether two texts hold the same characters.
fn same_text(left: &str, right: &str) -> (same: bool)
    ensures
        same == (left@ == right@),
{
    let a = left.as_bytes();
    let b = right.as_bytes();
    proof {
        // Decoding undoes encoding, so equal bytes mean equal characters.
        vstd::utf8::encode_utf8_decode_utf8(left@);
        vstd::utf8::encode_utf8_decode_utf8(right@);
    }
    if a.len() != b.len() {
        return false;
    }
    let mut i: usize = 0;
    while i < a.len()
        invariant
            i <= a.len(),
            a.len() == b.len(),
            a@ == vstd::utf8::encode_utf8(left@),
            b@ == vstd::utf8::encode_utf8(right@),
            vstd::utf8::decode_utf8(vstd::utf8::encode_utf8(left@)) == left@,
            vstd::utf8::decode_utf8(vstd::utf8::encode_utf8(right@)) == right@,
            forall|j: int| 0 <= j < i ==> a@[j] == b@[j],
        decreases a.len() - i,
    {
        if a[i] != b[i] {
            return false;
        }
        i += 1;
    }
    assert(a@ =~= b@);
    true
}

impl Transaction {
    /// A record as the input gives it: not disputed.
    pub fn new(tx_type: &str, client_id: u16, tx_id: u32, amount: Option<i64>) -> (record: Self)
        ensures
            record@ == (TransactionView {
                keyword: tx_type@,
                client_id,
                tx_id,
                amount,
                disputed: false,
            }),
    {
        Transaction { tx_type: tx_type.to_owned(), client_id, tx_id, amount, dispute: false }
    }

    /// The type that the record's keyword names; `Unknown` for any keyword
    /// that is not one of the five.
    pub fn get_type(&self) -> (kind: TxType)
        ensures
            kind == self@.kind(),
    {
        let keyword = self.tx_type.as_str();
        if same_text(keyword, "deposit") {
            TxType::Deposit
        } else if same_text(keyword, "withdrawal") {
            TxType::Withdrawal
        } else if same_text(keyword, "dispute") {
            TxType::Dispute
        } else if same_text(keyword, "chargeback") {
            TxType::Chargeback
        } else if same_text(keyword, "resolve") {
            TxType::Resolve
        } else {
            TxType::Unknown
        }
    }

    /// The amount in ten-thousandths of a unit, if the record has one.
    pub fn get_amount(&self) -> (amount: &Option<i64>)
        ensures
            *amount == self@.amount,
    {
        &self.amount
    }

    /// Whether a dispute over this record is open.
    pub fn is_disputed(&self) -> (disputed: bool)
        ensures
            disputed == self@.disputed,
    {
        self.dispute
    }

    /// Opens or closes the dispute over this record; nothing else changes.
    pub fn set_dispute(&mut self, dispute: bool)
        ensures
            final(self)@ == old(self)@.with_dispute(dispute),
    {
        self.dispute = dispute;
    }

    /// The client that owns the record.
    pub fn get_client_id(&self) -> (client_id: u16)
        ensures
            client_id == self@.client_id,
    {
        self.client_id
    }

    /// The record's transaction identifier.
    pub fn get_tx_id(&self) -> (tx_id: u32)
        ensures
            tx_id == self@.tx_id,
    {
        self.tx_id
    }

    /// The record as one row of text.
    pub fn to_string(&self) -> (text: String)
        ensures
            text@ == self@.row(),
    {
        let mut text = self.tx_type.clone();
        push_separator(&mut text);
        push_digits(&mut text, self.client_id as u128);
        push_separator(&mut text);
        push_digits(&mut text, self.tx_id as u128);
        push_separator(&mut text);
        let amount: i128 = match self.amount {
            Some(v) => v as i128,
            None => 0,
        };
        push_fixed(&mut text, amount);
        push_separator(&mut text);
        push_bool(&mut text, self.dispute);
        assert(text@ =~= self@.row());
        text
    }

    /// Whether the record is a deposit or a withdrawal with a positive amount.
    pub fn is_valid_transfer(&self) -> (valid: bool)
        ensures
            valid == self@.is_valid_transfer(),
    {
        match self.get_type() {
            TxType::Deposit | TxType::Withdrawal => {
                match self.amount {
                    Some(v) => v > 0,
                    None => false,
                }
            },
            _ => false,
        }
    }
}

} // verus!
