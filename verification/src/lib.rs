//! A single-writer payments ledger.
//!
//! Records (deposits, withdrawals, disputes, resolves, chargebacks) are applied
//! strictly in the order in which they arrive. Every client has one account
//! with an available, a held and a total balance, and a lock flag.
//!
//! Amounts and balances are fixed-point integers with four decimal places:
//! the integer `10_000` stands for `1.0000`.
//!
//! - [`transaction`] and [`account`] hold the records and the balance rules.
//! - [`ledger`] states, over mathematical values, what one record does to the
//!   whole ledger; [`laws`] proves what follows from that.
//! - [`engine`] is the executable ledger, proved to do what [`ledger`] states.
//! - [`text`] writes balances and rows as decimal text.

pub mod error;
pub mod text;
pub mod transaction;
pub mod account;
pub mod ledger;
pub mod engine;
pub mod laws;
