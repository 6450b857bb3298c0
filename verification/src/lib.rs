//! Card transactions and the payables they settle into.
//!
//! A [`Transaction`] made with a [`Card`] becomes a [`Payable`]: a debit is
//! paid on the day it is made, a credit waits for funds during a fixed holding
//! period. Every function here carries a contract that Verus proves, but for
//! the three calls into chrono in [`date`], whose contracts are taken on
//! trust.

pub mod amount;
pub mod card;
pub mod date;
pub mod payable;
pub mod settlement;
pub mod transaction;

pub use crate::amount::Amount;
pub use crate::card::{Card, CardView};
pub use crate::date::CalendarDate;
pub use crate::payable::{Payable, PayableStatus, PayableView};
pub use crate::settlement::{make_payable, make_payable_on, SettlementError};
pub use crate::transaction::{PaymentMethod, Transaction, TransactionView};
