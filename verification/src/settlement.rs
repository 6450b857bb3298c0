//! From a transaction to its payable: a debit settles today, a credit after
//! the holding period.

use crate::date::{date_text, is_day_number, CalendarDate, MAX_DAY_NUMBER};
use crate::payable::{Payable, PayableStatus, PayableView};
use crate::transaction::{PaymentMethod, Transaction, TransactionView};
use vstd::prelude::*;

verus! {

/// How many days after a credit transaction its funds are there.
pub const DEFAULT_DAYS_FOR_CREDIT_PAYABLE: u64 = 30;

/// Why a transaction has no payable.
#[derive(Clone, Copy, Debug, PartialEq, Eq, Structural)]
pub enum SettlementError {
    /// The day of settlement lies beyond the latest date.
    DateOutOfRange,
}

/// The status in which a transaction paid by `method` settles.
pub open spec fn settlement_status(method: PaymentMethod) -> PayableStatus {
    match method {
        PaymentMethod::Debit => PayableStatus::Paid,
        PaymentMethod::Credit => PayableStatus::WaitingFunds,
    }
}

/// The day number on which a transaction settles that is paid by `method` on
/// day `today`.
pub open spec fn settlement_day(method: PaymentMethod, today: int) -> int {
    match method {
        PaymentMethod::Debit => today,
        PaymentMethod::Credit => today + DEFAULT_DAYS_FOR_CREDIT_PAYABLE,
    }
}

/// The payable of transaction `tx` made on day `today`, where its day of
/// settlement is a date.
pub open spec fn payable_of(tx: TransactionView, today: int) -> PayableView {
    PayableView {
        status: settlement_status(tx.method),
        tx: tx,
        date: date_text(settlement_day(tx.method, today)),
        fee: 0,
    }
}

/// Whether `made` is what settling `tx` on day `today` gives: the payable of
/// `tx`, or the error where the day of settlement lies beyond the latest date.
pub open spec fn settles_as(
    tx: TransactionView,
    today: int,
    made: Result<Payable, SettlementError>,
) -> bool {
    if settlement_day(tx.method, today) <= MAX_DAY_NUMBER {
        made is Ok && made->Ok_0@ == payable_of(tx, today)
    } else {
        made == Err::<Payable, SettlementError>(SettlementError::DateOutOfRange)
    }
}

/// A debit settled on a day is paid, and its date is that day.
pub proof fn lemma_debit_is_paid_today(
    tx: TransactionView,
    today: int,
    made: Result<Payable, SettlementError>,
)
    requires
        is_day_number(today),
        tx.method == PaymentMethod::Debit,
        settles_as(tx, today, made),
    ensures
        made is Ok,
        made->Ok_0@.status == PayableStatus::Paid,
        made->Ok_0@.date == date_text(today),
{
}

/// A credit settled on a day waits for funds, and its date is the day
/// [`DEFAULT_DAYS_FOR_CREDIT_PAYABLE`] days later; where that day lies beyond
/// the latest date, there is no payable.
pub proof fn lemma_credit_waits_for_the_holding_period(
    tx: TransactionView,
    today: int,
    made: Result<Payable, SettlementError>,
)
    requires
        is_day_number(today),
        tx.method == PaymentMethod::Credit,
        settles_as(tx, today, made),
    ensures
        made is Ok <==> today + DEFAULT_DAYS_FOR_CREDIT_PAYABLE <= MAX_DAY_NUMBER,
        made is Ok ==> made->Ok_0@.status == PayableStatus::WaitingFunds,
        made is Ok ==> made->Ok_0@.date == date_text(
            today + DEFAULT_DAYS_FOR_CREDIT_PAYABLE,
        ),
        made is Err ==> made->Err_0 == SettlementError::DateOutOfRange,
{
}

/// Settles a transaction made on the day `today`.
///
/// A debit is paid on that day. A credit waits for funds until
/// [`DEFAULT_DAYS_FOR_CREDIT_PAYABLE`] days later, and has no payable where
/// that day lies beyond the latest date. The stored fee is zero.
pub fn make_payable_on(tx: Transaction, today: CalendarDate) -> (made: Result<
    Payable,
    SettlementError,
>)
    ensures
        settles_as(tx@, today@, made),
{
    proof {
        use_type_invariant(&today);
    }
    match tx.method() {
        PaymentMethod::Debit => Ok(Payable::new(PayableStatus::Paid, tx, today.to_text())),
        PaymentMethod::Credit => {
            match today.checked_add_days(DEFAULT_DAYS_FOR_CREDIT_PAYABLE) {
                Some(due) => Ok(Payable::new(PayableStatus::WaitingFunds, tx, due.to_text())),
                None => Err(SettlementError::DateOutOfRange),
            }
        },
    }
}

/// Settles a transaction made today, by the system clock and in the local
/// time zone.
///
/// Whatever the clock reads, the result is that of [`make_payable_on`] for
/// some date, a debit has a payable, and a payable has the status of the
/// transaction's payment method, the transaction itself and a stored fee of
/// zero.
pub fn make_payable(tx: Transaction) -> (made: Result<Payable, SettlementError>)
    ensures
        exists|today: int| is_day_number(today) && #[trigger] settles_as(tx@, today, made),
        tx@.method == PaymentMethod::Debit ==> made is Ok,
        made is Ok ==> made->Ok_0@.status == settlement_status(tx@.method),
        made is Ok ==> made->Ok_0@.tx == tx@,
        made is Ok ==> made->Ok_0@.fee == 0,
{
    let today = CalendarDate::today();
    make_payable_on(tx, today)
}

} // verus!
