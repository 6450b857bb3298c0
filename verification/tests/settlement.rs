use chrono::{Datelike, Days, Local, NaiveDate};
use payables::date::MAX_DAY_NUMBER;
use payables::payable::{DEFAULT_FEE_FOR_CREDIT, DEFAULT_FEE_FOR_DEBIT};
use payables::settlement::DEFAULT_DAYS_FOR_CREDIT_PAYABLE;
use payables::{
    make_payable, make_payable_on, Amount, CalendarDate, Card, Payable, PayableStatus,
    PaymentMethod, SettlementError, Transaction,
};

fn card() -> Card {
    Card::new("12345678".to_owned(), "Rafael Dias".to_owned(), "12/30".to_owned(), "123".to_owned())
}

fn transaction(value: f32, method: PaymentMethod) -> Transaction {
    Transaction::new(Amount::from_bits(value.to_bits()), "Test Transaction".to_owned(), method, card())
}

fn date(year: i32, month: u32, day: u32) -> CalendarDate {
    let day_number = NaiveDate::from_ymd_opt(year, month, day).unwrap().num_days_from_ce();
    CalendarDate::from_day_number(day_number).unwrap()
}

fn fee_of(payable: &Payable) -> f32 {
    f32::from_bits(payable.tx().value().to_bits()) * (payable.fee_percent() as f32 / 100.0)
}

#[test]
fn test_make_payable_with_debit() {
    let card =
        Card::new("12345678".to_owned(), "Rafael Dias".to_owned(), "12/30".to_owned(), "123".to_owned());
    let tx = Transaction::new(
        Amount::from_bits(100.0f32.to_bits()),
        "Test Transaction".to_owned(),
        PaymentMethod::Debit,
        card,
    );

    let payable = make_payable(tx).unwrap();
    let today = Local::now().date_naive();

    assert_eq!(payable.status(), PayableStatus::Paid);
    assert_eq!(fee_of(&payable), 3.0);
    assert_eq!(payable.date(), today.to_string());
}

#[test]
fn test_make_payable_with_credit() {
    let card =
        Card::new("12345678".to_owned(), "Rafael Dias".to_owned(), "12/30".to_owned(), "123".to_owned());
    let tx = Transaction::new(
        Amount::from_bits(100.0f32.to_bits()),
        "Test Transaction".to_owned(),
        PaymentMethod::Credit,
        card,
    );

    let payable = make_payable(tx).unwrap();
    let thirty_days_later =
        Local::now().date_naive().checked_add_days(Days::new(DEFAULT_DAYS_FOR_CREDIT_PAYABLE));

    assert_eq!(payable.status(), PayableStatus::WaitingFunds);
    assert_eq!(fee_of(&payable), 5.0);
    assert_eq!(payable.date(), thirty_days_later.unwrap().to_string());
}

#[test]
fn payable_made_by_the_clock_keeps_the_transaction_and_stores_no_fee() {
    let payable = make_payable(transaction(100.0, PaymentMethod::Debit)).unwrap();
    assert_eq!(payable.tx(), &transaction(100.0, PaymentMethod::Debit));
    assert_eq!(payable.fee(), Amount::zero());
    assert_eq!(f32::from_bits(payable.fee().to_bits()), 0.0);
}

#[test]
fn debit_is_paid_on_the_day_it_is_made() {
    let payable = make_payable_on(transaction(100.0, PaymentMethod::Debit), date(2024, 1, 15)).unwrap();
    assert_eq!(payable.status(), PayableStatus::Paid);
    assert_eq!(payable.date(), "2024-01-15");
    assert_eq!(payable.fee(), Amount::zero());
    assert_eq!(payable.tx(), &transaction(100.0, PaymentMethod::Debit));
}

#[test]
fn credit_waits_thirty_days_for_funds() {
    let payable = make_payable_on(transaction(100.0, PaymentMethod::Credit), date(2024, 1, 15)).unwrap();
    assert_eq!(payable.status(), PayableStatus::WaitingFunds);
    assert_eq!(payable.date(), "2024-02-14");
    assert_eq!(payable.fee(), Amount::zero());
    assert_eq!(payable.tx(), &transaction(100.0, PaymentMethod::Credit));
}

#[test]
fn holding_period_is_thirty_days() {
    assert_eq!(DEFAULT_DAYS_FOR_CREDIT_PAYABLE, 30);
    let made = make_payable_on(transaction(1.0, PaymentMethod::Credit), date(2023, 12, 15)).unwrap();
    assert_eq!(made.date(), "2024-01-14");
    let leap = make_payable_on(transaction(1.0, PaymentMethod::Credit), date(2024, 2, 1)).unwrap();
    assert_eq!(leap.date(), "2024-03-02");
    let common = make_payable_on(transaction(1.0, PaymentMethod::Credit), date(2023, 2, 1)).unwrap();
    assert_eq!(common.date(), "2023-03-03");
}

#[test]
fn credit_near_the_latest_date_has_no_payable() {
    let latest = CalendarDate::from_day_number(MAX_DAY_NUMBER).unwrap();
    let made = make_payable_on(transaction(100.0, PaymentMethod::Credit), latest);
    assert_eq!(made.unwrap_err(), SettlementError::DateOutOfRange);
    let too_late = CalendarDate::from_day_number(MAX_DAY_NUMBER - 29).unwrap();
    let made = make_payable_on(transaction(100.0, PaymentMethod::Credit), too_late);
    assert_eq!(made.unwrap_err(), SettlementError::DateOutOfRange);
}

#[test]
fn credit_settles_on_the_latest_date_at_the_last() {
    let day = CalendarDate::from_day_number(MAX_DAY_NUMBER - 30).unwrap();
    let payable = make_payable_on(transaction(100.0, PaymentMethod::Credit), day).unwrap();
    assert_eq!(payable.status(), PayableStatus::WaitingFunds);
    assert_eq!(payable.date(), "+262142-12-31");
}

#[test]
fn debit_on_the_latest_date_is_paid() {
    let latest = CalendarDate::from_day_number(MAX_DAY_NUMBER).unwrap();
    let payable = make_payable_on(transaction(100.0, PaymentMethod::Debit), latest).unwrap();
    assert_eq!(payable.status(), PayableStatus::Paid);
    assert_eq!(payable.date(), "+262142-12-31");
}

#[test]
fn settling_twice_on_one_day_gives_the_same_payable() {
    let first = make_payable_on(transaction(7.5, PaymentMethod::Credit), date(2024, 5, 31)).unwrap();
    let second = make_payable_on(transaction(7.5, PaymentMethod::Credit), date(2024, 5, 31)).unwrap();
    assert_eq!(first.status(), second.status());
    assert_eq!(first.date(), second.date());
    assert_eq!(first.tx(), second.tx());
    assert_eq!(first.fee(), second.fee());
    assert_eq!(first.date(), "2024-06-30");
}

#[test]
fn new_payable_keeps_its_parts_and_stores_no_fee() {
    let payable = Payable::new(
        PayableStatus::WaitingFunds,
        transaction(42.0, PaymentMethod::Debit),
        "any text".to_owned(),
    );
    assert_eq!(payable.status(), PayableStatus::WaitingFunds);
    assert_eq!(payable.tx(), &transaction(42.0, PaymentMethod::Debit));
    assert_eq!(payable.date(), "any text");
    assert_eq!(payable.fee().to_bits(), 0);
    assert_eq!(f32::from_bits(payable.fee().to_bits()), 0.0);
}

#[test]
fn fee_rate_goes_by_the_payment_method() {
    assert_eq!(DEFAULT_FEE_FOR_DEBIT, 3);
    assert_eq!(DEFAULT_FEE_FOR_CREDIT, 5);
    let debit = Payable::new(PayableStatus::Paid, transaction(1.0, PaymentMethod::Debit), "".to_owned());
    let credit = Payable::new(PayableStatus::Paid, transaction(1.0, PaymentMethod::Credit), "".to_owned());
    assert_eq!(debit.fee_percent(), 3);
    assert_eq!(credit.fee_percent(), 5);
}

#[test]
fn fee_rate_does_not_go_by_the_status() {
    let waiting =
        Payable::new(PayableStatus::WaitingFunds, transaction(1.0, PaymentMethod::Debit), "".to_owned());
    let paid = Payable::new(PayableStatus::Paid, transaction(1.0, PaymentMethod::Credit), "".to_owned());
    assert_eq!(waiting.fee_percent(), 3);
    assert_eq!(paid.fee_percent(), 5);
}

#[test]
fn debit_fee_of_one_hundred_is_three() {
    let payable = make_payable_on(transaction(100.0, PaymentMethod::Debit), date(2024, 1, 15)).unwrap();
    assert_eq!(fee_of(&payable), 3.0);
    assert_eq!(fee_of(&payable), 100.0f32 * (3.0f32 / 100.0f32));
}

#[test]
fn credit_fee_of_one_hundred_is_five() {
    let payable = make_payable_on(transaction(100.0, PaymentMethod::Credit), date(2024, 1, 15)).unwrap();
    assert_eq!(fee_of(&payable), 5.0);
    assert_eq!(fee_of(&payable), 100.0f32 * (5.0f32 / 100.0f32));
}
