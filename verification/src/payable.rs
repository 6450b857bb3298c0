//! Payables: what a transaction settles into.

use crate::amount::Amount;
use crate::transaction::{PaymentMethod, Transaction, TransactionView};
use vstd::prelude::*;

verus! {

/// The fee on a debit, in percent of the amount paid.
pub const DEFAULT_FEE_FOR_DEBIT: u32 = 3;

/// The fee on a credit, in percent of the amount paid.
pub const DEFAULT_FEE_FOR_CREDIT: u32 = 5;

/// The fee rate of a payment method, in percent of the amount paid.
pub open spec fn fee_percent_of(method: PaymentMethod) -> u32 {
    match method {
        PaymentMethod::Debit => DEFAULT_FEE_FOR_DEBIT,
        PaymentMethod::Credit => DEFAULT_FEE_FOR_CREDIT,
    }
}

/// Whether the funds of a payable are there.
#[derive(Clone, Copy, Debug, PartialEq, Eq, Structural)]
pub enum PayableStatus {
    /// The funds are there.
    Paid,
    /// The funds are still to come.
    WaitingFunds,
}

/// What a payable holds, over the views of its parts.
pub struct PayableView {
    /// Whether the funds are there.
    pub status: PayableStatus,
    /// The transaction that is settled.
    pub tx: TransactionView,
    /// The day of settlement, as text.
    pub date: Seq<char>,
    /// The encoding of the stored fee.
    pub fee: u32,
}

/// The settlement of a transaction: its status, the day on which the funds
/// are there, and a stored fee. The stored fee is zero: a caller derives the
/// fee from [`Payable::fee_percent`] and the amount paid.
#[derive(Debug)]
pub struct Payable {
    status: PayableStatus,
    tx: Transaction,
    date: String,
    fee: Amount,
}

impl View for Payable {
    type V = PayableView;

    closed spec fn view(&self) -> PayableView {
        PayableView { status: self.status, tx: self.tx@, date: self.date@, fee: self.fee@ }
    }
}

impl Payable {
    /// Every payable stores a fee of zero: the fee is derived from the rate
    /// and the amount paid, and never written back.
    #[verifier::type_invariant]
    pub open spec fn fee_not_stored(self) -> bool {
        self@.fee == 0
    }

    /// Makes a payable of a status, a transaction and a date, each kept as
    /// given, with a stored fee of zero.
    pub fn new(status: PayableStatus, tx: Transaction, date: String) -> (payable: Payable)
        ensures
            payable@ == (PayableView { status: status, tx: tx@, date: date@, fee: 0 }),
    {
        Payable { status, tx, date, fee: Amount::zero() }
    }

    /// The fee rate that applies to this payable, in percent of the amount
    /// paid: the rate of its transaction's payment method.
    pub fn fee_percent(&self) -> (percent: u32)
        ensures
            percent == fee_percent_of(self@.tx.method),
    {
        match self.tx.method() {
            PaymentMethod::Debit => DEFAULT_FEE_FOR_DEBIT,
            PaymentMethod::Credit => DEFAULT_FEE_FOR_CREDIT,
        }
    }

    /// Whether the funds are there.
    pub fn status(&self) -> (status: PayableStatus)
        ensures
            status == self@.status,
    {
        self.status
    }

    /// The transaction that is settled.
    pub fn tx(&self) -> (tx: &Transaction)
        ensures
            tx@ == self@.tx,
    {
        &self.tx
    }

    /// The day of settlement, as text.
    pub fn date(&self) -> (date: &str)
        ensures
            date@ == self@.date,
    {
        self.date.as_str()
    }

    /// The stored fee, which is zero.
    pub fn fee(&self) -> (fee: Amount)
        ensures
            fee@ == self@.fee,
            fee@ == 0,
    {
        proof {
            use_type_invariant(self);
        }
        self.fee
    }
}

} // verus!
