//! Transactions made with a card.

use crate::amount::{lemma_amount_is_its_encoding, Amount};
use crate::card::{Card, CardView};
use vstd::prelude::*;
use vstd::std_specs::cmp::{PartialEqSpec, PartialEqSpecImpl};

verus! {

/// How a transaction is paid.
#[derive(Clone, Copy, Debug, PartialEq, Eq, Structural)]
pub enum PaymentMethod {
    /// Paid from funds at hand.
    Debit,
    /// Paid on credit, the funds arriving later.
    Credit,
}

/// What a transaction holds, over the views of its parts.
pub struct TransactionView {
    /// The encoding of the amount paid.
    pub value: u32,
    /// What the payment is for.
    pub description: Seq<char>,
    /// How it is paid.
    pub method: PaymentMethod,
    /// The card it is paid with.
    pub card: CardView,
}

/// What a transaction made of these four parts holds: each as it is.
pub open spec fn transaction_of(
    value: u32,
    description: Seq<char>,
    method: PaymentMethod,
    card: CardView,
) -> TransactionView {
    TransactionView { value: value, description: description, method: method, card: card }
}

/// A payment of an amount with a card. It owns its card and does not change
/// once made.
#[derive(Debug)]
pub struct Transaction {
    value: Amount,
    description: String,
    method: PaymentMethod,
    card: Card,
}

impl View for Transaction {
    type V = TransactionView;

    closed spec fn view(&self) -> TransactionView {
        TransactionView {
            value: self.value@,
            description: self.description@,
            method: self.method,
            card: self.card@,
        }
    }
}

impl Transaction {
    /// Makes a transaction of its four parts, each kept as given. No amount
    /// is refused.
    pub fn new(value: Amount, description: String, method: PaymentMethod, card: Card) -> (tx:
        Transaction)
        ensures
            tx@ == transaction_of(value@, description@, method, card@),
    {
        Transaction { value, description, method, card }
    }

    /// The amount paid.
    pub fn value(&self) -> (value: Amount)
        ensures
            value@ == self@.value,
    {
        self.value
    }

    /// What the payment is for.
    pub fn description(&self) -> (description: &str)
        ensures
            description@ == self@.description,
    {
        self.description.as_str()
    }

    /// How it is paid.
    pub fn method(&self) -> (method: PaymentMethod)
        ensures
            method == self@.method,
    {
        self.method
    }

    /// The card it is paid with.
    pub fn card(&self) -> (card: &Card)
        ensures
            card@ == self@.card,
    {
        &self.card
    }
}

impl PartialEq for Transaction {
    /// Whether the two transactions hold the same amount, description, method
    /// and card.
    fn eq(&self, other: &Transaction) -> (equal: bool) {
        proof {
            if self.value@ == other.value@ {
                lemma_amount_is_its_encoding(self.value, other.value);
            }
        }
        self.value == other.value && self.description == other.description && self.method
            == other.method && self.card == other.card
    }
}

impl PartialEqSpecImpl for Transaction {
    open spec fn obeys_eq_spec() -> bool {
        true
    }

    open spec fn eq_spec(&self, other: &Transaction) -> bool {
        self@ == other@
    }
}

/// Making a transaction twice of the same four parts gives two transactions
/// that `==` finds equal.
pub proof fn lemma_same_parts_same_transaction(
    first: Transaction,
    second: Transaction,
    value: u32,
    description: Seq<char>,
    method: PaymentMethod,
    card: CardView,
)
    requires
        first@ == transaction_of(value, description, method, card),
        second@ == transaction_of(value, description, method, card),
    ensures
        PartialEqSpec::eq_spec(&first, &second),
{
}

} // verus!
