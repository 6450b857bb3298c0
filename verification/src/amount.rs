//! Monetary amounts.

use vstd::prelude::*;

verus! {

/// An amount of money in single precision, carried by its IEEE 754 encoding.
///
/// The library stores and hands on amounts without computing on them, so an
/// amount that is not a number or is negative passes through unchanged. Two
/// amounts are equal when their encodings are.
#[derive(Clone, Copy, Debug, PartialEq, Eq, Structural)]
pub struct Amount {
    bits: u32,
}

impl View for Amount {
    type V = u32;

    /// The 32 bits of the encoding.
    closed spec fn view(&self) -> u32 {
        self.bits
    }
}

impl Amount {
    /// The amount whose encoding is `bits`.
    pub fn from_bits(bits: u32) -> (amount: Amount)
        ensures
            amount@ == bits,
    {
        Amount { bits }
    }

    /// The encoding of this amount.
    pub fn to_bits(&self) -> (bits: u32)
        ensures
            bits == self@,
    {
        self.bits
    }

    /// Positive zero, the fee of a payable whose fee has not been derived.
    pub fn zero() -> (amount: Amount)
        ensures
            amount@ == 0,
    {
        Amount { bits: 0 }
    }
}

/// Amounts with the same encoding are the same amount.
pub proof fn lemma_amount_is_its_encoding(a: Amount, b: Amount)
    requires
        a@ == b@,
    ensures
        a == b,
{
}

} // verus!
