use vstd::prelude::*;
use crate::time::{now, Timestamp};

verus! {

/// A captured payment: how it was paid, the amount charged (ten-thousandths
/// of the currency unit) and when it was processed.
#[derive(Clone, Copy, Debug, PartialEq, Eq, Structural)]
pub struct Payment {
    pub method: PaymentMethod,
    pub amount: u64,
    pub processed_at: Timestamp,
}

/// The closed set of payment methods.
#[derive(Clone, Copy, Debug, PartialEq, Eq, Structural)]
pub enum PaymentMethod {
    Cash,
    CreditCard,
    DebitCard,
    MobilePay,
}

impl Payment {
    /// Records a payment of `amount` by `method`, stamped with the current time.
    pub fn new(method: PaymentMethod, amount: u64) -> (r: Self)
        ensures
            r.method == method,
            r.amount == amount,
            r.processed_at.wf(),
    {
        Payment { method, amount, processed_at: now() }
    }
}

impl PaymentMethod {
    /// Display label of the method.
    pub open spec fn label(self) -> Seq<char> {
        match self {
            PaymentMethod::Cash => "Cash"@,
            PaymentMethod::CreditCard => "Credit Card"@,
            PaymentMethod::DebitCard => "Debit Card"@,
            PaymentMethod::MobilePay => "Mobile Pay"@,
        }
    }

    /// Icon glyph of the method.
    pub open spec fn glyph(self) -> Seq<char> {
        match self {
            PaymentMethod::Cash => "\u{1F4B5}"@,
            PaymentMethod::CreditCard => "\u{1F4B3}"@,
            PaymentMethod::DebitCard => "\u{1F4B3}"@,
            PaymentMethod::MobilePay => "\u{1F4F1}"@,
        }
    }

    pub fn as_str(&self) -> (r: &str)
        ensures
            r@ == self.label(),
    {
        match self {
            PaymentMethod::Cash => "Cash",
            PaymentMethod::CreditCard => "Credit Card",
            PaymentMethod::DebitCard => "Debit Card",
            PaymentMethod::MobilePay => "Mobile Pay",
        }
    }

    pub fn icon(&self) -> (r: &str)
        ensures
            r@ == self.glyph(),
    {
        match self {
            PaymentMethod::Cash => "\u{1F4B5}",
            PaymentMethod::CreditCard => "\u{1F4B3}",
            PaymentMethod::DebitCard => "\u{1F4B3}",
            PaymentMethod::MobilePay => "\u{1F4F1}",
        }
    }
}

} // verus!
