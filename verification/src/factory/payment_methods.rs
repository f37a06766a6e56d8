//! Payment methods: each factory makes one method.
//!
//! Amounts are fixed-point: a `u64` counts cents. They are written as
//! briefly as their value allows, `10000` as `100`.
use crate::text::{compact2, compact2_text};
use vstd::prelude::*;
use vstd::string::StringExecFns;

verus! {

/// A method of payment.
pub trait PaymentMethod {
    /// The line that processing `amount` cents gives.
    spec fn payment_line(&self, amount: u64) -> Seq<char>;

    /// Processes a payment of `amount` cents and returns the line that says so.
    fn process_payment(&self, amount: u64) -> (line: String)
        ensures
            line@ == self.payment_line(amount),
    ;
}

/// Payment by credit card.
#[derive(Debug)]
pub struct CreditCardPayment;

impl PaymentMethod for CreditCardPayment {
    open spec fn payment_line(&self, amount: u64) -> Seq<char> {
        "Processing credit card payment for amount: "@ + compact2(amount as nat)
    }

    fn process_payment(&self, amount: u64) -> (line: String) {
        let mut line = String::from_str("Processing credit card payment for amount: ");
        line.append(compact2_text(amount as u128).as_str());
        line
    }
}

/// Payment by Paypal.
#[derive(Debug)]
pub struct PaypalPayment;

impl PaymentMethod for PaypalPayment {
    open spec fn payment_line(&self, amount: u64) -> Seq<char> {
        "Processing Paypal payment for amount: "@ + compact2(amount as nat)
    }

    fn process_payment(&self, amount: u64) -> (line: String) {
        let mut line = String::from_str("Processing Paypal payment for amount: ");
        line.append(compact2_text(amount as u128).as_str());
        line
    }
}

/// Payment by Bitcoin.
#[derive(Debug)]
pub struct BitcoinPayment;

impl PaymentMethod for BitcoinPayment {
    open spec fn payment_line(&self, amount: u64) -> Seq<char> {
        "Processing Bitcoin payment for amount: "@ + compact2(amount as nat)
    }

    fn process_payment(&self, amount: u64) -> (line: String) {
        let mut line = String::from_str("Processing Bitcoin payment for amount: ");
        line.append(compact2_text(amount as u128).as_str());
        line
    }
}

/// Makes one method of payment.
pub trait PaymentFactory {
    /// The method this factory makes.
    type Method: PaymentMethod;

    /// Makes a payment method.
    fn create_payment(&self) -> (payment: Self::Method);
}

/// Makes payment by credit card.
#[derive(Debug)]
pub struct CreditCardPaymentFactory;

impl PaymentFactory for CreditCardPaymentFactory {
    type Method = CreditCardPayment;

    fn create_payment(&self) -> (payment: CreditCardPayment)
        ensures
            payment == CreditCardPayment,
    {
        CreditCardPayment
    }
}

/// Makes payment by Paypal.
#[derive(Debug)]
pub struct PaypalPaymentFactory;

impl PaymentFactory for PaypalPaymentFactory {
    type Method = PaypalPayment;

    fn create_payment(&self) -> (payment: PaypalPayment)
        ensures
            payment == PaypalPayment,
    {
        PaypalPayment
    }
}

/// Makes payment by Bitcoin.
#[derive(Debug)]
pub struct BitcoinPaymentFactory;

impl PaymentFactory for BitcoinPaymentFactory {
    type Method = BitcoinPayment;

    fn create_payment(&self) -> (payment: BitcoinPayment)
        ensures
            payment == BitcoinPayment,
    {
        BitcoinPayment
    }
}

} // verus!
