//! The strategy pattern: a payment processor that pays with whatever method
//! it was given last.
//!
//! Amounts are fixed-point: a `u64` counts cents, so `25000` is `250.00`.
use crate::text::{fixed2, fixed2_text};
use vstd::prelude::*;
use vstd::string::StringExecFns;

verus! {

/// A way to pay an amount.
pub trait PaymentStrategy {
    /// The line that records a payment of `amount` cents.
    spec fn receipt(&self, amount: u64) -> Seq<char>;

    /// Pays `amount` cents and returns the line that records it.
    fn pay(&self, amount: u64) -> (line: String)
        ensures
            line@ == self.receipt(amount),
    ;
}

/// Payment by credit card.
#[derive(Debug)]
pub struct CreditCardPayment {
    pub name: String,
    pub card_number: String,
}

impl CreditCardPayment {
    /// A card in the name of `name` with the number `card_number`.
    pub fn new(name: &str, card_number: &str) -> (payment: Self)
        ensures
            payment.name@ == name@,
            payment.card_number@ == card_number@,
    {
        CreditCardPayment { name: name.to_string(), card_number: card_number.to_string() }
    }
}

impl PaymentStrategy for CreditCardPayment {
    open spec fn receipt(&self, amount: u64) -> Seq<char> {
        "Paying $"@ + fixed2(amount as nat) + " using Credit Card - Name: "@ + self.name@ + ", Card Number: "@
            + self.card_number@
    }

    fn pay(&self, amount: u64) -> (line: String) {
        let mut line = String::from_str("Paying $");
        line.append(fixed2_text(amount as u128).as_str());
        line.append(" using Credit Card - Name: ");
        line.append(self.name.as_str());
        line.append(", Card Number: ");
        line.append(self.card_number.as_str());
        line
    }
}

/// Payment through a PayPal account.
#[derive(Debug)]
pub struct PayPalPayment {
    pub email: String,
}

impl PayPalPayment {
    /// The account of `email`.
    pub fn new(email: &str) -> (payment: Self)
        ensures
            payment.email@ == email@,
    {
        PayPalPayment { email: email.to_string() }
    }
}

impl PaymentStrategy for PayPalPayment {
    open spec fn receipt(&self, amount: u64) -> Seq<char> {
        "Paying $"@ + fixed2(amount as nat) + " using PayPal - Email: "@ + self.email@
    }

    fn pay(&self, amount: u64) -> (line: String) {
        let mut line = String::from_str("Paying $");
        line.append(fixed2_text(amount as u128).as_str());
        line.append(" using PayPal - Email: ");
        line.append(self.email.as_str());
        line
    }
}

/// Payment from a Bitcoin wallet.
#[derive(Debug)]
pub struct BitcoinPayment {
    pub wallet_address: String,
}

impl BitcoinPayment {
    /// The wallet at `wallet_address`.
    pub fn new(wallet_address: &str) -> (payment: Self)
        ensures
            payment.wallet_address@ == wallet_address@,
    {
        BitcoinPayment { wallet_address: wallet_address.to_string() }
    }
}

impl PaymentStrategy for BitcoinPayment {
    open spec fn receipt(&self, amount: u64) -> Seq<char> {
        "Paying $"@ + fixed2(amount as nat) + " using Bitcoin - Wallet Address: "@ + self.wallet_address@
    }

    fn pay(&self, amount: u64) -> (line: String) {
        let mut line = String::from_str("Paying $");
        line.append(fixed2_text(amount as u128).as_str());
        line.append(" using Bitcoin - Wallet Address: ");
        line.append(self.wallet_address.as_str());
        line
    }
}

/// Any of the payment methods, for a processor that changes its method while
/// it runs.
#[derive(Debug)]
pub enum PaymentMethod {
    CreditCard(CreditCardPayment),
    PayPal(PayPalPayment),
    Bitcoin(BitcoinPayment),
}

impl PaymentStrategy for PaymentMethod {
    open spec fn receipt(&self, amount: u64) -> Seq<char> {
        match *self {
            PaymentMethod::CreditCard(payment) => payment.receipt(amount),
            PaymentMethod::PayPal(payment) => payment.receipt(amount),
            PaymentMethod::Bitcoin(payment) => payment.receipt(amount),
        }
    }

    fn pay(&self, amount: u64) -> (line: String) {
        match self {
            PaymentMethod::CreditCard(payment) => payment.pay(amount),
            PaymentMethod::PayPal(payment) => payment.pay(amount),
            PaymentMethod::Bitcoin(payment) => payment.pay(amount),
        }
    }
}

/// Processes payments with the strategy it holds.
pub struct PaymentProcessor<S> {
    pub strategy: S,
}

impl<S: PaymentStrategy> PaymentProcessor<S> {
    /// A processor that pays with `strategy`.
    pub fn new(strategy: S) -> (processor: Self)
        ensures
            processor.strategy == strategy,
    {
        PaymentProcessor { strategy }
    }

    /// Replaces the strategy; later payments use `strategy`.
    pub fn set_strategy(&mut self, strategy: S)
        ensures
            final(self).strategy == strategy,
    {
        self.strategy = strategy;
    }

    /// Pays `amount` cents with the current strategy.
    pub fn process_payment(&self, amount: u64) -> (line: String)
        ensures
            line@ == self.strategy.receipt(amount),
    {
        self.strategy.pay(amount)
    }
}

} // verus!
