//! Payment providers of an online shop: a factory makes the processor and
//! the receipt that belong together.
//!
//! Amounts are fixed-point: a `u64` counts cents. They are written as
//! briefly as their value allows, `15000` as `150`.
use crate::text::{compact2, compact2_text};
use vstd::prelude::*;
use vstd::string::StringExecFns;

verus! {

/// Processes and refunds payments.
pub trait PaymentProcessor {
    /// The id of the transaction that pays `amount` cents.
    spec fn transaction(&self, amount: u64) -> Seq<char>;

    /// The line that processing `amount` cents gives.
    spec fn processing_line(&self, amount: u64) -> Seq<char>;

    /// Processes a payment of `amount` cents: the id of the transaction, and
    /// the line that says so.
    fn process_payment(&self, amount: u64) -> (processed: (String, String))
        ensures
            processed.0@ == self.transaction(amount),
            processed.1@ == self.processing_line(amount),
    ;

    /// The id of the refund of `transaction_id`.
    spec fn refund(&self, transaction_id: Seq<char>) -> Seq<char>;

    /// The line that refunding `transaction_id` gives.
    spec fn refunding_line(&self, transaction_id: Seq<char>) -> Seq<char>;

    /// Refunds the transaction `transaction_id`: the id of the refund, and the
    /// line that says so.
    fn refund_payment(&self, transaction_id: &str) -> (refunded: (String, String))
        ensures
            refunded.0@ == self.refund(transaction_id@),
            refunded.1@ == self.refunding_line(transaction_id@),
    ;
}

/// Writes receipts.
pub trait Receipt {
    /// The receipt for `transaction_id`.
    spec fn receipt(&self, transaction_id: Seq<char>) -> Seq<char>;

    /// Writes the receipt for the transaction `transaction_id`.
    fn generate(&self, transaction_id: &str) -> (receipt: String)
        ensures
            receipt@ == self.receipt(transaction_id@),
    ;
}

/// Processes payments through PayPal.
#[derive(Debug)]
pub struct PayPalProcessor;

impl PaymentProcessor for PayPalProcessor {
    open spec fn transaction(&self, amount: u64) -> Seq<char> {
        "paypal_transaction_id"@
    }

    open spec fn processing_line(&self, amount: u64) -> Seq<char> {
        "Processing PayPal payment of $"@ + compact2(amount as nat)
    }

    fn process_payment(&self, amount: u64) -> (processed: (String, String)) {
        let mut line = String::from_str("Processing PayPal payment of $");
        line.append(compact2_text(amount as u128).as_str());
        ("paypal_transaction_id".to_string(), line)
    }

    open spec fn refund(&self, transaction_id: Seq<char>) -> Seq<char> {
        "paypal_refund_id"@
    }

    open spec fn refunding_line(&self, transaction_id: Seq<char>) -> Seq<char> {
        "Refunding PayPal with transaction ID: "@ + transaction_id
    }

    fn refund_payment(&self, transaction_id: &str) -> (refunded: (String, String)) {
        let mut line = String::from_str("Refunding PayPal with transaction ID: ");
        line.append(transaction_id);
        ("paypal_refund_id".to_string(), line)
    }
}

/// The receipts of PayPal.
#[derive(Debug)]
pub struct PayPalReceipt;

impl Receipt for PayPalReceipt {
    open spec fn receipt(&self, transaction_id: Seq<char>) -> Seq<char> {
        "PayPal receipt for transaction ID: "@ + transaction_id
    }

    fn generate(&self, transaction_id: &str) -> (receipt: String) {
        let mut receipt = String::from_str("PayPal receipt for transaction ID: ");
        receipt.append(transaction_id);
        receipt
    }
}

/// Processes payments through Stripe.
#[derive(Debug)]
pub struct StripeProcessor;

impl PaymentProcessor for StripeProcessor {
    open spec fn transaction(&self, amount: u64) -> Seq<char> {
        "stripe_transaction_id"@
    }

    open spec fn processing_line(&self, amount: u64) -> Seq<char> {
        "Processing Stripe payment of $"@ + compact2(amount as nat)
    }

    fn process_payment(&self, amount: u64) -> (processed: (String, String)) {
        let mut line = String::from_str("Processing Stripe payment of $");
        line.append(compact2_text(amount as u128).as_str());
        ("stripe_transaction_id".to_string(), line)
    }

    open spec fn refund(&self, transaction_id: Seq<char>) -> Seq<char> {
        "stripe_refund_id"@
    }

    open spec fn refunding_line(&self, transaction_id: Seq<char>) -> Seq<char> {
        "Refunding Stripe payment with transaction ID: "@ + transaction_id
    }

    fn refund_payment(&self, transaction_id: &str) -> (refunded: (String, String)) {
        let mut line = String::from_str("Refunding Stripe payment with transaction ID: ");
        line.append(transaction_id);
        ("stripe_refund_id".to_string(), line)
    }
}

/// The receipts of Stripe.
#[derive(Debug)]
pub struct StripeReceipt;

impl Receipt for StripeReceipt {
    open spec fn receipt(&self, transaction_id: Seq<char>) -> Seq<char> {
        "Stripe receipt for transaction ID: "@ + transaction_id
    }

    fn generate(&self, transaction_id: &str) -> (receipt: String) {
        let mut receipt = String::from_str("Stripe receipt for transaction ID: ");
        receipt.append(transaction_id);
        receipt
    }
}

/// Processes payments through Square.
#[derive(Debug)]
pub struct SquareProcessor;

impl PaymentProcessor for SquareProcessor {
    open spec fn transaction(&self, amount: u64) -> Seq<char> {
        "square_transaction_id"@
    }

    open spec fn processing_line(&self, amount: u64) -> Seq<char> {
        "Processing Sqaure payment of $"@ + compact2(amount as nat)
    }

    fn process_payment(&self, amount: u64) -> (processed: (String, String)) {
        let mut line = String::from_str("Processing Sqaure payment of $");
        line.append(compact2_text(amount as u128).as_str());
        ("square_transaction_id".to_string(), line)
    }

    open spec fn refund(&self, transaction_id: Seq<char>) -> Seq<char> {
        "square_refund_id"@
    }

    open spec fn refunding_line(&self, transaction_id: Seq<char>) -> Seq<char> {
        "Refunding Sqaure payment with transaction ID: "@ + transaction_id
    }

    fn refund_payment(&self, transaction_id: &str) -> (refunded: (String, String)) {
        let mut line = String::from_str("Refunding Sqaure payment with transaction ID: ");
        line.append(transaction_id);
        ("square_refund_id".to_string(), line)
    }
}

/// The receipts of Square.
#[derive(Debug)]
pub struct SquareReceipt;

impl Receipt for SquareReceipt {
    open spec fn receipt(&self, transaction_id: Seq<char>) -> Seq<char> {
        "Square receipt for transaction ID: "@ + transaction_id
    }

    fn generate(&self, transaction_id: &str) -> (receipt: String) {
        let mut receipt = String::from_str("Square receipt for transaction ID: ");
        receipt.append(transaction_id);
        receipt
    }
}

/// Makes the parts of one provider.
pub trait PaymentFactory {
    /// The processor this factory makes.
    type Processor: PaymentProcessor;

    /// The receipt this factory makes.
    type Receipt: Receipt;

    /// Makes a processor.
    fn create_processor(&self) -> (processor: Self::Processor);

    /// Makes a receipt.
    fn create_receipt(&self) -> (receipt: Self::Receipt);
}

/// Makes the parts of PayPal.
#[derive(Debug)]
pub struct PayPalFactory;

impl PaymentFactory for PayPalFactory {
    type Processor = PayPalProcessor;

    type Receipt = PayPalReceipt;

    fn create_processor(&self) -> (processor: PayPalProcessor)
        ensures
            processor == PayPalProcessor,
    {
        PayPalProcessor
    }

    fn create_receipt(&self) -> (receipt: PayPalReceipt)
        ensures
            receipt == PayPalReceipt,
    {
        PayPalReceipt
    }
}

/// Makes the parts of Stripe.
#[derive(Debug)]
pub struct StripeFactory;

impl PaymentFactory for StripeFactory {
    type Processor = StripeProcessor;

    type Receipt = StripeReceipt;

    fn create_processor(&self) -> (processor: StripeProcessor)
        ensures
            processor == StripeProcessor,
    {
        StripeProcessor
    }

    fn create_receipt(&self) -> (receipt: StripeReceipt)
        ensures
            receipt == StripeReceipt,
    {
        StripeReceipt
    }
}

/// Makes the parts of Square.
#[derive(Debug)]
pub struct SquareFactory;

impl PaymentFactory for SquareFactory {
    type Processor = SquareProcessor;

    type Receipt = SquareReceipt;

    fn create_processor(&self) -> (processor: SquareProcessor)
        ensures
            processor == SquareProcessor,
    {
        SquareProcessor
    }

    fn create_receipt(&self) -> (receipt: SquareReceipt)
        ensures
            receipt == SquareReceipt,
    {
        SquareReceipt
    }
}

} // verus!
