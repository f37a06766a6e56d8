//! Payments over three methods: a factory makes the session, the processor
//! and the receipt handler that belong together.
//!
//! Amounts are fixed-point: a `u64` counts cents. They are written as
//! briefly as their value allows, `10000` as `100`.
use crate::text::{compact2, compact2_text};
use vstd::prelude::*;
use vstd::string::StringExecFns;

verus! {

/// A session in which a payment is made.
pub trait PaymentSession {
    /// The line that opening the session gives.
    spec fn session_line(&self) -> Seq<char>;

    /// Opens the session and returns the line that says so.
    fn create_session(&self) -> (line: String)
        ensures
            line@ == self.session_line(),
    ;
}

/// Processes a payment.
pub trait PaymentProcessor {
    /// The line that processing `amount` cents gives.
    spec fn payment_line(&self, amount: u64) -> Seq<char>;

    /// Processes a payment of `amount` cents and returns the line that says so.
    fn process_payment(&self, amount: u64) -> (line: String)
        ensures
            line@ == self.payment_line(amount),
    ;
}

/// Handles a receipt.
pub trait ReceiptHandler {
    /// The line that handling `receipt` gives.
    spec fn receipt_line(&self, receipt: Seq<char>) -> Seq<char>;

    /// Handles `receipt` and returns the line that says so.
    fn handle_receipt(&self, receipt: &str) -> (line: String)
        ensures
            line@ == self.receipt_line(receipt@),
    ;
}

/// A payment session for credit card.
#[derive(Debug)]
pub struct CreditCardPaymentSession;

impl PaymentSession for CreditCardPaymentSession {
    open spec fn session_line(&self) -> Seq<char> {
        "Creating credit card payment session"@
    }

    fn create_session(&self) -> (line: String) {
        "Creating credit card payment session".to_string()
    }
}

/// Processes payments by credit card.
#[derive(Debug)]
pub struct CreditCardPaymentProcessor;

impl PaymentProcessor for CreditCardPaymentProcessor {
    open spec fn payment_line(&self, amount: u64) -> Seq<char> {
        "Processing credit card payment of $"@ + compact2(amount as nat)
    }

    fn process_payment(&self, amount: u64) -> (line: String) {
        let mut line = String::from_str("Processing credit card payment of $");
        line.append(compact2_text(amount as u128).as_str());
        line
    }
}

/// Handles the receipts of payments by credit card.
#[derive(Debug)]
pub struct CreditCardReceiptHandler;

impl ReceiptHandler for CreditCardReceiptHandler {
    open spec fn receipt_line(&self, receipt: Seq<char>) -> Seq<char> {
        "Handling credit card receipt: "@ + receipt
    }

    fn handle_receipt(&self, receipt: &str) -> (line: String) {
        let mut line = String::from_str("Handling credit card receipt: ");
        line.append(receipt);
        line
    }
}

/// A payment session for PayPal.
#[derive(Debug)]
pub struct PayPalPaymentSession;

impl PaymentSession for PayPalPaymentSession {
    open spec fn session_line(&self) -> Seq<char> {
        "Creating PayPal payment session"@
    }

    fn create_session(&self) -> (line: String) {
        "Creating PayPal payment session".to_string()
    }
}

/// Processes payments by PayPal.
#[derive(Debug)]
pub struct PayPalPaymentProcessor;

impl PaymentProcessor for PayPalPaymentProcessor {
    open spec fn payment_line(&self, amount: u64) -> Seq<char> {
        "Processing PayPal payment of $"@ + compact2(amount as nat)
    }

    fn process_payment(&self, amount: u64) -> (line: String) {
        let mut line = String::from_str("Processing PayPal payment of $");
        line.append(compact2_text(amount as u128).as_str());
        line
    }
}

/// Handles the receipts of payments by PayPal.
#[derive(Debug)]
pub struct PayPalReceiptHandler;

impl ReceiptHandler for PayPalReceiptHandler {
    open spec fn receipt_line(&self, receipt: Seq<char>) -> Seq<char> {
        "Handling PayPal receipt: "@ + receipt
    }

    fn handle_receipt(&self, receipt: &str) -> (line: String) {
        let mut line = String::from_str("Handling PayPal receipt: ");
        line.append(receipt);
        line
    }
}

/// A payment session for bank transfer.
#[derive(Debug)]
pub struct BankTransferPaymentSession;

impl PaymentSession for BankTransferPaymentSession {
    open spec fn session_line(&self) -> Seq<char> {
        "Creating bank transfer payment session"@
    }

    fn create_session(&self) -> (line: String) {
        "Creating bank transfer payment session".to_string()
    }
}

/// Processes payments by bank transfer.
#[derive(Debug)]
pub struct BankTransferPaymentProcessor;

impl PaymentProcessor for BankTransferPaymentProcessor {
    open spec fn payment_line(&self, amount: u64) -> Seq<char> {
        "Processing bank transfer payment of $"@ + compact2(amount as nat)
    }

    fn process_payment(&self, amount: u64) -> (line: String) {
        let mut line = String::from_str("Processing bank transfer payment of $");
        line.append(compact2_text(amount as u128).as_str());
        line
    }
}

/// Handles the receipts of payments by bank transfer.
#[derive(Debug)]
pub struct BankTransferReceiptHandler;

impl ReceiptHandler for BankTransferReceiptHandler {
    open spec fn receipt_line(&self, receipt: Seq<char>) -> Seq<char> {
        "Handling bank transfer receipt: "@ + receipt
    }

    fn handle_receipt(&self, receipt: &str) -> (line: String) {
        let mut line = String::from_str("Handling bank transfer receipt: ");
        line.append(receipt);
        line
    }
}

/// Makes the parts of one payment method.
pub trait PaymentFactory {
    /// The session this factory makes.
    type Session: PaymentSession;

    /// The processor this factory makes.
    type Processor: PaymentProcessor;

    /// The receipt handler this factory makes.
    type Handler: ReceiptHandler;

    /// Makes a payment session.
    fn create_payment_session(&self) -> (session: Self::Session);

    /// Makes a payment processor.
    fn create_payment_processor(&self) -> (processor: Self::Processor);

    /// Makes a receipt handler.
    fn create_receipt_handler(&self) -> (handler: Self::Handler);
}

/// Makes the parts for payment by credit card.
#[derive(Debug)]
pub struct CreditCardFactory;

impl PaymentFactory for CreditCardFactory {
    type Session = CreditCardPaymentSession;

    type Processor = CreditCardPaymentProcessor;

    type Handler = CreditCardReceiptHandler;

    fn create_payment_session(&self) -> (session: CreditCardPaymentSession)
        ensures
            session == CreditCardPaymentSession,
    {
        CreditCardPaymentSession
    }

    fn create_payment_processor(&self) -> (processor: CreditCardPaymentProcessor)
        ensures
            processor == CreditCardPaymentProcessor,
    {
        CreditCardPaymentProcessor
    }

    fn create_receipt_handler(&self) -> (handler: CreditCardReceiptHandler)
        ensures
            handler == CreditCardReceiptHandler,
    {
        CreditCardReceiptHandler
    }
}

/// Makes the parts for payment by PayPal.
#[derive(Debug)]
pub struct PayPalFactory;

impl PaymentFactory for PayPalFactory {
    type Session = PayPalPaymentSession;

    type Processor = PayPalPaymentProcessor;

    type Handler = PayPalReceiptHandler;

    fn create_payment_session(&self) -> (session: PayPalPaymentSession)
        ensures
            session == PayPalPaymentSession,
    {
        PayPalPaymentSession
    }

    fn create_payment_processor(&self) -> (processor: PayPalPaymentProcessor)
        ensures
            processor == PayPalPaymentProcessor,
    {
        PayPalPaymentProcessor
    }

    fn create_receipt_handler(&self) -> (handler: PayPalReceiptHandler)
        ensures
            handler == PayPalReceiptHandler,
    {
        PayPalReceiptHandler
    }
}

/// Makes the parts for payment by bank transfer.
#[derive(Debug)]
pub struct BankTransferFactory;

impl PaymentFactory for BankTransferFactory {
    type Session = BankTransferPaymentSession;

    type Processor = BankTransferPaymentProcessor;

    type Handler = BankTransferReceiptHandler;

    fn create_payment_session(&self) -> (session: BankTransferPaymentSession)
        ensures
            session == BankTransferPaymentSession,
    {
        BankTransferPaymentSession
    }

    fn create_payment_processor(&self) -> (processor: BankTransferPaymentProcessor)
        ensures
            processor == BankTransferPaymentProcessor,
    {
        BankTransferPaymentProcessor
    }

    fn create_receipt_handler(&self) -> (handler: BankTransferReceiptHandler)
        ensures
            handler == BankTransferReceiptHandler,
    {
        BankTransferReceiptHandler
    }
}

} // verus!
