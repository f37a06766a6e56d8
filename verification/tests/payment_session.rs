use design_patterns::factory::payment_session::{
    BankTransferFactory, CreditCardFactory, PaymentProcessor, PaymentSession, ReceiptHandler,
};
use design_patterns::factory::payment_session::{PayPalFactory, PaymentFactory};

#[test]
fn payment_session_families() {
    assert_eq!(PayPalFactory.create_payment_session().create_session(), "Creating PayPal payment session");
    assert_eq!(
        PayPalFactory.create_payment_processor().process_payment(10000),
        "Processing PayPal payment of $100"
    );
    assert_eq!(
        PayPalFactory.create_receipt_handler().handle_receipt("Payment successful"),
        "Handling PayPal receipt: Payment successful"
    );
    assert_eq!(CreditCardFactory.create_payment_session().create_session(), "Creating credit card payment session");
    assert_eq!(
        CreditCardFactory.create_payment_processor().process_payment(1999),
        "Processing credit card payment of $19.99"
    );
    assert_eq!(CreditCardFactory.create_receipt_handler().handle_receipt("r"), "Handling credit card receipt: r");
    assert_eq!(
        BankTransferFactory.create_payment_session().create_session(),
        "Creating bank transfer payment session"
    );
    assert_eq!(
        BankTransferFactory.create_payment_processor().process_payment(0),
        "Processing bank transfer payment of $0"
    );
    assert_eq!(
        BankTransferFactory.create_receipt_handler().handle_receipt("r"),
        "Handling bank transfer receipt: r"
    );
}
