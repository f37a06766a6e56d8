use design_patterns::factory::shopping::{PayPalFactory, Receipt, SquareFactory, StripeFactory};
use design_patterns::factory::shopping::{PaymentFactory, PaymentProcessor};

#[test]
fn shop_providers() {
    let processor = PayPalFactory.create_processor();
    let (transaction_id, line) = processor.process_payment(15000);
    assert_eq!(transaction_id, "paypal_transaction_id");
    assert_eq!(line, "Processing PayPal payment of $150");
    assert_eq!(
        PayPalFactory.create_receipt().generate(&transaction_id),
        "PayPal receipt for transaction ID: paypal_transaction_id"
    );
    assert_eq!(
        processor.refund_payment(&transaction_id),
        ("paypal_refund_id".to_string(), "Refunding PayPal with transaction ID: paypal_transaction_id".to_string())
    );
    let stripe = StripeFactory.create_processor();
    assert_eq!(
        stripe.process_payment(1250),
        ("stripe_transaction_id".to_string(), "Processing Stripe payment of $12.5".to_string())
    );
    assert_eq!(
        stripe.refund_payment("t"),
        ("stripe_refund_id".to_string(), "Refunding Stripe payment with transaction ID: t".to_string())
    );
    assert_eq!(StripeFactory.create_receipt().generate("t"), "Stripe receipt for transaction ID: t");
    let square = SquareFactory.create_processor();
    assert_eq!(
        square.process_payment(100),
        ("square_transaction_id".to_string(), "Processing Sqaure payment of $1".to_string())
    );
    assert_eq!(
        square.refund_payment("t"),
        ("square_refund_id".to_string(), "Refunding Sqaure payment with transaction ID: t".to_string())
    );
    assert_eq!(SquareFactory.create_receipt().generate("t"), "Square receipt for transaction ID: t");
}
