use design_patterns::factory::payment_methods::PaymentMethod;
use design_patterns::factory::payment_methods::{
        BitcoinPaymentFactory, CreditCardPaymentFactory, PaymentFactory, PaypalPaymentFactory,
    };

#[test]
fn payment_methods_by_factory() {
    assert_eq!(
        CreditCardPaymentFactory.create_payment().process_payment(10000),
        "Processing credit card payment for amount: 100"
    );
    assert_eq!(
        PaypalPaymentFactory.create_payment().process_payment(10050),
        "Processing Paypal payment for amount: 100.5"
    );
    assert_eq!(
        BitcoinPaymentFactory.create_payment().process_payment(1),
        "Processing Bitcoin payment for amount: 0.01"
    );
}
