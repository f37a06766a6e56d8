use design_patterns::store::{
    BasicOrder, CreditCardPayment, DiscountDecorator, Order, PayPalPayment, PaymentStrategy,
};

#[test]
fn store_payments_pay_the_discounted_total() {
    let card = CreditCardPayment::new("John Doe", "1234-5678-9012-3456");
    let paypal = PayPalPayment::new("john.doe@example.com");
    let basic = BasicOrder::new(10000, "Basic Order");
    assert!(DiscountDecorator::can_apply(&basic, 1000));
    let discounted = DiscountDecorator::new(basic, 1000, "Holiday Discount");
    assert_eq!(discounted.get_total(), 9000);
    assert_eq!(discounted.get_description(), "Basic Order, Holiday Discount");
    assert_eq!(
        card.pay(discounted.get_total()),
        "Paying $90.00 using Credit Card - Name: John Doe, Card Number: 1234-5678-9012-3456"
    );
    assert_eq!(
        paypal.pay(discounted.get_total()),
        "Paying $90.00 using PayPal - Email: john.doe@example.com"
    );
    assert_eq!(paypal.pay(-250), "Paying $-2.50 using PayPal - Email: john.doe@example.com");
}

#[test]
fn discounts_stack_and_may_go_below_zero() {
    let basic = BasicOrder::new(500, "Small");
    assert_eq!(basic.get_total(), 500);
    assert_eq!(basic.get_description(), "Small");
    let once = DiscountDecorator::new(basic, 400, "First");
    assert!(DiscountDecorator::can_apply(&once, 400));
    let twice = DiscountDecorator::new(once, 400, "Second");
    assert_eq!(twice.get_total(), -300);
    assert_eq!(twice.get_description(), "Small, First, Second");
}

#[test]
fn discount_that_does_not_fit_is_told_apart() {
    let lowest = BasicOrder::new(i64::MIN, "Lowest");
    assert!(!DiscountDecorator::can_apply(&lowest, 1));
    assert!(DiscountDecorator::can_apply(&lowest, 0));
    assert!(DiscountDecorator::can_apply(&lowest, -1));
    let highest = BasicOrder::new(i64::MAX, "Highest");
    assert!(!DiscountDecorator::can_apply(&highest, -1));
    assert!(DiscountDecorator::can_apply(&highest, i64::MAX));
}
