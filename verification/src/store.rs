//! An online store that combines three patterns: payment strategies, orders
//! decorated with discounts, and customers who are told of every change of an
//! order's status.
//!
//! Amounts are fixed-point: an integer counts cents.
use crate::observer::laws::lemma_outcome_delivers_to_all;
use crate::observer::registry::{
    delivered_to_all, reports, Delivery, Handle, Listener, ListenerFailure, Refused, Registry, RegistryView,
};
use crate::text::{signed_fixed2, signed_fixed2_text};
use vstd::prelude::*;
use vstd::string::StringExecFns;

verus! {

/// A way to pay the total of an order, which a discount may have taken below
/// zero.
pub trait PaymentStrategy {
    /// The line that records a payment of `amount` cents.
    spec fn receipt(&self, amount: i64) -> Seq<char>;

    /// Pays `amount` cents and returns the line that records it.
    fn pay(&self, amount: i64) -> (line: String)
        ensures
            line@ == self.receipt(amount),
    ;
}

/// Payment by credit card.
#[derive(Debug)]
pub struct CreditCardPayment {
    pub name: String,
    pub card_number: String,
}

impl CreditCardPayment {
    /// A card in the name of `name` with the number `card_number`.
    pub fn new(name: &str, card_number: &str) -> (payment: Self)
        ensures
            payment.name@ == name@,
            payment.card_number@ == card_number@,
    {
        CreditCardPayment { name: name.to_string(), card_number: card_number.to_string() }
    }
}

impl PaymentStrategy for CreditCardPayment {
    open spec fn receipt(&self, amount: i64) -> Seq<char> {
        "Paying $"@ + signed_fixed2(amount as int) + " using Credit Card - Name: "@ + self.name@
            + ", Card Number: "@ + self.card_number@
    }

    fn pay(&self, amount: i64) -> (line: String) {
        let mut line = String::from_str("Paying $");
        line.append(signed_fixed2_text(amount as i128).as_str());
        line.append(" using Credit Card - Name: ");
        line.append(self.name.as_str());
        line.append(", Card Number: ");
        line.append(self.card_number.as_str());
        line
    }
}

/// Payment through a PayPal account.
#[derive(Debug)]
pub struct PayPalPayment {
    pub email: String,
}

impl PayPalPayment {
    /// The account of `email`.
    pub fn new(email: &str) -> (payment: Self)
        ensures
            payment.email@ == email@,
    {
        PayPalPayment { email: email.to_string() }
    }
}

impl PaymentStrategy for PayPalPayment {
    open spec fn receipt(&self, amount: i64) -> Seq<char> {
        "Paying $"@ + signed_fixed2(amount as int) + " using PayPal - Email: "@ + self.email@
    }

    fn pay(&self, amount: i64) -> (line: String) {
        let mut line = String::from_str("Paying $");
        line.append(signed_fixed2_text(amount as i128).as_str());
        line.append(" using PayPal - Email: ");
        line.append(self.email.as_str());
        line
    }
}

/// Something that can be ordered: it has a total and a description.
pub trait Order {
    /// Whether the total can be computed: it fits the machine's integers.
    spec fn wf(&self) -> bool;

    /// The total in cents.
    spec fn total(&self) -> int;

    /// The description, as characters.
    spec fn description(&self) -> Seq<char>;

    /// The total in cents.
    fn get_total(&self) -> (total: i64)
        requires
            self.wf(),
        ensures
            total == self.total(),
    ;

    /// The description.
    fn get_description(&self) -> (description: String)
        ensures
            description@ == self.description(),
    ;
}

/// An order with a fixed total.
#[derive(Debug)]
pub struct BasicOrder {
    pub total: i64,
    pub description: String,
}

impl BasicOrder {
    /// An order of `total` cents described by `description`.
    pub fn new(total: i64, description: &str) -> (order: Self)
        ensures
            order.total == total,
            order.description@ == description@,
    {
        BasicOrder { total, description: description.to_string() }
    }
}

impl Order for BasicOrder {
    open spec fn wf(&self) -> bool {
        true
    }

    open spec fn total(&self) -> int {
        self.total as int
    }

    open spec fn description(&self) -> Seq<char> {
        self.description@
    }

    fn get_total(&self) -> (total: i64) {
        self.total
    }

    fn get_description(&self) -> (description: String) {
        self.description.clone()
    }
}

/// An order with a discount taken off.
#[derive(Debug)]
pub struct DiscountDecorator<O> {
    pub order: O,
    pub discount: i64,
    pub description: String,
}

impl<O: Order> DiscountDecorator<O> {
    /// Whether `discount` can be taken off `order`: the order has a total and
    /// the difference fits an `i64`.
    pub open spec fn applies(order: &O, discount: i64) -> bool {
        order.wf() && i64::MIN <= order.total() - discount <= i64::MAX
    }

    /// Tests whether `discount` can be taken off `order`.
    pub fn can_apply(order: &O, discount: i64) -> (fits: bool)
        requires
            order.wf(),
        ensures
            fits == Self::applies(order, discount),
    {
        order.get_total().checked_sub(discount).is_some()
    }

    /// `order` with `discount` cents taken off, for the reason `description`.
    pub fn new(order: O, discount: i64, description: &str) -> (decorated: Self)
        requires
            Self::applies(&order, discount),
        ensures
            decorated.wf(),
            decorated.order == order,
            decorated.discount == discount,
            decorated.description@ == description@,
    {
        DiscountDecorator { order, discount, description: description.to_string() }
    }
}

impl<O: Order> Order for DiscountDecorator<O> {
    open spec fn wf(&self) -> bool {
        self.order.wf() && i64::MIN <= self.order.total() - self.discount <= i64::MAX
    }

    open spec fn total(&self) -> int {
        self.order.total() - self.discount
    }

    open spec fn description(&self) -> Seq<char> {
        self.order.description() + ", "@ + self.description@
    }

    fn get_total(&self) -> (total: i64) {
        self.order.get_total() - self.discount
    }

    fn get_description(&self) -> (description: String) {
        let mut description = self.order.get_description();
        description.append(", ");
        description.append(self.description.as_str());
        description
    }
}

/// A customer who is told the status of orders.
#[derive(Debug)]
pub struct Customer {
    pub name: String,
}

impl Customer {
    /// The line that tells this customer a status.
    pub open spec fn told(&self, order_status: Seq<char>) -> Seq<char> {
        "Customer "@ + self.name@ + ": Your order status is '"@ + order_status + "'"@
    }

    /// A customer called `name`.
    pub fn new(name: &str) -> (customer: Self)
        ensures
            customer.name@ == name@,
    {
        Customer { name: name.to_string() }
    }

    /// The line that tells this customer `order_status`.
    pub fn update(&self, order_status: &str) -> (line: String)
        ensures
            line@ == self.told(order_status@),
    {
        let mut line = String::from_str("Customer ");
        line.append(self.name.as_str());
        line.append(": Your order status is '");
        line.append(order_status);
        line.append("'");
        line
    }
}

impl Listener<String> for Customer {
    open spec fn accepts(&self, payload: String) -> bool {
        true
    }

    open spec fn after(&self, payload: String) -> Self {
        *self
    }

    open spec fn emitted(&self, payload: String) -> Seq<char> {
        self.told(payload@)
    }

    fn receive(&mut self, payload: &String) -> (outcome: Result<String, Refused>) {
        Ok(self.update(payload.as_str()))
    }
}

/// The order system: the status announced last, and the customers who are
/// told of it.
pub struct OrderSystem {
    registry: Registry<String, Customer>,
}

impl View for OrderSystem {
    type V = RegistryView<String, Customer>;

    closed spec fn view(&self) -> RegistryView<String, Customer> {
        self.registry@
    }
}

impl OrderSystem {
    /// Every registered handle names a customer of this system.
    pub open spec fn wf(&self) -> bool {
        self@.wf()
    }

    /// A system without customers; no status was announced.
    pub fn new() -> (system: Self)
        ensures
            system.wf(),
            system@.state@.len() == 0,
            system@.listeners.len() == 0,
            system@.pool.len() == 0,
    {
        OrderSystem { registry: Registry::new(String::new()) }
    }

    /// Takes `observer` in and registers it behind those already registered.
    /// The handle names it from now on.
    pub fn register_observer(&mut self, observer: Customer) -> (handle: Handle)
        requires
            old(self).wf(),
        ensures
            final(self).wf(),
            handle.slot() == old(self)@.pool.len(),
            final(self)@ == old(self)@.enroll(observer).register(handle),
            final(self)@.listeners == old(self)@.listeners.push(handle),
    {
        let handle = self.registry.enroll(observer);
        self.registry.register(handle);
        handle
    }

    /// Registers the listener that `handle` names once more, behind those
    /// already registered: one that was removed comes back, one that is still
    /// registered stands twice. Returns whether `handle` names a listener; one
    /// that does not is left out.
    pub fn register(&mut self, handle: Handle) -> (known: bool)
        requires
            old(self).wf(),
        ensures
            final(self).wf(),
            known == old(self)@.knows(handle),
            final(self)@ == old(self)@.register(handle),
    {
        self.registry.register(handle)
    }

    /// Removes the customer that `handle` names. Nothing happens if the
    /// customer is not registered.
    pub fn remove_observer(&mut self, handle: Handle)
        requires
            old(self).wf(),
        ensures
            final(self).wf(),
            final(self)@ == old(self)@.remove(handle),
    {
        self.registry.remove(handle);
    }

    /// Announces `order_status` to every customer, in registration order.
    pub fn notify_observers(&mut self, order_status: &str) -> (outcome: Result<Vec<Delivery>, ListenerFailure>)
        requires
            old(self).wf(),
        ensures
            final(self).wf(),
            final(self)@.state@ == order_status@,
            final(self)@ == old(self)@.commit(final(self)@.state).notified(),
            reports(outcome, old(self)@.commit(final(self)@.state).cycle()),
            delivered_to_all(outcome, old(self)@.listeners),
    {
        let outcome = self.registry.set_state(order_status.to_string());
        proof {
            lemma_outcome_delivers_to_all(outcome, old(self)@.pool, old(self)@.listeners, self@.state);
        }
        outcome
    }

    /// The customer that `handle` names, registered or not.
    pub fn observer(&self, handle: Handle) -> (customer: Option<&Customer>)
        ensures
            self@.knows(handle) ==> customer == Some(&self@.pool[handle.slot()]),
            !self@.knows(handle) ==> customer is None,
    {
        self.registry.listener(handle)
    }
}

} // verus!
