use design_patterns::observer::registry::{Delivery, Handle, Registry};
use design_patterns::observer::stock::{CurrentPricesDisplay, PercentageChangeDisplay, StockDisplay};

fn current() -> StockDisplay {
    StockDisplay::CurrentPrices(CurrentPricesDisplay::new())
}

fn percentage() -> StockDisplay {
    StockDisplay::PercentageChange(PercentageChangeDisplay::new())
}

fn handles_of(deliveries: &[Delivery]) -> Vec<Handle> {
    deliveries.iter().map(|d| d.handle).collect()
}

fn lines_of(deliveries: &[Delivery]) -> Vec<String> {
    deliveries.iter().map(|d| d.line.clone()).collect()
}

fn price_of(registry: &Registry<u64, StockDisplay>, handle: Handle) -> u64 {
    match registry.listener(handle) {
        Some(StockDisplay::CurrentPrices(display)) => display.price,
        _ => panic!("not a price display"),
    }
}

#[test]
fn new_registry_has_state_and_no_listeners() {
    let registry: Registry<u64, StockDisplay> = Registry::new(7);
    assert_eq!(*registry.state(), 7);
    assert_eq!(registry.len(), 0);
    assert!(registry.handles().is_empty());
}

#[test]
fn empty_registry_notifies_nobody() {
    let mut registry: Registry<u64, StockDisplay> = Registry::new(0);
    let deliveries = registry.set_state(5).unwrap();
    assert!(deliveries.is_empty());
    assert_eq!(*registry.state(), 5);
}

#[test]
fn enroll_numbers_handles_from_zero_and_does_not_register() {
    let mut registry: Registry<u64, StockDisplay> = Registry::new(0);
    let a = registry.enroll(current());
    let b = registry.enroll(current());
    assert_eq!(a.id(), 0);
    assert_eq!(b.id(), 1);
    assert_ne!(a, b);
    assert_eq!(registry.len(), 0);
    assert!(!registry.is_registered(a));
    assert!(registry.set_state(1).unwrap().is_empty());
    assert_eq!(price_of(&registry, a), 0);
}

#[test]
fn notify_all_follows_registration_order() {
    let mut registry: Registry<u64, StockDisplay> = Registry::new(0);
    let a = registry.enroll(current());
    let b = registry.enroll(percentage());
    let c = registry.enroll(current());
    assert!(registry.register(c));
    assert!(registry.register(a));
    assert!(registry.register(b));
    assert_eq!(registry.handles(), vec![c, a, b]);
    let deliveries = registry.set_state(12345).unwrap();
    assert_eq!(handles_of(&deliveries), vec![c, a, b]);
    assert_eq!(
        lines_of(&deliveries),
        vec!["Current price: $123.45", "Current price: $123.45", "Percentage change: 0.00%"]
    );
    let again = registry.notify_all().unwrap();
    assert_eq!(handles_of(&again), vec![c, a, b]);
}

#[test]
fn removed_listener_is_not_notified() {
    let mut registry: Registry<u64, StockDisplay> = Registry::new(0);
    let a = registry.enroll(current());
    let b = registry.enroll(current());
    registry.register(a);
    registry.register(b);
    registry.set_state(100).unwrap();
    registry.set_state(200).unwrap();
    registry.remove(a);
    let deliveries = registry.set_state(300).unwrap();
    assert_eq!(handles_of(&deliveries), vec![b]);
    assert_eq!(price_of(&registry, a), 200);
    assert_eq!(price_of(&registry, b), 300);
    assert!(!registry.is_registered(a));
}

#[test]
fn remove_of_unregistered_handle_changes_nothing() {
    let mut registry: Registry<u64, StockDisplay> = Registry::new(0);
    let a = registry.enroll(current());
    let never = registry.enroll(current());
    registry.register(a);
    registry.remove(never);
    assert_eq!(registry.handles(), vec![a]);
    assert_eq!(handles_of(&registry.set_state(1).unwrap()), vec![a]);
}

#[test]
fn remove_of_foreign_handle_changes_nothing() {
    let mut other: Registry<u64, StockDisplay> = Registry::new(0);
    other.enroll(current());
    other.enroll(current());
    let foreign = other.enroll(current());
    let mut registry: Registry<u64, StockDisplay> = Registry::new(0);
    let a = registry.enroll(current());
    registry.register(a);
    registry.remove(foreign);
    assert_eq!(registry.handles(), vec![a]);
    assert!(registry.listener(foreign).is_none());
}

#[test]
fn remove_twice_is_remove_once() {
    let mut registry: Registry<u64, StockDisplay> = Registry::new(0);
    let a = registry.enroll(current());
    let b = registry.enroll(current());
    registry.register(a);
    registry.register(b);
    registry.remove(a);
    let once = registry.handles();
    registry.remove(a);
    assert_eq!(registry.handles(), once);
    assert_eq!(once, vec![b]);
    assert_eq!(handles_of(&registry.set_state(9).unwrap()), vec![b]);
}

#[test]
fn state_is_payload_after_set_state() {
    let mut registry: Registry<u64, StockDisplay> = Registry::new(0);
    let a = registry.enroll(current());
    registry.register(a);
    registry.set_state(4711).unwrap();
    assert_eq!(*registry.state(), 4711);
    registry.set_state(0).unwrap();
    assert_eq!(*registry.state(), 0);
}

#[test]
fn duplicate_registration_notifies_twice_and_remove_takes_both() {
    let mut registry: Registry<u64, StockDisplay> = Registry::new(0);
    let a = registry.enroll(current());
    let b = registry.enroll(current());
    registry.register(a);
    registry.register(b);
    registry.register(a);
    assert_eq!(registry.len(), 3);
    assert_eq!(handles_of(&registry.set_state(1).unwrap()), vec![a, b, a]);
    registry.remove(a);
    assert_eq!(registry.handles(), vec![b]);
}

#[test]
fn register_of_unknown_handle_is_ignored() {
    let mut other: Registry<u64, StockDisplay> = Registry::new(0);
    other.enroll(current());
    let foreign = other.enroll(current());
    let mut registry: Registry<u64, StockDisplay> = Registry::new(0);
    let a = registry.enroll(current());
    registry.register(a);
    assert!(!registry.register(foreign));
    assert_eq!(registry.handles(), vec![a]);
}

#[test]
fn removed_listener_can_be_registered_again() {
    let mut registry: Registry<u64, StockDisplay> = Registry::new(0);
    let a = registry.enroll(current());
    let b = registry.enroll(current());
    registry.register(a);
    registry.register(b);
    registry.remove(a);
    registry.set_state(5).unwrap();
    assert!(registry.register(a));
    assert_eq!(registry.handles(), vec![b, a]);
    registry.set_state(6).unwrap();
    assert_eq!(price_of(&registry, a), 6);
}

#[test]
fn handle_of_another_registry_names_the_listener_in_its_slot() {
    let mut other: Registry<u64, StockDisplay> = Registry::new(0);
    let foreign = other.enroll(current());
    let mut registry: Registry<u64, StockDisplay> = Registry::new(0);
    let a = registry.enroll(current());
    registry.register(a);
    // a handle is a slot number: this one names the only listener here
    assert_eq!(foreign, a);
    assert!(registry.is_registered(foreign));
    registry.remove(foreign);
    assert!(registry.handles().is_empty());
}

#[test]
fn zero_baseline_does_not_cut_the_cycle_short() {
    let mut registry: Registry<u64, StockDisplay> = Registry::new(0);
    let change = registry.enroll(percentage());
    let price = registry.enroll(current());
    registry.register(change);
    registry.register(price);
    assert_eq!(registry.notify_all().unwrap().len(), 2);
    let deliveries = registry.set_state(100).unwrap();
    assert_eq!(handles_of(&deliveries), vec![change, price]);
    assert_eq!(lines_of(&deliveries), vec!["Percentage change: 0.00%", "Current price: $1.00"]);
    assert_eq!(price_of(&registry, price), 100);
    let deliveries = registry.set_state(150).unwrap();
    assert_eq!(lines_of(&deliveries), vec!["Percentage change: 50.00%", "Current price: $1.50"]);
}
