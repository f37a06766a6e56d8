use design_patterns::observer::registry::Listener;
use design_patterns::observer::stock::{
    change_between, CurrentPricesDisplay, PercentageChangeDisplay, StockData, StockDisplay,
};

fn change_of(stock: &StockData, handle: design_patterns::observer::registry::Handle) -> i128 {
    match stock.observer(handle) {
        Some(StockDisplay::PercentageChange(display)) => display.change,
        _ => panic!("not a percentage display"),
    }
}

#[test]
fn stock_price_scenario() {
    let mut stock = StockData::new();
    let a = stock.register_observer(StockDisplay::CurrentPrices(CurrentPricesDisplay::new()));
    let b = stock.register_observer(StockDisplay::PercentageChange(PercentageChangeDisplay::new()));

    let first = stock.set_price(10000).unwrap();
    assert_eq!(first.len(), 2);
    assert_eq!(first[0].handle, a);
    assert_eq!(first[0].line, "Current price: $100.00");
    assert_eq!(first[1].handle, b);
    assert_eq!(first[1].line, "Percentage change: 0.00%");

    let second = stock.set_price(10500).unwrap();
    assert_eq!(second[1].line, "Percentage change: 5.00%");
    assert_eq!(change_of(&stock, b), 500);

    let third = stock.set_price(11000).unwrap();
    assert_eq!(third[0].line, "Current price: $110.00");
    assert_eq!(third[1].line, "Percentage change: 4.76%");
    let expected: f64 = (110.0 - 105.0) / 105.0 * 100.0;
    assert!((change_of(&stock, b) as f64 / 100.0 - expected).abs() < 0.01);

    stock.remove_observer(a);
    let fourth = stock.set_price(12000).unwrap();
    assert_eq!(fourth.len(), 1);
    assert_eq!(fourth[0].handle, b);
    assert_eq!(fourth[0].line, "Percentage change: 9.09%");
    let expected: f64 = (120.0 - 110.0) / 110.0 * 100.0;
    assert!((change_of(&stock, b) as f64 / 100.0 - expected).abs() < 0.01);
    match stock.observer(a) {
        Some(StockDisplay::CurrentPrices(display)) => assert_eq!(display.price, 11000),
        _ => panic!("not a price display"),
    }
    assert_eq!(stock.price(), 12000);
}

#[test]
fn new_stock_is_at_zero() {
    let stock = StockData::new();
    assert_eq!(stock.price(), 0);
}

#[test]
fn stock_notify_observers_repeats_the_price() {
    let mut stock = StockData::new();
    stock.register_observer(StockDisplay::CurrentPrices(CurrentPricesDisplay::new()));
    stock.set_price(250).unwrap();
    let again = stock.notify_observers().unwrap();
    assert_eq!(again[0].line, "Current price: $2.50");
    assert_eq!(stock.price(), 250);
}

#[test]
fn change_between_rounds_towards_zero() {
    assert_eq!(change_between(10000, 10500), 500);
    assert_eq!(change_between(10500, 11000), 476);
    assert_eq!(change_between(11000, 12000), 909);
    assert_eq!(change_between(11000, 10500), -454);
    assert_eq!(change_between(3, 2), -3333);
    assert_eq!(change_between(100, 100), 0);
    assert_eq!(change_between(1, u64::MAX), (u64::MAX as i128 - 1) * 10000);
    assert_eq!(change_between(u64::MAX, 0), -10000);
}

#[test]
fn percentage_display_falls_and_shows_a_minus() {
    let mut display = PercentageChangeDisplay::new();
    assert_eq!(display.receive(&20000).unwrap(), "Percentage change: 0.00%");
    assert_eq!(display.receive(&19000).unwrap(), "Percentage change: -5.00%");
    assert_eq!(display.change, -500);
    assert_eq!(display.last_price, Some(19000));
    assert_eq!(display.display(), "Percentage change: -5.00%");
}

#[test]
fn percentage_display_skips_the_change_against_a_zero_baseline() {
    let mut display = PercentageChangeDisplay::new();
    display.receive(&100).unwrap();
    assert_eq!(display.receive(&0).unwrap(), "Percentage change: -100.00%");
    assert_eq!(display.change, -10000);
    // no change can be taken against zero: the change stays, the baseline moves
    assert_eq!(display.receive(&50).unwrap(), "Percentage change: -100.00%");
    assert_eq!(display.change, -10000);
    assert_eq!(display.last_price, Some(50));
    assert_eq!(display.receive(&75).unwrap(), "Percentage change: 50.00%");
}

#[test]
fn stock_tells_every_display_after_a_price_of_zero() {
    let mut stock = StockData::new();
    let change = stock.register_observer(StockDisplay::PercentageChange(PercentageChangeDisplay::new()));
    let price = stock.register_observer(StockDisplay::CurrentPrices(CurrentPricesDisplay::new()));
    assert_eq!(stock.notify_observers().unwrap().len(), 2);
    let deliveries = stock.set_price(100).unwrap();
    assert_eq!(deliveries.len(), 2);
    assert_eq!(deliveries[0].handle, change);
    assert_eq!(deliveries[0].line, "Percentage change: 0.00%");
    assert_eq!(deliveries[1].handle, price);
    assert_eq!(deliveries[1].line, "Current price: $1.00");
    match stock.observer(price) {
        Some(StockDisplay::CurrentPrices(display)) => assert_eq!(display.price, 100),
        _ => panic!("not a price display"),
    }
}

#[test]
fn stock_display_comes_back_by_its_handle() {
    let mut stock = StockData::new();
    let a = stock.register_observer(StockDisplay::CurrentPrices(CurrentPricesDisplay::new()));
    let b = stock.register_observer(StockDisplay::CurrentPrices(CurrentPricesDisplay::new()));
    stock.remove_observer(a);
    assert_eq!(stock.set_price(1).unwrap().len(), 1);
    assert!(stock.register(a));
    let deliveries = stock.set_price(2).unwrap();
    assert_eq!(deliveries.len(), 2);
    assert_eq!(deliveries[0].handle, b);
    assert_eq!(deliveries[1].handle, a);
    // registered once more, it is told twice
    assert!(stock.register(a));
    assert_eq!(stock.set_price(3).unwrap().len(), 3);
    stock.remove_observer(a);
    assert_eq!(stock.set_price(4).unwrap().len(), 1);
    let mut other = StockData::new();
    assert!(!other.register(a));
    assert!(other.set_price(5).unwrap().is_empty());
}

#[test]
fn current_prices_display_shows_cents() {
    let mut display = CurrentPricesDisplay::new();
    assert_eq!(display.display(), "Current price: $0.00");
    assert_eq!(display.receive(&7).unwrap(), "Current price: $0.07");
    assert_eq!(display.receive(&u64::MAX).unwrap(), "Current price: $184467440737095516.15");
    assert_eq!(display.price, u64::MAX);
}
