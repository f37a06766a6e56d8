use design_patterns::observer::registry::{Listener, Registry};
use design_patterns::observer::weather::{
    average, CurrentConditionsDisplay, Measurements, StatisticsDisplay, WeatherData, WeatherDisplay,
};

fn reading(temperature: i64) -> Measurements {
    Measurements { temperature, humidity: 0, pressure: 0 }
}

#[test]
fn weather_statistics_scenario() {
    let mut statistics = StatisticsDisplay::new();
    assert_eq!(statistics.display(), None);
    assert_eq!(statistics.average_temperature(), None);

    let first = statistics.receive(&reading(8000)).unwrap();
    assert_eq!(statistics.max_temp, 8000);
    assert_eq!(statistics.min_temp, 8000);
    assert_eq!(first, "Avg/Max/Min temperature = 80.00/80.00/80.00");

    statistics.receive(&reading(8200)).unwrap();
    let third = statistics.receive(&reading(7800)).unwrap();
    assert_eq!(statistics.average_temperature(), Some(8000));
    assert_eq!(statistics.average_temperature().unwrap() as f64 / 100.0, 80.0);
    assert_eq!(statistics.max_temp, 8200);
    assert_eq!(statistics.min_temp, 7800);
    assert_eq!(statistics.num_reading, 3);
    assert_eq!(third, "Avg/Max/Min temperature = 80.00/82.00/78.00");
}

#[test]
fn statistics_first_reading_below_zero_sets_both_ends() {
    let mut statistics = StatisticsDisplay::new();
    let line = statistics.receive(&reading(-1550)).unwrap();
    assert_eq!(statistics.max_temp, -1550);
    assert_eq!(statistics.min_temp, -1550);
    assert_eq!(line, "Avg/Max/Min temperature = -15.50/-15.50/-15.50");
}

#[test]
fn statistics_refuses_when_the_counter_is_full() {
    let mut statistics = StatisticsDisplay { max_temp: 10, min_temp: 5, temp_sum: 100, num_reading: u32::MAX };
    assert!(statistics.receive(&reading(7)).is_err());
    assert_eq!(statistics.num_reading, u32::MAX);
    assert_eq!(statistics.temp_sum, 100);
    assert_eq!(statistics.max_temp, 10);
    assert_eq!(statistics.min_temp, 5);
}

#[test]
fn statistics_refuses_when_the_sum_is_full() {
    let mut statistics = StatisticsDisplay { max_temp: 10, min_temp: 5, temp_sum: i128::MAX, num_reading: 2 };
    assert!(statistics.receive(&reading(1)).is_err());
    assert_eq!(statistics.temp_sum, i128::MAX);
    assert!(statistics.receive(&reading(-1)).is_ok());
    assert_eq!(statistics.temp_sum, i128::MAX - 1);
    assert_eq!(statistics.min_temp, -1);
}

#[test]
fn average_rounds_towards_zero() {
    assert_eq!(average(24000, 3), 8000);
    assert_eq!(average(7, 2), 3);
    assert_eq!(average(-7, 2), -3);
    assert_eq!(average(0, 5), 0);
    assert_eq!(average(i128::MIN, 1), i128::MIN);
    assert_eq!(average(i128::MIN, 2), i128::MIN / 2);
    assert_eq!(average(i128::MAX, 1), i128::MAX);
}

#[test]
fn weather_station_scenario() {
    let mut station = WeatherData::new();
    assert_eq!(station.measurements(), Measurements { temperature: 0, humidity: 0, pressure: 0 });
    let current = station.register_observer(WeatherDisplay::CurrentConditions(CurrentConditionsDisplay::new()));
    let statistics = station.register_observer(WeatherDisplay::Statistics(StatisticsDisplay::new()));

    let first = station.set_measurements(8000, 6500, 3040).unwrap();
    assert_eq!(first[0].handle, current);
    assert_eq!(first[0].line, "Current conditions: 80.00F degrees and 65.00% humidity");
    assert_eq!(first[1].handle, statistics);
    assert_eq!(first[1].line, "Avg/Max/Min temperature = 80.00/80.00/80.00");
    station.set_measurements(8200, 7000, 2920).unwrap();
    let third = station.set_measurements(7800, 9000, 2920).unwrap();
    assert_eq!(third[1].line, "Avg/Max/Min temperature = 80.00/82.00/78.00");

    station.remove_observer(current);
    let fourth = station.set_measurements(8500, 7500, 2820).unwrap();
    assert_eq!(fourth.len(), 1);
    assert_eq!(fourth[0].handle, statistics);
    assert_eq!(fourth[0].line, "Avg/Max/Min temperature = 81.25/85.00/78.00");
    assert_eq!(station.measurements(), Measurements { temperature: 8500, humidity: 7500, pressure: 2820 });
    match station.observer(current) {
        Some(WeatherDisplay::CurrentConditions(display)) => {
            assert_eq!(display.temperature, 7800);
            assert_eq!(display.humidity, 9000);
        },
        _ => panic!("not a conditions display"),
    }
    let again = station.notify_observers().unwrap();
    assert_eq!(again[0].line, "Avg/Max/Min temperature = 82.00/85.00/78.00");
}

#[test]
fn refusal_stops_the_cycle_and_keeps_the_state() {
    let zero = Measurements { temperature: 0, humidity: 0, pressure: 0 };
    let mut registry: Registry<Measurements, WeatherDisplay> = Registry::new(zero);
    let first = registry.enroll(WeatherDisplay::CurrentConditions(CurrentConditionsDisplay::new()));
    let full = registry.enroll(WeatherDisplay::Statistics(StatisticsDisplay {
        max_temp: 9000,
        min_temp: 1000,
        temp_sum: 5000,
        num_reading: u32::MAX,
    }));
    let last = registry.enroll(WeatherDisplay::CurrentConditions(CurrentConditionsDisplay::new()));
    registry.register(first);
    registry.register(full);
    registry.register(last);

    let payload = Measurements { temperature: 8000, humidity: 6500, pressure: 3040 };
    let failure = registry.set_state(payload).unwrap_err();
    assert_eq!(failure.handle, full);
    assert_eq!(failure.delivered.len(), 1);
    assert_eq!(failure.delivered[0].handle, first);
    assert_eq!(failure.delivered[0].line, "Current conditions: 80.00F degrees and 65.00% humidity");
    assert_eq!(*registry.state(), payload);
    match registry.listener(first) {
        Some(WeatherDisplay::CurrentConditions(display)) => assert_eq!(display.temperature, 8000),
        _ => panic!("not a conditions display"),
    }
    match registry.listener(full) {
        Some(WeatherDisplay::Statistics(display)) => {
            assert_eq!(display.num_reading, u32::MAX);
            assert_eq!(display.temp_sum, 5000);
        },
        _ => panic!("not a statistics display"),
    }
    match registry.listener(last) {
        Some(WeatherDisplay::CurrentConditions(display)) => assert_eq!(display.temperature, 0),
        _ => panic!("not a conditions display"),
    }
    // once the full display is removed the cycle runs to its end
    registry.remove(full);
    assert_eq!(registry.notify_all().unwrap().len(), 2);
}

#[test]
fn weather_display_comes_back_by_its_handle() {
    let mut station = WeatherData::new();
    let current = station.register_observer(WeatherDisplay::CurrentConditions(CurrentConditionsDisplay::new()));
    station.remove_observer(current);
    assert!(station.set_measurements(100, 200, 300).unwrap().is_empty());
    assert!(station.register(current));
    let deliveries = station.set_measurements(150, 250, 350).unwrap();
    assert_eq!(deliveries.len(), 1);
    assert_eq!(deliveries[0].handle, current);
    assert_eq!(deliveries[0].line, "Current conditions: 1.50F degrees and 2.50% humidity");
}
