//! A weather station whose measurements are watched by displays.
//!
//! Measurements are fixed-point: an `i64` counts hundredths, so `8000` is
//! `80.00`. An average is rounded towards zero.
use crate::observer::registry::{
    reports, Delivery, Handle, Listener, ListenerFailure, Refused, Registry, RegistryView,
};
use crate::text::{signed_fixed2, signed_fixed2_text};
use vstd::prelude::*;
use vstd::string::StringExecFns;

verus! {

/// One reading of the station, each value in hundredths.
#[derive(Clone, Copy, Debug, PartialEq, Eq, Structural)]
pub struct Measurements {
    pub temperature: i64,
    pub humidity: i64,
    pub pressure: i64,
}

/// `sum` divided by `count`, rounded towards zero. `count` is above zero.
pub open spec fn average_of(sum: int, count: int) -> int {
    if sum >= 0 {
        sum / count
    } else {
        -((-sum) / count)
    }
}

/// Computes the average of `count` readings that add up to `sum`.
pub fn average(sum: i128, count: u32) -> (avg: i128)
    requires
        count > 0,
    ensures
        avg == average_of(sum as int, count as int),
{
    if sum >= 0 {
        ((sum as u128) / (count as u128)) as i128
    } else {
        let below: u128 = (-(sum + 1)) as u128;
        let magnitude: u128 = below + 1;
        let quotient: u128 = magnitude / (count as u128);
        assert(quotient <= magnitude) by (nonlinear_arith)
            requires
                quotient == magnitude / (count as u128),
                count > 0,
        ;
        if quotient > i128::MAX as u128 {
            i128::MIN
        } else {
            -(quotient as i128)
        }
    }
}

/// Shows the temperature and humidity it was told last.
#[derive(Debug)]
pub struct CurrentConditionsDisplay {
    pub temperature: i64,
    pub humidity: i64,
}

impl CurrentConditionsDisplay {
    /// The line for a temperature and a humidity.
    pub open spec fn line(temperature: i64, humidity: i64) -> Seq<char> {
        "Current conditions: "@ + signed_fixed2(temperature as int) + "F degrees and "@ + signed_fixed2(
            humidity as int,
        ) + "% humidity"@
    }

    /// A display that has seen no reading: it shows zero for both.
    pub fn new() -> (display: Self)
        ensures
            display.temperature == 0,
            display.humidity == 0,
    {
        CurrentConditionsDisplay { temperature: 0, humidity: 0 }
    }

    /// The line that shows the conditions.
    pub fn display(&self) -> (line: String)
        ensures
            line@ == Self::line(self.temperature, self.humidity),
    {
        let mut line = String::from_str("Current conditions: ");
        line.append(signed_fixed2_text(self.temperature as i128).as_str());
        line.append("F degrees and ");
        line.append(signed_fixed2_text(self.humidity as i128).as_str());
        line.append("% humidity");
        line
    }
}

impl Listener<Measurements> for CurrentConditionsDisplay {
    open spec fn accepts(&self, payload: Measurements) -> bool {
        true
    }

    open spec fn after(&self, payload: Measurements) -> Self {
        CurrentConditionsDisplay { temperature: payload.temperature, humidity: payload.humidity }
    }

    open spec fn emitted(&self, payload: Measurements) -> Seq<char> {
        Self::line(payload.temperature, payload.humidity)
    }

    fn receive(&mut self, payload: &Measurements) -> (outcome: Result<String, Refused>) {
        self.temperature = payload.temperature;
        self.humidity = payload.humidity;
        Ok(self.display())
    }
}

/// Keeps the highest, the lowest and the average temperature of the readings
/// it was handed.
///
/// The first reading is both the highest and the lowest. Before it the two
/// fields mean nothing, and no line can be shown. The display refuses a
/// reading that its counter or its sum could not hold, and stays as it was.
#[derive(Debug)]
pub struct StatisticsDisplay {
    pub max_temp: i64,
    pub min_temp: i64,
    pub temp_sum: i128,
    pub num_reading: u32,
}

impl StatisticsDisplay {
    /// The line for an average, a highest and a lowest temperature.
    pub open spec fn line(avg: int, max_temp: i64, min_temp: i64) -> Seq<char> {
        "Avg/Max/Min temperature = "@ + signed_fixed2(avg) + "/"@ + signed_fixed2(max_temp as int) + "/"@
            + signed_fixed2(min_temp as int)
    }

    /// The average of the readings so far; there is at least one.
    pub open spec fn average_temp(&self) -> int {
        average_of(self.temp_sum as int, self.num_reading as int)
    }

    /// Whether the counter and the sum have room for `temperature`.
    pub open spec fn has_room(&self, temperature: i64) -> bool {
        self.num_reading < u32::MAX && i128::MIN <= self.temp_sum + temperature <= i128::MAX
    }

    /// The display with `temperature` counted in.
    pub open spec fn with_reading(&self, temperature: i64) -> Self {
        StatisticsDisplay {
            max_temp: if self.num_reading == 0 || temperature > self.max_temp {
                temperature
            } else {
                self.max_temp
            },
            min_temp: if self.num_reading == 0 || temperature < self.min_temp {
                temperature
            } else {
                self.min_temp
            },
            temp_sum: (self.temp_sum + temperature) as i128,
            num_reading: (self.num_reading + 1) as u32,
        }
    }

    /// A display without readings.
    pub fn new() -> (display: Self)
        ensures
            display.num_reading == 0,
            display.temp_sum == 0,
            display.max_temp == 0,
            display.min_temp == 0,
    {
        StatisticsDisplay { max_temp: 0, min_temp: 0, temp_sum: 0, num_reading: 0 }
    }

    /// The line that shows the statistics of at least one reading.
    fn statistics_line(&self) -> (line: String)
        requires
            self.num_reading > 0,
        ensures
            line@ == Self::line(self.average_temp(), self.max_temp, self.min_temp),
    {
        let mut line = String::from_str("Avg/Max/Min temperature = ");
        line.append(signed_fixed2_text(average(self.temp_sum, self.num_reading)).as_str());
        line.append("/");
        line.append(signed_fixed2_text(self.max_temp as i128).as_str());
        line.append("/");
        line.append(signed_fixed2_text(self.min_temp as i128).as_str());
        line
    }

    /// The line that shows the statistics, or `None` before the first reading.
    pub fn display(&self) -> (line: Option<String>)
        ensures
            self.num_reading == 0 ==> line is None,
            self.num_reading > 0 ==> line is Some && line->0@ == Self::line(
                self.average_temp(),
                self.max_temp,
                self.min_temp,
            ),
    {
        if self.num_reading == 0 {
            None
        } else {
            Some(self.statistics_line())
        }
    }

    /// The average of the readings, or `None` before the first.
    pub fn average_temperature(&self) -> (avg: Option<i128>)
        ensures
            self.num_reading == 0 ==> avg is None,
            self.num_reading > 0 ==> avg == Some(self.average_temp() as i128),
    {
        if self.num_reading == 0 {
            None
        } else {
            Some(average(self.temp_sum, self.num_reading))
        }
    }
}

impl Listener<Measurements> for StatisticsDisplay {
    open spec fn accepts(&self, payload: Measurements) -> bool {
        self.has_room(payload.temperature)
    }

    open spec fn after(&self, payload: Measurements) -> Self {
        if self.has_room(payload.temperature) {
            self.with_reading(payload.temperature)
        } else {
            *self
        }
    }

    open spec fn emitted(&self, payload: Measurements) -> Seq<char> {
        let next = self.with_reading(payload.temperature);
        Self::line(next.average_temp(), next.max_temp, next.min_temp)
    }

    fn receive(&mut self, payload: &Measurements) -> (outcome: Result<String, Refused>) {
        let temperature = payload.temperature;
        if self.num_reading == u32::MAX {
            return Err(Refused);
        }
        let sum = match self.temp_sum.checked_add(temperature as i128) {
            Some(sum) => sum,
            None => {
                return Err(Refused);
            },
        };
        if self.num_reading == 0 || temperature > self.max_temp {
            self.max_temp = temperature;
        }
        if self.num_reading == 0 || temperature < self.min_temp {
            self.min_temp = temperature;
        }
        self.temp_sum = sum;
        self.num_reading = self.num_reading + 1;
        Ok(self.statistics_line())
    }
}

/// The displays that can watch a weather station.
#[derive(Debug)]
pub enum WeatherDisplay {
    CurrentConditions(CurrentConditionsDisplay),
    Statistics(StatisticsDisplay),
}

impl Listener<Measurements> for WeatherDisplay {
    open spec fn accepts(&self, payload: Measurements) -> bool {
        match *self {
            WeatherDisplay::CurrentConditions(display) => display.accepts(payload),
            WeatherDisplay::Statistics(display) => display.accepts(payload),
        }
    }

    open spec fn after(&self, payload: Measurements) -> Self {
        match *self {
            WeatherDisplay::CurrentConditions(display) => WeatherDisplay::CurrentConditions(
                display.after(payload),
            ),
            WeatherDisplay::Statistics(display) => WeatherDisplay::Statistics(display.after(payload)),
        }
    }

    open spec fn emitted(&self, payload: Measurements) -> Seq<char> {
        match *self {
            WeatherDisplay::CurrentConditions(display) => display.emitted(payload),
            WeatherDisplay::Statistics(display) => display.emitted(payload),
        }
    }

    fn receive(&mut self, payload: &Measurements) -> (outcome: Result<String, Refused>) {
        match self {
            WeatherDisplay::CurrentConditions(display) => display.receive(payload),
            WeatherDisplay::Statistics(display) => display.receive(payload),
        }
    }
}

/// The station: its last reading and the displays that watch it.
pub struct WeatherData {
    registry: Registry<Measurements, WeatherDisplay>,
}

impl View for WeatherData {
    type V = RegistryView<Measurements, WeatherDisplay>;

    closed spec fn view(&self) -> RegistryView<Measurements, WeatherDisplay> {
        self.registry@
    }
}

impl WeatherData {
    /// Every registered handle names a display of this station.
    pub open spec fn wf(&self) -> bool {
        self@.wf()
    }

    /// A station that nobody watches, all values at zero.
    pub fn new() -> (station: Self)
        ensures
            station.wf(),
            station@.state == (Measurements { temperature: 0, humidity: 0, pressure: 0 }),
            station@.listeners.len() == 0,
            station@.pool.len() == 0,
    {
        WeatherData { registry: Registry::new(Measurements { temperature: 0, humidity: 0, pressure: 0 }) }
    }

    /// Takes `observer` in and registers it behind those already registered.
    /// The handle names it from now on.
    pub fn register_observer(&mut self, observer: WeatherDisplay) -> (handle: Handle)
        requires
            old(self).wf(),
        ensures
            final(self).wf(),
            handle.slot() == old(self)@.pool.len(),
            final(self)@ == old(self)@.enroll(observer).register(handle),
            final(self)@.listeners == old(self)@.listeners.push(handle),
    {
        let handle = self.registry.enroll(observer);
        self.registry.register(handle);
        handle
    }

    /// Registers the listener that `handle` names once more, behind those
    /// already registered: one that was removed comes back, one that is still
    /// registered stands twice. Returns whether `handle` names a listener; one
    /// that does not is left out.
    pub fn register(&mut self, handle: Handle) -> (known: bool)
        requires
            old(self).wf(),
        ensures
            final(self).wf(),
            known == old(self)@.knows(handle),
            final(self)@ == old(self)@.register(handle),
    {
        self.registry.register(handle)
    }

    /// Removes the display that `handle` names from the watchers. Nothing
    /// happens if it is not among them.
    pub fn remove_observer(&mut self, handle: Handle)
        requires
            old(self).wf(),
        ensures
            final(self).wf(),
            final(self)@ == old(self)@.remove(handle),
    {
        self.registry.remove(handle);
    }

    /// Shows the last reading to every watcher again, in registration order.
    pub fn notify_observers(&mut self) -> (outcome: Result<Vec<Delivery>, ListenerFailure>)
        requires
            old(self).wf(),
        ensures
            final(self).wf(),
            final(self)@ == old(self)@.notified(),
            reports(outcome, old(self)@.cycle()),
    {
        self.registry.notify_all()
    }

    /// Takes a reading and shows it to every watcher, in registration order.
    pub fn set_measurements(&mut self, temperature: i64, humidity: i64, pressure: i64) -> (outcome: Result<
        Vec<Delivery>,
        ListenerFailure,
    >)
        requires
            old(self).wf(),
        ensures
            final(self).wf(),
            final(self)@ == old(self)@.commit(Measurements { temperature, humidity, pressure }).notified(),
            final(self)@.state == (Measurements { temperature, humidity, pressure }),
            reports(outcome, old(self)@.commit(Measurements { temperature, humidity, pressure }).cycle()),
    {
        self.registry.set_state(Measurements { temperature, humidity, pressure })
    }

    /// The last reading.
    pub fn measurements(&self) -> (reading: Measurements)
        ensures
            reading == self@.state,
    {
        *self.registry.state()
    }

    /// The display that `handle` names, watching or not.
    pub fn observer(&self, handle: Handle) -> (display: Option<&WeatherDisplay>)
        ensures
            self@.knows(handle) ==> display == Some(&self@.pool[handle.slot()]),
            !self@.knows(handle) ==> display is None,
    {
        self.registry.listener(handle)
    }
}

} // verus!
