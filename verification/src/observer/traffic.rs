//! Traffic data whose condition is watched by controllers, reporters and
//! response units.
use crate::observer::laws::lemma_outcome_delivers_to_all;
use crate::observer::registry::{
    delivered_to_all, reports, Delivery, Handle, Listener, ListenerFailure, Refused, Registry, RegistryView,
};
use vstd::prelude::*;
use vstd::string::StringExecFns;

verus! {

/// Adjusts the signals of one crossing.
#[derive(Debug)]
pub struct TrafficLightController {
    pub id: String,
}

impl TrafficLightController {
    /// The line for a condition.
    pub open spec fn adjustment(&self, traffic_condition: Seq<char>) -> Seq<char> {
        "TrafficLightController "@ + self.id@ + ": Adjusting signals for traffic condition: "@
            + traffic_condition
    }

    /// The controller called `id`.
    pub fn new(id: &str) -> (controller: Self)
        ensures
            controller.id@ == id@,
    {
        TrafficLightController { id: id.to_string() }
    }

    /// The line that says how the signals follow `traffic_condition`.
    pub fn adjust_signals(&self, traffic_condition: &str) -> (line: String)
        ensures
            line@ == self.adjustment(traffic_condition@),
    {
        let mut line = String::from_str("TrafficLightController ");
        line.append(self.id.as_str());
        line.append(": Adjusting signals for traffic condition: ");
        line.append(traffic_condition);
        line
    }
}

impl Listener<String> for TrafficLightController {
    open spec fn accepts(&self, payload: String) -> bool {
        true
    }

    open spec fn after(&self, payload: String) -> Self {
        *self
    }

    open spec fn emitted(&self, payload: String) -> Seq<char> {
        self.adjustment(payload@)
    }

    fn receive(&mut self, payload: &String) -> (outcome: Result<String, Refused>) {
        Ok(self.adjust_signals(payload.as_str()))
    }
}

/// Writes a report for every condition.
#[derive(Debug)]
pub struct TrafficReportGenerator {
    pub report: String,
}

impl TrafficReportGenerator {
    /// The line for a condition.
    pub open spec fn announcement(traffic_condition: Seq<char>) -> Seq<char> {
        "TrafficReportGenerator: Generating report for traffic condition: "@ + traffic_condition
    }

    /// A generator with an empty report.
    pub fn new() -> (generator: Self)
        ensures
            generator.report@.len() == 0,
    {
        TrafficReportGenerator { report: String::new() }
    }

    /// The line that announces the report on `traffic_condition`.
    pub fn generate_report(&self, traffic_condition: &str) -> (line: String)
        ensures
            line@ == Self::announcement(traffic_condition@),
    {
        let mut line = String::from_str("TrafficReportGenerator: Generating report for traffic condition: ");
        line.append(traffic_condition);
        line
    }
}

impl Listener<String> for TrafficReportGenerator {
    open spec fn accepts(&self, payload: String) -> bool {
        true
    }

    open spec fn after(&self, payload: String) -> Self {
        *self
    }

    open spec fn emitted(&self, payload: String) -> Seq<char> {
        Self::announcement(payload@)
    }

    fn receive(&mut self, payload: &String) -> (outcome: Result<String, Refused>) {
        Ok(self.generate_report(payload.as_str()))
    }
}

/// Prepares a response to every condition.
#[derive(Debug)]
pub struct EmergencyResponseUnit {
    pub unit_id: String,
}

impl EmergencyResponseUnit {
    /// The line for a condition.
    pub open spec fn preparation(&self, traffic_condition: Seq<char>) -> Seq<char> {
        "EmergencyResponseUnit "@ + self.unit_id@ + ": Preparing response for traffic condition: "@
            + traffic_condition
    }

    /// The unit called `unit_id`.
    pub fn new(unit_id: &str) -> (unit: Self)
        ensures
            unit.unit_id@ == unit_id@,
    {
        EmergencyResponseUnit { unit_id: unit_id.to_string() }
    }

    /// The line that says how the unit prepares for `traffic_condition`.
    pub fn prepare_response(&self, traffic_condition: &str) -> (line: String)
        ensures
            line@ == self.preparation(traffic_condition@),
    {
        let mut line = String::from_str("EmergencyResponseUnit ");
        line.append(self.unit_id.as_str());
        line.append(": Preparing response for traffic condition: ");
        line.append(traffic_condition);
        line
    }
}

impl Listener<String> for EmergencyResponseUnit {
    open spec fn accepts(&self, payload: String) -> bool {
        true
    }

    open spec fn after(&self, payload: String) -> Self {
        *self
    }

    open spec fn emitted(&self, payload: String) -> Seq<char> {
        self.preparation(payload@)
    }

    fn receive(&mut self, payload: &String) -> (outcome: Result<String, Refused>) {
        Ok(self.prepare_response(payload.as_str()))
    }
}

/// Those that can watch traffic data.
#[derive(Debug)]
pub enum TrafficObserver {
    LightController(TrafficLightController),
    ReportGenerator(TrafficReportGenerator),
    ResponseUnit(EmergencyResponseUnit),
}

impl Listener<String> for TrafficObserver {
    open spec fn accepts(&self, payload: String) -> bool {
        true
    }

    open spec fn after(&self, payload: String) -> Self {
        *self
    }

    open spec fn emitted(&self, payload: String) -> Seq<char> {
        match *self {
            TrafficObserver::LightController(controller) => controller.adjustment(payload@),
            TrafficObserver::ReportGenerator(generator) => TrafficReportGenerator::announcement(payload@),
            TrafficObserver::ResponseUnit(unit) => unit.preparation(payload@),
        }
    }

    fn receive(&mut self, payload: &String) -> (outcome: Result<String, Refused>) {
        match self {
            TrafficObserver::LightController(controller) => Ok(controller.adjust_signals(payload.as_str())),
            TrafficObserver::ReportGenerator(generator) => Ok(generator.generate_report(payload.as_str())),
            TrafficObserver::ResponseUnit(unit) => Ok(unit.prepare_response(payload.as_str())),
        }
    }
}

/// The traffic data: the condition set last, and those that watch it.
pub struct TrafficData {
    registry: Registry<String, TrafficObserver>,
}

impl View for TrafficData {
    type V = RegistryView<String, TrafficObserver>;

    closed spec fn view(&self) -> RegistryView<String, TrafficObserver> {
        self.registry@
    }
}

impl TrafficData {
    /// Every registered handle names a watcher of this data.
    pub open spec fn wf(&self) -> bool {
        self@.wf()
    }

    /// Traffic data with an empty condition that nobody watches.
    pub fn new() -> (data: Self)
        ensures
            data.wf(),
            data@.state@.len() == 0,
            data@.listeners.len() == 0,
            data@.pool.len() == 0,
    {
        TrafficData { registry: Registry::new(String::new()) }
    }

    /// Takes `observer` in and registers it behind those already registered.
    /// The handle names it from now on.
    pub fn register_observer(&mut self, observer: TrafficObserver) -> (handle: Handle)
        requires
            old(self).wf(),
        ensures
            final(self).wf(),
            handle.slot() == old(self)@.pool.len(),
            final(self)@ == old(self)@.enroll(observer).register(handle),
            final(self)@.listeners == old(self)@.listeners.push(handle),
    {
        let handle = self.registry.enroll(observer);
        self.registry.register(handle);
        handle
    }

    /// Registers the listener that `handle` names once more, behind those
    /// already registered: one that was removed comes back, one that is still
    /// registered stands twice. Returns whether `handle` names a listener; one
    /// that does not is left out.
    pub fn register(&mut self, handle: Handle) -> (known: bool)
        requires
            old(self).wf(),
        ensures
            final(self).wf(),
            known == old(self)@.knows(handle),
            final(self)@ == old(self)@.register(handle),
    {
        self.registry.register(handle)
    }

    /// Removes the watcher that `handle` names. Nothing happens if it is not
    /// watching.
    pub fn remove_observer(&mut self, handle: Handle)
        requires
            old(self).wf(),
        ensures
            final(self).wf(),
            final(self)@ == old(self)@.remove(handle),
    {
        self.registry.remove(handle);
    }

    /// Tells every watcher the current condition again, in registration
    /// order.
    pub fn notify_observers(&mut self) -> (outcome: Result<Vec<Delivery>, ListenerFailure>)
        requires
            old(self).wf(),
        ensures
            final(self).wf(),
            final(self)@ == old(self)@.notified(),
            reports(outcome, old(self)@.cycle()),
            delivered_to_all(outcome, old(self)@.listeners),
    {
        let outcome = self.registry.notify_all();
        proof {
            lemma_outcome_delivers_to_all(outcome, old(self)@.pool, old(self)@.listeners, old(self)@.state);
        }
        outcome
    }

    /// Sets the condition and tells every watcher, in registration order.
    pub fn set_condition(&mut self, condition: &str) -> (outcome: Result<Vec<Delivery>, ListenerFailure>)
        requires
            old(self).wf(),
        ensures
            final(self).wf(),
            final(self)@.state@ == condition@,
            final(self)@ == old(self)@.commit(final(self)@.state).notified(),
            reports(outcome, old(self)@.commit(final(self)@.state).cycle()),
            delivered_to_all(outcome, old(self)@.listeners),
    {
        let outcome = self.registry.set_state(condition.to_string());
        proof {
            lemma_outcome_delivers_to_all(outcome, old(self)@.pool, old(self)@.listeners, self@.state);
        }
        outcome
    }

    /// The condition set last.
    pub fn condition(&self) -> (condition: &String)
        ensures
            *condition == self@.state,
    {
        self.registry.state()
    }

    /// The watcher that `handle` names, watching or not.
    pub fn observer(&self, handle: Handle) -> (watcher: Option<&TrafficObserver>)
        ensures
            self@.knows(handle) ==> watcher == Some(&self@.pool[handle.slot()]),
            !self@.knows(handle) ==> watcher is None,
    {
        self.registry.listener(handle)
    }
}

} // verus!
