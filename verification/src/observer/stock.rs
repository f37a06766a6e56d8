//! A stock whose price is watched by displays.
//!
//! Prices are fixed-point: a `u64` counts hundredths, so `10500` is `105.00`.
//! A percentage change is fixed-point too, and counts hundredths of a percent,
//! rounded towards zero: `476` is `4.76%`.
use crate::observer::laws::lemma_outcome_delivers_to_all;
use crate::observer::registry::{
    delivered_to_all, reports, Delivery, Handle, Listener, ListenerFailure, Refused, Registry, RegistryView,
};
use crate::text::{fixed2, fixed2_text, signed_fixed2, signed_fixed2_text};
use vstd::prelude::*;
use vstd::string::StringExecFns;

verus! {

/// The change from `last` to `price` in hundredths of a percent of `last`,
/// rounded towards zero. `last` is above zero.
pub open spec fn percent_change(last: u64, price: u64) -> int {
    if price >= last {
        ((price - last) * 10000) / (last as int)
    } else {
        -(((last - price) * 10000) / (last as int))
    }
}

/// Computes the change from `last` to `price`.
pub fn change_between(last: u64, price: u64) -> (change: i128)
    requires
        last > 0,
    ensures
        change == percent_change(last, price),
{
    if price >= last {
        let scaled: u128 = (price - last) as u128 * 10000;
        (scaled / (last as u128)) as i128
    } else {
        let scaled: u128 = (last - price) as u128 * 10000;
        -((scaled / (last as u128)) as i128)
    }
}

/// Shows the price it was told last.
#[derive(Debug)]
pub struct CurrentPricesDisplay {
    pub price: u64,
}

impl CurrentPricesDisplay {
    /// The line for a price.
    pub open spec fn line(price: u64) -> Seq<char> {
        "Current price: $"@ + fixed2(price as nat)
    }

    /// A display that has seen no price: it shows zero.
    pub fn new() -> (display: Self)
        ensures
            display.price == 0,
    {
        CurrentPricesDisplay { price: 0 }
    }

    /// The line that shows the price.
    pub fn display(&self) -> (line: String)
        ensures
            line@ == Self::line(self.price),
    {
        let mut line = String::from_str("Current price: $");
        line.append(fixed2_text(self.price as u128).as_str());
        line
    }
}

impl Listener<u64> for CurrentPricesDisplay {
    open spec fn accepts(&self, payload: u64) -> bool {
        true
    }

    open spec fn after(&self, payload: u64) -> Self {
        CurrentPricesDisplay { price: payload }
    }

    open spec fn emitted(&self, payload: u64) -> Seq<char> {
        Self::line(payload)
    }

    fn receive(&mut self, payload: &u64) -> (outcome: Result<String, Refused>) {
        self.price = *payload;
        Ok(self.display())
    }
}

/// Shows by how much the price moved against the price before it.
///
/// The first price only sets the baseline: there is nothing to compare it
/// with, and the change stays as it was. From then on each price is compared
/// with the one before it. Against a baseline of zero no relative change
/// exists: the display then keeps the change it held and takes the price as
/// its new baseline, as it does with the first price. It never refuses.
#[derive(Debug)]
pub struct PercentageChangeDisplay {
    pub last_price: Option<u64>,
    pub change: i128,
}

impl PercentageChangeDisplay {
    /// The line for a change.
    pub open spec fn line(change: i128) -> Seq<char> {
        "Percentage change: "@ + signed_fixed2(change as int) + "%"@
    }

    /// The change the display holds once it has been handed `price`.
    pub open spec fn change_after(&self, price: u64) -> i128 {
        match self.last_price {
            Some(last) => if last > 0 {
                percent_change(last, price) as i128
            } else {
                self.change
            },
            None => self.change,
        }
    }

    /// A display without a baseline, showing no change.
    pub fn new() -> (display: Self)
        ensures
            display.last_price is None,
            display.change == 0,
    {
        PercentageChangeDisplay { last_price: None, change: 0 }
    }

    /// The line that shows the change.
    pub fn display(&self) -> (line: String)
        ensures
            line@ == Self::line(self.change),
    {
        let mut line = String::from_str("Percentage change: ");
        line.append(signed_fixed2_text(self.change).as_str());
        line.append("%");
        line
    }
}

impl Listener<u64> for PercentageChangeDisplay {
    open spec fn accepts(&self, payload: u64) -> bool {
        true
    }

    open spec fn after(&self, payload: u64) -> Self {
        PercentageChangeDisplay { last_price: Some(payload), change: self.change_after(payload) }
    }

    open spec fn emitted(&self, payload: u64) -> Seq<char> {
        Self::line(self.change_after(payload))
    }

    fn receive(&mut self, payload: &u64) -> (outcome: Result<String, Refused>) {
        let price = *payload;
        match self.last_price {
            Some(last) => {
                if last > 0 {
                    self.change = change_between(last, price);
                }
            },
            None => {},
        }
        self.last_price = Some(price);
        Ok(self.display())
    }
}

/// The displays that can watch a stock.
#[derive(Debug)]
pub enum StockDisplay {
    CurrentPrices(CurrentPricesDisplay),
    PercentageChange(PercentageChangeDisplay),
}

impl Listener<u64> for StockDisplay {
    open spec fn accepts(&self, payload: u64) -> bool {
        match *self {
            StockDisplay::CurrentPrices(display) => display.accepts(payload),
            StockDisplay::PercentageChange(display) => display.accepts(payload),
        }
    }

    open spec fn after(&self, payload: u64) -> Self {
        match *self {
            StockDisplay::CurrentPrices(display) => StockDisplay::CurrentPrices(display.after(payload)),
            StockDisplay::PercentageChange(display) => StockDisplay::PercentageChange(
                display.after(payload),
            ),
        }
    }

    open spec fn emitted(&self, payload: u64) -> Seq<char> {
        match *self {
            StockDisplay::CurrentPrices(display) => display.emitted(payload),
            StockDisplay::PercentageChange(display) => display.emitted(payload),
        }
    }

    fn receive(&mut self, payload: &u64) -> (outcome: Result<String, Refused>) {
        match self {
            StockDisplay::CurrentPrices(display) => display.receive(payload),
            StockDisplay::PercentageChange(display) => display.receive(payload),
        }
    }
}

/// The stock: its price and the displays that watch it.
pub struct StockData {
    registry: Registry<u64, StockDisplay>,
}

impl View for StockData {
    type V = RegistryView<u64, StockDisplay>;

    closed spec fn view(&self) -> RegistryView<u64, StockDisplay> {
        self.registry@
    }
}

impl StockData {
    /// Every registered handle names a display of this stock.
    pub open spec fn wf(&self) -> bool {
        self@.wf()
    }

    /// A stock at price zero that nobody watches.
    pub fn new() -> (stock: Self)
        ensures
            stock.wf(),
            stock@.state == 0,
            stock@.listeners.len() == 0,
            stock@.pool.len() == 0,
    {
        StockData { registry: Registry::new(0) }
    }

    /// Takes `observer` in and registers it behind those already registered.
    /// The handle names it from now on.
    pub fn register_observer(&mut self, observer: StockDisplay) -> (handle: Handle)
        requires
            old(self).wf(),
        ensures
            final(self).wf(),
            handle.slot() == old(self)@.pool.len(),
            final(self)@ == old(self)@.enroll(observer).register(handle),
            final(self)@.listeners == old(self)@.listeners.push(handle),
    {
        let handle = self.registry.enroll(observer);
        self.registry.register(handle);
        handle
    }

    /// Registers the listener that `handle` names once more, behind those
    /// already registered: one that was removed comes back, one that is still
    /// registered stands twice. Returns whether `handle` names a listener; one
    /// that does not is left out.
    pub fn register(&mut self, handle: Handle) -> (known: bool)
        requires
            old(self).wf(),
        ensures
            final(self).wf(),
            known == old(self)@.knows(handle),
            final(self)@ == old(self)@.register(handle),
    {
        self.registry.register(handle)
    }

    /// Removes the display that `handle` names from the watchers. Nothing
    /// happens if it is not among them.
    pub fn remove_observer(&mut self, handle: Handle)
        requires
            old(self).wf(),
        ensures
            final(self).wf(),
            final(self)@ == old(self)@.remove(handle),
    {
        self.registry.remove(handle);
    }

    /// Shows the current price to every watcher again, in registration order.
    pub fn notify_observers(&mut self) -> (outcome: Result<Vec<Delivery>, ListenerFailure>)
        requires
            old(self).wf(),
        ensures
            final(self).wf(),
            final(self)@ == old(self)@.notified(),
            reports(outcome, old(self)@.cycle()),
            delivered_to_all(outcome, old(self)@.listeners),
    {
        let outcome = self.registry.notify_all();
        proof {
            lemma_outcome_delivers_to_all(outcome, old(self)@.pool, old(self)@.listeners, old(self)@.state);
        }
        outcome
    }

    /// Sets the price and shows it to every watcher, in registration order.
    pub fn set_price(&mut self, price: u64) -> (outcome: Result<Vec<Delivery>, ListenerFailure>)
        requires
            old(self).wf(),
        ensures
            final(self).wf(),
            final(self)@ == old(self)@.commit(price).notified(),
            final(self)@.state == price,
            reports(outcome, old(self)@.commit(price).cycle()),
            delivered_to_all(outcome, old(self)@.listeners),
    {
        let outcome = self.registry.set_state(price);
        proof {
            lemma_outcome_delivers_to_all(outcome, old(self)@.pool, old(self)@.listeners, self@.state);
        }
        outcome
    }

    /// The current price.
    pub fn price(&self) -> (price: u64)
        ensures
            price == self@.state,
    {
        *self.registry.state()
    }

    /// The display that `handle` names, watching or not.
    pub fn observer(&self, handle: Handle) -> (display: Option<&StockDisplay>)
        ensures
            self@.knows(handle) ==> display == Some(&self@.pool[handle.slot()]),
            !self@.knows(handle) ==> display is None,
    {
        self.registry.listener(handle)
    }
}

} // verus!
