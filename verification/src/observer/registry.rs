//! The notification registry.
//!
//! A registry owns its listeners. Whoever enrolls a listener gets a [`Handle`]
//! back and uses it to register the listener, to remove it again and to look
//! at it. The registry keeps the registered handles in registration order and
//! the state that was committed last.
//!
//! A notification cycle hands the committed state to every registered
//! listener, in registration order, and collects the line each one emits.
//! A listener may refuse a payload. The cycle then stops at once: the
//! listeners before it have been notified, those after it are not, and the
//! caller gets a [`ListenerFailure`] that names the listener and carries the
//! deliveries made so far. The state stays committed either way.
//!
//! A cycle borrows the registry exclusively. Nothing can be registered or
//! removed while it runs, least of all by a listener: a removal takes effect
//! with the next cycle. Shared between threads, a registry goes behind one
//! lock, which then serializes registrations, removals and cycles.
use vstd::prelude::*;

verus! {

/// Identity of a listener inside the registry that issued the handle.
///
/// Two handles are the same listener exactly when they are equal; what the
/// listeners hold plays no part in it. A handle is the number of a slot: it
/// means something only to the registry that issued it, and in another
/// registry it names whatever listener has that slot there, or none.
#[derive(Clone, Copy, Debug, PartialEq, Eq, Structural)]
pub struct Handle {
    id: usize,
}

impl Handle {
    /// The place of the listener among those its registry has enrolled.
    pub closed spec fn slot(self) -> int {
        self.id as int
    }

    /// Handles are equal exactly when their slots are.
    pub proof fn lemma_identity(a: Handle, b: Handle)
        ensures
            a == b <==> a.slot() == b.slot(),
            0 <= a.slot() <= usize::MAX,
    {
    }

    /// The number of this handle: the count of listeners enrolled before it.
    pub fn id(&self) -> (id: usize)
        ensures
            id == self.slot(),
    {
        self.id
    }
}

/// What a listener answers when it cannot take a payload.
#[derive(Clone, Copy, Debug, PartialEq, Eq, Structural)]
pub struct Refused;

/// The capability of a listener: to receive a payload.
///
/// The three spec functions say, for a listener in a given state and a
/// payload, whether it takes the payload, what state it is in afterwards and
/// which line it emits. `receive` does exactly that.
pub trait Listener<P>: Sized {
    /// Whether the listener takes `payload`.
    spec fn accepts(&self, payload: P) -> bool;

    /// The listener after it was handed `payload`, taken or refused.
    spec fn after(&self, payload: P) -> Self;

    /// The line the listener emits for a payload that it takes.
    spec fn emitted(&self, payload: P) -> Seq<char>;

    /// Hands `payload` to the listener.
    fn receive(&mut self, payload: &P) -> (outcome: Result<String, Refused>)
        ensures
            *final(self) == old(self).after(*payload),
            outcome is Ok <==> old(self).accepts(*payload),
            outcome matches Ok(line) ==> line@ == old(self).emitted(*payload),
    ;
}

/// One line that one listener emitted during a cycle.
#[derive(Debug)]
pub struct Delivery {
    pub handle: Handle,
    pub line: String,
}

/// A delivery with its line as a sequence of characters.
pub struct DeliveryView {
    pub handle: Handle,
    pub line: Seq<char>,
}

impl View for Delivery {
    type V = DeliveryView;

    open spec fn view(&self) -> DeliveryView {
        DeliveryView { handle: self.handle, line: self.line@ }
    }
}

/// The views of a run of deliveries.
pub open spec fn delivery_views(deliveries: Seq<Delivery>) -> Seq<DeliveryView> {
    deliveries.map_values(|d: Delivery| d@)
}

/// A cycle that a listener cut short.
#[derive(Debug)]
pub struct ListenerFailure {
    /// The listener that refused.
    pub handle: Handle,
    /// The deliveries made before it refused, in order.
    pub delivered: Vec<Delivery>,
}

/// What one notification cycle does: the listeners afterwards, the lines
/// emitted in order, and the listener that cut the cycle short, if one did.
pub struct Cycle<L> {
    pub pool: Seq<L>,
    pub deliveries: Seq<DeliveryView>,
    pub failed: Option<Handle>,
}

/// The cycle that notifies the listeners named by `order`, one after the
/// other, of `payload`. A handle that occurs twice is notified twice.
pub open spec fn run_cycle<P, L: Listener<P>>(pool: Seq<L>, order: Seq<Handle>, payload: P) -> Cycle<L>
    decreases order.len(),
{
    if order.len() == 0 {
        Cycle { pool, deliveries: Seq::empty(), failed: None }
    } else {
        let before = run_cycle(pool, order.drop_last(), payload);
        if before.failed is Some {
            before
        } else {
            let handle = order.last();
            let listener = before.pool[handle.slot()];
            Cycle {
                pool: before.pool.update(handle.slot(), listener.after(payload)),
                deliveries: if listener.accepts(payload) {
                    before.deliveries.push(
                        DeliveryView { handle, line: listener.emitted(payload) },
                    )
                } else {
                    before.deliveries
                },
                failed: if listener.accepts(payload) {
                    None
                } else {
                    Some(handle)
                },
            }
        }
    }
}

/// `order` without every entry equal to `handle`; the rest keeps its order.
pub open spec fn without(order: Seq<Handle>, handle: Handle) -> Seq<Handle>
    decreases order.len(),
{
    if order.len() == 0 {
        order
    } else if order.last() == handle {
        without(order.drop_last(), handle)
    } else {
        without(order.drop_last(), handle).push(order.last())
    }
}

/// The registry as a mathematical value.
pub struct RegistryView<P, L> {
    /// The payload committed last.
    pub state: P,
    /// The registered handles, in registration order.
    pub listeners: Seq<Handle>,
    /// Every listener enrolled so far; a handle's slot is its index here.
    pub pool: Seq<L>,
}

impl<P, L: Listener<P>> RegistryView<P, L> {
    /// Whether `handle` names a listener that this registry has enrolled.
    pub open spec fn knows(self, handle: Handle) -> bool {
        0 <= handle.slot() < self.pool.len()
    }

    /// Every registered handle names an enrolled listener.
    pub open spec fn wf(self) -> bool {
        forall|i: int| 0 <= i < self.listeners.len() ==> self.knows(#[trigger] self.listeners[i])
    }

    /// The registry after it has taken `listener` in, not yet registered.
    pub open spec fn enroll(self, listener: L) -> Self {
        RegistryView { pool: self.pool.push(listener), ..self }
    }

    /// The registry after `handle` was registered: appended, never merged
    /// with an earlier entry. A handle the registry does not know is ignored.
    pub open spec fn register(self, handle: Handle) -> Self {
        if self.knows(handle) {
            RegistryView { listeners: self.listeners.push(handle), ..self }
        } else {
            self
        }
    }

    /// The registry after every entry equal to `handle` was removed.
    pub open spec fn remove(self, handle: Handle) -> Self {
        RegistryView { listeners: without(self.listeners, handle), ..self }
    }

    /// The registry with `payload` as its state.
    pub open spec fn commit(self, payload: P) -> Self {
        RegistryView { state: payload, ..self }
    }

    /// The cycle that notifies the registered listeners of the state.
    pub open spec fn cycle(self) -> Cycle<L> {
        run_cycle(self.pool, self.listeners, self.state)
    }

    /// The registry after that cycle.
    pub open spec fn notified(self) -> Self {
        RegistryView { pool: self.cycle().pool, ..self }
    }
}

/// Whether `outcome` reports `cycle`: the deliveries in order, and the
/// listener that refused where one did.
pub open spec fn reports<L>(outcome: Result<Vec<Delivery>, ListenerFailure>, cycle: Cycle<L>) -> bool {
    match outcome {
        Ok(deliveries) => cycle.failed is None && delivery_views(deliveries@) == cycle.deliveries,
        Err(failure) => cycle.failed == Some(failure.handle) && delivery_views(
            failure.delivered@,
        ) == cycle.deliveries,
    }
}

/// Whether `outcome` is a cycle that ran to its end over `order`: one
/// delivery for each entry, in the same order.
pub open spec fn delivered_to_all(outcome: Result<Vec<Delivery>, ListenerFailure>, order: Seq<Handle>) -> bool {
    &&& outcome matches Ok(deliveries)
    &&& deliveries@.len() == order.len()
    &&& forall|i: int| 0 <= i < order.len() ==> (#[trigger] deliveries@[i]).handle == order[i]
}

/// Once a listener has refused, the rest of the order is not notified.
pub proof fn lemma_cycle_stops<P, L: Listener<P>>(pool: Seq<L>, order: Seq<Handle>, upto: int, payload: P)
    requires
        0 <= upto <= order.len(),
        run_cycle(pool, order.take(upto), payload).failed is Some,
    ensures
        run_cycle(pool, order, payload) == run_cycle(pool, order.take(upto), payload),
    decreases order.len(),
{
    if upto == order.len() {
        assert(order.take(upto) =~= order);
    } else {
        assert(order.drop_last().take(upto) =~= order.take(upto));
        lemma_cycle_stops(pool, order.drop_last(), upto, payload);
    }
}

/// What stays after a removal: the entries other than `handle`.
pub proof fn lemma_without_members(order: Seq<Handle>, handle: Handle)
    ensures
        forall|x: Handle| #[trigger] without(order, handle).contains(x) <==> order.contains(x) && x != handle,
        without(order, handle).len() <= order.len(),
    decreases order.len(),
{
    let rest = without(order, handle);
    if order.len() > 0 {
        let front = order.drop_last();
        let last = order.last();
        let inner = without(front, handle);
        lemma_without_members(front, handle);
        assert forall|x: Handle| #[trigger] rest.contains(x) <==> order.contains(x) && x != handle by {
            if rest.contains(x) {
                let j = choose|j: int| 0 <= j < rest.len() && rest[j] == x;
                if j < inner.len() {
                    assert(inner[j] == x);
                    assert(inner.contains(x));
                    assert(front.contains(x));
                    let k = choose|k: int| 0 <= k < front.len() && front[k] == x;
                    assert(order[k] == x);
                } else {
                    assert(order[order.len() - 1] == x);
                }
            }
            if order.contains(x) && x != handle {
                let k = choose|k: int| 0 <= k < order.len() && order[k] == x;
                if k == order.len() - 1 {
                    assert(rest[rest.len() - 1] == x);
                } else {
                    assert(front[k] == x);
                    assert(front.contains(x));
                    assert(inner.contains(x));
                    let j = choose|j: int| 0 <= j < inner.len() && inner[j] == x;
                    assert(rest[j] == x);
                }
            }
        }
    }
}

/// The registry: the listeners it owns, the registered handles in
/// registration order, and the state committed last.
pub struct Registry<P, L> {
    pool: Vec<L>,
    listeners: Vec<Handle>,
    state: P,
}

impl<P, L: Listener<P>> View for Registry<P, L> {
    type V = RegistryView<P, L>;

    closed spec fn view(&self) -> RegistryView<P, L> {
        RegistryView { state: self.state, listeners: self.listeners@, pool: self.pool@ }
    }
}

impl<P, L: Listener<P>> Registry<P, L> {
    /// The invariant of a registry: every registered handle names a listener
    /// that it has enrolled.
    pub open spec fn wf(&self) -> bool {
        self@.wf()
    }

    /// A registry without listeners, holding `state`.
    pub fn new(state: P) -> (registry: Self)
        ensures
            registry.wf(),
            registry@.state == state,
            registry@.listeners.len() == 0,
            registry@.pool.len() == 0,
    {
        Registry { pool: Vec::new(), listeners: Vec::new(), state }
    }

    /// Takes `listener` in and returns the handle that names it from now on.
    /// The listener is not registered yet.
    pub fn enroll(&mut self, listener: L) -> (handle: Handle)
        requires
            old(self).wf(),
        ensures
            final(self).wf(),
            final(self)@ == old(self)@.enroll(listener),
            handle.slot() == old(self)@.pool.len(),
            final(self)@.knows(handle),
    {
        let handle = Handle { id: self.pool.len() };
        self.pool.push(listener);
        proof {
            assert forall|i: int| 0 <= i < self@.listeners.len() implies self@.knows(
                #[trigger] self@.listeners[i],
            ) by {
                assert(old(self)@.knows(old(self)@.listeners[i]));
            }
        }
        handle
    }

    /// Appends `handle` to the registered listeners. Nothing is merged: a
    /// handle registered twice stands twice in the order and is notified
    /// twice in each cycle. Returns whether the registry knows the handle; one
    /// that it does not know is left out.
    pub fn register(&mut self, handle: Handle) -> (known: bool)
        requires
            old(self).wf(),
        ensures
            final(self).wf(),
            known == old(self)@.knows(handle),
            final(self)@ == old(self)@.register(handle),
    {
        if handle.id < self.pool.len() {
            self.listeners.push(handle);
            proof {
                assert forall|i: int| 0 <= i < self@.listeners.len() implies self@.knows(
                    #[trigger] self@.listeners[i],
                ) by {
                    if i < old(self)@.listeners.len() {
                        assert(old(self)@.knows(old(self)@.listeners[i]));
                    }
                }
            }
            true
        } else {
            false
        }
    }

    /// Removes every entry equal to `handle` from the registered listeners.
    /// A handle that is not registered leaves the registry as it is. The
    /// listener itself stays enrolled and can be registered again.
    pub fn remove(&mut self, handle: Handle)
        requires
            old(self).wf(),
        ensures
            final(self).wf(),
            final(self)@ == old(self)@.remove(handle),
    {
        let mut kept: Vec<Handle> = Vec::new();
        let mut i: usize = 0;
        while i < self.listeners.len()
            invariant
                i <= self.listeners.len(),
                kept@ == without(self.listeners@.take(i as int), handle),
            decreases self.listeners.len() - i,
        {
            let current = self.listeners[i];
            proof {
                assert(self.listeners@.take(i + 1).drop_last() =~= self.listeners@.take(i as int));
            }
            if current != handle {
                kept.push(current);
            }
            i = i + 1;
        }
        proof {
            assert(self.listeners@.take(i as int) =~= self.listeners@);
            lemma_without_members(self.listeners@, handle);
            assert forall|j: int| 0 <= j < kept@.len() implies self@.knows(#[trigger] kept@[j]) by {
                let x = kept@[j];
                assert(without(self.listeners@, handle).contains(x));
                assert(self.listeners@.contains(x));
                let k = choose|k: int| 0 <= k < self.listeners@.len() && self.listeners@[k] == x;
                assert(self@.knows(self@.listeners[k]));
            }
        }
        self.listeners = kept;
    }

    /// Commits `payload` as the state, then notifies every registered
    /// listener of it, in registration order. Returns the lines emitted, or
    /// the failure of the first listener that refused; the state is `payload`
    /// in both cases.
    pub fn set_state(&mut self, payload: P) -> (outcome: Result<Vec<Delivery>, ListenerFailure>)
        requires
            old(self).wf(),
        ensures
            final(self).wf(),
            final(self)@ == old(self)@.commit(payload).notified(),
            final(self)@.state == payload,
            reports(outcome, old(self)@.commit(payload).cycle()),
    {
        self.state = payload;
        self.notify_all()
    }

    /// Notifies every registered listener of the current state, in
    /// registration order, and returns the lines emitted. The first listener
    /// that refuses ends the cycle: the listeners after it are not notified.
    pub fn notify_all(&mut self) -> (outcome: Result<Vec<Delivery>, ListenerFailure>)
        requires
            old(self).wf(),
        ensures
            final(self).wf(),
            final(self)@ == old(self)@.notified(),
            reports(outcome, old(self)@.cycle()),
    {
        let ghost start = self@;
        let mut delivered: Vec<Delivery> = Vec::new();
        let mut i: usize = 0;
        proof {
            assert(delivery_views(delivered@) =~= Seq::empty());
        }
        while i < self.listeners.len()
            invariant
                start == old(self)@,
                start.wf(),
                i <= self.listeners.len(),
                self.listeners@ == start.listeners,
                self.state == start.state,
                self.pool@.len() == start.pool.len(),
                run_cycle(start.pool, start.listeners.take(i as int), start.state) == (Cycle {
                    pool: self.pool@,
                    deliveries: delivery_views(delivered@),
                    failed: None,
                }),
            decreases self.listeners.len() - i,
        {
            let handle = self.listeners[i];
            let ghost views_before = delivery_views(delivered@);
            let ghost listener = self.pool@[handle.slot()];
            proof {
                assert(start.knows(start.listeners[i as int]));
                assert(start.listeners.take(i + 1).drop_last() =~= start.listeners.take(i as int));
            }
            let ghost pool_before = self.pool@;
            let response = self.pool[handle.id].receive(&self.state);
            proof {
                assert(self.pool@ =~= pool_before.update(handle.slot(), listener.after(start.state)));
            }
            match response {
                Ok(line) => {
                    delivered.push(Delivery { handle, line });
                    proof {
                        assert(delivery_views(delivered@) =~= views_before.push(
                            DeliveryView { handle, line: listener.emitted(start.state) },
                        ));
                    }
                },
                Err(_) => {
                    proof {
                        assert(run_cycle(start.pool, start.listeners.take(i + 1), start.state) == (Cycle {
                            pool: self.pool@,
                            deliveries: views_before,
                            failed: Some(handle),
                        }));
                        lemma_cycle_stops(start.pool, start.listeners, i + 1, start.state);
                    }
                    return Err(ListenerFailure { handle, delivered });
                },
            }
            i = i + 1;
        }
        proof {
            assert(start.listeners.take(i as int) =~= start.listeners);
        }
        Ok(delivered)
    }

    /// The state committed last.
    pub fn state(&self) -> (state: &P)
        ensures
            *state == self@.state,
    {
        &self.state
    }

    /// The listener that `handle` names, registered or not; `None` for a
    /// handle that this registry does not know.
    pub fn listener(&self, handle: Handle) -> (listener: Option<&L>)
        ensures
            self@.knows(handle) ==> listener == Some(&self@.pool[handle.slot()]),
            !self@.knows(handle) ==> listener is None,
    {
        if handle.id < self.pool.len() {
            Some(&self.pool[handle.id])
        } else {
            None
        }
    }

    /// Whether `handle` is registered at the moment.
    pub fn is_registered(&self, handle: Handle) -> (registered: bool)
        ensures
            registered == self@.listeners.contains(handle),
    {
        let mut i: usize = 0;
        while i < self.listeners.len()
            invariant
                i <= self.listeners.len(),
                forall|j: int| 0 <= j < i ==> self.listeners@[j] != handle,
            decreases self.listeners.len() - i,
        {
            if self.listeners[i] == handle {
                return true;
            }
            i = i + 1;
        }
        false
    }

    /// The registered handles, in registration order.
    pub fn handles(&self) -> (handles: Vec<Handle>)
        ensures
            handles@ == self@.listeners,
    {
        self.listeners.clone()
    }

    /// How many entries are registered.
    pub fn len(&self) -> (n: usize)
        ensures
            n == self@.listeners.len(),
    {
        self.listeners.len()
    }
}

} // verus!
