//! What holds of every registry, proved over its mathematical view.
use crate::observer::registry::{
    delivered_to_all, delivery_views, lemma_without_members, reports, run_cycle, without, Delivery, Handle, Listener,
    ListenerFailure, RegistryView,
};
use vstd::prelude::*;

verus! {

/// The registry after the handles of `handles` were registered one by one.
pub open spec fn register_all<P, L: Listener<P>>(
    registry: RegistryView<P, L>,
    handles: Seq<Handle>,
) -> RegistryView<P, L>
    decreases handles.len(),
{
    if handles.len() == 0 {
        registry
    } else {
        register_all(registry, handles.drop_last()).register(handles.last())
    }
}

/// A cycle walks the order from its start: the deliveries carry the handles
/// of the order, one by one, up to the end or up to the first listener that
/// refuses, and that listener is the next in the order.
pub proof fn lemma_cycle_follows_order<P, L: Listener<P>>(pool: Seq<L>, order: Seq<Handle>, payload: P)
    ensures
        ({
            let cycle = run_cycle(pool, order, payload);
            &&& cycle.deliveries.len() <= order.len()
            &&& forall|i: int| 0 <= i < cycle.deliveries.len() ==> (#[trigger] cycle.deliveries[i]).handle == order[i]
            &&& cycle.failed is None ==> cycle.deliveries.len() == order.len()
            &&& cycle.failed matches Some(handle) ==> cycle.deliveries.len() < order.len() && handle
                == order[cycle.deliveries.len() as int]
        }),
    decreases order.len(),
{
    if order.len() > 0 {
        lemma_cycle_follows_order(pool, order.drop_last(), payload);
    }
}

/// A cycle leaves alone whoever is not in its order: that listener is as it
/// was, no delivery bears its handle, and it is not the one that refused.
pub proof fn lemma_cycle_spares_absent<P, L: Listener<P>>(
    pool: Seq<L>,
    order: Seq<Handle>,
    payload: P,
    absent: Handle,
)
    requires
        forall|i: int| 0 <= i < order.len() ==> 0 <= (#[trigger] order[i]).slot() < pool.len(),
        !order.contains(absent),
    ensures
        ({
            let cycle = run_cycle(pool, order, payload);
            &&& cycle.pool.len() == pool.len()
            &&& 0 <= absent.slot() < pool.len() ==> cycle.pool[absent.slot()] == pool[absent.slot()]
            &&& forall|i: int| 0 <= i < cycle.deliveries.len() ==> (#[trigger] cycle.deliveries[i]).handle != absent
            &&& cycle.failed != Some(absent)
        }),
    decreases order.len(),
{
    if order.len() > 0 {
        let front = order.drop_last();
        assert forall|i: int| 0 <= i < front.len() implies 0 <= (#[trigger] front[i]).slot() < pool.len() by {
            assert(front[i] == order[i]);
        }
        assert(!front.contains(absent)) by {
            if front.contains(absent) {
                let k = choose|k: int| 0 <= k < front.len() && front[k] == absent;
                assert(order[k] == absent);
            }
        }
        lemma_cycle_spares_absent(pool, front, payload, absent);
        assert(order[order.len() - 1] != absent);
        Handle::lemma_identity(order.last(), absent);
    }
}

/// Where the listeners are of a kind that never refuses the payload, a cycle
/// runs to its end: every entry of the order is notified once, in order.
pub proof fn law_cycle_completes_where_all_accept<P, L: Listener<P>>(pool: Seq<L>, order: Seq<Handle>, payload: P)
    requires
        forall|listener: L| #[trigger] listener.accepts(payload),
    ensures
        ({
            let cycle = run_cycle(pool, order, payload);
            &&& cycle.failed is None
            &&& cycle.deliveries.len() == order.len()
            &&& forall|i: int| 0 <= i < order.len() ==> (#[trigger] cycle.deliveries[i]).handle == order[i]
        }),
    decreases order.len(),
{
    if order.len() > 0 {
        law_cycle_completes_where_all_accept(pool, order.drop_last(), payload);
    }
}

/// The outcome that reports a cycle among listeners that never refuse the
/// payload holds one delivery for each entry of the order, in order.
pub proof fn lemma_outcome_delivers_to_all<P, L: Listener<P>>(
    outcome: Result<Vec<Delivery>, ListenerFailure>,
    pool: Seq<L>,
    order: Seq<Handle>,
    payload: P,
)
    requires
        reports(outcome, run_cycle(pool, order, payload)),
        forall|listener: L| #[trigger] listener.accepts(payload),
    ensures
        delivered_to_all(outcome, order),
{
    law_cycle_completes_where_all_accept(pool, order, payload);
    let cycle = run_cycle(pool, order, payload);
    match outcome {
        Ok(deliveries) => {
            assert(delivery_views(deliveries@).len() == deliveries@.len());
            assert forall|i: int| 0 <= i < order.len() implies (#[trigger] deliveries@[i]).handle == order[i] by {
                assert(delivery_views(deliveries@)[i].handle == deliveries@[i].handle);
                assert(cycle.deliveries[i].handle == order[i]);
            }
        },
        Err(_) => {},
    }
}

/// Removing a handle that is not in the order changes nothing.
pub proof fn lemma_without_absent(order: Seq<Handle>, handle: Handle)
    requires
        !order.contains(handle),
    ensures
        without(order, handle) == order,
    decreases order.len(),
{
    if order.len() > 0 {
        let front = order.drop_last();
        assert(!front.contains(handle)) by {
            if front.contains(handle) {
                let k = choose|k: int| 0 <= k < front.len() && front[k] == handle;
                assert(order[k] == handle);
            }
        }
        assert(order[order.len() - 1] != handle);
        lemma_without_absent(front, handle);
        assert(front.push(order.last()) =~= order);
    }
}

/// Registration order is notification order: after any run of
/// registrations on a registry without listeners, the registered handles are
/// that run, and a cycle delivers to them one by one in that order, to all of
/// them unless one refuses, and then to those before it.
pub proof fn law_notifies_in_registration_order<P, L: Listener<P>>(
    fresh: RegistryView<P, L>,
    handles: Seq<Handle>,
)
    requires
        fresh.listeners.len() == 0,
        forall|i: int| 0 <= i < handles.len() ==> fresh.knows(#[trigger] handles[i]),
    ensures
        ({
            let registry = register_all(fresh, handles);
            let cycle = registry.cycle();
            &&& registry.wf()
            &&& registry.listeners == handles
            &&& registry.pool == fresh.pool
            &&& registry.state == fresh.state
            &&& cycle.deliveries.len() <= handles.len()
            &&& forall|i: int|
                0 <= i < cycle.deliveries.len() ==> (#[trigger] cycle.deliveries[i]).handle == handles[i]
            &&& cycle.failed is None ==> cycle.deliveries.len() == handles.len()
            &&& cycle.failed matches Some(handle) ==> cycle.deliveries.len() < handles.len() && handle
                == handles[cycle.deliveries.len() as int]
        }),
    decreases handles.len(),
{
    if handles.len() == 0 {
        assert(fresh.listeners =~= handles);
    } else {
        let front = handles.drop_last();
        assert forall|i: int| 0 <= i < front.len() implies fresh.knows(#[trigger] front[i]) by {
            assert(front[i] == handles[i]);
        }
        law_notifies_in_registration_order(fresh, front);
        assert(fresh.knows(handles[handles.len() - 1]));
        assert(front.push(handles.last()) =~= handles);
    }
    let registry = register_all(fresh, handles);
    lemma_cycle_follows_order(registry.pool, registry.listeners, registry.state);
}

/// A removed listener is out of every later cycle: whatever was committed
/// and delivered before, after `remove(handle)` a `set_state` hands the
/// payload to no entry of that handle, and the listener stays as it was.
pub proof fn law_removed_listener_is_not_notified<P, L: Listener<P>>(
    registry: RegistryView<P, L>,
    handle: Handle,
    payload: P,
)
    requires
        registry.wf(),
    ensures
        ({
            let removed = registry.remove(handle);
            let cycle = removed.commit(payload).cycle();
            let later = removed.commit(payload).notified();
            &&& removed.wf()
            &&& !removed.listeners.contains(handle)
            &&& forall|i: int| 0 <= i < cycle.deliveries.len() ==> (#[trigger] cycle.deliveries[i]).handle != handle
            &&& cycle.failed != Some(handle)
            &&& later.pool.len() == registry.pool.len()
            &&& registry.knows(handle) ==> later.pool[handle.slot()] == registry.pool[handle.slot()]
        }),
{
    let removed = registry.remove(handle);
    lemma_without_members(registry.listeners, handle);
    assert forall|i: int| 0 <= i < removed.listeners.len() implies removed.knows(
        #[trigger] removed.listeners[i],
    ) by {
        let x = removed.listeners[i];
        assert(without(registry.listeners, handle).contains(x));
        assert(registry.listeners.contains(x));
        let k = choose|k: int| 0 <= k < registry.listeners.len() && registry.listeners[k] == x;
        assert(registry.knows(registry.listeners[k]));
    }
    lemma_cycle_spares_absent(removed.pool, removed.listeners, payload, handle);
}

/// Removing a handle that is not registered leaves the registry as it is.
pub proof fn law_remove_of_absent_changes_nothing<P, L: Listener<P>>(
    registry: RegistryView<P, L>,
    handle: Handle,
)
    requires
        !registry.listeners.contains(handle),
    ensures
        registry.remove(handle) == registry,
{
    lemma_without_absent(registry.listeners, handle);
}

/// Removing twice is removing once.
pub proof fn law_remove_is_idempotent<P, L: Listener<P>>(registry: RegistryView<P, L>, handle: Handle)
    ensures
        registry.remove(handle).remove(handle) == registry.remove(handle),
{
    lemma_without_members(registry.listeners, handle);
    lemma_without_absent(without(registry.listeners, handle), handle);
}

/// The state is the payload committed last, whether or not the cycle that
/// followed the commit ran to its end.
pub proof fn law_state_is_last_commit<P, L: Listener<P>>(registry: RegistryView<P, L>, payload: P)
    ensures
        registry.commit(payload).notified().state == payload,
        registry.commit(payload).notified().listeners == registry.listeners,
{
}

} // verus!
