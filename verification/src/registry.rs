//! The global handler registry: a write-once, read-many slot holding at most
//! one `MetricsHandler`, plus the report aggregator that passes a snapshot
//! query through to the installed handler.

use vstd::prelude::*;

use crate::types::{bumped, opt_view, represents, CounterModel, Metric, MetricsHandler};

verus! {

/// What a registration attempt leaves in the slot: the first handler to
/// arrive wins and every later attempt is discarded, never swapped in.
pub open spec fn slot_after_register<H>(s: Option<H>, h: H) -> Option<H> {
    match s {
        None => Some(h),
        Some(_) => s,
    }
}

/// A write-once slot holding at most one metrics handler. Once a handler is
/// present it is never removed or replaced: no unregister operation exists,
/// by design, so a handle that bound to a backend can never be left holding a
/// stale one.
pub struct HandlerRegistry<H> {
    slot: Option<H>,
}

impl<H: MetricsHandler> HandlerRegistry<H> {
    /// The installed handler, if any.
    pub closed spec fn spec_handler(&self) -> Option<H> {
        self.slot
    }

    /// The models of the installed handler's counters, if a handler is
    /// installed.
    pub open spec fn rows(&self) -> Option<Seq<CounterModel>> {
        match self.spec_handler() {
            Some(h) => Some(h.counters()),
            None => None,
        }
    }

    /// An empty registry: no handler installed yet.
    pub fn new() -> (r: Self)
        ensures
            r.spec_handler() is None,
    {
        HandlerRegistry { slot: None }
    }

    /// Install `handler` if and only if the slot is still empty. Returns true
    /// only for the first successful registration; a later attempt returns
    /// false and its handler is discarded.
    pub fn register(&mut self, handler: H) -> (first: bool)
        ensures
            first == (old(self).spec_handler() is None),
            final(self).spec_handler() == slot_after_register(old(self).spec_handler(), handler),
    {
        if self.slot.is_some() {
            false
        } else {
            self.slot = Some(handler);
            true
        }
    }

    /// The installed handler, if any: non-blocking, absent until the first
    /// successful registration, and afterwards always the same handler.
    pub fn current(&self) -> (r: Option<&H>)
        ensures
            match r {
                Some(h) => self.spec_handler() == Some(*h),
                None => self.spec_handler() is None,
            },
    {
        self.slot.as_ref()
    }

    /// Ask the installed handler, if any, to create a counter with the given
    /// identity. Returns the new counter's index, or `None` — changing
    /// nothing — when no handler is installed or no fresh index exists.
    pub(crate) fn try_create_counter(&mut self, name: &str, desc: Option<&str>, unit: Option<
        &str,
    >) -> (r: Option<usize>)
        ensures
            (final(self).spec_handler() is Some) == (old(self).spec_handler() is Some),
            match r {
                Some(id) => ({
                    let rs = old(self).rows()->Some_0;
                    &&& old(self).rows() is Some
                    &&& rs.len() < usize::MAX
                    &&& id as int == rs.len() as int
                    &&& final(self).rows() == Some(
                        rs.push(
                            (CounterModel {
                                name: name@,
                                desc: opt_view(desc),
                                unit: opt_view(unit),
                                value: 0,
                            }),
                        ),
                    )
                }),
                None => {
                    &&& final(self).rows() == old(self).rows()
                    &&& (old(self).spec_handler() is None ==> *final(self) == *old(self))
                    &&& (old(self).rows() is None || old(self).rows()->Some_0.len()
                        >= usize::MAX)
                },
            },
    {
        match &mut self.slot {
            Some(h) => h.register_counter_u64(name, desc, unit),
            None => None,
        }
    }

    /// Forward an increment to counter `id` of the installed handler. A
    /// missing handler or an out-of-range index drops the increment silently:
    /// a metrics call must never fail its caller.
    pub(crate) fn forward_add(&mut self, id: usize, count: u64)
        ensures
            (final(self).spec_handler() is Some) == (old(self).spec_handler() is Some),
            match old(self).rows() {
                Some(rs) => final(self).rows() == (if (id as int) < rs.len() {
                    Some(rs.update(id as int, bumped(rs[id as int], count)))
                } else {
                    Some(rs)
                }),
                None => *final(self) == *old(self),
            },
    {
        match &mut self.slot {
            Some(h) => {
                if id < h.num_counters() {
                    h.counter_add(id, count);
                }
            },
            None => {},
        }
    }

    /// A snapshot report from the installed handler: absent when no handler
    /// was ever registered, otherwise one row per counter created so far, in
    /// creation order.
    pub fn report(&self) -> (r: Option<Vec<Metric>>)
        ensures
            (r is Some) == (self.spec_handler() is Some),
            match (r, self.rows()) {
                (Some(v), Some(rs)) => v@.len() == rs.len() && forall|i: int|
                    0 <= i < v@.len() ==> represents(#[trigger] v@[i], rs[i]),
                (None, None) => true,
                _ => false,
            },
    {
        match &self.slot {
            Some(h) => Some(h.report()),
            None => None,
        }
    }
}

/// Register the global metrics handler instance: called once by the hosting
/// binary to install the concrete backend. Returns true only if this was the
/// first successful registration; a loser's handler is discarded, never
/// swapped in.
pub fn register_global_metrics_handler<H: MetricsHandler>(
    registry: &mut HandlerRegistry<H>,
    handler: H,
) -> (first: bool)
    ensures
        first == (old(registry).spec_handler() is None),
        final(registry).spec_handler() == slot_after_register(
            old(registry).spec_handler(),
            handler,
        ),
{
    registry.register(handler)
}

/// Gather a report of the current value of every metric created through the
/// registered handler. Returns `None` if no handler has been registered.
pub fn global_metrics_report<H: MetricsHandler>(registry: &HandlerRegistry<H>) -> (r: Option<
    Vec<Metric>,
>)
    ensures
        (r is Some) == (registry.spec_handler() is Some),
        match (r, registry.rows()) {
            (Some(v), Some(rs)) => v@.len() == rs.len() && forall|i: int|
                0 <= i < v@.len() ==> represents(#[trigger] v@[i], rs[i]),
            (None, None) => true,
            _ => false,
        },
{
    registry.report()
}

} // verus!
