//! The metric handle: a lazily-bound proxy that libraries construct before
//! any backend exists. On its first use while a handler is registered, the
//! handle resolves — exactly once — to a backend-created counter and caches
//! that binding for its whole remaining lifetime; while no handler is
//! registered, increments are dropped silently and never replayed.

use vstd::prelude::*;

use crate::registry::HandlerRegistry;
use crate::types::{bumped, opt_view, CounterModel, MetricsHandler};

verus! {

/// One step of the binding protocol: from a handle's binding state and the
/// registry's counter rows to the state after one `add(count)` call.
///
/// A bound handle forwards the increment to its cached row and touches
/// nothing else. An unbound handle binds to a freshly created row when rows
/// exist to bind to, so that the very first increment already lands in the
/// new counter; with no handler present (no rows at all), or with no fresh
/// index left, nothing changes and the increment is lost by design.
/// A binding that does not point into the rows it is used against — possible
/// only when a handle is replayed against a different registry — also drops
/// the increment rather than touch an unrelated counter.
pub open spec fn add_step(
    binding: Option<usize>,
    rows: Option<Seq<CounterModel>>,
    ident: CounterModel,
    count: u64,
) -> (Option<usize>, Option<Seq<CounterModel>>) {
    match binding {
        Some(id) => match rows {
            Some(rs) => if (id as int) < rs.len() {
                (binding, Some(rs.update(id as int, bumped(rs[id as int], count))))
            } else {
                (binding, rows)
            },
            None => (binding, rows),
        },
        None => match rows {
            Some(rs) => if rs.len() < usize::MAX {
                (Some(rs.len() as usize), Some(rs.push(bumped(ident, count))))
            } else {
                (binding, rows)
            },
            None => (binding, rows),
        },
    }
}

/// A u64-based counter metric handle that can only increase. Its identity —
/// name, optional description, optional unit — is fixed at construction; the
/// binding to a backend-created counter is cached on first successful use and
/// reused forever after.
pub struct CounterU64 {
    name: String,
    desc: Option<String>,
    unit: Option<String>,
    metric: Option<usize>,
}

impl CounterU64 {
    /// The handle's immutable identity, as the model row a fresh binding
    /// creates: the identity fields with a starting value of zero.
    pub closed spec fn spec_ident(&self) -> CounterModel {
        CounterModel { name: self.name@, desc: opt_view(self.desc), unit: opt_view(self.unit), value: 0 }
    }

    /// The cached binding: the index of the backend counter this handle has
    /// resolved to, or `None` while the handle is still unbound.
    pub closed spec fn spec_binding(&self) -> Option<usize> {
        self.metric
    }

    /// Construct a new, still unbound handle with the given identity. This
    /// touches no runtime state: a handle is usable (and cheap) long before
    /// any backend is registered.
    pub fn new(name: String, desc: Option<String>, unit: Option<String>) -> (r: Self)
        ensures
            r.spec_ident() == (CounterModel {
                name: name@,
                desc: opt_view(desc),
                unit: opt_view(unit),
                value: 0,
            }),
            r.spec_binding() is None,
    {
        CounterU64 { name, desc, unit, metric: None }
    }

    /// Add `count` to this metric instance.
    ///
    /// Behaviour by state, exactly `add_step`: a bound handle forwards the
    /// increment to its cached backend counter with no further lookup; an
    /// unbound handle resolves against the registry, creating and caching the
    /// backend counter once, and forwards the increment only on success;
    /// while no handler is registered the increment is dropped silently —
    /// never buffered, never replayed. No input can make this call fail or
    /// panic: metrics instrumentation must never crash its caller.
    pub fn add<H: MetricsHandler>(&mut self, registry: &mut HandlerRegistry<H>, count: u64)
        ensures
            final(self).spec_ident() == old(self).spec_ident(),
            (final(registry).spec_handler() is Some) == (old(registry).spec_handler() is Some),
            ({
                let (binding2, rows2) = add_step(
                    old(self).spec_binding(),
                    old(registry).rows(),
                    old(self).spec_ident(),
                    count,
                );
                final(self).spec_binding() == binding2 && final(registry).rows() == rows2
            }),
    {
        match self.metric {
            Some(id) => {
                registry.forward_add(id, count);
            },
            None => {
                let desc: Option<&str> = match &self.desc {
                    Some(s) => Some(s.as_str()),
                    None => None,
                };
                let unit: Option<&str> = match &self.unit {
                    Some(s) => Some(s.as_str()),
                    None => None,
                };
                match registry.try_create_counter(self.name.as_str(), desc, unit) {
                    Some(id) => {
                        self.metric = Some(id);
                        registry.forward_add(id, count);
                        proof {
                            let rs = old(registry).rows()->Some_0;
                            let row0 = CounterModel {
                                name: old(self).spec_ident().name,
                                desc: old(self).spec_ident().desc,
                                unit: old(self).spec_ident().unit,
                                value: 0,
                            };
                            assert(row0 == old(self).spec_ident());
                            assert(rs.push(row0).update(rs.len() as int, bumped(row0, count))
                                =~= rs.push(bumped(old(self).spec_ident(), count)));
                        }
                    },
                    None => {},
                }
            },
        }
    }
}

} // verus!
