//! The data contracts shared by the facade and its backends: report rows, the
//! mathematical model of a backend counter, and the `MetricsHandler`
//! capability that every concrete backend implements.

use vstd::prelude::*;

verus! {

/// The value slot of a report row: a counter either carries an unsigned value
/// or is absent.
#[derive(Debug)]
pub enum MetricValue {
    /// No value is available for this row.
    Absent,
    /// A monotonically increasing unsigned counter value.
    CounterU64(u64),
}

/// One row of a point-in-time metrics report. Rows are produced fresh on
/// every report call and never persisted.
#[derive(Debug)]
pub struct Metric {
    /// Name of the metric.
    pub name: String,
    /// Description / help text of the metric.
    pub desc: Option<String>,
    /// Unit of the metric.
    pub unit: Option<String>,
    /// Kind and value of the metric.
    pub value: MetricValue,
}

/// The mathematical model of one backend counter: its immutable identity
/// (name, optional description, optional unit) and its current value.
pub ghost struct CounterModel {
    /// Name of the counter.
    pub name: Seq<char>,
    /// Description of the counter, if one was given.
    pub desc: Option<Seq<char>>,
    /// Unit of the counter, if one was given.
    pub unit: Option<Seq<char>>,
    /// The current accumulated value.
    pub value: u64,
}

/// The view of an optional string-like value: its character sequence, if present.
pub open spec fn opt_view<S: View>(o: Option<S>) -> Option<S::V> {
    match o {
        Some(s) => Some(s@),
        None => None,
    }
}

/// The sum of two unsigned values, saturating at `u64::MAX` so that an
/// increment can never overflow (and so never panic).
pub open spec fn sat_add(v: u64, count: u64) -> u64 {
    if v + count <= u64::MAX {
        (v + count) as u64
    } else {
        u64::MAX
    }
}

/// The counter `c` after one saturating increment by `count`: the identity
/// fields are unchanged and only the value moves.
pub open spec fn bumped(c: CounterModel, count: u64) -> CounterModel {
    CounterModel { value: sat_add(c.value, count), ..c }
}

/// The unsigned value carried by a report row's value slot; an absent value
/// counts as zero.
pub open spec fn value_u64(v: MetricValue) -> u64 {
    match v {
        MetricValue::CounterU64(n) => n,
        MetricValue::Absent => 0,
    }
}

/// Whether report row `m` presents exactly the counter modelled by `c`.
pub open spec fn represents(m: Metric, c: CounterModel) -> bool {
    &&& m.name@ == c.name
    &&& opt_view(m.desc) == c.desc
    &&& opt_view(m.unit) == c.unit
    &&& m.value == MetricValue::CounterU64(c.value)
}

/// The capability a telemetry backend must implement: create named counters
/// and produce a point-in-time report of everything created so far.
///
/// The backend's observable state is abstracted as `counters()`, the model of
/// every counter created through it, in creation order. Counter creation is
/// required to succeed for every identity — a backend must sanitize or
/// tolerate any name, including duplicates, at its own layer — with the one
/// machine-forced exception of index exhaustion, on which the handler must be
/// left unchanged.
pub trait MetricsHandler: Sized {
    /// The model of every counter created so far through this handler, in
    /// creation order.
    spec fn counters(&self) -> Seq<CounterModel>;

    /// Create a new counter with the given identity and a starting value of
    /// zero, returning its index among this handler's counters. Returns
    /// `None` — leaving the handler unchanged — only when no fresh index
    /// exists.
    fn register_counter_u64(&mut self, name: &str, desc: Option<&str>, unit: Option<&str>) -> (r: Option<
        usize,
    >)
        ensures
            match r {
                Some(id) => {
                    &&& id as int == old(self).counters().len() as int
                    &&& old(self).counters().len() < usize::MAX
                    &&& final(self).counters() == old(self).counters().push(
                        (CounterModel {
                            name: name@,
                            desc: opt_view(desc),
                            unit: opt_view(unit),
                            value: 0,
                        }),
                    )
                },
                None => {
                    &&& final(self).counters() == old(self).counters()
                    &&& old(self).counters().len() >= usize::MAX
                },
            },
    ;

    /// Forward an increment to the counter at index `id`: its value rises by
    /// `count`, saturating at `u64::MAX`, and no other counter moves.
    fn counter_add(&mut self, id: usize, count: u64)
        requires
            (id as int) < old(self).counters().len(),
        ensures
            final(self).counters() == old(self).counters().update(
                id as int,
                bumped(old(self).counters()[id as int], count),
            ),
    ;

    /// The number of counters created so far through this handler.
    fn num_counters(&self) -> (n: usize)
        ensures
            n as int == self.counters().len() as int,
    ;

    /// Produce a snapshot report: one row per created counter, in creation
    /// order. Never fails; before any counter exists it returns the empty
    /// list.
    fn report(&self) -> (r: Vec<Metric>)
        ensures
            r@.len() == self.counters().len(),
            forall|i: int| 0 <= i < r@.len() ==> represents(#[trigger] r@[i], self.counters()[i]),
    ;
}

} // verus!
