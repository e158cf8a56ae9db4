//! A verified in-memory metrics handler: the reference implementation of the
//! `MetricsHandler` capability. It keeps one report row per created counter,
//! in creation order, and shows that the capability contract is satisfiable
//! exactly as stated.

use vstd::prelude::*;

use crate::types::{
    bumped, opt_view, represents, value_u64, CounterModel, Metric, MetricValue, MetricsHandler,
};

verus! {

/// The model row presented by a stored report row.
pub open spec fn counter_model_of(m: Metric) -> CounterModel {
    CounterModel {
        name: m.name@,
        desc: opt_view(m.desc),
        unit: opt_view(m.unit),
        value: value_u64(m.value),
    }
}

/// An in-memory metrics handler holding one row per created counter, in
/// creation order. Creation never fails short of index exhaustion, and
/// duplicate names simply create distinct counters: identities are sanitized
/// nowhere because every identity is acceptable here.
pub struct TableMetricsHandler {
    rows: Vec<Metric>,
}

impl TableMetricsHandler {
    /// A fresh handler with no counters.
    pub fn new() -> (r: Self)
        ensures
            r.counters() == Seq::<CounterModel>::empty(),
    {
        let r = TableMetricsHandler { rows: Vec::new() };
        proof {
            assert(r.counters() =~= Seq::<CounterModel>::empty());
        }
        r
    }
}

impl MetricsHandler for TableMetricsHandler {
    closed spec fn counters(&self) -> Seq<CounterModel> {
        self.rows@.map_values(|m: Metric| counter_model_of(m))
    }

    fn register_counter_u64(&mut self, name: &str, desc: Option<&str>, unit: Option<&str>) -> (r:
        Option<usize>) {
        if self.rows.len() < usize::MAX {
            let id = self.rows.len();
            let row = Metric {
                name: String::from_str(name),
                desc: match desc {
                    Some(s) => Some(String::from_str(s)),
                    None => None,
                },
                unit: match unit {
                    Some(s) => Some(String::from_str(s)),
                    None => None,
                },
                value: MetricValue::CounterU64(0),
            };
            self.rows.push(row);
            proof {
                assert(self.counters() =~= old(self).counters().push(
                    (CounterModel {
                        name: name@,
                        desc: opt_view(desc),
                        unit: opt_view(unit),
                        value: 0,
                    }),
                ));
            }
            Some(id)
        } else {
            None
        }
    }

    fn counter_add(&mut self, id: usize, count: u64) {
        let cur: u64 = match &self.rows[id].value {
            MetricValue::CounterU64(n) => *n,
            MetricValue::Absent => 0,
        };
        let next: u64 = if count <= u64::MAX - cur {
            cur + count
        } else {
            u64::MAX
        };
        let row = &mut self.rows[id];
        row.value = MetricValue::CounterU64(next);
        proof {
            assert(self.counters() =~= old(self).counters().update(
                id as int,
                bumped(old(self).counters()[id as int], count),
            ));
        }
    }

    fn num_counters(&self) -> (n: usize) {
        self.rows.len()
    }

    fn report(&self) -> (r: Vec<Metric>) {
        let mut out: Vec<Metric> = Vec::new();
        let n = self.rows.len();
        let mut i: usize = 0;
        while i < n
            invariant
                n == self.rows.len(),
                i <= n,
                out@.len() == i as int,
                forall|j: int| 0 <= j < i as int ==> represents(#[trigger] out@[j], self.counters()[j]),
            decreases n - i,
        {
            let src = &self.rows[i];
            let name = String::from_str(src.name.as_str());
            let desc = match &src.desc {
                Some(s) => Some(String::from_str(s.as_str())),
                None => None,
            };
            let unit = match &src.unit {
                Some(s) => Some(String::from_str(s.as_str())),
                None => None,
            };
            let value = match &src.value {
                MetricValue::CounterU64(v) => MetricValue::CounterU64(*v),
                MetricValue::Absent => MetricValue::CounterU64(0),
            };
            out.push(Metric { name, desc, unit, value });
            i += 1;
        }
        out
    }
}

} // verus!
