//! The facade's protocol laws, stated and proved over the same spec
//! transitions that the executable contracts are written against:
//! `slot_after_register` for the registry and `add_step` for the handle
//! binding protocol.

use vstd::prelude::*;

use crate::handle::add_step;
use crate::registry::slot_after_register;
use crate::types::{bumped, sat_add, CounterModel};

verus! {

/// The slot left after a sequence of registration attempts, tried in order.
pub open spec fn run_registrations<H>(s: Option<H>, hs: Seq<H>) -> Option<H>
    decreases hs.len(),
{
    if hs.len() == 0 {
        s
    } else {
        run_registrations(slot_after_register(s, hs[0]), hs.drop_first())
    }
}

/// How many of the registration attempts in `hs`, tried in order against
/// slot `s`, are accepted (return true).
pub open spec fn registrations_won<H>(s: Option<H>, hs: Seq<H>) -> int
    decreases hs.len(),
{
    if hs.len() == 0 {
        0int
    } else {
        (if s is None {
            1int
        } else {
            0int
        }) + registrations_won(slot_after_register(s, hs[0]), hs.drop_first())
    }
}

/// Once a handler occupies the slot, it stays: no later registration attempt
/// is accepted, and none dislodges or replaces the incumbent.
pub proof fn lemma_registry_write_once<H>(h: H, hs: Seq<H>)
    ensures
        run_registrations(Some(h), hs) == Some(h),
        registrations_won(Some(h), hs) == 0,
    decreases hs.len(),
{
    if hs.len() != 0 {
        assert(slot_after_register(Some(h), hs[0]) == Some(h));
        lemma_registry_write_once(h, hs.drop_first());
    }
}

/// Exactly-once registration: of any sequence of registration attempts
/// against an initially empty slot, exactly one — the first — is accepted,
/// and the slot thereafter holds that winner's handler, whatever comes later.
pub proof fn lemma_exactly_once_registration<H>(hs: Seq<H>)
    requires
        hs.len() > 0,
    ensures
        registrations_won(Option::<H>::None, hs) == 1,
        run_registrations(Option::<H>::None, hs) == Some(hs[0]),
{
    assert(slot_after_register(Option::<H>::None, hs[0]) == Some(hs[0]));
    lemma_registry_write_once(hs[0], hs.drop_first());
}

/// The protocol state a handle and the registry rows reach after a sequence
/// of `add` calls with the given counts.
pub open spec fn run_adds(
    binding: Option<usize>,
    rows: Option<Seq<CounterModel>>,
    ident: CounterModel,
    counts: Seq<u64>,
) -> (Option<usize>, Option<Seq<CounterModel>>)
    decreases counts.len(),
{
    if counts.len() == 0 {
        (binding, rows)
    } else {
        let (b, r) = add_step(binding, rows, ident, counts[0]);
        run_adds(b, r, ident, counts.drop_first())
    }
}

/// The value a counter reaches from `v` after the increments in `counts`,
/// each saturating at `u64::MAX`.
pub open spec fn saturating_total(v: u64, counts: Seq<u64>) -> u64
    decreases counts.len(),
{
    if counts.len() == 0 {
        v
    } else {
        saturating_total(sat_add(v, counts[0]), counts.drop_first())
    }
}

/// The exact (unbounded) total of the increments in `counts`.
pub open spec fn exact_total(counts: Seq<u64>) -> int
    decreases counts.len(),
{
    if counts.len() == 0 {
        0int
    } else {
        counts[0] + exact_total(counts.drop_first())
    }
}

/// The exact total of unsigned increments is never negative.
pub proof fn lemma_exact_total_nonneg(counts: Seq<u64>)
    ensures
        exact_total(counts) >= 0,
    decreases counts.len(),
{
    if counts.len() != 0 {
        lemma_exact_total_nonneg(counts.drop_first());
    }
}

/// While the exact total still fits in a u64, saturation never engages:
/// every single increment is accounted for, none is lost.
pub proof fn lemma_no_lost_updates(v: u64, counts: Seq<u64>)
    requires
        v + exact_total(counts) <= u64::MAX,
    ensures
        saturating_total(v, counts) == v + exact_total(counts),
    decreases counts.len(),
{
    if counts.len() != 0 {
        lemma_exact_total_nonneg(counts.drop_first());
        assert(sat_add(v, counts[0]) == v + counts[0]);
        lemma_no_lost_updates(sat_add(v, counts[0]), counts.drop_first());
    }
}

/// Idempotent reuse: once a handle is bound to row `id`, any further run of
/// `add` calls re-invokes no counter creation — the binding and the number
/// of rows never change — and only the bound row's value accumulates.
pub proof fn lemma_idempotent_reuse(
    id: usize,
    rs: Seq<CounterModel>,
    ident: CounterModel,
    counts: Seq<u64>,
)
    requires
        (id as int) < rs.len(),
    ensures
        run_adds(Some(id), Some(rs), ident, counts) == (
            Some(id),
            Some(
                rs.update(
                    id as int,
                    (CounterModel {
                        value: saturating_total(rs[id as int].value, counts),
                        ..rs[id as int]
                    }),
                ),
            ),
        ),
    decreases counts.len(),
{
    if counts.len() == 0 {
        assert(rs.update(
            id as int,
            (CounterModel { value: rs[id as int].value, ..rs[id as int] }),
        ) =~= rs);
    } else {
        let rs1 = rs.update(id as int, bumped(rs[id as int], counts[0]));
        lemma_idempotent_reuse(id, rs1, ident, counts.drop_first());
        assert(rs1[id as int] == bumped(rs[id as int], counts[0]));
        assert(rs1.update(
            id as int,
            (CounterModel { value: saturating_total(rs1[id as int].value, counts.drop_first()), ..rs1[id as int] }),
        ) =~= rs.update(
            id as int,
            (CounterModel { value: saturating_total(rs[id as int].value, counts), ..rs[id as int] }),
        ));
    }
}

/// Single binding under contention: a run of `add` calls on a fresh, unbound
/// handle while a handler is present creates exactly one new counter row —
/// the handle binds once, on the very first call — and that row ends at the
/// saturating total of all the counts; no other row is touched and no
/// duplicate counter appears.
pub proof fn lemma_single_binding(rs: Seq<CounterModel>, ident: CounterModel, counts: Seq<u64>)
    requires
        counts.len() > 0,
        rs.len() < usize::MAX,
        ident.value == 0,
    ensures
        run_adds(Option::<usize>::None, Some(rs), ident, counts) == (
            Some(rs.len() as usize),
            Some(rs.push((CounterModel { value: saturating_total(0, counts), ..ident }))),
        ),
{
    let id = rs.len() as usize;
    let rs1 = rs.push(bumped(ident, counts[0]));
    assert(add_step(Option::<usize>::None, Some(rs), ident, counts[0]) == (
        Some(id),
        Some(rs1),
    ));
    lemma_idempotent_reuse(id, rs1, ident, counts.drop_first());
    assert(rs1[id as int] == bumped(ident, counts[0]));
    assert(saturating_total(0, counts) == saturating_total(sat_add(0, counts[0]), counts.drop_first()));
    assert(rs1.update(
        id as int,
        (CounterModel { value: saturating_total(rs1[id as int].value, counts.drop_first()), ..rs1[id as int] }),
    ) =~= rs.push((CounterModel { value: saturating_total(0, counts), ..ident })));
}

/// Pre-registration drop: `add` calls issued while no handler is registered
/// leave no trace at all — the handle stays unbound and there are still no
/// rows — so such increments are permanently lost by design and can never be
/// replayed by a later registration.
pub proof fn lemma_pre_registration_drop(ident: CounterModel, counts: Seq<u64>)
    ensures
        run_adds(Option::<usize>::None, Option::<Seq<CounterModel>>::None, ident, counts) == (
            Option::<usize>::None,
            Option::<Seq<CounterModel>>::None,
        ),
    decreases counts.len(),
{
    if counts.len() != 0 {
        lemma_pre_registration_drop(ident, counts.drop_first());
    }
}

} // verus!
