//! The reference-count discipline for native handles.
//!
//! The engine reference-counts its objects; several handles may alias one
//! native object, and the binding layer must take exactly one claim when a
//! handle is constructed and give it back exactly once when the handle is
//! dropped. `RefLedger` is the verified mirror of the engine's per-object
//! counts: the glue that drives the engine records every increment and
//! decrement here, and `acquire` is the single constructor through which
//! every pointer returned by the engine must pass — a null pointer yields no
//! handle and touches no count.

use vstd::prelude::*;
use std::collections::HashMap;
use crate::Handle;

verus! {

broadcast use vstd::std_specs::hash::group_hash_axioms;

/// What taking one claim on the object at `raw` does to the per-object counts.
pub open spec fn acquire_spec(counts: Map<u64, u64>, raw: u64) -> Map<u64, u64> {
    if counts.contains_key(raw) {
        counts.insert(raw, (counts[raw] + 1) as u64)
    } else {
        counts.insert(raw, 1u64)
    }
}

/// What giving back one claim on the object at `raw` does to the counts: the
/// entry disappears when the last claim goes.
pub open spec fn release_spec(counts: Map<u64, u64>, raw: u64) -> Map<u64, u64> {
    if counts.contains_key(raw) && counts[raw] > 1 {
        counts.insert(raw, (counts[raw] - 1) as u64)
    } else {
        counts.remove(raw)
    }
}

/// A mirror of the engine's reference counts, one entry per native object
/// that currently has at least one live handle.
pub struct RefLedger {
    counts: HashMap<u64, u64>,
}

impl View for RefLedger {
    type V = Map<u64, u64>;

    closed spec fn view(&self) -> Map<u64, u64> {
        self.counts@
    }
}

impl RefLedger {
    /// Every recorded object is non-null and holds at least one claim.
    pub open spec fn wf(self) -> bool {
        forall|r: u64| #[trigger] self@.contains_key(r) ==> r != 0 && self@[r] >= 1
    }

    /// A ledger for an engine with no live handles yet.
    pub fn new() -> (l: RefLedger)
        ensures
            l@ == Map::<u64, u64>::empty(),
            l.wf(),
    {
        RefLedger { counts: HashMap::new() }
    }

    /// How many claims are currently held on the object at `raw`.
    pub fn count(&self, raw: u64) -> (n: u64)
        ensures
            n == if self@.contains_key(raw) {
                self@[raw]
            } else {
                0u64
            },
    {
        match self.counts.get(&raw) {
            Some(c) => *c,
            None => 0u64,
        }
    }

    /// The single constructor for handles. Every native pointer that crosses
    /// the boundary passes through here: a null pointer yields no handle and
    /// leaves every count alone; any other yields a live handle on `ctx` and
    /// increments exactly that object's count.
    pub fn acquire(&mut self, ctx: u64, raw: u64) -> (h: Option<Handle>)
        requires
            old(self).wf(),
            old(self)@.contains_key(raw) ==> old(self)@[raw] < u64::MAX,
        ensures
            final(self).wf(),
            raw == 0 ==> h is None && final(self)@ == old(self)@,
            raw != 0 ==> h == Some((Handle { ctx, raw })) && final(self)@ == acquire_spec(
                old(self)@,
                raw,
            ),
            h matches Some(got) ==> got.wf() && got.ctx == ctx && got.raw == raw,
    {
        if raw == 0 {
            None
        } else {
            let current: u64 = self.count(raw);
            self.counts.insert(raw, current + 1);
            Some(Handle { ctx, raw })
        }
    }

    /// Gives back the claim a handle holds; the destructor side of the
    /// discipline, run exactly once per handle, on every exit path.
    pub fn release(&mut self, h: Handle)
        requires
            old(self).wf(),
            old(self)@.contains_key(h.raw),
        ensures
            final(self).wf(),
            final(self)@ == release_spec(old(self)@, h.raw),
    {
        let current: u64 = self.count(h.raw);
        if current > 1 {
            self.counts.insert(h.raw, current - 1);
        } else {
            self.counts.remove(&h.raw);
        }
    }
}

/// The counts after `n` claims taken on one object, one after the other.
pub open spec fn acquire_n_spec(counts: Map<u64, u64>, raw: u64, n: nat) -> Map<u64, u64>
    decreases n,
{
    if n == 0 {
        counts
    } else {
        acquire_spec(acquire_n_spec(counts, raw, (n - 1) as nat), raw)
    }
}

/// The counts after `n` claims given back on one object, one after the other.
pub open spec fn release_n_spec(counts: Map<u64, u64>, raw: u64, n: nat) -> Map<u64, u64>
    decreases n,
{
    if n == 0 {
        counts
    } else {
        release_n_spec(release_spec(counts, raw), raw, (n - 1) as nat)
    }
}

/// After `n` claims on one object, that object's count has grown by exactly
/// `n`.
pub proof fn lemma_acquire_n_count(counts: Map<u64, u64>, raw: u64, n: nat)
    requires
        counts.contains_key(raw) ==> counts[raw] + n <= u64::MAX,
        !counts.contains_key(raw) ==> n <= u64::MAX,
    ensures
        n > 0 ==> acquire_n_spec(counts, raw, n).contains_key(raw) && acquire_n_spec(
            counts,
            raw,
            n,
        )[raw] == (if counts.contains_key(raw) {
            counts[raw] + n
        } else {
            n as int
        }),
    decreases n,
{
    if n > 0 {
        lemma_acquire_n_count(counts, raw, (n - 1) as nat);
        assert(acquire_n_spec(counts, raw, n) == acquire_spec(
            acquire_n_spec(counts, raw, (n - 1) as nat),
            raw,
        ));
    }
}

/// Law: taking a claim on an object and then giving one back leaves the
/// engine's reference counts exactly as they were.
pub proof fn lemma_acquire_release_net_zero_once(counts: Map<u64, u64>, raw: u64)
    requires
        counts.contains_key(raw) ==> 1 <= counts[raw] < u64::MAX,
    ensures
        release_spec(acquire_spec(counts, raw), raw) == counts,
{
    assert(release_spec(acquire_spec(counts, raw), raw) =~= counts);
}

/// Law: constructing `n` handles to the same underlying native object and
/// then dropping all `n` leaves the engine's reference counts unchanged from
/// before — the discipline is net zero however many aliases were taken.
pub proof fn lemma_acquire_release_net_zero(counts: Map<u64, u64>, raw: u64, n: nat)
    requires
        counts.contains_key(raw) ==> 1 <= counts[raw] && counts[raw] + n <= u64::MAX,
        !counts.contains_key(raw) ==> n <= u64::MAX,
    ensures
        release_n_spec(acquire_n_spec(counts, raw, n), raw, n) == counts,
    decreases n,
{
    if n > 0 {
        let inner = acquire_n_spec(counts, raw, (n - 1) as nat);
        lemma_acquire_n_count(counts, raw, (n - 1) as nat);
        lemma_acquire_release_net_zero_once(inner, raw);
        assert(release_n_spec(acquire_n_spec(counts, raw, n), raw, n) == release_n_spec(
            release_spec(acquire_spec(inner, raw), raw),
            raw,
            (n - 1) as nat,
        ));
        lemma_acquire_release_net_zero(counts, raw, (n - 1) as nat);
    }
}

} // verus!
