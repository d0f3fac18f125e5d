//! The write state machine: change-only writes in schema order, fail-fast.
//!
//! Given a previous snapshot and a desired one, the planner selects, in
//! schema order, exactly the fields whose desired value is absent from the
//! previous snapshot or differs from it, each paired with the desired value
//! verbatim — no encoding is applied on the write path. The caller performs
//! the file writes: it asks the writer for the pending write, writes the
//! value to the field's attribute file, and hands back whether the write
//! succeeded. A failed write stops the whole operation; files already written
//! stay written, and the operation reports failure.

use crate::record::ConfigRecord;
use crate::schema::{
    lemma_schema_index, schema, spec_encode, spec_field_index, spec_is_hex, spec_schema, Field,
};
use vstd::prelude::*;

verus! {

/// Whether a field must be written: the desired snapshot holds a value for it
/// and the previous snapshot holds none, or a different one.
pub open spec fn spec_needs_write(
    prev: Map<Field, Seq<char>>,
    desired: Map<Field, Seq<char>>,
    f: Field,
) -> bool {
    desired.dom().contains(f) && (!prev.dom().contains(f) || prev[f] != desired[f])
}

/// The write plan over the first `n` schema fields: each field that needs a
/// write, in schema order, paired with its desired value.
pub open spec fn spec_plan_upto(
    prev: Map<Field, Seq<char>>,
    desired: Map<Field, Seq<char>>,
    n: int,
) -> Seq<(Field, Seq<char>)>
    decreases n,
{
    if n <= 0 {
        Seq::empty()
    } else {
        let rest = spec_plan_upto(prev, desired, n - 1);
        let f = spec_schema()[n - 1];
        if spec_needs_write(prev, desired, f) {
            rest.push((f, desired[f]))
        } else {
            rest
        }
    }
}

/// The write plan over the whole schema.
pub open spec fn spec_plan(
    prev: Map<Field, Seq<char>>,
    desired: Map<Field, Seq<char>>,
) -> Seq<(Field, Seq<char>)> {
    spec_plan_upto(prev, desired, spec_schema().len() as int)
}

/// The mathematical view of an executable write plan.
pub open spec fn plan_view(s: Seq<(Field, String)>) -> Seq<(Field, Seq<char>)> {
    s.map_values(|p: (Field, String)| (p.0, p.1@))
}

/// The fields whose desired value differs from the previous snapshot, in
/// schema order, each with the desired value to send verbatim.
pub fn write_plan(prev: &ConfigRecord, desired: &ConfigRecord) -> (r: Vec<(Field, String)>)
    ensures
        plan_view(r@) == spec_plan(prev@, desired@),
{
    let fields = schema();
    let mut plan: Vec<(Field, String)> = Vec::new();
    let mut i: usize = 0;
    while i < fields.len()
        invariant
            fields@ == spec_schema(),
            i <= fields@.len(),
            plan_view(plan@) == spec_plan_upto(prev@, desired@, i as int),
        decreases fields@.len() - i,
    {
        let f = fields[i];
        let ghost before = plan@;
        match desired.get(f) {
            Some(dv) => {
                let differs = match prev.get(f) {
                    Some(pv) => !(*pv == *dv),
                    None => true,
                };
                proof {
                    assert(differs == spec_needs_write(prev@, desired@, f));
                }
                if differs {
                    plan.push((f, dv.clone()));
                    proof {
                        assert(plan_view(plan@) =~= plan_view(before).push((f, desired@[f])));
                    }
                }
            },
            None => {},
        }
        i = i + 1;
    }
    plan
}

/// Plan soundness: every planned entry is a schema field that needs a write,
/// carries the desired value verbatim, and stands at its schema position —
/// so no field is planned twice and the plan never outgrows `n`.
pub proof fn lemma_plan_entries(
    prev: Map<Field, Seq<char>>,
    desired: Map<Field, Seq<char>>,
    n: int,
)
    requires
        0 <= n <= spec_schema().len(),
    ensures
        spec_plan_upto(prev, desired, n).len() <= n,
        forall|k: int|
            0 <= k < spec_plan_upto(prev, desired, n).len() ==> {
                let e = #[trigger] spec_plan_upto(prev, desired, n)[k];
                &&& spec_needs_write(prev, desired, e.0)
                &&& e.1 == desired[e.0]
                &&& spec_field_index(e.0) < n
            },
    decreases n,
{
    if n > 0 {
        lemma_plan_entries(prev, desired, n - 1);
        lemma_schema_index(spec_schema()[n - 1]);
    }
}

/// Plan completeness: every schema field that needs a write among the first
/// `n` stands in the plan.
pub proof fn lemma_plan_covers(
    prev: Map<Field, Seq<char>>,
    desired: Map<Field, Seq<char>>,
    n: int,
    f: Field,
)
    requires
        0 <= n <= spec_schema().len(),
        spec_needs_write(prev, desired, f),
        spec_field_index(f) < n,
    ensures
        spec_plan_upto(prev, desired, n).contains((f, desired[f])),
    decreases n,
{
    if n > 0 {
        lemma_schema_index(f);
        if spec_field_index(f) == n - 1 {
            let plan = spec_plan_upto(prev, desired, n);
            assert(plan[plan.len() - 1] == (f, desired[f]));
        } else {
            lemma_plan_covers(prev, desired, n - 1, f);
            let sub = spec_plan_upto(prev, desired, n - 1);
            let k = choose|k: int| 0 <= k < sub.len() && sub[k] == (f, desired[f]);
            assert(spec_plan_upto(prev, desired, n)[k] == (f, desired[f]));
        }
    }
}

/// No-op diff: when the previous and the desired snapshot agree on every
/// field, the plan is empty — no file is written at all.
pub proof fn lemma_noop_plan(prev: Map<Field, Seq<char>>, desired: Map<Field, Seq<char>>)
    requires
        prev == desired,
    ensures
        spec_plan(prev, desired) == Seq::<(Field, Seq<char>)>::empty(),
{
    lemma_plan_entries(prev, desired, spec_schema().len() as int);
    let plan = spec_plan(prev, desired);
    if plan.len() > 0 {
        assert(spec_needs_write(prev, desired, plan[0].0));
    }
    assert(plan =~= Seq::<(Field, Seq<char>)>::empty());
}

/// The plan over the first `n` schema fields when only `f` needs a write: the
/// one-entry plan once `f`'s schema position has been passed, empty before.
proof fn lemma_plan_upto_single(
    prev: Map<Field, Seq<char>>,
    desired: Map<Field, Seq<char>>,
    f: Field,
    n: int,
)
    requires
        0 <= n <= spec_schema().len(),
        spec_needs_write(prev, desired, f),
        forall|g: Field| g != f ==> !spec_needs_write(prev, desired, g),
    ensures
        spec_plan_upto(prev, desired, n) == if spec_field_index(f) < n {
            seq![(f, desired[f])]
        } else {
            Seq::<(Field, Seq<char>)>::empty()
        },
    decreases n,
{
    if n > 0 {
        lemma_plan_upto_single(prev, desired, f, n - 1);
        let g = spec_schema()[n - 1];
        lemma_schema_index(f);
        lemma_schema_index(g);
        if g == f {
            assert(spec_field_index(f) == n - 1);
            assert(spec_plan_upto(prev, desired, n) =~= seq![(f, desired[f])]);
        } else {
            assert(spec_field_index(f) != n - 1);
        }
    }
}

/// Selective diff: when exactly one field needs a write, the plan is exactly
/// one write — that field, with its desired value.
pub proof fn lemma_selective_plan(
    prev: Map<Field, Seq<char>>,
    desired: Map<Field, Seq<char>>,
    f: Field,
)
    requires
        spec_needs_write(prev, desired, f),
        forall|g: Field| g != f ==> !spec_needs_write(prev, desired, g),
    ensures
        spec_plan(prev, desired) == seq![(f, desired[f])],
{
    lemma_schema_index(f);
    lemma_plan_upto_single(prev, desired, f, spec_schema().len() as int);
}

/// Encoding round-trip: a read surfaces a hex-encoded field's raw file text
/// with `0x` prepended, while the write plan carries every desired value
/// verbatim — the read-side encoding is never applied on the write path.
pub proof fn lemma_encoding_round_trip(
    f: Field,
    raw: Seq<char>,
    prev: Map<Field, Seq<char>>,
    desired: Map<Field, Seq<char>>,
)
    requires
        spec_is_hex(f),
        spec_needs_write(prev, desired, f),
    ensures
        spec_encode(f, raw) == "0x"@ + raw,
        spec_plan(prev, desired).contains((f, desired[f])),
{
    lemma_schema_index(f);
    lemma_plan_covers(prev, desired, spec_schema().len() as int, f);
}

/// The state of one configuration write: the plan, how many planned writes
/// have completed, and whether a write has failed.
pub struct Writer {
    pub plan: Vec<(Field, String)>,
    pub idx: usize,
    pub failed: bool,
}

impl Writer {
    /// State-machine invariant: the completed count never passes the plan.
    pub open spec fn wf(self) -> bool {
        self.idx <= self.plan@.len()
    }

    /// The write to perform next, if the operation is still running: no write
    /// is pending after a failure or past the plan.
    pub open spec fn spec_pending(self) -> Option<(Field, Seq<char>)> {
        if !self.failed && self.idx < self.plan@.len() {
            Some(plan_view(self.plan@)[self.idx as int])
        } else {
            None
        }
    }

    /// Whether the write operation has reached a terminal state.
    pub open spec fn spec_done(self) -> bool {
        self.spec_pending() is None
    }

    /// Whether the operation has seen no failure.
    pub open spec fn spec_success(self) -> bool {
        !self.failed
    }

    /// A fresh write operation: its plan is the diff of the two snapshots,
    /// nothing written yet, no failure.
    pub fn new(prev: &ConfigRecord, desired: &ConfigRecord) -> (r: Writer)
        ensures
            r.wf(),
            r.idx == 0,
            !r.failed,
            plan_view(r.plan@) == spec_plan(prev@, desired@),
    {
        Writer { plan: write_plan(prev, desired), idx: 0, failed: false }
    }

    /// The field and value to write next, if any. The value is the desired
    /// value verbatim.
    pub fn pending_write(&self) -> (r: Option<(Field, String)>)
        ensures
            match r {
                Some(p) => self.spec_pending() == Some((p.0, p.1@)),
                None => self.spec_pending() is None,
            },
    {
        if !self.failed && self.idx < self.plan.len() {
            let p = &self.plan[self.idx];
            Some((p.0, p.1.clone()))
        } else {
            None
        }
    }

    /// Feeds back whether the pending write reached the attribute file. On
    /// success the next planned write becomes pending; on failure the
    /// operation stops — writes already performed are not rolled back.
    pub fn on_write(&mut self, ok: bool)
        requires
            old(self).wf(),
            old(self).spec_pending() is Some,
        ensures
            final(self).wf(),
            final(self).plan == old(self).plan,
            ok ==> {
                &&& !final(self).failed
                &&& final(self).idx == old(self).idx + 1
            },
            !ok ==> {
                &&& final(self).failed
                &&& final(self).idx == old(self).idx
                &&& final(self).spec_done()
            },
    {
        if ok {
            let n = self.plan.len();
            assert(self.idx < n);
            self.idx = self.idx + 1;
        } else {
            self.failed = true;
        }
    }

    /// Whether the whole write operation succeeded: meaningful once no write
    /// is pending.
    pub fn succeeded(&self) -> (r: bool)
        ensures
            r == self.spec_success(),
    {
        !self.failed
    }
}

} // verus!
