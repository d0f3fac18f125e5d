//! The read state machine: one isolated file read per schema field, fail-fast.
//!
//! The caller performs the file reads. It asks the reader which field is
//! pending, reads that field's attribute file, and hands the outcome back:
//! the raw text on success, or nothing on any read failure. On success the
//! reader records the encoded value and moves to the next field; on failure
//! it stops for good — fields already read keep their values, fields not yet
//! read stay absent, and the whole read reports failure.

use crate::record::ConfigRecord;
use crate::schema::{
    lemma_schema_index, schema_field, spec_encode, spec_schema, encode_read_value, Field,
};
use vstd::prelude::*;

verus! {

/// The state of one configuration read: how many schema fields have been
/// processed, whether a field read has failed, and the values recorded so far.
pub struct Reader {
    pub idx: usize,
    pub failed: bool,
    pub config: ConfigRecord,
}

impl Reader {
    /// State-machine invariant: the processed count never passes the schema,
    /// and the recorded fields are exactly the schema fields already
    /// processed.
    pub open spec fn wf(self) -> bool {
        &&& self.idx <= spec_schema().len()
        &&& self.config@.dom() == Set::new(
            |f: Field| exists|i: int| 0 <= i < self.idx && spec_schema()[i] == f,
        )
    }

    /// The field whose attribute file is to be read next, if the read is
    /// still running: no field is pending after a failure or past the schema.
    pub open spec fn spec_pending(self) -> Option<Field> {
        if !self.failed && self.idx < spec_schema().len() {
            Some(spec_schema()[self.idx as int])
        } else {
            None
        }
    }

    /// Whether the read has reached a terminal state.
    pub open spec fn spec_done(self) -> bool {
        self.spec_pending() is None
    }

    /// Whether the read has seen no failure.
    pub open spec fn spec_success(self) -> bool {
        !self.failed
    }

    /// A fresh read: nothing processed, nothing recorded, no failure.
    pub fn new() -> (r: Reader)
        ensures
            r.wf(),
            r.idx == 0,
            !r.failed,
            r.config@ == Map::<Field, Seq<char>>::empty(),
    {
        let r = Reader { idx: 0, failed: false, config: ConfigRecord::empty() };
        proof {
            assert(r.config@.dom() =~= Set::new(
                |f: Field| exists|i: int| 0 <= i < r.idx && spec_schema()[i] == f,
            ));
        }
        r
    }

    /// The field to read next, if any.
    pub fn pending_field(&self) -> (r: Option<Field>)
        ensures
            r == self.spec_pending(),
    {
        if !self.failed && self.idx < 7 {
            Some(schema_field(self.idx))
        } else {
            None
        }
    }

    /// Feeds back the outcome of the pending field's file read: the file's
    /// raw text on success, `None` on any failure. On success the field's
    /// encoded value is recorded and the next field becomes pending; on
    /// failure the read stops with what it has.
    pub fn on_read(&mut self, outcome: Option<String>)
        requires
            old(self).wf(),
            old(self).spec_pending() is Some,
        ensures
            final(self).wf(),
            match outcome {
                Some(raw) => {
                    &&& !final(self).failed
                    &&& final(self).idx == old(self).idx + 1
                    &&& final(self).config@ == old(self).config@.insert(
                        old(self).spec_pending()->0,
                        spec_encode(old(self).spec_pending()->0, raw@),
                    )
                },
                None => {
                    &&& final(self).failed
                    &&& final(self).idx == old(self).idx
                    &&& final(self).config@ == old(self).config@
                    &&& final(self).spec_done()
                },
            },
    {
        match outcome {
            Some(raw) => {
                let f = schema_field(self.idx);
                let v = encode_read_value(f, raw.as_str());
                self.config.set(f, v);
                self.idx = self.idx + 1;
                proof {
                    assert(self.config@.dom() =~= Set::new(
                        |g: Field| exists|i: int| 0 <= i < self.idx && spec_schema()[i] == g,
                    )) by {
                        assert forall|g: Field|
                            (exists|i: int| 0 <= i < self.idx && spec_schema()[i] == g)
                                implies self.config@.dom().contains(g) by {
                            let i = choose|i: int| 0 <= i < self.idx && spec_schema()[i] == g;
                            if i == self.idx - 1 {
                                assert(self.config@.dom().contains(g));
                            } else {
                                assert(old(self).config@.dom().contains(g));
                            }
                        }
                    }
                }
            },
            None => {
                self.failed = true;
            },
        }
    }

    /// The outcome of the read: the snapshot recorded so far and whether the
    /// whole read succeeded. A successful read covers the entire schema.
    pub fn result(self) -> (r: (ConfigRecord, bool))
        requires
            self.wf(),
            self.spec_done(),
        ensures
            r.0 == self.config,
            r.1 == self.spec_success(),
            r.1 ==> r.0@.dom() == spec_schema().to_set(),
    {
        proof {
            if !self.failed {
                lemma_read_success_covers_schema(self);
            }
        }
        (self.config, self.failed == false)
    }
}

/// Schema completeness: a read that ends without failure has recorded a value
/// for every schema field and for nothing else — its key set is exactly the
/// schema.
pub proof fn lemma_read_success_covers_schema(r: Reader)
    requires
        r.wf(),
        r.spec_done(),
        r.spec_success(),
    ensures
        r.config@.dom() == spec_schema().to_set(),
{
    assert(r.config@.dom() =~= spec_schema().to_set());
}

/// Fail-fast: once one field's read has failed, the read is over and reports
/// failure; no further field is pending, every schema field processed before
/// the failure keeps its recorded value, and no later field is recorded.
pub proof fn lemma_read_fail_fast(r: Reader)
    requires
        r.wf(),
        !r.spec_success(),
    ensures
        r.spec_done(),
        forall|i: int|
            0 <= i < r.idx ==> r.config@.dom().contains(#[trigger] spec_schema()[i]),
        forall|i: int|
            r.idx <= i < spec_schema().len() ==> !r.config@.dom().contains(
                #[trigger] spec_schema()[i],
            ),
{
    assert forall|i: int|
        r.idx <= i < spec_schema().len() implies !r.config@.dom().contains(
        #[trigger] spec_schema()[i],
    ) by {
        let f = spec_schema()[i];
        lemma_schema_index(f);
        if r.config@.dom().contains(f) {
            let j = choose|j: int| 0 <= j < r.idx && spec_schema()[j] == f;
            assert(j == i);
        }
    }
}

} // verus!
