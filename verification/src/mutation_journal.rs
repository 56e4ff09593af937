//! A bounded journal of the document mutations performed, so that a
//! mutation can be undone or reconciled after a lost response. It keeps the
//! most recent records, in the order they were first recorded.
use crate::selection::{MutationReceipt, SelectionSnapshot};
use vstd::prelude::*;

verus! {

/// How many mutations the journal remembers.
pub const JOURNAL_CAPACITY: usize = 64;

/// A recorded mutation: its receipt, the capture it replaced, the text
/// written, the lease that guards its undo, and whether it was undone.
#[derive(Debug)]
pub struct MutationRecord {
    pub receipt: MutationReceipt,
    pub snapshot: SelectionSnapshot,
    pub transformed_text: String,
    pub undo_lease: u64,
    pub restored: bool,
}

impl Clone for MutationRecord {
    fn clone(&self) -> (r: Self)
        ensures
            r == *self,
    {
        MutationRecord {
            receipt: self.receipt,
            snapshot: self.snapshot.clone(),
            transformed_text: self.transformed_text.clone(),
            undo_lease: self.undo_lease,
            restored: self.restored,
        }
    }
}

/// The position of the record of mutation `id`, or -1.
pub open spec fn id_index(s: Seq<MutationRecord>, id: u128) -> int
    decreases s.len(),
{
    if s.len() == 0 {
        -1
    } else if s[0].receipt.id == id {
        0
    } else {
        let r = id_index(s.drop_first(), id);
        if r < 0 {
            -1
        } else {
            r + 1
        }
    }
}

/// No two records are about the same mutation.
pub open spec fn distinct_ids(s: Seq<MutationRecord>) -> bool {
    forall|i: int, j: int|
        0 <= i < j < s.len() ==> (#[trigger] s[i]).receipt.id != (#[trigger] s[j]).receipt.id
}

/// The journal after recording `r`: a record of the same mutation is
/// replaced where it stands, a new one goes last, and the oldest record is
/// forgotten when the journal would exceed its capacity.
pub open spec fn recorded(s: Seq<MutationRecord>, r: MutationRecord) -> Seq<MutationRecord> {
    let i = id_index(s, r.receipt.id);
    let t = if i >= 0 {
        s.update(i, r)
    } else {
        s.push(r)
    };
    if t.len() > JOURNAL_CAPACITY {
        t.drop_first()
    } else {
        t
    }
}

proof fn lemma_id_index_range(s: Seq<MutationRecord>, id: u128)
    ensures
        -1 <= id_index(s, id) < s.len(),
        id_index(s, id) >= 0 ==> s[id_index(s, id)].receipt.id == id,
        id_index(s, id) < 0 ==> forall|k: int| 0 <= k < s.len() ==> (#[trigger] s[k]).receipt.id != id,
    decreases s.len(),
{
    if s.len() > 0 && s[0].receipt.id != id {
        lemma_id_index_range(s.drop_first(), id);
        assert forall|k: int| 0 <= k < s.len() && id_index(s, id) < 0 implies (#[trigger] s[k]).receipt.id != id by {
            if k > 0 {
                assert(s[k] == s.drop_first()[k - 1]);
            }
        }
    }
}

proof fn lemma_id_index_step(s: Seq<MutationRecord>, i: int, id: u128)
    requires
        0 <= i < s.len(),
        s[i].receipt.id != id,
    ensures
        id_index(s.subrange(i, s.len() as int), id) == (if id_index(
            s.subrange(i + 1, s.len() as int),
            id,
        ) < 0 {
            -1
        } else {
            id_index(s.subrange(i + 1, s.len() as int), id) + 1
        }),
{
    assert(s.subrange(i, s.len() as int).drop_first() =~= s.subrange(i + 1, s.len() as int));
}

/// The journal.
pub struct MutationJournal {
    records: Vec<MutationRecord>,
}

impl MutationJournal {
    pub closed spec fn records_view(&self) -> Seq<MutationRecord> {
        self.records@
    }

    pub open spec fn well_formed(&self) -> bool {
        &&& distinct_ids(self.records_view())
        &&& self.records_view().len() <= JOURNAL_CAPACITY
    }

    pub fn new() -> (j: Self)
        ensures
            j.well_formed(),
            j.records_view().len() == 0,
    {
        MutationJournal { records: Vec::new() }
    }

    fn find(&self, id: u128) -> (r: Option<usize>)
        ensures
            match r {
                Some(i) => id_index(self.records_view(), id) == i,
                None => id_index(self.records_view(), id) < 0,
            },
    {
        let ghost s = self.records@;
        let mut i: usize = 0;
        assert(s.subrange(0, s.len() as int) =~= s);
        while i < self.records.len()
            invariant
                i <= self.records.len(),
                s == self.records@,
                id_index(s, id) == (if id_index(s.subrange(i as int, s.len() as int), id) < 0 {
                    -1
                } else {
                    id_index(s.subrange(i as int, s.len() as int), id) + i
                }),
            decreases self.records.len() - i,
        {
            if self.records[i].receipt.id == id {
                assert(s.subrange(i as int, s.len() as int)[0].receipt.id == id);
                return Some(i);
            }
            proof {
                lemma_id_index_step(s, i as int, id);
            }
            i = i + 1;
        }
        assert(s.subrange(i as int, s.len() as int).len() == 0);
        None
    }

    /// Records a mutation and returns its record; the undo of the mutation is
    /// guarded by the lease `undo_lease`.
    pub fn record(
        &mut self,
        receipt: MutationReceipt,
        snapshot: SelectionSnapshot,
        transformed_text: String,
        undo_lease: u64,
    ) -> (record: MutationRecord)
        requires
            old(self).well_formed(),
        ensures
            final(self).well_formed(),
            record == (MutationRecord {
                receipt,
                snapshot,
                transformed_text,
                undo_lease,
                restored: false,
            }),
            final(self).records_view() == recorded(old(self).records_view(), record),
    {
        let record = MutationRecord {
            receipt,
            snapshot,
            transformed_text,
            undo_lease,
            restored: false,
        };
        let ghost s = self.records@;
        proof {
            lemma_id_index_range(s, receipt.id);
        }
        match self.find(receipt.id) {
            Some(i) => {
                self.records.remove(i);
                self.records.insert(i, record.clone());
                assert(self.records@ =~= s.update(i as int, record));
            },
            None => {
                self.records.push(record.clone());
            },
        }
        let ghost t = self.records@;
        assert(distinct_ids(t)) by {
            assert forall|a: int, b: int| 0 <= a < b < t.len() implies (#[trigger] t[a]).receipt.id
                != (#[trigger] t[b]).receipt.id by {
                if id_index(s, receipt.id) >= 0 {
                    let i = id_index(s, receipt.id);
                    if a != i && b != i {
                        assert(t[a] == s[a] && t[b] == s[b]);
                    } else if a == i {
                        assert(t[b] == s[b]);
                        assert(s[a].receipt.id == receipt.id);
                    } else {
                        assert(t[a] == s[a]);
                        assert(s[b].receipt.id == receipt.id);
                    }
                } else {
                    if b < s.len() {
                        assert(t[a] == s[a] && t[b] == s[b]);
                    } else {
                        assert(t[a] == s[a]);
                    }
                }
            }
        }
        if self.records.len() > JOURNAL_CAPACITY {
            self.records.remove(0);
            assert(self.records@ =~= t.drop_first());
            assert forall|a: int, b: int|
                0 <= a < b < self.records@.len() implies (#[trigger] self.records@[a]).receipt.id
                != (#[trigger] self.records@[b]).receipt.id by {
                assert(self.records@[a] == t[a + 1] && self.records@[b] == t[b + 1]);
            }
        }
        record
    }

    /// The record of mutation `id`, if the journal still holds it.
    pub fn get(&self, id: u128) -> (r: Option<MutationRecord>)
        ensures
            match r {
                Some(rec) => id_index(self.records_view(), id) >= 0 && rec == self.records_view()[id_index(
                    self.records_view(),
                    id,
                )],
                None => id_index(self.records_view(), id) < 0,
            },
    {
        proof {
            lemma_id_index_range(self.records@, id);
        }
        match self.find(id) {
            Some(i) => Some(self.records[i].clone()),
            None => None,
        }
    }

    /// Whether the journal holds mutation `id`.
    pub fn contains(&self, id: u128) -> (b: bool)
        ensures
            b == (id_index(self.records_view(), id) >= 0),
    {
        match self.find(id) {
            Some(_) => true,
            None => false,
        }
    }

    /// Marks mutation `id` as undone; nothing else changes.
    pub fn mark_restored(&mut self, id: u128)
        requires
            old(self).well_formed(),
        ensures
            final(self).well_formed(),
            ({
                let s = old(self).records_view();
                let i = id_index(s, id);
                final(self).records_view() == if i >= 0 {
                    s.update(i, MutationRecord { restored: true, ..s[i] })
                } else {
                    s
                }
            }),
    {
        let ghost s = self.records@;
        proof {
            lemma_id_index_range(s, id);
        }
        match self.find(id) {
            Some(i) => {
                let mut rec = self.records.remove(i);
                rec.restored = true;
                self.records.insert(i, rec);
                assert(self.records@ =~= s.update(i as int, MutationRecord { restored: true, ..s[i as int] }));
                assert forall|a: int, b: int|
                    0 <= a < b < self.records@.len() implies (#[trigger] self.records@[a]).receipt.id
                    != (#[trigger] self.records@[b]).receipt.id by {
                    assert(self.records@[a].receipt.id == s[a].receipt.id);
                    assert(self.records@[b].receipt.id == s[b].receipt.id);
                }
            },
            None => {},
        }
    }
}

/// Every record after recording `r` is `r` or a record held before.
pub proof fn lemma_recorded_from(s: Seq<MutationRecord>, r: MutationRecord, k: int)
    requires
        0 <= k < recorded(s, r).len(),
    ensures
        recorded(s, r)[k] == r || exists|m: int| 0 <= m < s.len() && s[m] == #[trigger] recorded(s, r)[k],
{
    let i = id_index(s, r.receipt.id);
    lemma_id_index_range(s, r.receipt.id);
    let t = if i >= 0 {
        s.update(i, r)
    } else {
        s.push(r)
    };
    let u = recorded(s, r);
    let kk = if t.len() > JOURNAL_CAPACITY { k + 1 } else { k };
    assert(u[k] == t[kk]);
    if t[kk] != r {
        assert(s[kk] == t[kk]);
    }
}

/// A mutation just recorded can be found again, with its receipt, until
/// the journal forgets it.
pub proof fn lemma_recorded_is_found(s: Seq<MutationRecord>, r: MutationRecord)
    requires
        distinct_ids(s),
        s.len() <= JOURNAL_CAPACITY,
    ensures
        id_index(recorded(s, r), r.receipt.id) >= 0,
        recorded(s, r)[id_index(recorded(s, r), r.receipt.id)] == r,
{
    lemma_id_index_range(s, r.receipt.id);
    let i = id_index(s, r.receipt.id);
    let t = if i >= 0 {
        s.update(i, r)
    } else {
        s.push(r)
    };
    let u = recorded(s, r);
    let pos = if i >= 0 { i } else { s.len() as int };
    let upos = if t.len() > JOURNAL_CAPACITY { pos - 1 } else { pos };
    assert(t[pos] == r);
    assert(t.len() <= JOURNAL_CAPACITY + 1);
    if t.len() > JOURNAL_CAPACITY {
        assert(pos == s.len());
        assert(pos >= 1);
    }
    assert(u[upos] == r);
    assert forall|k: int| 0 <= k < upos implies (#[trigger] u[k]).receipt.id != r.receipt.id by {
        let tk = if t.len() > JOURNAL_CAPACITY { k + 1 } else { k };
        assert(u[k] == t[tk]);
        assert(t[tk] == s[tk]);
    }
    lemma_id_index_prefix(u, upos, r.receipt.id);
}

proof fn lemma_id_index_prefix(s: Seq<MutationRecord>, p: int, id: u128)
    requires
        0 <= p < s.len(),
        s[p].receipt.id == id,
        forall|k: int| 0 <= k < p ==> (#[trigger] s[k]).receipt.id != id,
    ensures
        id_index(s, id) == p,
    decreases p,
{
    if p > 0 {
        assert forall|k: int| 0 <= k < p - 1 implies (#[trigger] s.drop_first()[k]).receipt.id != id by {
            assert(s.drop_first()[k] == s[k + 1]);
        }
        lemma_id_index_prefix(s.drop_first(), p - 1, id);
    }
}

/// The journal never holds more than its capacity.
pub proof fn lemma_journal_bounded(s: Seq<MutationRecord>, r: MutationRecord)
    requires
        s.len() <= JOURNAL_CAPACITY,
    ensures
        recorded(s, r).len() <= JOURNAL_CAPACITY,
{
    lemma_id_index_range(s, r.receipt.id);
}

} // verus!
