//! The reordering buffer of live interpretation: outcomes arrive in any
//! order and leave strictly in segment order, a bounded number waiting.
use crate::live::{InterpretOutcome, SegmentId};
use crate::ordered_keys::first_key;
use std::collections::BTreeMap;
use vstd::prelude::*;

verus! {

/// What the queue hands on after an insertion.
#[derive(Debug)]
pub enum QueueEvent {
    /// The next outcome in segment order.
    Ready(InterpretOutcome),
    /// A waiting outcome given up to make room.
    Dropped { segment_id: SegmentId },
}

/// Outcomes waiting for their predecessors, by segment, and the segment due
/// next. `order` is the same outcomes in increasing segment order, the form
/// in which the queue's behaviour is stated.
pub struct LiveQueue {
    capacity: usize,
    next_to_emit: SegmentId,
    pending: BTreeMap<u64, InterpretOutcome>,
    order: Ghost<Seq<InterpretOutcome>>,
}

pub open spec fn key(o: InterpretOutcome) -> int {
    o.segment_id.0 as int
}

/// Strictly increasing segment order.
pub open spec fn sorted(s: Seq<InterpretOutcome>) -> bool {
    forall|i: int, j: int| 0 <= i < j < s.len() ==> key(#[trigger] s[i]) < key(#[trigger] s[j])
}

/// How many leading outcomes have a segment below `k`.
pub open spec fn lower_bound(s: Seq<InterpretOutcome>, k: int) -> nat
    decreases s.len(),
{
    if s.len() == 0 || key(s[0]) >= k {
        0
    } else {
        1 + lower_bound(s.drop_first(), k)
    }
}

/// `s` with `o` put in its place by segment; an outcome for the same segment
/// is replaced.
pub open spec fn insert_sorted(s: Seq<InterpretOutcome>, o: InterpretOutcome) -> Seq<
    InterpretOutcome,
> {
    let i = lower_bound(s, key(o)) as int;
    if i < s.len() && key(s[i]) == key(o) {
        s.update(i, o)
    } else {
        s.insert(i, o)
    }
}

/// How many leading outcomes carry the consecutive segments `n, n+1, ...`.
pub open spec fn run_len(s: Seq<InterpretOutcome>, n: int) -> nat
    decreases s.len(),
{
    if s.len() > 0 && key(s[0]) == n {
        1 + run_len(s.drop_first(), n + 1)
    } else {
        0
    }
}

/// The waiting outcomes after making room: the oldest is given up when the
/// queue is full.
pub open spec fn room_made(s: Seq<InterpretOutcome>, capacity: nat) -> Seq<InterpretOutcome> {
    if s.len() >= capacity && s.len() > 0 {
        s.drop_first()
    } else {
        s
    }
}

pub open spec fn dropped_events(s: Seq<InterpretOutcome>, capacity: nat) -> Seq<QueueEvent> {
    if s.len() >= capacity && s.len() > 0 {
        seq![QueueEvent::Dropped { segment_id: s[0].segment_id }]
    } else {
        Seq::empty()
    }
}

pub open spec fn ready_events(s: Seq<InterpretOutcome>) -> Seq<QueueEvent> {
    s.map_values(|o: InterpretOutcome| QueueEvent::Ready(o))
}

proof fn lemma_run_step(s: Seq<InterpretOutcome>, n: int)
    requires
        s.len() > 0,
        key(s[0]) == n,
    ensures
        run_len(s, n) == 1 + run_len(s.drop_first(), n + 1),
{
}

proof fn lemma_run_len_bound(s: Seq<InterpretOutcome>, n: int)
    ensures
        run_len(s, n) <= s.len(),
    decreases s.len(),
{
    if s.len() > 0 && key(s[0]) == n {
        lemma_run_len_bound(s.drop_first(), n + 1);
    }
}

/// The map `m` holds exactly the outcomes of `s`, each under its segment.
pub open spec fn mirrors(m: Map<u64, InterpretOutcome>, s: Seq<InterpretOutcome>) -> bool {
    &&& forall|k: u64| #[trigger] m.contains_key(k) ==> holds_segment(s, k as int)
    &&& forall|i: int|
        #![trigger s[i]]
        0 <= i < s.len() ==> m.contains_key(s[i].segment_id.0) && m[s[i].segment_id.0] == s[i]
}

/// The lowest segment held is the first in segment order.
proof fn lemma_first_key_is_first(m: Map<u64, InterpretOutcome>, s: Seq<InterpretOutcome>, k: u64)
    requires
        mirrors(m, s),
        sorted(s),
        m.contains_key(k),
        forall|j: u64| m.contains_key(j) ==> k <= j,
    ensures
        s.len() > 0,
        s[0].segment_id.0 == k,
{
    assert(holds_segment(s, k as int));
    let i = choose|i: int| 0 <= i < s.len() && key(#[trigger] s[i]) == k;
    assert(m.contains_key(s[0].segment_id.0));
    if i > 0 {
        assert(key(s[0]) < key(s[i]));
    }
}

/// An empty map mirrors only the empty sequence.
proof fn lemma_nothing_held(m: Map<u64, InterpretOutcome>, s: Seq<InterpretOutcome>)
    requires
        mirrors(m, s),
        forall|k: u64| !m.contains_key(k),
    ensures
        s.len() == 0,
{
    if s.len() > 0 {
        assert(m.contains_key(s[0].segment_id.0));
    }
}

/// Removing the lowest segment mirrors dropping the first outcome.
proof fn lemma_remove_first(m: Map<u64, InterpretOutcome>, s: Seq<InterpretOutcome>)
    requires
        mirrors(m, s),
        sorted(s),
        s.len() > 0,
    ensures
        mirrors(m.remove(s[0].segment_id.0), s.drop_first()),
        sorted(s.drop_first()),
{
    let k0 = s[0].segment_id.0;
    let m2 = m.remove(k0);
    let t = s.drop_first();
    assert forall|k: u64| #[trigger] m2.contains_key(k) implies holds_segment(t, k as int) by {
        assert(holds_segment(s, k as int));
        let i = choose|i: int| 0 <= i < s.len() && key(#[trigger] s[i]) == k;
        assert(i != 0);
        assert(t[i - 1] == s[i]);
    }
    assert forall|i: int| #![trigger t[i]] 0 <= i < t.len() implies m2.contains_key(t[i].segment_id.0)
        && m2[t[i].segment_id.0] == t[i] by {
        assert(t[i] == s[i + 1]);
        assert(key(s[0]) < key(s[i + 1]));
    }
    assert forall|a: int, b: int| 0 <= a < b < t.len() implies key(#[trigger] t[a]) < key(
        #[trigger] t[b],
    ) by {
        assert(t[a] == s[a + 1] && t[b] == s[b + 1]);
    }
}

/// Filing an outcome under its segment mirrors putting it in its place.
proof fn lemma_insert_mirrors(m: Map<u64, InterpretOutcome>, s: Seq<InterpretOutcome>, o: InterpretOutcome)
    requires
        mirrors(m, s),
        sorted(s),
    ensures
        mirrors(m.insert(o.segment_id.0, o), insert_sorted(s, o)),
{
    let m2 = m.insert(o.segment_id.0, o);
    let s2 = insert_sorted(s, o);
    let i0 = lower_bound(s, key(o)) as int;
    lemma_lower_bound_splits(s, key(o));
    lemma_insert_sorted_sorted(s, o);
    assert forall|k: u64| #[trigger] m2.contains_key(k) implies holds_segment(s2, k as int) by {
        lemma_insert_sorted_segments(s, o, k as int);
    }
    let replace = i0 < s.len() && key(s[i0]) == key(o);
    assert(s2[i0] == o);
    assert forall|i: int| #![trigger s2[i]] 0 <= i < s2.len() implies m2.contains_key(s2[i].segment_id.0)
        && m2[s2[i].segment_id.0] == s2[i] by {
        if i == i0 {
        } else {
            if i < i0 || replace {
                assert(s2[i] == s[i]);
            } else {
                assert(s2[i] == s[i - 1]);
            }
            if key(s2[i]) == key(o) {
                if i < i0 {
                    assert(key(s2[i]) < key(s2[i0]));
                } else {
                    assert(key(s2[i0]) < key(s2[i]));
                }
            }
        }
    }
}

/// A map mirroring a sequence in strictly increasing segment order holds
/// as many outcomes as the sequence.
proof fn lemma_mirror_len(m: Map<u64, InterpretOutcome>, s: Seq<InterpretOutcome>)
    requires
        mirrors(m, s),
        sorted(s),
        m.dom().finite(),
    ensures
        m.dom().len() == s.len(),
{
    let ks = s.map_values(|o: InterpretOutcome| o.segment_id.0);
    assert(ks.no_duplicates()) by {
        assert forall|a: int, b: int| 0 <= a < ks.len() && 0 <= b < ks.len() && a != b implies ks[a]
            != ks[b] by {
            if a < b {
                assert(key(s[a]) < key(s[b]));
            } else {
                assert(key(s[b]) < key(s[a]));
            }
        }
    }
    ks.unique_seq_to_set();
    assert forall|k: u64| ks.to_set().contains(k) <==> m.dom().contains(k) by {
        if m.dom().contains(k) {
            assert(holds_segment(s, k as int));
            let i = choose|i: int| 0 <= i < s.len() && key(#[trigger] s[i]) == k;
            assert(ks[i] == k);
        }
        if ks.to_set().contains(k) {
            let i = choose|i: int| 0 <= i < ks.len() && ks[i] == k;
            assert(s[i].segment_id.0 == k);
        }
    }
    assert(ks.to_set() =~= m.dom());
}

/// Whether the lowest segment held is the one due.
fn is_due(head: Option<u64>, next: u64) -> (b: bool)
    ensures
        b == (head matches Some(k) && k == next),
{
    match head {
        Some(k) => k == next,
        None => false,
    }
}

impl LiveQueue {
    pub closed spec fn capacity_view(&self) -> nat {
        self.capacity as nat
    }

    pub closed spec fn next_view(&self) -> int {
        self.next_to_emit.0 as int
    }

    /// The waiting outcomes in increasing segment order.
    pub closed spec fn pending_view(&self) -> Seq<InterpretOutcome> {
        self.order@
    }

    /// The waiting outcomes by segment.
    pub closed spec fn map_view(&self) -> Map<u64, InterpretOutcome> {
        self.pending@
    }

    /// The waiting outcomes are in strictly increasing segment order, none
    /// carries the last representable segment, and the map holds exactly
    /// them.
    pub open spec fn well_formed(&self) -> bool {
        &&& sorted(self.pending_view())
        &&& forall|i: int|
            0 <= i < self.pending_view().len() ==> key(#[trigger] self.pending_view()[i])
                < u64::MAX
        &&& mirrors(self.map_view(), self.pending_view())
    }

    /// Whether everything deliverable was handed on (see `settled`).
    pub open spec fn settled_view(&self) -> bool {
        settled(self.pending_view(), self.next_view(), self.capacity_view())
    }

    /// An empty queue expecting segment 0, holding up to `capacity` waiting outcomes.
    pub fn new(capacity: usize) -> (q: Self)
        ensures
            q.well_formed(),
            q.settled_view(),
            q.capacity_view() == capacity,
            q.next_view() == 0,
            q.pending_view().len() == 0,
    {
        let q = LiveQueue {
            capacity,
            next_to_emit: SegmentId(0),
            pending: BTreeMap::new(),
            order: Ghost(Seq::empty()),
        };
        assert(mirrors(q.pending@, q.order@));
        q
    }

    /// How many outcomes wait.
    pub fn len(&self) -> (n: usize)
        requires
            self.well_formed(),
        ensures
            n == self.pending_view().len(),
    {
        proof {
            lemma_mirror_len(self.pending@, self.order@);
        }
        self.pending.len()
    }

    /// The lowest segment waiting: the first in segment order.
    fn head(&self) -> (r: Option<u64>)
        requires
            self.well_formed(),
        ensures
            r is None ==> self.pending_view().len() == 0,
            r matches Some(k) ==> self.pending_view().len() > 0 && self.pending_view()[0].segment_id.0
                == k,
    {
        let r = first_key(&self.pending);
        proof {
            match r {
                Some(k) => lemma_first_key_is_first(self.pending@, self.order@, k),
                None => lemma_nothing_held(self.pending@, self.order@),
            }
        }
        r
    }

    /// Takes out the first waiting outcome, whose segment is `k`.
    fn pop_head(&mut self, k: u64) -> (out: InterpretOutcome)
        requires
            old(self).well_formed(),
            old(self).pending_view().len() > 0,
            old(self).pending_view()[0].segment_id.0 == k,
        ensures
            final(self).well_formed(),
            out == old(self).pending_view()[0],
            final(self).pending_view() == old(self).pending_view().drop_first(),
            final(self).capacity_view() == old(self).capacity_view(),
            final(self).next_view() == old(self).next_view(),
    {
        let ghost s = self.order@;
        proof {
            lemma_remove_first(self.pending@, s);
        }
        let out = self.pending.remove(&k).unwrap();
        self.order = Ghost(s.drop_first());
        proof {
            assert forall|i: int| 0 <= i < self.order@.len() implies key(#[trigger] self.order@[i])
                < u64::MAX by {
                assert(self.order@[i] == s[i + 1]);
            }
        }
        out
    }

    /// Gives up the oldest waiting outcome when the queue is full.
    fn make_room(&mut self) -> (events: Vec<QueueEvent>)
        requires
            old(self).well_formed(),
        ensures
            final(self).pending_view() == room_made(old(self).pending_view(), old(self).capacity_view()),
            events@ == dropped_events(old(self).pending_view(), old(self).capacity_view()),
            final(self).well_formed(),
            final(self).capacity_view() == old(self).capacity_view(),
            final(self).next_view() == old(self).next_view(),
    {
        let ghost s0 = self.order@;
        let mut events: Vec<QueueEvent> = Vec::new();
        let n = self.len();
        if n >= self.capacity && n > 0 {
            match self.head() {
                Some(k) => {
                    let _oldest = self.pop_head(k);
                    events.push(QueueEvent::Dropped { segment_id: SegmentId(k) });
                    assert(events@ =~= dropped_events(s0, self.capacity as nat));
                },
                None => {},
            }
        } else {
            assert(events@ =~= dropped_events(s0, self.capacity as nat));
        }
        events
    }

    /// Puts `outcome` in its place by segment.
    fn place(&mut self, outcome: InterpretOutcome)
        requires
            old(self).well_formed(),
            outcome.segment_id.0 < u64::MAX,
        ensures
            final(self).pending_view() == insert_sorted(old(self).pending_view(), outcome),
            final(self).well_formed(),
            final(self).capacity_view() == old(self).capacity_view(),
            final(self).next_view() == old(self).next_view(),
    {
        let ghost s1 = self.order@;
        let ghost o = outcome;
        proof {
            lemma_insert_mirrors(self.pending@, s1, o);
            lemma_insert_sorted_sorted(s1, o);
        }
        let k = outcome.segment_id.0;
        let _previous = self.pending.insert(k, outcome);
        self.order = Ghost(insert_sorted(s1, o));
        proof {
            let s2 = self.order@;
            assert forall|m: int| 0 <= m < s2.len() implies key(#[trigger] s2[m]) < u64::MAX by {
                lemma_insert_sorted_segments(s1, o, key(s2[m]));
                assert(holds_segment(s2, key(s2[m])));
                if holds_segment(s1, key(s2[m])) {
                    let w = choose|w: int| 0 <= w < s1.len() && key(#[trigger] s1[w]) == key(s2[m]);
                    assert(key(s1[w]) < u64::MAX);
                }
            }
        }
    }

    /// Hands on the run of consecutive segments from the one due next.
    fn emit_run(&mut self, events: &mut Vec<QueueEvent>)
        requires
            old(self).well_formed(),
        ensures
            final(self).well_formed(),
            ({
                let s2 = old(self).pending_view();
                let j = run_len(s2, old(self).next_view());
                &&& final(self).pending_view() == s2.subrange(j as int, s2.len() as int)
                &&& final(self).next_view() == old(self).next_view() + j
                &&& final(events)@ == old(events)@ + ready_events(s2.subrange(0, j as int))
            }),
            final(self).capacity_view() == old(self).capacity_view(),
    {
        let ghost s2 = self.order@;
        let ghost n0 = self.next_to_emit.0 as int;
        let ghost e0 = events@;
        let ghost mut count: int = 0;
        proof {
            lemma_run_len_bound(s2, n0);
        }
        assert(s2.subrange(0, 0) =~= Seq::<InterpretOutcome>::empty());
        assert(s2.subrange(0, s2.len() as int) =~= s2);
        assert(ready_events(Seq::<InterpretOutcome>::empty()) =~= Seq::<QueueEvent>::empty());
        assert(e0 + ready_events(Seq::<InterpretOutcome>::empty()) =~= e0);
        let mut head = self.head();
        while is_due(head, self.next_to_emit.0)
            invariant
                self.well_formed(),
                0 <= count <= s2.len(),
                self.capacity == old(self).capacity,
                self.order@ == s2.subrange(count, s2.len() as int),
                self.next_to_emit.0 == n0 + count,
                run_len(s2, n0) == count + run_len(self.order@, self.next_to_emit.0 as int),
                events@ == e0 + ready_events(s2.subrange(0, count)),
                head is None ==> self.order@.len() == 0,
                head matches Some(k) ==> self.order@.len() > 0 && self.order@[0].segment_id.0 == k,
            decreases self.order@.len(),
        {
            let k = head.unwrap();
            let ghost p = self.order@;
            proof {
                lemma_run_step(p, self.next_to_emit.0 as int);
                assert(p[0] == s2[count]);
                lemma_run_len_bound(p.drop_first(), self.next_to_emit.0 + 1);
            }
            let out = self.pop_head(k);
            assert(self.order@ =~= s2.subrange(count + 1, s2.len() as int));
            self.next_to_emit = self.next_to_emit.next();
            events.push(QueueEvent::Ready(out));
            proof {
                assert(s2.subrange(0, count + 1) =~= s2.subrange(0, count).push(out));
                assert(ready_events(s2.subrange(0, count + 1)) =~= ready_events(
                    s2.subrange(0, count),
                ).push(QueueEvent::Ready(out)));
                count = count + 1;
            }
            head = self.head();
        }
        proof {
            assert(run_len(self.order@, self.next_to_emit.0 as int) == 0);
        }
    }

    /// Files an outcome and hands on what became deliverable: first the
    /// outcome given up when the queue was full (the lowest segment), then,
    /// in segment order, every outcome from the segment due next onward
    /// without a gap.
    pub fn insert(&mut self, outcome: InterpretOutcome) -> (events: Vec<QueueEvent>)
        requires
            old(self).well_formed(),
            outcome.segment_id.0 < u64::MAX,
        ensures
            final(self).well_formed(),
            final(self).capacity_view() == old(self).capacity_view(),
            ({
                let s1 = room_made(old(self).pending_view(), old(self).capacity_view());
                let s2 = insert_sorted(s1, outcome);
                let j = run_len(s2, old(self).next_view());
                &&& final(self).pending_view() == s2.subrange(j as int, s2.len() as int)
                &&& final(self).next_view() == old(self).next_view() + j
                &&& events@ == dropped_events(old(self).pending_view(), old(self).capacity_view())
                    + ready_events(s2.subrange(0, j as int))
            }),
            old(self).settled_view() && old(self).capacity_view() >= 1 && outcome.segment_id.0
                >= old(self).next_view() ==> final(self).settled_view(),
    {
        proof {
            if old(self).settled_view() && old(self).capacity_view() >= 1 && outcome.segment_id.0
                >= old(self).next_view() {
                lemma_nothing_deliverable_stays_buffered(
                    old(self).pending_view(),
                    old(self).capacity_view(),
                    outcome,
                    old(self).next_view(),
                );
            }
        }
        let mut events = self.make_room();
        self.place(outcome);
        self.emit_run(&mut events);
        events
    }

    /// Gives up every waiting outcome, in segment order; the segment due next
    /// is unchanged.
    pub fn drain_all(&mut self) -> (drained: Vec<InterpretOutcome>)
        requires
            old(self).well_formed(),
        ensures
            final(self).well_formed(),
            drained@ == old(self).pending_view(),
            final(self).pending_view().len() == 0,
            final(self).next_view() == old(self).next_view(),
            final(self).capacity_view() == old(self).capacity_view(),
    {
        let ghost s0 = self.order@;
        let mut drained: Vec<InterpretOutcome> = Vec::new();
        let mut head = self.head();
        assert(drained@ + self.order@ =~= s0);
        while head.is_some()
            invariant
                self.well_formed(),
                drained@ + self.order@ == s0,
                self.capacity == old(self).capacity,
                self.next_to_emit == old(self).next_to_emit,
                head is None ==> self.order@.len() == 0,
                head matches Some(k) ==> self.order@.len() > 0 && self.order@[0].segment_id.0 == k,
            decreases self.order@.len(),
        {
            let k = head.unwrap();
            let ghost p = self.order@;
            let out = self.pop_head(k);
            drained.push(out);
            assert(drained@ + self.order@ =~= s0) by {
                assert(p =~= seq![out] + p.drop_first());
            }
            head = self.head();
        }
        assert(drained@ =~= s0);
        drained
    }

    /// Empties the queue and makes `next_segment` the segment due next.
    pub fn reset(&mut self, next_segment: SegmentId)
        ensures
            final(self).well_formed(),
            final(self).settled_view(),
            final(self).pending_view().len() == 0,
            final(self).next_view() == next_segment.0,
            final(self).capacity_view() == old(self).capacity_view(),
    {
        self.pending.clear();
        self.order = Ghost(Seq::empty());
        self.next_to_emit = next_segment;
        assert(mirrors(self.pending@, self.order@));
    }
}

/// Outcomes leave in segment order: the ready part of one insertion carries
/// the consecutive segments starting at the one that was due.
pub proof fn lemma_ready_in_order(s: Seq<InterpretOutcome>, n: int, i: int)
    requires
        0 <= i < run_len(s, n),
    ensures
        key(s[i]) == n + i,
    decreases s.len(),
{
    lemma_run_len_bound(s, n);
    if !(s.len() > 0 && key(s[0]) == n) {
        assert(run_len(s, n) == 0);
    }
    if i > 0 {
        lemma_ready_in_order(s.drop_first(), n + 1, i - 1);
        assert(s.drop_first()[i - 1] == s[i]);
    }
}

/// A full queue never grows: with room for at least one outcome, an
/// insertion into a queue within its capacity leaves it within its capacity.
pub proof fn lemma_capacity_respected(s: Seq<InterpretOutcome>, capacity: nat, o: InterpretOutcome, n: int)
    requires
        capacity >= 1,
        s.len() <= capacity,
    ensures
        ({
            let s2 = insert_sorted(room_made(s, capacity), o);
            s2.subrange(run_len(s2, n) as int, s2.len() as int).len() <= capacity
        }),
{
    let s1 = room_made(s, capacity);
    let s2 = insert_sorted(s1, o);
    lemma_lower_bound_le(s1, key(o));
    assert(s1.len() + 1 <= capacity + (if s.len() >= capacity && s.len() > 0 { 0int } else { 1int }));
    assert(s2.len() <= s1.len() + 1);
    lemma_run_len_bound(s2, n);
}

proof fn lemma_lower_bound_le(s: Seq<InterpretOutcome>, k: int)
    ensures
        lower_bound(s, k) <= s.len(),
    decreases s.len(),
{
    if s.len() > 0 && key(s[0]) < k {
        lemma_lower_bound_le(s.drop_first(), k);
    }
}

/// Whether an outcome for segment `k` is among `s`.
pub open spec fn holds_segment(s: Seq<InterpretOutcome>, k: int) -> bool {
    exists|i: int| 0 <= i < s.len() && key(#[trigger] s[i]) == k
}

proof fn lemma_insert_sorted_segments(s: Seq<InterpretOutcome>, o: InterpretOutcome, k: int)
    ensures
        holds_segment(insert_sorted(s, o), k) <==> (holds_segment(s, k) || k == key(o)),
{
    let i = lower_bound(s, key(o)) as int;
    lemma_lower_bound_le(s, key(o));
    let s2 = insert_sorted(s, o);
    if i < s.len() && key(s[i]) == key(o) {
        assert(s2 == s.update(i, o));
        if holds_segment(s, k) {
            let m = choose|m: int| 0 <= m < s.len() && key(#[trigger] s[m]) == k;
            if m == i {
                assert(key(s2[i]) == k);
            } else {
                assert(s2[m] == s[m]);
            }
        }
        if k == key(o) {
            assert(key(s2[i]) == k);
        }
        if holds_segment(s2, k) {
            let m = choose|m: int| 0 <= m < s2.len() && key(#[trigger] s2[m]) == k;
            if m == i {
                assert(k == key(o));
            } else {
                assert(s2[m] == s[m]);
            }
        }
    } else {
        assert(s2 == s.insert(i, o));
        if holds_segment(s, k) {
            let m = choose|m: int| 0 <= m < s.len() && key(#[trigger] s[m]) == k;
            if m < i {
                assert(s2[m] == s[m]);
            } else {
                assert(s2[m + 1] == s[m]);
            }
        }
        if k == key(o) {
            assert(key(s2[i]) == k);
        }
        if holds_segment(s2, k) {
            let m = choose|m: int| 0 <= m < s2.len() && key(#[trigger] s2[m]) == k;
            if m < i {
                assert(s2[m] == s[m]);
            } else if m > i {
                assert(s2[m] == s[m - 1]);
            }
        }
    }
}

proof fn lemma_room_made_segments(s: Seq<InterpretOutcome>, capacity: nat, k: int)
    ensures
        holds_segment(s, k) <==> (holds_segment(room_made(s, capacity), k) || (s.len() >= capacity
            && s.len() > 0 && key(s[0]) == k)),
{
    let s1 = room_made(s, capacity);
    if s.len() >= capacity && s.len() > 0 {
        if holds_segment(s, k) {
            let m = choose|m: int| 0 <= m < s.len() && key(#[trigger] s[m]) == k;
            if m > 0 {
                assert(s1[m - 1] == s[m]);
            }
        }
        if holds_segment(s1, k) {
            let m = choose|m: int| 0 <= m < s1.len() && key(#[trigger] s1[m]) == k;
            assert(s[m + 1] == s1[m]);
        }
    }
}

/// Nothing is lost or made up by an insertion: a segment was waiting or is
/// the one inserted exactly when it is given up to make room, handed on as
/// ready, or still waiting afterwards.
pub proof fn lemma_insert_loses_nothing(
    s: Seq<InterpretOutcome>,
    capacity: nat,
    o: InterpretOutcome,
    n: int,
    k: int,
)
    ensures
        ({
            let s2 = insert_sorted(room_made(s, capacity), o);
            let j = run_len(s2, n) as int;
            (holds_segment(s, k) || k == key(o)) <==> ((s.len() >= capacity && s.len() > 0 && key(
                s[0],
            ) == k) || holds_segment(s2.subrange(0, j), k) || holds_segment(
                s2.subrange(j, s2.len() as int),
                k,
            ))
        }),
{
    let s1 = room_made(s, capacity);
    let s2 = insert_sorted(s1, o);
    let j = run_len(s2, n) as int;
    lemma_run_len_bound(s2, n);
    lemma_room_made_segments(s, capacity, k);
    lemma_insert_sorted_segments(s1, o, k);
    let a = s2.subrange(0, j);
    let b = s2.subrange(j, s2.len() as int);
    if holds_segment(s2, k) {
        let m = choose|m: int| 0 <= m < s2.len() && key(#[trigger] s2[m]) == k;
        if m < j {
            assert(a[m] == s2[m]);
        } else {
            assert(b[m - j] == s2[m]);
        }
    }
    if holds_segment(a, k) {
        let m = choose|m: int| 0 <= m < a.len() && key(#[trigger] a[m]) == k;
        assert(s2[m] == a[m]);
    }
    if holds_segment(b, k) {
        let m = choose|m: int| 0 <= m < b.len() && key(#[trigger] b[m]) == k;
        assert(s2[m + j] == b[m]);
    }
}

/// The buffer of a queue that delivers everything it can: within its
/// capacity, and every waiting outcome is for a segment after the one due.
pub open spec fn settled(s: Seq<InterpretOutcome>, next: int, capacity: nat) -> bool {
    &&& s.len() <= capacity
    &&& forall|i: int| 0 <= i < s.len() ==> key(#[trigger] s[i]) > next
}

proof fn lemma_lower_bound_splits(s: Seq<InterpretOutcome>, k: int)
    requires
        sorted(s),
    ensures
        lower_bound(s, k) <= s.len(),
        forall|m: int| 0 <= m < lower_bound(s, k) ==> key(#[trigger] s[m]) < k,
        lower_bound(s, k) < s.len() ==> key(s[lower_bound(s, k) as int]) >= k,
    decreases s.len(),
{
    if s.len() > 0 && key(s[0]) < k {
        let t = s.drop_first();
        assert(sorted(t)) by {
            assert forall|a: int, b: int| 0 <= a < b < t.len() implies key(#[trigger] t[a]) < key(
                #[trigger] t[b],
            ) by {
                assert(t[a] == s[a + 1] && t[b] == s[b + 1]);
            }
        }
        lemma_lower_bound_splits(t, k);
        assert forall|m: int| 0 <= m < lower_bound(s, k) implies key(#[trigger] s[m]) < k by {
            if m > 0 {
                assert(s[m] == t[m - 1]);
            }
        }
        if lower_bound(s, k) < s.len() {
            assert(s[lower_bound(s, k) as int] == t[lower_bound(t, k) as int]);
        }
    }
}

/// Filing an outcome keeps the buffer in strictly increasing segment order.
proof fn lemma_insert_sorted_sorted(s1: Seq<InterpretOutcome>, o: InterpretOutcome)
    requires
        sorted(s1),
    ensures
        sorted(insert_sorted(s1, o)),
{
    let k = key(o);
    let i = lower_bound(s1, k) as int;
    lemma_lower_bound_splits(s1, k);
    let s2 = insert_sorted(s1, o);
    let replace = i < s1.len() && key(s1[i]) == k;
    assert forall|a: int, b: int| 0 <= a < b < s2.len() implies key(#[trigger] s2[a]) < key(
        #[trigger] s2[b],
    ) by {
        if replace {
            if a != i && b != i {
                assert(s2[a] == s1[a] && s2[b] == s1[b]);
            } else if a == i {
                assert(s2[b] == s1[b]);
                assert(key(s1[i]) < key(s1[b]));
            } else {
                assert(s2[a] == s1[a]);
            }
        } else {
            if b < i {
                assert(s2[a] == s1[a] && s2[b] == s1[b]);
            } else if a > i {
                assert(s2[a] == s1[a - 1] && s2[b] == s1[b - 1]);
            } else if a == i {
                assert(s2[b] == s1[b - 1]);
                assert(key(s1[b - 1]) >= k) by {
                    if b - 1 > i {
                        assert(key(s1[i]) < key(s1[b - 1]));
                    }
                }
            } else if b == i {
                assert(s2[a] == s1[a]);
            } else {
                assert(s2[a] == s1[a] && s2[b] == s1[b - 1]);
            }
        }
    }
}

/// The run handed on stops at the first segment out of sequence.
proof fn lemma_run_len_maximal(s: Seq<InterpretOutcome>, n: int)
    ensures
        run_len(s, n) < s.len() ==> key(s[run_len(s, n) as int]) != n + run_len(s, n),
    decreases s.len(),
{
    if s.len() > 0 && key(s[0]) == n {
        lemma_run_len_maximal(s.drop_first(), n + 1);
        if run_len(s, n) < s.len() {
            assert(s[run_len(s, n) as int] == s.drop_first()[run_len(s.drop_first(), n + 1) as int]);
        }
    }
}

/// Nothing deliverable stays buffered: inserting into a settled buffer an
/// outcome for the segment due or a later one hands on, in ascending order,
/// the consecutive segments from the one due, and leaves a settled buffer,
/// so no waiting outcome is for the new segment due. (An outcome for a
/// segment already handed on can stay buffered ahead of later ones, so
/// such stale outcomes are left out.)
pub proof fn lemma_nothing_deliverable_stays_buffered(
    s: Seq<InterpretOutcome>,
    capacity: nat,
    o: InterpretOutcome,
    n: int,
)
    requires
        capacity >= 1,
        sorted(s),
        settled(s, n, capacity),
        key(o) >= n,
    ensures
        ({
            let s2 = insert_sorted(room_made(s, capacity), o);
            let j = run_len(s2, n) as int;
            &&& forall|i: int| 0 <= i < j ==> key(#[trigger] s2[i]) == n + i
            &&& settled(s2.subrange(j, s2.len() as int), n + j, capacity)
        }),
{
    let s1 = room_made(s, capacity);
    let s2 = insert_sorted(s1, o);
    let j = run_len(s2, n) as int;
    assert(sorted(s1)) by {
        if s1.len() < s.len() {
            assert forall|a: int, b: int| 0 <= a < b < s1.len() implies key(#[trigger] s1[a]) < key(
                #[trigger] s1[b],
            ) by {
                assert(s1[a] == s[a + 1] && s1[b] == s[b + 1]);
            }
        }
    }
    lemma_insert_sorted_sorted(s1, o);
    lemma_capacity_respected(s, capacity, o, n);
    lemma_run_len_bound(s2, n);
    lemma_run_len_maximal(s2, n);
    assert forall|i: int| 0 <= i < j implies key(#[trigger] s2[i]) == n + i by {
        lemma_ready_in_order(s2, n, i);
    }
    assert forall|m: int| 0 <= m < s2.len() implies key(#[trigger] s2[m]) >= n by {
        lemma_insert_sorted_segments(s1, o, key(s2[m]));
        lemma_room_made_segments(s, capacity, key(s2[m]));
        assert(holds_segment(s2, key(s2[m])));
        if holds_segment(s, key(s2[m])) {
            let w = choose|w: int| 0 <= w < s.len() && key(#[trigger] s[w]) == key(s2[m]);
            assert(key(s[w]) > n);
        }
    }
    let t = s2.subrange(j, s2.len() as int);
    if j < s2.len() {
        assert(key(s2[j]) > n + j) by {
            if j > 0 {
                assert(key(s2[j - 1]) == n + j - 1);
                assert(key(s2[j - 1]) < key(s2[j]));
            }
        }
    }
    assert forall|i: int| 0 <= i < t.len() implies key(#[trigger] t[i]) > n + j by {
        assert(t[i] == s2[i + j]);
        if i > 0 {
            assert(key(s2[j]) < key(s2[i + j]));
        }
    }
}

} // verus!
