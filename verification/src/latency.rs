//! The latency histogram of live interpretation: per stage, how many
//! segments fell into each of eleven buckets, and the percentiles read back
//! from the buckets.
use vstd::prelude::*;

verus! {

/// Buckets per stage: ten bounded ones and one for everything above.
pub const LATENCY_BUCKETS: usize = 11;

/// The measured stages of a live segment.
#[derive(Clone, Copy, Debug, PartialEq, Eq, Structural)]
pub enum LatencyStage {
    CaptureToRequest,
    Ttfb,
    FirstAudio,
    PlaybackEnd,
}

/// The upper bound, in milliseconds, of each bounded bucket.
pub open spec fn boundary(i: int) -> nat {
    if i == 0 {
        50
    } else if i == 1 {
        100
    } else if i == 2 {
        150
    } else if i == 3 {
        200
    } else if i == 4 {
        300
    } else if i == 5 {
        500
    } else if i == 6 {
        750
    } else if i == 7 {
        1000
    } else if i == 8 {
        2000
    } else {
        5000
    }
}

/// The first bucket whose bound is at least `ms`; the last bucket past
/// every bound.
pub open spec fn bucket_of(ms: nat) -> int {
    if ms <= 50 {
        0
    } else if ms <= 100 {
        1
    } else if ms <= 150 {
        2
    } else if ms <= 200 {
        3
    } else if ms <= 300 {
        4
    } else if ms <= 500 {
        5
    } else if ms <= 750 {
        6
    } else if ms <= 1000 {
        7
    } else if ms <= 2000 {
        8
    } else if ms <= 5000 {
        9
    } else {
        10
    }
}

/// The value a percentile reads from a bucket: its bound, or one past the
/// last bound for the open bucket.
pub open spec fn bucket_value(i: int) -> nat {
    if i < 10 {
        boundary(i)
    } else {
        5001
    }
}

/// The sum of the first `k` buckets.
pub open spec fn prefix_sum(b: Seq<u64>, k: int) -> nat
    decreases k,
{
    if k <= 0 {
        0
    } else {
        prefix_sum(b, k - 1) + (b[k - 1] as nat)
    }
}

/// The first bucket from `i` on at which the running count reaches `target`.
pub open spec fn first_reaching(b: Seq<u64>, target: nat, i: int) -> Option<int>
    decreases b.len() - i,
{
    if i < 0 || i >= b.len() {
        None
    } else if prefix_sum(b, i + 1) >= target {
        Some(i)
    } else {
        first_reaching(b, target, i + 1)
    }
}

/// The `pct`-th percentile of a histogram: 0 when it is empty, else the
/// value of the first bucket at which the running count reaches
/// `ceil(total * pct / 100)`, at least one.
pub open spec fn percentile(b: Seq<u64>, pct: nat) -> nat {
    let total = prefix_sum(b, b.len() as int);
    if total == 0 {
        0
    } else {
        let t = (total * pct + 99) / 100;
        let target: nat = if t < 1 {
            1
        } else {
            t as nat
        };
        match first_reaching(b, target, 0) {
            Some(i) => bucket_value(i),
            None => 0,
        }
    }
}

proof fn lemma_prefix_monotone(b: Seq<u64>, j: int, k: int)
    requires
        0 <= j <= k,
    ensures
        prefix_sum(b, j) <= prefix_sum(b, k),
    decreases k - j,
{
    if j < k {
        lemma_prefix_monotone(b, j, k - 1);
    }
}

proof fn lemma_prefix_bump(b: Seq<u64>, i: int, k: int)
    requires
        0 <= i < b.len(),
        b[i] < u64::MAX,
        0 <= k <= b.len(),
    ensures
        prefix_sum(b.update(i, (b[i] + 1) as u64), k) == prefix_sum(b, k) + if i < k {
            1nat
        } else {
            0nat
        },
    decreases k,
{
    if k > 0 {
        lemma_prefix_bump(b, i, k - 1);
    }
}

fn boundary_at(i: usize) -> (v: u64)
    requires
        i < 10,
    ensures
        v == boundary(i as int),
{
    if i == 0 {
        50
    } else if i == 1 {
        100
    } else if i == 2 {
        150
    } else if i == 3 {
        200
    } else if i == 4 {
        300
    } else if i == 5 {
        500
    } else if i == 6 {
        750
    } else if i == 7 {
        1000
    } else if i == 8 {
        2000
    } else {
        5000
    }
}

/// The bucket a duration falls into.
pub fn bucket_index(ms: u64) -> (i: usize)
    ensures
        i == bucket_of(ms as nat),
        i < LATENCY_BUCKETS,
{
    if ms <= 50 {
        0
    } else if ms <= 100 {
        1
    } else if ms <= 150 {
        2
    } else if ms <= 200 {
        3
    } else if ms <= 300 {
        4
    } else if ms <= 500 {
        5
    } else if ms <= 750 {
        6
    } else if ms <= 1000 {
        7
    } else if ms <= 2000 {
        8
    } else if ms <= 5000 {
        9
    } else {
        10
    }
}

/// The `pct`-th percentile of a stage's buckets, read as in `percentile`.
pub fn percentile_from_buckets(buckets: &[u64], pct: u64) -> (v: u64)
    requires
        buckets@.len() == LATENCY_BUCKETS,
        prefix_sum(buckets@, LATENCY_BUCKETS as int) * pct <= u64::MAX,
        prefix_sum(buckets@, LATENCY_BUCKETS as int) <= u64::MAX,
    ensures
        v == percentile(buckets@, pct as nat),
{
    let ghost b = buckets@;
    let ghost all = prefix_sum(b, 11);
    let mut total: u64 = 0;
    let mut i: usize = 0;
    while i < buckets.len()
        invariant
            b == buckets@,
            b.len() == 11,
            all == prefix_sum(b, 11),
            all <= u64::MAX,
            i <= 11,
            total == prefix_sum(b, i as int),
        decreases 11 - i,
    {
        proof {
            lemma_prefix_monotone(b, i + 1, 11);
        }
        total = total + buckets[i];
        i = i + 1;
    }
    if total == 0 {
        return 0;
    }
    let product = total * pct;
    let mut t = product / 100;
    if product % 100 != 0 {
        t = t + 1;
    }
    assert(t == (total * pct + 99) / 100) by (nonlinear_arith)
        requires
            product == total * pct,
            t == if product % 100 != 0 {
                product / 100 + 1
            } else {
                product / 100 + 0
            },
    ;
    let target: u64 = if t < 1 {
        1
    } else {
        t
    };
    let mut cumulative: u64 = 0;
    let mut k: usize = 0;
    while k < buckets.len()
        invariant
            b == buckets@,
            b.len() == 11,
            all == prefix_sum(b, 11),
            all <= u64::MAX,
            k <= 11,
            cumulative == prefix_sum(b, k as int),
            all == total,
            all != 0,
            target == (if (all * pct + 99) / 100 < 1 {
                1
            } else {
                (all * pct + 99) / 100
            }),
            first_reaching(b, target as nat, 0) == first_reaching(b, target as nat, k as int),
        decreases 11 - k,
    {
        proof {
            lemma_prefix_monotone(b, k + 1, 11);
        }
        cumulative = cumulative + buckets[k];
        if cumulative >= target {
            if k < 10 {
                return boundary_at(k);
            } else {
                return 5001;
            }
        }
        k = k + 1;
    }
    0
}

/// The live latency histogram of every stage, and the playback underruns.
pub struct LiveLatencyAggregator {
    capture_to_request: Vec<u64>,
    ttfb: Vec<u64>,
    first_audio: Vec<u64>,
    playback_end: Vec<u64>,
    underruns: u64,
}

impl LiveLatencyAggregator {
    pub closed spec fn buckets_view(&self, stage: LatencyStage) -> Seq<u64> {
        match stage {
            LatencyStage::CaptureToRequest => self.capture_to_request@,
            LatencyStage::Ttfb => self.ttfb@,
            LatencyStage::FirstAudio => self.first_audio@,
            LatencyStage::PlaybackEnd => self.playback_end@,
        }
    }

    pub closed spec fn underruns_view(&self) -> nat {
        self.underruns as nat
    }

    /// How many durations of a stage were recorded.
    pub open spec fn total_view(&self, stage: LatencyStage) -> nat {
        prefix_sum(self.buckets_view(stage), LATENCY_BUCKETS as int)
    }

    /// Every stage has its eleven buckets, and a hundred times its total
    /// fits the counters, so that every percentile can be read.
    pub open spec fn well_formed(&self) -> bool {
        forall|stage: LatencyStage|
            {
                &&& (#[trigger] self.buckets_view(stage)).len() == LATENCY_BUCKETS
                &&& self.total_view(stage) * 100 <= u64::MAX
            }
    }

    /// An empty histogram.
    pub fn new() -> (a: Self)
        ensures
            a.well_formed(),
            forall|stage: LatencyStage, i: int|
                0 <= i < LATENCY_BUCKETS ==> #[trigger] a.buckets_view(stage)[i] == 0,
            a.underruns_view() == 0,
    {
        let a = LiveLatencyAggregator {
            capture_to_request: vec![0u64; 11],
            ttfb: vec![0u64; 11],
            first_audio: vec![0u64; 11],
            playback_end: vec![0u64; 11],
            underruns: 0,
        };
        proof {
            assert forall|stage: LatencyStage| (#[trigger] a.buckets_view(stage)).len() == 11
                && a.total_view(stage) * 100 <= u64::MAX by {
                let b = a.buckets_view(stage);
                assert forall|k: int| 0 <= k <= 11 implies prefix_sum(b, k) == 0 by {
                    lemma_prefix_zero(b, k);
                }
            }
        }
        a
    }

    fn buckets(&self, stage: LatencyStage) -> (b: &Vec<u64>)
        ensures
            b@ == self.buckets_view(stage),
    {
        match stage {
            LatencyStage::CaptureToRequest => &self.capture_to_request,
            LatencyStage::Ttfb => &self.ttfb,
            LatencyStage::FirstAudio => &self.first_audio,
            LatencyStage::PlaybackEnd => &self.playback_end,
        }
    }

    /// Whether one more duration of the stage can be recorded.
    pub fn can_record(&self, stage: LatencyStage) -> (b: bool)
        requires
            self.well_formed(),
        ensures
            b == (self.total_view(stage) * 100 + 100 <= u64::MAX),
    {
        let v = self.buckets(stage);
        proof {
            assert(v@.len() == 11);
        }
        let mut total: u64 = 0;
        let mut i: usize = 0;
        while i < v.len()
            invariant
                v@ == self.buckets_view(stage),
                v@.len() == 11,
                self.total_view(stage) * 100 <= u64::MAX,
                i <= 11,
                total == prefix_sum(v@, i as int),
            decreases 11 - i,
        {
            proof {
                lemma_prefix_monotone(v@, i + 1, 11);
            }
            total = total + v[i];
            i = i + 1;
        }
        total <= (u64::MAX - 100) / 100
    }

    /// Counts one duration of a stage in its bucket.
    pub fn record(&mut self, stage: LatencyStage, ms: u64)
        requires
            old(self).well_formed(),
            old(self).total_view(stage) * 100 + 100 <= u64::MAX,
        ensures
            final(self).well_formed(),
            final(self).buckets_view(stage) == old(self).buckets_view(stage).update(
                bucket_of(ms as nat),
                (old(self).buckets_view(stage)[bucket_of(ms as nat)] + 1) as u64,
            ),
            forall|other: LatencyStage|
                other != stage ==> #[trigger] final(self).buckets_view(other) == old(
                    self,
                ).buckets_view(other),
            final(self).underruns_view() == old(self).underruns_view(),
    {
        let idx = bucket_index(ms);
        proof {
            let b = old(self).buckets_view(stage);
            assert(b.len() == 11);
            lemma_prefix_monotone(b, idx + 1, 11);
            assert(b[idx as int] <= prefix_sum(b, idx + 1));
            lemma_prefix_bump(b, idx as int, 11);
        }
        match stage {
            LatencyStage::CaptureToRequest => bump(&mut self.capture_to_request, idx),
            LatencyStage::Ttfb => bump(&mut self.ttfb, idx),
            LatencyStage::FirstAudio => bump(&mut self.first_audio, idx),
            LatencyStage::PlaybackEnd => bump(&mut self.playback_end, idx),
        }
        proof {
            assert forall|s: LatencyStage|
                (#[trigger] self.buckets_view(s)).len() == LATENCY_BUCKETS && self.total_view(s)
                    * 100 <= u64::MAX by {
                if s != stage {
                    assert(self.buckets_view(s) == old(self).buckets_view(s));
                }
            }
        }
    }

    /// The median bucket value of a stage.
    pub fn p50(&self, stage: LatencyStage) -> (v: u64)
        requires
            self.well_formed(),
        ensures
            v == percentile(self.buckets_view(stage), 50),
    {
        percentile_from_buckets(self.buckets(stage).as_slice(), 50)
    }

    /// The 95th-percentile bucket value of a stage.
    pub fn p95(&self, stage: LatencyStage) -> (v: u64)
        requires
            self.well_formed(),
        ensures
            v == percentile(self.buckets_view(stage), 95),
    {
        percentile_from_buckets(self.buckets(stage).as_slice(), 95)
    }

    /// Counts one playback underrun.
    pub fn increment_underruns(&mut self)
        requires
            old(self).underruns_view() < u64::MAX,
        ensures
            final(self).underruns_view() == old(self).underruns_view() + 1,
            forall|stage: LatencyStage|
                #[trigger] final(self).buckets_view(stage) == old(self).buckets_view(stage),
    {
        self.underruns = self.underruns + 1;
    }

    /// The playback underruns counted so far.
    pub fn underruns(&self) -> (n: u64)
        ensures
            n == self.underruns_view(),
    {
        self.underruns
    }
}

fn bump(v: &mut Vec<u64>, idx: usize)
    requires
        idx < old(v)@.len(),
        old(v)@[idx as int] < u64::MAX,
    ensures
        final(v)@ == old(v)@.update(idx as int, (old(v)@[idx as int] + 1) as u64),
{
    let n = v[idx] + 1;
    v.set(idx, n);
}

proof fn lemma_prefix_zero(b: Seq<u64>, k: int)
    requires
        0 <= k <= b.len(),
        forall|i: int| 0 <= i < b.len() ==> b[i] == 0,
    ensures
        prefix_sum(b, k) == 0,
    decreases k,
{
    if k > 0 {
        lemma_prefix_zero(b, k - 1);
    }
}

} // verus!
