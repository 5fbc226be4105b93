//! Time-delayed interpolation between confirmed snapshots.

use vstd::prelude::*;
use vstd::arithmetic::div_mod::{lemma_div_is_ordered, lemma_div_multiples_vanish};
use vstd::arithmetic::mul::{lemma_mul_inequality, lemma_mul_is_commutative};

verus! {

/// The value at fraction `num / den` of the way from `start` to `end`,
/// rounded towards `start`.
pub open spec fn blend(start: int, end: int, num: int, den: int) -> int {
    if start <= end {
        start + (end - start) * num / den
    } else {
        start - (start - end) * num / den
    }
}

/// A step of `d * num / den` for `num` in `0..=den` lies within `0..=d`,
/// and grows with `num`.
proof fn lemma_scaled_step(d: int, n1: int, n2: int, den: int)
    requires
        d >= 0,
        0 <= n1 <= n2 <= den,
        den > 0,
    ensures
        0 <= d * n1 / den <= d * n2 / den <= d,
{
    lemma_mul_inequality(n1, n2, d);
    lemma_mul_inequality(n2, den, d);
    lemma_mul_inequality(0, n1, d);
    lemma_mul_is_commutative(d, n1);
    lemma_mul_is_commutative(d, n2);
    lemma_mul_is_commutative(d, den);
    lemma_div_is_ordered(0, d * n1, den);
    lemma_div_is_ordered(d * n1, d * n2, den);
    lemma_div_is_ordered(d * n2, d * den, den);
    lemma_div_multiples_vanish(d, den);
    assert(0int / den == 0);
}

/// For a fixed pair of snapshots, the blend lies between the two values and
/// moves monotonically from the first to the second as the fraction grows.
pub proof fn lemma_blend_monotonic_bounded(start: int, end: int, n1: int, n2: int, den: int)
    requires
        0 <= n1 <= n2 <= den,
        den > 0,
    ensures
        start <= end ==> start <= blend(start, end, n1, den) <= blend(start, end, n2, den) <= end,
        end <= start ==> start >= blend(start, end, n1, den) >= blend(start, end, n2, den) >= end,
        blend(start, end, 0, den) == start,
        blend(start, end, den, den) == end,
{
    if start <= end {
        lemma_scaled_step(end - start, n1, n2, den);
        lemma_scaled_step(end - start, 0, den, den);
        lemma_div_multiples_vanish(end - start, den);
        lemma_mul_is_commutative(end - start, den);
    } else {
        lemma_scaled_step(start - end, n1, n2, den);
        lemma_scaled_step(start - end, 0, den, den);
        lemma_div_multiples_vanish(start - end, den);
        lemma_mul_is_commutative(start - end, den);
    }
}

/// Interpolates between the snapshot values `start` and `end` at fraction
/// `num / den`, rounding towards `start`.
pub fn interpolate(start: i64, end: i64, num: u32, den: u32) -> (r: i64)
    requires
        num <= den,
        den > 0,
    ensures
        r == blend(start as int, end as int, num as int, den as int),
{
    proof {
        lemma_blend_monotonic_bounded(start as int, end as int, num as int, num as int, den as int);
    }
    if start <= end {
        let d: u128 = (end as i128 - start as i128) as u128;
        proof {
            lemma_mul_inequality(num as int, den as int, d as int);
            lemma_mul_inequality(den as int, 0x1_0000_0000int, d as int);
            lemma_mul_is_commutative(d as int, num as int);
        }
        let step: u128 = d * (num as u128) / (den as u128);
        (start as i128 + step as i128) as i64
    } else {
        let d: u128 = (start as i128 - end as i128) as u128;
        proof {
            lemma_mul_inequality(num as int, den as int, d as int);
            lemma_mul_inequality(den as int, 0x1_0000_0000int, d as int);
            lemma_mul_is_commutative(d as int, num as int);
        }
        let step: u128 = d * (num as u128) / (den as u128);
        (start as i128 - step as i128) as i64
    }
}

/// A confirmed value of one component at one tick.
pub type Snapshot = (u32, i64);

/// Snapshots `i` and `i + 1` of `h` bracket tick `t`.
pub open spec fn brackets(h: Seq<Snapshot>, i: int, t: u32) -> bool {
    0 <= i && i + 1 < h.len() && h[i].0 <= t < h[i + 1].0
}

/// The value rendered at tick `t` from the bracketing snapshots `i`, `i + 1`.
pub open spec fn blend_at(h: Seq<Snapshot>, i: int, t: u32) -> int {
    blend(h[i].1 as int, h[i + 1].1 as int, t - h[i].0, h[i + 1].0 - h[i].0)
}

/// The snapshots of one entity's component, by strictly increasing tick.
pub struct SnapshotHistory {
    pub entries: Vec<Snapshot>,
}

impl SnapshotHistory {
    /// Ticks strictly increase along the history.
    pub open spec fn wf(&self) -> bool {
        forall|a: int, b: int| 0 <= a < b < self.entries@.len() ==> self.entries@[a].0 < self.entries@[b].0
    }

    pub fn new() -> (r: SnapshotHistory)
        ensures
            r.wf(),
            r.entries@.len() == 0,
    {
        SnapshotHistory { entries: Vec::new() }
    }

    /// Records the value confirmed at `tick`. A snapshot not newer than the
    /// last one recorded is stale and is dropped; returns whether it was kept.
    pub fn record(&mut self, tick: u32, value: i64) -> (r: bool)
        requires
            old(self).wf(),
        ensures
            final(self).wf(),
            r == (old(self).entries@.len() == 0 || old(self).entries@.last().0 < tick),
            r ==> final(self).entries@ == old(self).entries@.push((tick, value)),
            !r ==> final(self).entries@ == old(self).entries@,
    {
        let n = self.entries.len();
        if n == 0 || self.entries[n - 1].0 < tick {
            self.entries.push((tick, value));
            true
        } else {
            false
        }
    }

    /// The value to render at tick `t`: the blend of the two snapshots that
    /// bracket `t`; without such a pair, the value held last (the newest
    /// snapshot when `t` is past it, the oldest when `t` is before it).
    /// `None` only when the history is empty.
    pub fn sample(&self, t: u32) -> (r: Option<i64>)
        requires
            self.wf(),
        ensures
            r is None <==> self.entries@.len() == 0,
            forall|i: int| brackets(self.entries@, i, t) ==> r == Some(blend_at(self.entries@, i, t) as i64),
            self.entries@.len() > 0 && self.entries@.last().0 <= t ==> r == Some(self.entries@.last().1),
            self.entries@.len() > 0 && t < self.entries@[0].0 ==> r == Some(self.entries@[0].1),
    {
        let n = self.entries.len();
        if n == 0 {
            return None;
        }
        if t < self.entries[0].0 {
            return Some(self.entries[0].1);
        }
        let mut i: usize = 0;
        while i + 1 < n
            invariant
                self.wf(),
                n == self.entries@.len(),
                i < n,
                self.entries@[i as int].0 <= t,
            decreases n - i,
        {
            let (t0, v0) = self.entries[i];
            let (t1, v1) = self.entries[i + 1];
            if t < t1 {
                let r = interpolate(v0, v1, t - t0, t1 - t0);
                proof {
                    assert forall|j: int| brackets(self.entries@, j, t) implies j == i by {
                        if j < i {
                            assert(self.entries@[j + 1].0 <= self.entries@[i as int].0);
                        } else if j > i {
                            assert(self.entries@[i + 1].0 <= self.entries@[j].0);
                        }
                    }
                }
                return Some(r);
            }
            i = i + 1;
        }
        Some(self.entries[n - 1].1)
    }

    /// Drops the snapshots that no render at tick `horizon` or later needs:
    /// all those before the newest one at or before `horizon`.
    pub fn prune(&mut self, horizon: u32)
        requires
            old(self).wf(),
        ensures
            final(self).wf(),
            exists|k: int|
                0 <= k <= old(self).entries@.len() && final(self).entries@ == old(self).entries@.subrange(k, old(self).entries@.len() as int)
                && (forall|j: int| 0 <= j < k ==> old(self).entries@[j].0 < horizon)
                && (k < old(self).entries@.len() ==> (k == 0 || old(self).entries@[k].0 <= horizon))
                && (old(self).entries@.len() > 0 ==> k < old(self).entries@.len())
                && (k + 1 < old(self).entries@.len() ==> old(self).entries@[k + 1].0 > horizon),
    {
        let n = self.entries.len();
        let mut k: usize = 0;
        while k + 1 < n && self.entries[k + 1].0 <= horizon
            invariant
                self.wf(),
                n == self.entries@.len(),
                k <= n,
                n > 0 ==> k < n,
                k > 0 ==> self.entries@[k as int].0 <= horizon,
            decreases n - k,
        {
            k = k + 1;
        }
        let mut kept: Vec<Snapshot> = Vec::new();
        let mut j: usize = k;
        while j < n
            invariant
                k <= j <= n,
                n == self.entries@.len(),
                kept@ == self.entries@.subrange(k as int, j as int),
            decreases n - j,
        {
            kept.push(self.entries[j]);
            j = j + 1;
        }
        proof {
            assert(k + 1 < n ==> self.entries@[k + 1].0 > horizon);
            assert forall|a: int| 0 <= a < k implies self.entries@[a].0 < horizon by {
                assert(self.entries@[a].0 < self.entries@[k as int].0);
            }
        }
        self.entries = kept;
    }
}

} // verus!
