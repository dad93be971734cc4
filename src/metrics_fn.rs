//! The counter adapter: a backend counter, its resolved attributes, and the
//! last-value cell that turns absolute readings into the deltas the backend adds.
use vstd::prelude::*;
use opentelemetry_api::metrics::Counter;
use opentelemetry_api::KeyValue;
use vstd::arithmetic::div_mod::{lemma_add_mod_noop, lemma_small_mod};
use crate::backend::counter_add;
use crate::ConfigView;

verus! {

/// The sum of a sequence of deltas.
pub open spec fn sum(s: Seq<u64>) -> int
    decreases s.len(),
{
    if s.len() == 0 {
        0
    } else {
        sum(s.drop_last()) + s.last()
    }
}

/// `a + b` wrapped to 64 bits, as an atomic fetch-add leaves it.
pub open spec fn wrapping_sum(a: u64, b: u64) -> u64 {
    ((a as int + b as int) % 0x1_0000_0000_0000_0000int) as u64
}

/// The delta that an absolute reading `value` forwards when the last reading was
/// `last`: the rise since then, or nothing when the reading went down, in which
/// case `value` becomes the baseline of a new run.
pub open spec fn absolute_delta(last: u64, value: u64) -> u64 {
    if value >= last {
        (value - last) as u64
    } else {
        0
    }
}

/// The last-value cell of a counter: the most recent cumulative reading.
pub struct LastValue {
    pub value: u64,
}

impl LastValue {
    /// A cell whose baseline is zero.
    pub fn new() -> (r: LastValue)
        ensures
            r.value == 0,
    {
        LastValue { value: 0 }
    }

    /// Adds `delta` to the cell (wrapping at 64 bits) and returns the delta to forward,
    /// which is `delta` itself.
    pub fn increment(&mut self, delta: u64) -> (r: u64)
        ensures
            r == delta,
            final(self).value == wrapping_sum(old(self).value, delta),
    {
        self.value = self.value.wrapping_add(delta);
        delta
    }

    /// Replaces the cell by `value` and returns the delta to forward: the rise since the
    /// previous reading, or zero when `value` is below it.
    pub fn absolute(&mut self, value: u64) -> (r: u64)
        ensures
            r == absolute_delta(old(self).value, value),
            final(self).value == value,
    {
        let previous = self.value;
        self.value = value;
        if value >= previous {
            value - previous
        } else {
            0
        }
    }
}

/// What a counter adapter has done so far: its last value, and the deltas it
/// has handed to the backend, oldest first.
pub type CounterModel = (u64, Seq<u64>);

/// The state after `increment(delta)`.
pub open spec fn increment_step(m: CounterModel, delta: u64) -> CounterModel {
    (wrapping_sum(m.0, delta), m.1.push(delta))
}

/// The state after `absolute(value)`.
pub open spec fn absolute_step(m: CounterModel, value: u64) -> CounterModel {
    (value, m.1.push(absolute_delta(m.0, value)))
}

/// The state after `increment(ds[0]); increment(ds[1]); ...`.
pub open spec fn increments(m: CounterModel, ds: Seq<u64>) -> CounterModel
    decreases ds.len(),
{
    if ds.len() == 0 {
        m
    } else {
        increment_step(increments(m, ds.drop_last()), ds.last())
    }
}

/// The state after `absolute(vs[0]); absolute(vs[1]); ...`.
pub open spec fn absolutes(m: CounterModel, vs: Seq<u64>) -> CounterModel
    decreases vs.len(),
{
    if vs.len() == 0 {
        m
    } else {
        absolute_step(absolutes(m, vs.drop_last()), vs.last())
    }
}

/// The deltas between successive readings, the first one taken from zero.
pub open spec fn successive_deltas(vs: Seq<u64>) -> Seq<u64> {
    Seq::new(vs.len(), |i: int| if i == 0 { vs[0] } else { (vs[i] - vs[i - 1]) as u64 })
}

/// Readings that never go down.
pub open spec fn non_decreasing(vs: Seq<u64>) -> bool {
    forall|i: int, j: int| 0 <= i <= j < vs.len() ==> vs[i] <= vs[j]
}

/// A run of increments forwards each delta unchanged, so the backend receives their
/// sum; the last value grows by the same sum, wrapped to 64 bits.
pub proof fn lemma_increments_total(m: CounterModel, ds: Seq<u64>)
    ensures
        increments(m, ds).1 == m.1 + ds,
        sum(increments(m, ds).1) == sum(m.1) + sum(ds),
        increments(m, ds).0 as int == (m.0 as int + sum(ds)) % 0x1_0000_0000_0000_0000int,
    decreases ds.len(),
{
    if ds.len() == 0 {
        assert(m.1 + ds =~= m.1);
        assert(m.0 as int % 0x1_0000_0000_0000_0000int == m.0 as int);
    } else {
        let prev = increments(m, ds.drop_last());
        lemma_increments_total(m, ds.drop_last());
        assert(m.1 + ds =~= (m.1 + ds.drop_last()).push(ds.last()));
        assert((m.1 + ds).drop_last() =~= m.1 + ds.drop_last());
        let a = m.0 as int + sum(ds.drop_last());
        let p = 0x1_0000_0000_0000_0000int;
        lemma_add_mod_noop(a, ds.last() as int, p);
        lemma_small_mod(ds.last() as nat, p as nat);
        lemma_small_mod((a % p) as nat, p as nat);
    }
}

/// Starting from a fresh adapter, the backend receives the exact total of the
/// increments, and the last value reads that total (wrapped to 64 bits).
pub proof fn lemma_fresh_increments(ds: Seq<u64>)
    ensures
        increments((0, Seq::empty()), ds).1 == ds,
        sum(increments((0, Seq::empty()), ds).1) == sum(ds),
        sum(ds) < 0x1_0000_0000_0000_0000int ==> increments((0, Seq::empty()), ds).0 == sum(ds),
{
    lemma_increments_total((0, Seq::empty()), ds);
    assert(Seq::<u64>::empty() + ds =~= ds);
    lemma_sum_nonnegative(ds);
}

proof fn lemma_sum_nonnegative(s: Seq<u64>)
    ensures
        sum(s) >= 0,
    decreases s.len(),
{
    if s.len() > 0 {
        lemma_sum_nonnegative(s.drop_last());
    }
}

proof fn lemma_sum_concat(a: Seq<u64>, b: Seq<u64>)
    ensures
        sum(a + b) == sum(a) + sum(b),
    decreases b.len(),
{
    if b.len() == 0 {
        assert(a + b =~= a);
    } else {
        lemma_sum_concat(a, b.drop_last());
        assert((a + b).drop_last() =~= a + b.drop_last());
    }
}

proof fn lemma_sum_remove(s: Seq<u64>, j: int)
    requires
        0 <= j < s.len(),
    ensures
        sum(s) == sum(s.remove(j)) + s[j],
{
    let front = s.subrange(0, j);
    let back = s.subrange(j + 1, s.len() as int);
    assert(s =~= front.push(s[j]) + back);
    assert(s.remove(j) =~= front + back);
    lemma_sum_concat(front.push(s[j]), back);
    lemma_sum_concat(front, back);
    assert(front.push(s[j]).drop_last() =~= front);
}

proof fn lemma_sum_permutation(s: Seq<u64>, t: Seq<u64>)
    requires
        s.to_multiset() == t.to_multiset(),
    ensures
        sum(s) == sum(t),
    decreases s.len(),
{
    broadcast use vstd::seq_lib::group_to_multiset_ensures;

    if s.len() == 0 {
        assert(t.to_multiset().len() == 0);
        assert(t.len() == 0);
    } else {
        let x = s.last();
        let init = s.drop_last();
        assert(s =~= init.push(x));
        assert(s.to_multiset() =~= init.to_multiset().insert(x));
        assert(t.to_multiset().count(x) > 0);
        assert(t.contains(x));
        let j = choose|j: int| 0 <= j < t.len() && t[j] == x;
        assert(t.remove(j).to_multiset() =~= init.to_multiset());
        lemma_sum_permutation(init, t.remove(j));
        lemma_sum_remove(t, j);
    }
}

/// Increments applied in any order reach the same state: the backend receives the
/// same total and the last value is the same, so how concurrent increments were
/// ordered cannot lose or add to what is counted.
pub proof fn lemma_increments_order_free(m: CounterModel, ds: Seq<u64>, reordered: Seq<u64>)
    requires
        ds.to_multiset() == reordered.to_multiset(),
    ensures
        sum(increments(m, ds).1) == sum(increments(m, reordered).1),
        increments(m, ds).0 == increments(m, reordered).0,
{
    lemma_increments_total(m, ds);
    lemma_increments_total(m, reordered);
    lemma_sum_permutation(ds, reordered);
}

/// Non-decreasing readings, starting from a fresh adapter, forward `v1 - 0`,
/// `v2 - v1`, ... in that order, and leave the last reading as the last value.
pub proof fn lemma_absolutes_forward_differences(vs: Seq<u64>)
    requires
        non_decreasing(vs),
    ensures
        absolutes((0, Seq::empty()), vs).1 == successive_deltas(vs),
        vs.len() > 0 ==> absolutes((0, Seq::empty()), vs).0 == vs.last(),
    decreases vs.len(),
{
    if vs.len() > 0 {
        let init = vs.drop_last();
        assert(non_decreasing(init));
        lemma_absolutes_forward_differences(init);
        assert(successive_deltas(vs) =~= successive_deltas(init).push(
            absolute_delta(absolutes((0, Seq::empty()), init).0, vs.last()),
        ));
    }
}

/// Forwards a facade counter to a backend counter under fixed attributes.
pub struct CounterFn {
    pub inner: Counter<u64>,
    pub labels: Vec<KeyValue>,
    pub last_value: LastValue,
    /// The deltas handed to the backend so far, oldest first.
    pub forwarded: Ghost<Seq<u64>>,
    /// The name, description and unit label the backend counter was built with.
    pub config: Ghost<ConfigView>,
}

impl CounterFn {
    /// The adapter's last value and the deltas it has forwarded.
    pub open spec fn model(&self) -> CounterModel {
        (self.last_value.value, self.forwarded@)
    }

    /// An adapter for `inner`, built with `config`, under `labels`, with last value zero.
    pub fn new(inner: Counter<u64>, labels: Vec<KeyValue>, config: Ghost<ConfigView>) -> (r:
        CounterFn)
        ensures
            r.model() == (0u64, Seq::<u64>::empty()),
            r.inner == inner,
            r.labels@ == labels@,
            r.config == config,
    {
        CounterFn {
            inner,
            labels,
            last_value: LastValue::new(),
            forwarded: Ghost(Seq::empty()),
            config,
        }
    }

    /// Adds `value` to the last value and forwards it unchanged.
    pub fn increment(&mut self, value: u64)
        ensures
            final(self).model() == increment_step(old(self).model(), value),
            final(self).inner == old(self).inner,
            final(self).config == old(self).config,
            final(self).labels@ == old(self).labels@,
    {
        let delta = self.last_value.increment(value);
        self.forward(delta);
    }

    /// Takes `value` as the new reading and forwards its rise over the previous one,
    /// or nothing when it is lower.
    pub fn absolute(&mut self, value: u64)
        ensures
            final(self).model() == absolute_step(old(self).model(), value),
            final(self).inner == old(self).inner,
            final(self).config == old(self).config,
            final(self).labels@ == old(self).labels@,
    {
        let delta = self.last_value.absolute(value);
        self.forward(delta);
    }

    fn forward(&mut self, delta: u64)
        ensures
            final(self).forwarded@ == old(self).forwarded@.push(delta),
            final(self).last_value == old(self).last_value,
            final(self).inner == old(self).inner,
            final(self).config == old(self).config,
            final(self).labels@ == old(self).labels@,
    {
        counter_add(&self.inner, delta, &self.labels);
        self.forwarded = Ghost(self.forwarded@.push(delta));
    }
}

} // verus!
