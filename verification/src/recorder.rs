//! The aggregation backend: three independent name-keyed mappings, one per
//! metric kind, with idempotent registration and the cell update protocol.
//!
//! Counters are unsigned 64-bit integers that grow by `wrapping` addition.
//! Gauges carry a floating-point value as its 64-bit pattern inside an
//! integer cell; the backend itself never interprets the pattern, it only
//! loads, stores and compare-exchanges it, so a caller updates a gauge by
//! the classic retry loop: load the pattern, compute the new value outside,
//! and compare-exchange it back until the exchange succeeds. Histograms are
//! append-only sequences of observations, also carried as bit patterns.

use vstd::arithmetic::div_mod::{
    lemma_add_mod_noop_right, lemma_mod_multiples_vanish, lemma_small_mod,
};
use vstd::prelude::*;

use crate::registry::{contains_name, distinct_names, lemma_handle_unique, name_index, Registry};

verus! {

/// Addition on 64-bit counters: wraps around on overflow.
pub open spec fn wrap_add64(a: u64, b: u64) -> u64 {
    if a + b > u64::MAX {
        (a + b - 0x1_0000_0000_0000_0000) as u64
    } else {
        (a + b) as u64
    }
}

/// `entries` with the cell at `h` replaced by `v`; the name stays.
pub open spec fn cell_updated<V>(entries: Seq<(Seq<char>, V)>, h: int, v: V) -> Seq<
    (Seq<char>, V),
> {
    entries.update(h, (entries[h].0, v))
}

/// The aggregation backend. It owns one registry per metric kind; equal
/// names across kinds are independent entities.
pub struct Recorder {
    counter_cells: Registry<u64>,
    gauge_cells: Registry<u64>,
    histogram_cells: Registry<Vec<u64>>,
}

impl Recorder {
    /// The counter mapping: name and current value of each counter cell.
    pub closed spec fn counters(&self) -> Seq<(Seq<char>, u64)> {
        self.counter_cells@
    }

    /// The gauge mapping: name and current bit pattern of each gauge cell.
    pub closed spec fn gauges(&self) -> Seq<(Seq<char>, u64)> {
        self.gauge_cells@
    }

    /// The histogram mapping: name and recorded observations of each histogram.
    pub closed spec fn histograms(&self) -> Seq<(Seq<char>, Seq<u64>)> {
        self.histogram_cells@.map_values(|p: (Seq<char>, Vec<u64>)| (p.0, p.1@))
    }

    pub closed spec fn wf(&self) -> bool {
        &&& self.counter_cells.wf()
        &&& self.gauge_cells.wf()
        &&& self.histogram_cells.wf()
    }

    /// Names are unique within each of the three mappings.
    pub proof fn lemma_wf_distinct(&self)
        requires
            self.wf(),
        ensures
            distinct_names(self.counters()),
            distinct_names(self.gauges()),
            distinct_names(self.histograms()),
    {
        self.counter_cells.lemma_wf_distinct();
        self.gauge_cells.lemma_wf_distinct();
        self.histogram_cells.lemma_wf_distinct();
    }

    /// A fresh backend with no metrics registered.
    pub fn new() -> (r: Self)
        ensures
            r.wf(),
            r.counters() == Seq::<(Seq<char>, u64)>::empty(),
            r.gauges() == Seq::<(Seq<char>, u64)>::empty(),
            r.histograms() == Seq::<(Seq<char>, Seq<u64>)>::empty(),
    {
        let r = Recorder {
            counter_cells: Registry::new(),
            gauge_cells: Registry::new(),
            histogram_cells: Registry::new(),
        };
        proof {
            assert(r.histograms() =~= Seq::<(Seq<char>, Seq<u64>)>::empty());
        }
        r
    }

    /// Get-or-create the counter cell named `name`. A fresh cell starts at
    /// zero; an existing cell, and everything else, is left untouched, so
    /// every registration of one name yields a handle to the same cell.
    pub fn register_counter(&mut self, name: &String) -> (h: usize)
        requires
            old(self).wf(),
        ensures
            final(self).wf(),
            (h as int) < final(self).counters().len(),
            final(self).counters()[h as int].0 == name@,
            contains_name(old(self).counters(), name@) ==> final(self).counters() == old(
                self,
            ).counters(),
            !contains_name(old(self).counters(), name@) ==> {
                &&& final(self).counters() =~= old(self).counters().push((name@, 0u64))
                &&& h as int == old(self).counters().len()
            },
            forall|i: int|
                0 <= i < old(self).counters().len() ==> final(self).counters()[i] == old(
                    self,
                ).counters()[i],
            final(self).gauges() == old(self).gauges(),
            final(self).histograms() == old(self).histograms(),
    {
        self.counter_cells.register(name, 0u64)
    }

    /// Get-or-create the gauge cell named `name`. A fresh cell starts at the
    /// all-zero bit pattern (which reads back as a floating-point zero).
    pub fn register_gauge(&mut self, name: &String) -> (h: usize)
        requires
            old(self).wf(),
        ensures
            final(self).wf(),
            (h as int) < final(self).gauges().len(),
            final(self).gauges()[h as int].0 == name@,
            contains_name(old(self).gauges(), name@) ==> final(self).gauges() == old(
                self,
            ).gauges(),
            !contains_name(old(self).gauges(), name@) ==> {
                &&& final(self).gauges() =~= old(self).gauges().push((name@, 0u64))
                &&& h as int == old(self).gauges().len()
            },
            forall|i: int|
                0 <= i < old(self).gauges().len() ==> final(self).gauges()[i] == old(
                    self,
                ).gauges()[i],
            final(self).counters() == old(self).counters(),
            final(self).histograms() == old(self).histograms(),
    {
        self.gauge_cells.register(name, 0u64)
    }

    /// Get-or-create the histogram named `name`. A fresh histogram holds no
    /// observations.
    pub fn register_histogram(&mut self, name: &String) -> (h: usize)
        requires
            old(self).wf(),
        ensures
            final(self).wf(),
            (h as int) < final(self).histograms().len(),
            final(self).histograms()[h as int].0 == name@,
            contains_name(old(self).histograms(), name@) ==> final(self).histograms() == old(
                self,
            ).histograms(),
            !contains_name(old(self).histograms(), name@) ==> {
                &&& final(self).histograms() =~= old(self).histograms().push(
                    (name@, Seq::<u64>::empty()),
                )
                &&& h as int == old(self).histograms().len()
            },
            forall|i: int|
                0 <= i < old(self).histograms().len() ==> final(self).histograms()[i] == old(
                    self,
                ).histograms()[i],
            final(self).counters() == old(self).counters(),
            final(self).gauges() == old(self).gauges(),
    {
        let ghost pre = self.histogram_cells@;
        let h = self.histogram_cells.register(name, Vec::new());
        proof {
            assert forall|i: int|
                0 <= i < pre.len() implies self.histograms()[i] == old(self).histograms()[i] by {
                assert(self.histogram_cells@[i] == pre[i]);
            }
            if contains_name(old(self).histograms(), name@) {
                assert(contains_name(pre, name@)) by {
                    let i = choose|i: int|
                        0 <= i < old(self).histograms().len() && old(self).histograms()[i].0
                            == name@;
                    assert(pre[i].0 == name@);
                }
                assert(self.histograms() =~= old(self).histograms());
            } else {
                if contains_name(pre, name@) {
                    let i = choose|i: int| 0 <= i < pre.len() && pre[i].0 == name@;
                    assert(old(self).histograms()[i].0 == name@);
                    assert(false);
                }
                assert(self.histograms() =~= old(self).histograms().push(
                    (name@, Seq::<u64>::empty()),
                ));
            }
        }
        h
    }

    /// Add `delta` to the counter at handle `h`; the sum wraps on overflow.
    /// No other cell, of any kind, is touched.
    pub fn counter_increment(&mut self, h: usize, delta: u64)
        requires
            old(self).wf(),
            h < old(self).counters().len(),
        ensures
            final(self).wf(),
            final(self).counters() =~= cell_updated(
                old(self).counters(),
                h as int,
                wrap_add64(old(self).counters()[h as int].1, delta),
            ),
            final(self).gauges() == old(self).gauges(),
            final(self).histograms() == old(self).histograms(),
    {
        let c = self.counter_cells.cell_mut(h);
        *c = c.wrapping_add(delta);
    }

    /// Raise the counter at handle `h` to at least `v`: the cell keeps the
    /// larger of its current value and `v`. This is the absolute form of a
    /// counter update, for synchronizing with a source that only reports
    /// totals; the cell still never decreases.
    pub fn counter_raise_to(&mut self, h: usize, v: u64)
        requires
            old(self).wf(),
            h < old(self).counters().len(),
        ensures
            final(self).wf(),
            final(self).counters() =~= cell_updated(
                old(self).counters(),
                h as int,
                if old(self).counters()[h as int].1 >= v {
                    old(self).counters()[h as int].1
                } else {
                    v
                },
            ),
            final(self).gauges() == old(self).gauges(),
            final(self).histograms() == old(self).histograms(),
    {
        let c = self.counter_cells.cell_mut(h);
        if *c < v {
            *c = v;
        }
    }

    /// The current value of the counter at handle `h`.
    pub fn counter_value(&self, h: usize) -> (v: u64)
        requires
            self.wf(),
            h < self.counters().len(),
        ensures
            v == self.counters()[h as int].1,
    {
        *self.counter_cells.cell(h)
    }

    /// The current bit pattern of the gauge at handle `h`.
    pub fn gauge_load(&self, h: usize) -> (bits: u64)
        requires
            self.wf(),
            h < self.gauges().len(),
        ensures
            bits == self.gauges()[h as int].1,
    {
        *self.gauge_cells.cell(h)
    }

    /// Store `bits` into the gauge at handle `h` unconditionally: the
    /// absolute `set` operation.
    pub fn gauge_store(&mut self, h: usize, bits: u64)
        requires
            old(self).wf(),
            h < old(self).gauges().len(),
        ensures
            final(self).wf(),
            final(self).gauges() =~= cell_updated(old(self).gauges(), h as int, bits),
            final(self).counters() == old(self).counters(),
            final(self).histograms() == old(self).histograms(),
    {
        let c = self.gauge_cells.cell_mut(h);
        *c = bits;
    }

    /// One step of the gauge update protocol: store `new_bits` into the gauge
    /// at handle `h` exactly when its current pattern is `expected`, and
    /// report whether the exchange took place. A caller that loads the
    /// pattern, computes the new floating-point value outside, and retries
    /// this exchange until it succeeds never loses a concurrent update.
    pub fn gauge_compare_exchange(&mut self, h: usize, expected: u64, new_bits: u64) -> (ok: bool)
        requires
            old(self).wf(),
            h < old(self).gauges().len(),
        ensures
            final(self).wf(),
            ok == (old(self).gauges()[h as int].1 == expected),
            ok ==> final(self).gauges() =~= cell_updated(old(self).gauges(), h as int, new_bits),
            !ok ==> final(self).gauges() =~= old(self).gauges(),
            final(self).counters() == old(self).counters(),
            final(self).histograms() == old(self).histograms(),
    {
        let c = self.gauge_cells.cell_mut(h);
        if *c == expected {
            *c = new_bits;
            true
        } else {
            false
        }
    }

    /// Append the observation `bits` to the histogram at handle `h`. No
    /// observation is ever dropped or reordered, and no other cell changes.
    pub fn histogram_record(&mut self, h: usize, bits: u64)
        requires
            old(self).wf(),
            h < old(self).histograms().len(),
        ensures
            final(self).wf(),
            final(self).histograms() =~= cell_updated(
                old(self).histograms(),
                h as int,
                old(self).histograms()[h as int].1.push(bits),
            ),
            final(self).counters() == old(self).counters(),
            final(self).gauges() == old(self).gauges(),
    {
        let c = self.histogram_cells.cell_mut(h);
        c.push(bits);
        proof {
            assert(self.histograms() =~= cell_updated(
                old(self).histograms(),
                h as int,
                old(self).histograms()[h as int].1.push(bits),
            ));
        }
    }

    /// The observations recorded so far by the histogram at handle `h`,
    /// oldest first.
    pub fn histogram_values(&self, h: usize) -> (r: &Vec<u64>)
        requires
            self.wf(),
            h < self.histograms().len(),
        ensures
            r@ == self.histograms()[h as int].1,
    {
        self.histogram_cells.cell(h)
    }

    /// How many counters are registered.
    pub fn counter_count(&self) -> (n: usize)
        requires
            self.wf(),
        ensures
            n == self.counters().len(),
    {
        self.counter_cells.len()
    }

    /// The name of the counter at handle `h`.
    pub fn counter_name(&self, h: usize) -> (r: &String)
        requires
            self.wf(),
            h < self.counters().len(),
        ensures
            r@ == self.counters()[h as int].0,
    {
        self.counter_cells.name_at(h)
    }

    /// How many gauges are registered.
    pub fn gauge_count(&self) -> (n: usize)
        requires
            self.wf(),
        ensures
            n == self.gauges().len(),
    {
        self.gauge_cells.len()
    }

    /// The name of the gauge at handle `h`.
    pub fn gauge_name(&self, h: usize) -> (r: &String)
        requires
            self.wf(),
            h < self.gauges().len(),
        ensures
            r@ == self.gauges()[h as int].0,
    {
        self.gauge_cells.name_at(h)
    }

    /// How many histograms are registered.
    pub fn histogram_count(&self) -> (n: usize)
        requires
            self.wf(),
        ensures
            n == self.histograms().len(),
    {
        self.histogram_cells.len()
    }

    /// The name of the histogram at handle `h`.
    pub fn histogram_name(&self, h: usize) -> (r: &String)
        requires
            self.wf(),
            h < self.histograms().len(),
        ensures
            r@ == self.histograms()[h as int].0,
    {
        self.histogram_cells.name_at(h)
    }

    /// How many observations the histogram at handle `h` holds.
    pub fn histogram_len(&self, h: usize) -> (n: usize)
        requires
            self.wf(),
            h < self.histograms().len(),
        ensures
            n == self.histograms()[h as int].1.len(),
    {
        self.histogram_cells.cell(h).len()
    }

    /// Metadata description is deliberately unsupported by this backend: the
    /// operation exists in the public surface for completeness and does
    /// nothing. Only recording values is supported.
    pub fn describe_counter(&self, _key: &String, _unit: Option<&String>, _description: &str) {
    }

    /// Metadata description is deliberately unsupported by this backend; see
    /// [`Recorder::describe_counter`].
    pub fn describe_gauge(&self, _key: &String, _unit: Option<&String>, _description: &str) {
    }

    /// Metadata description is deliberately unsupported by this backend; see
    /// [`Recorder::describe_counter`].
    pub fn describe_histogram(&self, _key: &String, _unit: Option<&String>, _description: &str) {
    }

    /// Recording API: register the counter named `name` and add `delta` to
    /// it, creating the cell (so the counter reads `delta`) if this is the
    /// first time the name is seen.
    pub fn increment_counter(&mut self, name: &String, delta: u64)
        requires
            old(self).wf(),
        ensures
            final(self).wf(),
            contains_name(old(self).counters(), name@) ==> final(self).counters() =~= cell_updated(
                old(self).counters(),
                name_index(old(self).counters(), name@),
                wrap_add64(
                    old(self).counters()[name_index(old(self).counters(), name@)].1,
                    delta,
                ),
            ),
            !contains_name(old(self).counters(), name@) ==> final(self).counters() =~= old(
                self,
            ).counters().push((name@, delta)),
            final(self).gauges() == old(self).gauges(),
            final(self).histograms() == old(self).histograms(),
    {
        proof {
            old(self).lemma_wf_distinct();
        }
        let ghost pre = self.counters();
        let h = self.register_counter(name);
        self.counter_increment(h, delta);
        proof {
            if contains_name(pre, name@) {
                let i = name_index(pre, name@);
                lemma_handle_unique(pre, h as int, i);
                assert(self.counters() =~= cell_updated(pre, i, wrap_add64(pre[i].1, delta)));
            } else {
                assert(wrap_add64(0u64, delta) == delta);
                assert(self.counters() =~= pre.push((name@, delta)));
            }
        }
    }

    /// Recording API: register the histogram named `name` and append the
    /// observation `bits` to it, creating the histogram (so it holds that
    /// one observation) if this is the first time the name is seen.
    pub fn record_histogram(&mut self, name: &String, bits: u64)
        requires
            old(self).wf(),
        ensures
            final(self).wf(),
            contains_name(old(self).histograms(), name@) ==> final(self).histograms()
                =~= cell_updated(
                old(self).histograms(),
                name_index(old(self).histograms(), name@),
                old(self).histograms()[name_index(old(self).histograms(), name@)].1.push(bits),
            ),
            !contains_name(old(self).histograms(), name@) ==> final(self).histograms() =~= old(
                self,
            ).histograms().push((name@, seq![bits])),
            final(self).counters() == old(self).counters(),
            final(self).gauges() == old(self).gauges(),
    {
        proof {
            old(self).lemma_wf_distinct();
        }
        let ghost pre = self.histograms();
        let h = self.register_histogram(name);
        self.histogram_record(h, bits);
        proof {
            if contains_name(pre, name@) {
                let i = name_index(pre, name@);
                lemma_handle_unique(pre, h as int, i);
                assert(self.histograms() =~= cell_updated(pre, i, pre[i].1.push(bits)));
            } else {
                assert(Seq::<u64>::empty().push(bits) =~= seq![bits]);
                assert(self.histograms() =~= pre.push((name@, seq![bits])));
            }
        }
    }
}

/// The sum of a sequence of counter deltas, as an unbounded integer.
pub open spec fn sum_deltas(ds: Seq<u64>) -> int
    decreases ds.len(),
{
    if ds.len() == 0 {
        0
    } else {
        ds[0] + sum_deltas(ds.drop_first())
    }
}

/// The value a counter holds after applying a sequence of increments in order.
pub open spec fn counter_after(v: u64, ds: Seq<u64>) -> u64
    decreases ds.len(),
{
    if ds.len() == 0 {
        v
    } else {
        counter_after(wrap_add64(v, ds[0]), ds.drop_first())
    }
}

pub proof fn lemma_sum_deltas_nonneg(ds: Seq<u64>)
    ensures
        sum_deltas(ds) >= 0,
    decreases ds.len(),
{
    if ds.len() > 0 {
        lemma_sum_deltas_nonneg(ds.drop_first());
    }
}

/// Wrapping 64-bit addition is addition modulo 2^64.
pub proof fn lemma_wrap_add64_is_mod(a: u64, b: u64)
    ensures
        wrap_add64(a, b) == (a + b) % 0x1_0000_0000_0000_0000,
{
    if a + b > u64::MAX {
        lemma_mod_multiples_vanish(1, a + b - 0x1_0000_0000_0000_0000, 0x1_0000_0000_0000_0000);
        lemma_small_mod((a + b - 0x1_0000_0000_0000_0000) as nat, 0x1_0000_0000_0000_0000);
    } else {
        lemma_small_mod((a + b) as nat, 0x1_0000_0000_0000_0000);
    }
}

/// Counter monotonicity: after any sequence of increments, the observed value
/// is the initial value plus the sum of all deltas applied so far, modulo the
/// 64-bit wraparound; as long as that sum still fits in 64 bits it is the
/// exact sum, so the observed value never decreases.
pub proof fn lemma_counter_value_is_sum(v: u64, ds: Seq<u64>)
    ensures
        counter_after(v, ds) == (v + sum_deltas(ds)) % 0x1_0000_0000_0000_0000,
        v + sum_deltas(ds) <= u64::MAX ==> counter_after(v, ds) == v + sum_deltas(ds),
    decreases ds.len(),
{
    lemma_sum_deltas_nonneg(ds);
    if ds.len() == 0 {
        lemma_small_mod(v as nat, 0x1_0000_0000_0000_0000);
    } else {
        let w = wrap_add64(v, ds[0]);
        let s = sum_deltas(ds.drop_first());
        lemma_sum_deltas_nonneg(ds.drop_first());
        lemma_counter_value_is_sum(w, ds.drop_first());
        lemma_wrap_add64_is_mod(v, ds[0]);
        lemma_add_mod_noop_right(s, v + ds[0], 0x1_0000_0000_0000_0000);
    }
}

/// The observations a histogram holds after recording a sequence of values
/// in order.
pub open spec fn recorded_after(s: Seq<u64>, vs: Seq<u64>) -> Seq<u64>
    decreases vs.len(),
{
    if vs.len() == 0 {
        s
    } else {
        recorded_after(s.push(vs[0]), vs.drop_first())
    }
}

/// Histogram completeness: recording K values appends exactly those K values
/// in order — none is dropped, duplicated, or changed, so a histogram that
/// started empty holds precisely the K recorded values.
pub proof fn lemma_histogram_complete(s: Seq<u64>, vs: Seq<u64>)
    ensures
        recorded_after(s, vs) == s + vs,
    decreases vs.len(),
{
    if vs.len() == 0 {
        assert(s + vs =~= s);
    } else {
        lemma_histogram_complete(s.push(vs[0]), vs.drop_first());
        assert(s.push(vs[0]) + vs.drop_first() =~= s + vs);
    }
}

} // verus!
