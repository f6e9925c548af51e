//! The in-process metric aggregator: a bounded store of sketch statistics,
//! one sketch per distinct metric identifier.
//!
//! Its mathematical model is a finite map from metric name to sketch
//! statistics, together with a capacity; [`after_insert`] is the one
//! transition on that model and every mutation is stated through it.

use vstd::pervasive::VecAdditionalExecFns;
use vstd::prelude::*;

use crate::fixed::Fixed;
use crate::metric::{InsertError, Metric, MetricName};

verus! {

/// The statistics a sketch keeps of the samples inserted under one metric:
/// minimum, maximum, sum and count, all over picounit values.
pub struct SketchModel {
    pub min: int,
    pub max: int,
    pub sum: int,
    pub count: int,
}

/// The statistics of a sketch holding exactly one sample `v`.
pub open spec fn sketch_one(v: int) -> SketchModel {
    SketchModel { min: v, max: v, sum: v, count: 1 }
}

/// The statistics of a sketch after one more sample `v`: the extremes take
/// `v` in, while the sum and the count saturate at the top of their carriers
/// instead of wrapping.
pub open spec fn sketch_with(s: SketchModel, v: int) -> SketchModel {
    SketchModel {
        min: if v < s.min {
            v
        } else {
            s.min
        },
        max: if v > s.max {
            v
        } else {
            s.max
        },
        sum: if s.sum + v <= u128::MAX {
            s.sum + v
        } else {
            u128::MAX as int
        },
        count: if s.count < u64::MAX {
            s.count + 1
        } else {
            s.count
        },
    }
}

/// A distribution sketch: constant-space summary statistics of the samples
/// inserted under one metric identifier.
#[derive(Clone, Copy, PartialEq, Eq, Structural, Debug)]
pub struct Sketch {
    pub min_picos: u128,
    pub max_picos: u128,
    pub sum_picos: u128,
    pub count: u64,
}

impl View for Sketch {
    type V = SketchModel;

    open spec fn view(&self) -> SketchModel {
        SketchModel {
            min: self.min_picos as int,
            max: self.max_picos as int,
            sum: self.sum_picos as int,
            count: self.count as int,
        }
    }
}

impl Sketch {
    /// A sketch of the single sample `value`.
    pub fn one(value: Fixed) -> (r: Sketch)
        ensures
            r@ == sketch_one(value@),
    {
        Sketch {
            min_picos: value.picos,
            max_picos: value.picos,
            sum_picos: value.picos,
            count: 1,
        }
    }

    /// Folds one more sample into the sketch.
    pub fn add(&mut self, value: Fixed)
        ensures
            final(self)@ == sketch_with(old(self)@, value@),
    {
        if value.picos < self.min_picos {
            self.min_picos = value.picos;
        }
        if value.picos > self.max_picos {
            self.max_picos = value.picos;
        }
        if self.sum_picos <= u128::MAX - value.picos {
            self.sum_picos = self.sum_picos + value.picos;
        } else {
            self.sum_picos = u128::MAX;
        }
        if self.count < u64::MAX {
            self.count = self.count + 1;
        }
    }

    /// The smallest sample inserted, in picounits.
    pub fn min_picos(&self) -> (r: u128)
        ensures
            r == self@.min,
    {
        self.min_picos
    }

    /// The largest sample inserted, in picounits.
    pub fn max_picos(&self) -> (r: u128)
        ensures
            r == self@.max,
    {
        self.max_picos
    }

    /// The sum of the samples inserted, in picounits.
    pub fn sum_picos(&self) -> (r: u128)
        ensures
            r == self@.sum,
    {
        self.sum_picos
    }

    /// The number of samples inserted.
    pub fn count(&self) -> (r: u64)
        ensures
            r == self@.count,
    {
        self.count
    }

    /// The mean sample in picounits, truncated; zero on an empty sketch.
    pub fn avg_picos(&self) -> (r: u128)
        ensures
            self@.count > 0 ==> r == self@.sum / self@.count,
            self@.count == 0 ==> r == 0,
    {
        if self.count == 0 {
            0
        } else {
            self.sum_picos / (self.count as u128)
        }
    }
}

/// One aggregator slot: the sketch stored under a metric identifier.
pub struct Entry {
    pub name: MetricName,
    pub sketch: Sketch,
}

/// No two slots share a metric identifier.
pub open spec fn names_unique(s: Seq<Entry>) -> bool {
    forall|i: int, j: int| 0 <= i < j < s.len() ==> s[i].name != s[j].name
}

/// The map a slot sequence stores: each identifier to its sketch statistics.
pub open spec fn entries_map(s: Seq<Entry>) -> Map<MetricName, SketchModel>
    decreases s.len(),
{
    if s.len() == 0 {
        Map::empty()
    } else {
        entries_map(s.drop_last()).insert(s.last().name, s.last().sketch@)
    }
}

/// The aggregator's contents after inserting one sample `v` under `name`
/// into contents `m` at capacity `cap`: a known identifier folds the sample
/// into its sketch; a new identifier opens a slot only below the capacity,
/// and is rejected (leaving `m` unchanged) at it.
pub open spec fn after_insert(
    m: Map<MetricName, SketchModel>,
    cap: nat,
    name: MetricName,
    v: int,
) -> Map<MetricName, SketchModel> {
    if m.contains_key(name) {
        m.insert(name, sketch_with(m[name], v))
    } else if m.len() < cap {
        m.insert(name, sketch_one(v))
    } else {
        m
    }
}

/// An identifier is in the stored map exactly when some slot holds it, and
/// the stored map is finite.
proof fn lemma_entries_map_domain(s: Seq<Entry>)
    ensures
        forall|n: MetricName|
            entries_map(s).contains_key(n) <==> exists|i: int|
                0 <= i < s.len() && #[trigger] s[i].name == n,
        entries_map(s).dom().finite(),
    decreases s.len(),
{
    if s.len() > 0 {
        lemma_entries_map_domain(s.drop_last());
        assert forall|n: MetricName| entries_map(s).contains_key(n) implies exists|i: int|
            0 <= i < s.len() && #[trigger] s[i].name == n by {
            if n == s.last().name {
                assert(s[s.len() - 1].name == n);
            } else {
                let i = choose|i: int| 0 <= i < s.drop_last().len() && #[trigger] s.drop_last()[i].name == n;
                assert(s[i].name == n);
            }
        }
        assert forall|n: MetricName|
            (exists|i: int| 0 <= i < s.len() && #[trigger] s[i].name == n) implies entries_map(
            s,
        ).contains_key(n) by {
            let i = choose|i: int| 0 <= i < s.len() && #[trigger] s[i].name == n;
            if i < s.len() - 1 {
                assert(s.drop_last()[i].name == n);
            }
        }
    }
}

/// A slot's sketch is what the stored map holds under the slot's identifier.
proof fn lemma_entries_map_index(s: Seq<Entry>, i: int)
    requires
        names_unique(s),
        0 <= i < s.len(),
    ensures
        entries_map(s).contains_key(s[i].name),
        entries_map(s)[s[i].name] == s[i].sketch@,
    decreases s.len(),
{
    if i < s.len() - 1 {
        assert(names_unique(s.drop_last())) by {
            assert(forall|x: int, y: int|
                0 <= x < y < s.drop_last().len() ==> s.drop_last()[x] == s[x] && s.drop_last()[y]
                    == s[y]);
        }
        lemma_entries_map_index(s.drop_last(), i);
        assert(s.drop_last()[i].name == s[i].name && s.drop_last()[i].sketch == s[i].sketch);
        assert(s[i].name != s.last().name);
    }
}

/// With unique identifiers the stored map has one key per slot.
proof fn lemma_entries_map_len(s: Seq<Entry>)
    requires
        names_unique(s),
    ensures
        entries_map(s).len() == s.len(),
    decreases s.len(),
{
    if s.len() > 0 {
        assert(names_unique(s.drop_last())) by {
            assert(forall|x: int, y: int|
                0 <= x < y < s.drop_last().len() ==> s.drop_last()[x] == s[x] && s.drop_last()[y]
                    == s[y]);
        }
        lemma_entries_map_len(s.drop_last());
        lemma_entries_map_domain(s.drop_last());
        assert(!entries_map(s.drop_last()).contains_key(s.last().name)) by {
            assert(forall|i: int|
                0 <= i < s.len() - 1 ==> #[trigger] s.drop_last()[i].name == s[i].name && s[i].name
                    != s.last().name);
        }
        assert(entries_map(s).dom() == entries_map(s.drop_last()).dom().insert(s.last().name));
    }
}

/// Replacing the sketch in the slot that holds `e.name` updates the stored
/// map at that one key.
proof fn lemma_entries_map_update(s: Seq<Entry>, i: int, e: Entry)
    requires
        names_unique(s),
        0 <= i < s.len(),
        e.name == s[i].name,
    ensures
        entries_map(s.update(i, e)) == entries_map(s).insert(e.name, e.sketch@),
    decreases s.len(),
{
    let t = s.update(i, e);
    if i == s.len() - 1 {
        assert(t.drop_last() =~= s.drop_last());
        assert(t.last() == e);
        assert(entries_map(s).insert(e.name, e.sketch@) =~= entries_map(s.drop_last()).insert(
            e.name,
            e.sketch@,
        ));
    } else {
        assert(names_unique(s.drop_last())) by {
            assert(forall|x: int, y: int|
                0 <= x < y < s.drop_last().len() ==> s.drop_last()[x] == s[x] && s.drop_last()[y]
                    == s[y]);
        }
        assert(t.drop_last() =~= s.drop_last().update(i, e));
        lemma_entries_map_update(s.drop_last(), i, e);
        assert(t.last() == s.last());
        assert(e.name != s.last().name);
        assert(entries_map(s.drop_last()).insert(e.name, e.sketch@).insert(
            s.last().name,
            s.last().sketch@,
        ) =~= entries_map(s.drop_last()).insert(s.last().name, s.last().sketch@).insert(
            e.name,
            e.sketch@,
        ));
    }
}

/// The aggregator: at most `max_entries` distinct metric identifiers, each
/// summarized by one sketch. Its view is the stored map; the capacity is a
/// construction-time bound on the number of distinct identifiers.
pub struct Aggregator {
    pub entries: Vec<Entry>,
    pub max_entries: usize,
}

impl View for Aggregator {
    type V = Map<MetricName, SketchModel>;

    open spec fn view(&self) -> Map<MetricName, SketchModel> {
        entries_map(self.entries@)
    }
}

impl Aggregator {
    /// The capacity: how many distinct metric identifiers fit.
    pub open spec fn capacity(&self) -> nat {
        self.max_entries as nat
    }

    /// Well-formed: one slot per identifier, no more slots than the capacity.
    pub open spec fn wf(&self) -> bool {
        &&& names_unique(self.entries@)
        &&& self.entries@.len() <= self.max_entries
    }

    /// An empty aggregator that will accept up to `max_entries` distinct
    /// metric identifiers.
    pub fn new(max_entries: usize) -> (r: Aggregator)
        ensures
            r.wf(),
            r@ == Map::<MetricName, SketchModel>::empty(),
            r.capacity() == max_entries,
    {
        Aggregator { entries: Vec::new(), max_entries }
    }

    /// The slot index holding `name`, if any.
    fn find_index(&self, name: MetricName) -> (r: Option<usize>)
        ensures
            match r {
                Some(i) => i < self.entries@.len() && self.entries@[i as int].name == name,
                None => forall|j: int|
                    0 <= j < self.entries@.len() ==> self.entries@[j].name != name,
            },
    {
        let n = self.entries.len();
        let mut i: usize = 0;
        while i < n
            invariant
                i <= n,
                n == self.entries@.len(),
                forall|j: int| 0 <= j < i ==> self.entries@[j].name != name,
            decreases n - i,
        {
            if self.entries[i].name == name {
                return Some(i);
            }
            i = i + 1;
        }
        None
    }

    /// Inserts one sample into the store. A sample under a known identifier
    /// always lands in that identifier's sketch; a new identifier opens a
    /// slot while the capacity allows it and is rejected once the store is
    /// full. The contents change exactly as [`after_insert`] says.
    pub fn insert(&mut self, metric: Metric) -> (r: Result<(), InsertError>)
        requires
            old(self).wf(),
        ensures
            final(self).wf(),
            final(self).capacity() == old(self).capacity(),
            final(self)@ == after_insert(
                old(self)@,
                old(self).capacity(),
                metric.name,
                metric.value@,
            ),
            r is Ok <==> (old(self)@.contains_key(metric.name) || old(self)@.len() < old(
                self,
            ).capacity()),
    {
        proof {
            lemma_entries_map_domain(self.entries@);
            lemma_entries_map_len(self.entries@);
        }
        match self.find_index(metric.name) {
            Some(i) => {
                proof {
                    lemma_entries_map_index(self.entries@, i as int);
                }
                let mut sketch = self.entries[i].sketch;
                sketch.add(metric.value);
                let updated = Entry { name: metric.name, sketch };
                proof {
                    lemma_entries_map_update(self.entries@, i as int, updated);
                }
                self.entries.set(i, updated);
                Ok(())
            },
            None => {
                if self.entries.len() < self.max_entries {
                    self.entries.push(Entry { name: metric.name, sketch: Sketch::one(metric.value) });
                    proof {
                        assert(self.entries@.drop_last() =~= old(self).entries@);
                        assert(names_unique(self.entries@)) by {
                            assert(forall|x: int|
                                0 <= x < self.entries@.len() - 1 ==> #[trigger] self.entries@[x]
                                    == old(self).entries@[x]);
                        }
                    }
                    Ok(())
                } else {
                    Err(InsertError::CardinalityLimitExceeded)
                }
            },
        }
    }

    /// The sketch stored under `name`, if the aggregator holds one.
    pub fn get_entry_by_id(&self, name: MetricName) -> (r: Option<&Sketch>)
        requires
            self.wf(),
        ensures
            match r {
                Some(sketch) => self@.contains_key(name) && sketch@ == self@[name],
                None => !self@.contains_key(name),
            },
    {
        proof {
            lemma_entries_map_domain(self.entries@);
        }
        match self.find_index(name) {
            Some(i) => {
                proof {
                    lemma_entries_map_index(self.entries@, i as int);
                }
                Some(&self.entries[i].sketch)
            },
            None => None,
        }
    }
}

} // verus!
