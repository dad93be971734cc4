use vstd::prelude::*;

verus! {

/// The kind of instrument a description belongs to.
#[derive(Clone, Copy, PartialEq, Eq, Hash, Debug, Structural)]
pub enum MetricsType {
    Counter,
    Gauge,
    Histogram,
}

/// Unit and human-readable text attached to a metric name before it is registered.
pub struct MetricsDescription {
    pub unit: Option<metrics::Unit>,
    pub description: String,
}

/// What a description holds: its unit and its text.
pub type DescriptionView = (Option<metrics::Unit>, Seq<char>);

/// The registry key of a description: instrument kind and metric name.
pub type DescriptionKey = (MetricsType, Seq<char>);

impl View for MetricsDescription {
    type V = DescriptionView;

    open spec fn view(&self) -> DescriptionView {
        (self.unit, self.description@)
    }
}

impl MetricsDescription {
    /// An independent copy of this description.
    pub fn duplicate(&self) -> (r: MetricsDescription)
        ensures
            r@ == self@,
    {
        MetricsDescription { unit: self.unit, description: self.description.clone() }
    }
}

/// Registry of descriptions keyed by (kind, name): at most one per key, a later
/// `set` for the same key replacing the earlier one.
pub struct Metrics {
    entries: Vec<(MetricsType, String, MetricsDescription)>,
    model: Ghost<Map<DescriptionKey, DescriptionView>>,
}

impl View for Metrics {
    type V = Map<DescriptionKey, DescriptionView>;

    closed spec fn view(&self) -> Map<DescriptionKey, DescriptionView> {
        self.model@
    }
}

impl Metrics {
    spec fn key_at(&self, i: int) -> DescriptionKey {
        (self.entries@[i].0, self.entries@[i].1@)
    }

    /// The entries hold each key once, and exactly the keys and descriptions of the view.
    pub closed spec fn wf(&self) -> bool {
        &&& forall|i: int, j: int|
            0 <= i < self.entries@.len() && 0 <= j < self.entries@.len() && i != j
                ==> self.key_at(i) != self.key_at(j)
        &&& forall|i: int|
            0 <= i < self.entries@.len() ==> #[trigger] self.model@.contains_key(self.key_at(i))
                && self.model@[self.key_at(i)] == self.entries@[i].2@
        &&& forall|k: DescriptionKey|
            #[trigger] self.model@.contains_key(k) ==> exists|i: int|
                0 <= i < self.entries@.len() && self.key_at(i) == k
    }

    /// An empty registry.
    pub fn new() -> (r: Metrics)
        ensures
            r.wf(),
            r@ == Map::<DescriptionKey, DescriptionView>::empty(),
    {
        Metrics { entries: Vec::new(), model: Ghost(Map::empty()) }
    }

    /// The position of the entry for `(kind, key)`, if there is one.
    fn find(&self, kind: MetricsType, key: &String) -> (r: Option<usize>)
        requires
            self.wf(),
        ensures
            match r {
                Some(i) => i < self.entries@.len() && self.key_at(i as int) == (kind, key@),
                None => !self@.contains_key((kind, key@)),
            },
    {
        let mut i: usize = 0;
        while i < self.entries.len()
            invariant
                self.wf(),
                i <= self.entries@.len(),
                forall|j: int| 0 <= j < i ==> self.key_at(j) != (kind, key@),
            decreases self.entries@.len() - i,
        {
            let entry = &self.entries[i];
            if entry.0 == kind && entry.1 == *key {
                return Some(i);
            }
            i = i + 1;
        }
        None
    }

    /// The description stored for `(kind, key)`, if any.
    pub fn get(&self, kind: MetricsType, key: &String) -> (r: Option<MetricsDescription>)
        requires
            self.wf(),
        ensures
            match r {
                Some(d) => self@.contains_key((kind, key@)) && d@ == self@[(kind, key@)],
                None => !self@.contains_key((kind, key@)),
            },
    {
        match self.find(kind, key) {
            Some(i) => {
                assert(self.model@.contains_key(self.key_at(i as int)));
                Some(self.entries[i].2.duplicate())
            },
            None => None,
        }
    }

    /// Stores `value` for `(kind, key)`, replacing any earlier description of that key.
    pub fn set(&mut self, kind: MetricsType, key: String, value: MetricsDescription)
        requires
            old(self).wf(),
        ensures
            final(self).wf(),
            final(self)@ == old(self)@.insert((kind, key@), value@),
    {
        let ghost k = (kind, key@);
        let ghost v = value@;
        let ghost mut idx: int = 0;
        match self.find(kind, &key) {
            Some(i) => {
                self.entries[i] = (kind, key, value);
                proof {
                    idx = i as int;
                }
            },
            None => {
                self.entries.push((kind, key, value));
                proof {
                    idx = self.entries@.len() - 1;
                }
            },
        }
        assert forall|i: int| 0 <= i < self.entries@.len() && i != idx implies self.entries@[i]
            == old(self).entries@[i] && old(self).key_at(i) != k by {
            assert(old(self).model@.contains_key(old(self).key_at(i)));
        }
        self.model = Ghost(self.model@.insert(k, v));
        assert(self.key_at(idx) == k);
        assert forall|i: int, j: int|
            0 <= i < self.entries@.len() && 0 <= j < self.entries@.len() && i != j implies self.key_at(
            i,
        ) != self.key_at(j) by {
            if i != idx && j != idx {
                assert(old(self).key_at(i) != old(self).key_at(j));
            } else if i == idx {
                assert(self.entries@[j] == old(self).entries@[j] && old(self).key_at(j) != k);
            } else {
                assert(self.entries@[i] == old(self).entries@[i] && old(self).key_at(i) != k);
            }
        }
        assert forall|i: int| 0 <= i < self.entries@.len() implies #[trigger] self.model@.contains_key(
            self.key_at(i),
        ) && self.model@[self.key_at(i)] == self.entries@[i].2@ by {
            if i != idx {
                assert(old(self).model@.contains_key(old(self).key_at(i)));
            }
        }
        assert forall|k2: DescriptionKey| #[trigger] self.model@.contains_key(k2) implies exists|i: int|
            0 <= i < self.entries@.len() && self.key_at(i) == k2 by {
            if k2 != k {
                assert(old(self).model@.contains_key(k2));
                let i = choose|i: int| 0 <= i < old(self).entries@.len() && old(self).key_at(i) == k2;
                assert(self.key_at(i) == k2);
            } else {
                assert(self.key_at(idx) == k2);
            }
        }
    }
}

impl Default for Metrics {
    fn default() -> (r: Metrics)
        ensures
            r.wf(),
            r@ == Map::<DescriptionKey, DescriptionView>::empty(),
    {
        Metrics::new()
    }
}

} // verus!
