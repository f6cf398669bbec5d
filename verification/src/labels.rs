//! Values keyed by a text label (a bucket name, an HTTP method, an error
//! code, ...), with at most one entry per label, kept in first-insertion
//! order.

use vstd::prelude::*;
use crate::text::str_eq;

verus! {

/// The label sequence of a list of entries.
pub open spec fn labels_of<V>(s: Seq<(Seq<char>, V)>) -> Seq<Seq<char>> {
    s.map_values(|e: (Seq<char>, V)| e.0)
}

/// No label occurs twice.
pub open spec fn labels_unique<V>(s: Seq<(Seq<char>, V)>) -> bool {
    forall|i: int, j: int|
        0 <= i < s.len() && 0 <= j < s.len() && i != j ==> (#[trigger] s[i]).0 != (#[trigger] s[j]).0
}

/// Position of the entry for label `k`.
pub open spec fn label_index<V>(s: Seq<(Seq<char>, V)>, k: Seq<char>) -> Option<int>
    decreases s.len(),
{
    if s.len() == 0 {
        None
    } else {
        match label_index(s.drop_last(), k) {
            Some(i) => Some(i),
            None => if s.last().0 == k {
                Some(s.len() - 1)
            } else {
                None
            },
        }
    }
}

/// The value stored for label `k`.
pub open spec fn label_value<V>(s: Seq<(Seq<char>, V)>, k: Seq<char>) -> Option<V> {
    match label_index(s, k) {
        Some(i) => Some(s[i].1),
        None => None,
    }
}

/// The count stored for label `k`, 0 when there is none.
pub open spec fn label_count(s: Seq<(Seq<char>, u64)>, k: Seq<char>) -> u64 {
    match label_value(s, k) {
        Some(v) => v,
        None => 0,
    }
}

/// The entries after storing `v` for `k`: an existing entry keeps its
/// position, a new one goes last.
pub open spec fn label_insert<V>(s: Seq<(Seq<char>, V)>, k: Seq<char>, v: V) -> Seq<(Seq<char>, V)> {
    match label_index(s, k) {
        Some(i) => s.update(i, (k, v)),
        None => s.push((k, v)),
    }
}

/// Counter increment that wraps at `u64::MAX`, as an atomic `fetch_add`
/// does.
pub open spec fn wrap_inc(x: u64) -> u64 {
    vstd::wrapping::u64_specs::wrapping_add(x, 1)
}

/// The entries after appending a sample to the list of label `k`: that
/// list grows by the sample (a new label gets a list of one sample, at
/// the end), every other entry stays as it was.
pub open spec fn sample_appended(
    before: Seq<(Seq<char>, Vec<u64>)>,
    after: Seq<(Seq<char>, Vec<u64>)>,
    k: Seq<char>,
    v: u64,
) -> bool {
    match label_index(before, k) {
        None => after.len() == before.len() + 1 && after.last().0 == k && after.last().1@ == seq![v]
            && after.drop_last() == before,
        Some(i) => after.len() == before.len() && after[i].0 == k && after[i].1@ == before[i].1@.push(
            v,
        ) && forall|j: int| 0 <= j < before.len() && j != i ==> #[trigger] after[j] == before[j],
    }
}

/// The entries after counting one more occurrence of `k`.
pub open spec fn label_increment(s: Seq<(Seq<char>, u64)>, k: Seq<char>) -> Seq<(Seq<char>, u64)> {
    label_insert(s, k, wrap_inc(label_count(s, k)))
}

/// A found position is in range, holds label `k`, and no earlier entry
/// does.
pub proof fn lemma_label_index<V>(s: Seq<(Seq<char>, V)>, k: Seq<char>)
    ensures
        label_index(s, k) matches Some(i) ==> 0 <= i < s.len() && s[i].0 == k && (forall|j: int|
            0 <= j < i ==> (#[trigger] s[j]).0 != k),
        label_index(s, k) is None ==> forall|j: int| 0 <= j < s.len() ==> (#[trigger] s[j]).0 != k,
    decreases s.len(),
{
    if s.len() > 0 {
        lemma_label_index(s.drop_last(), k);
        assert forall|j: int| 0 <= j < s.len() - 1 implies #[trigger] s[j] == s.drop_last()[j] by {}
    }
}

/// With unique labels, an entry holding `k` is the one found.
pub proof fn lemma_label_index_unique<V>(s: Seq<(Seq<char>, V)>, k: Seq<char>, j: int)
    requires
        labels_unique(s),
        0 <= j < s.len(),
        s[j].0 == k,
    ensures
        label_index(s, k) == Some(j),
{
    lemma_label_index(s, k);
    if let Some(i) = label_index(s, k) {
        if i != j {
            assert(s[i].0 != s[j].0);
        }
    }
}

/// Appending an entry leaves every label found before where it was; an
/// absent label of the new entry is found at the end.
pub proof fn lemma_label_index_push<V>(s: Seq<(Seq<char>, V)>, e: (Seq<char>, V), k: Seq<char>)
    ensures
        label_index(s.push(e), k) == match label_index(s, k) {
            Some(i) => Some(i),
            None => if e.0 == k {
                Some(s.len() as int)
            } else {
                None
            },
        },
{
    assert(s.push(e).drop_last() =~= s);
}

/// Two lists with the same labels at the same places find every label at
/// the same place.
pub proof fn lemma_label_index_same_labels<V, W>(s: Seq<(Seq<char>, V)>, t: Seq<(Seq<char>, W)>, k: Seq<char>)
    requires
        s.len() == t.len(),
        forall|i: int| 0 <= i < s.len() ==> (#[trigger] s[i]).0 == t[i].0,
    ensures
        label_index(s, k) == label_index(t, k),
    decreases s.len(),
{
    if s.len() > 0 {
        let (a, b) = (s.drop_last(), t.drop_last());
        assert forall|i: int| 0 <= i < a.len() implies (#[trigger] a[i]).0 == b[i].0 by {
            assert(a[i] == s[i] && b[i] == t[i]);
        }
        lemma_label_index_same_labels(a, b, k);
    }
}

/// Two lists with the same labels, whose values correspond pointwise by
/// `rel`, still do after storing corresponding values for the same label.
pub proof fn lemma_label_insert_related<V, W>(
    s: Seq<(Seq<char>, V)>,
    t: Seq<(Seq<char>, W)>,
    k: Seq<char>,
    v: V,
    w: W,
    rel: spec_fn(V, W) -> bool,
)
    requires
        s.len() == t.len(),
        forall|i: int| 0 <= i < s.len() ==> (#[trigger] s[i]).0 == t[i].0 && rel(s[i].1, t[i].1),
        rel(v, w),
    ensures
        label_insert(s, k, v).len() == label_insert(t, k, w).len(),
        forall|i: int|
            0 <= i < label_insert(s, k, v).len() ==> (#[trigger] label_insert(s, k, v)[i]).0 == label_insert(
                t,
                k,
                w,
            )[i].0 && rel(label_insert(s, k, v)[i].1, label_insert(t, k, w)[i].1),
{
    lemma_label_index_same_labels(s, t, k);
    lemma_label_index(s, k);
}

/// Storing a value keeps labels unique, makes it the value of its label,
/// and leaves every other label's value alone.
pub proof fn lemma_label_insert<V>(s: Seq<(Seq<char>, V)>, k: Seq<char>, v: V, other: Seq<char>)
    requires
        labels_unique(s),
    ensures
        labels_unique(label_insert(s, k, v)),
        label_value(label_insert(s, k, v), k) == Some(v),
        other != k ==> label_value(label_insert(s, k, v), other) == label_value(s, other),
{
    lemma_label_index(s, k);
    lemma_label_index(s, other);
    let t = label_insert(s, k, v);
    match label_index(s, k) {
        Some(i) => {
            assert(labels_unique(t)) by {
                assert forall|a: int, b: int|
                    0 <= a < t.len() && 0 <= b < t.len() && a != b implies (#[trigger] t[a]).0 != (
                    #[trigger] t[b]).0 by {
                    if a != i && b != i {
                        assert(s[a].0 != s[b].0);
                    } else if a == i {
                        assert(s[b].0 != s[i].0);
                    } else {
                        assert(s[a].0 != s[i].0);
                    }
                }
            }
            lemma_label_index_unique(t, k, i);
            if other != k {
                match label_index(s, other) {
                    Some(o) => {
                        lemma_label_index_unique(t, other, o);
                    },
                    None => {
                        lemma_label_index(t, other);
                        if let Some(o) = label_index(t, other) {
                            assert(t[o].0 == s[o].0);
                        }
                    },
                }
            }
        },
        None => {
            assert(labels_unique(t)) by {
                assert forall|a: int, b: int|
                    0 <= a < t.len() && 0 <= b < t.len() && a != b implies (#[trigger] t[a]).0 != (
                    #[trigger] t[b]).0 by {
                    if a < s.len() && b < s.len() {
                        assert(s[a].0 != s[b].0);
                    } else if a < s.len() {
                        assert(s[a].0 != k);
                    } else {
                        assert(s[b].0 != k);
                    }
                }
            }
            lemma_label_index_unique(t, k, s.len() as int);
            if other != k {
                match label_index(s, other) {
                    Some(o) => {
                        lemma_label_index_unique(t, other, o);
                    },
                    None => {
                        lemma_label_index(t, other);
                        if let Some(o) = label_index(t, other) {
                            if o < s.len() {
                                assert(t[o].0 == s[o].0);
                            }
                        }
                    },
                }
            }
        },
    }
}

/// Values keyed by text label, one entry per label, in first-insertion
/// order.
#[derive(Debug)]
pub struct LabelMap<V> {
    entries: Vec<(String, V)>,
}

impl<V> View for LabelMap<V> {
    type V = Seq<(Seq<char>, V)>;

    closed spec fn view(&self) -> Seq<(Seq<char>, V)> {
        self.entries@.map_values(|e: (String, V)| (e.0@, e.1))
    }
}

impl<V> LabelMap<V> {
    #[verifier::type_invariant]
    pub open spec fn inv(&self) -> bool {
        labels_unique(self@)
    }

    /// An empty map.
    pub fn new() -> (r: Self)
        ensures
            r@ == Seq::<(Seq<char>, V)>::empty(),
    {
        let r = LabelMap { entries: Vec::new() };
        assert(r@ =~= Seq::<(Seq<char>, V)>::empty());
        r
    }

    /// Number of entries.
    pub fn len(&self) -> (r: usize)
        ensures
            r == self@.len(),
    {
        self.entries.len()
    }

    /// Position of the entry for `key`.
    fn find(&self, key: &str) -> (r: Option<usize>)
        ensures
            r matches Some(i) ==> label_index(self@, key@) == Some(i as int) && i < self@.len(),
            r is None ==> label_index(self@, key@) is None,
    {
        let mut i: usize = 0;
        while i < self.entries.len()
            invariant
                i <= self.entries.len(),
                self@.len() == self.entries@.len(),
                forall|j: int| 0 <= j < i ==> (#[trigger] self@[j]).0 != key@,
            decreases self.entries.len() - i,
        {
            if str_eq(self.entries[i].0.as_str(), key) {
                proof {
                    lemma_label_index(self@, key@);
                    assert(self@[i as int].0 == key@);
                    if let Some(k) = label_index(self@, key@) {
                        assert(k >= i);
                        assert(k <= i);
                    }
                }
                return Some(i);
            }
            assert(self@[i as int].0 == self.entries@[i as int].0@);
            i = i + 1;
        }
        proof {
            lemma_label_index(self@, key@);
            if let Some(k) = label_index(self@, key@) {
                assert(self@[k].0 == key@);
            }
        }
        None
    }

    /// The value stored for `key`.
    pub fn get(&self, key: &str) -> (r: Option<&V>)
        ensures
            match label_value(self@, key@) {
                Some(v) => r == Some(&v),
                None => r is None,
            },
    {
        proof {
            lemma_label_index(self@, key@);
        }
        match self.find(key) {
            Some(i) => {
                assert(label_index(self@, key@) == Some(i as int));
                assert(self@[i as int].1 == self.entries@[i as int].1);
                assert(label_value(self@, key@) == Some(self@[i as int].1));
                Some(&self.entries[i].1)
            },
            None => None,
        }
    }

    /// The entry at position `i`.
    pub fn entry(&self, i: usize) -> (r: (&str, &V))
        requires
            i < self@.len(),
        ensures
            r.0@ == self@[i as int].0,
            *r.1 == self@[i as int].1,
    {
        (self.entries[i].0.as_str(), &self.entries[i].1)
    }

    /// Stores `value` for `key`.
    pub fn insert(&mut self, key: &str, value: V)
        ensures
            final(self)@ == label_insert(old(self)@, key@, value),
            labels_unique(old(self)@),
            labels_unique(final(self)@),
    {
        proof {
            use_type_invariant(&*self);
            lemma_label_index(self@, key@);
            lemma_label_insert(self@, key@, value, key@);
        }
        let found = self.find(key);
        let mut entries: Vec<(String, V)> = Vec::new();
        std::mem::swap(&mut entries, &mut self.entries);
        match found {
            Some(i) => {
                let k = entries[i].0.clone();
                assert(k@ == key@) by {
                    assert(old(self)@[i as int].0 == old(self).entries@[i as int].0@);
                }
                entries.set(i, (k, value));
                proof {
                    let t = LabelMap { entries };
                    assert forall|j: int| 0 <= j < t@.len() implies #[trigger] t@[j]
                        == label_insert(old(self)@, key@, value)[j] by {
                        if j != i {
                            assert(t@[j] == old(self)@[j]);
                        }
                    }
                    assert(t@ =~= label_insert(old(self)@, key@, value));
                }
            },
            None => {
                entries.push((key.to_owned(), value));
                proof {
                    let t = LabelMap { entries };
                    assert forall|j: int| 0 <= j < t@.len() implies #[trigger] t@[j]
                        == label_insert(old(self)@, key@, value)[j] by {
                        if j < old(self)@.len() {
                            assert(t@[j] == old(self)@[j]);
                        }
                    }
                    assert(t@ =~= label_insert(old(self)@, key@, value));
                }
            },
        }
        self.entries = entries;
    }
}

impl LabelMap<u64> {
    /// The count for `key`, 0 when there is none.
    pub fn count(&self, key: &str) -> (r: u64)
        ensures
            r == label_count(self@, key@),
    {
        match self.get(key) {
            Some(v) => *v,
            None => 0,
        }
    }

    /// Counts one more occurrence of `key` (wrapping at `u64::MAX`).
    pub fn increment(&mut self, key: &str)
        ensures
            final(self)@ == label_increment(old(self)@, key@),
            labels_unique(old(self)@),
            labels_unique(final(self)@),
    {
        let c = self.count(key);
        self.insert(key, c.wrapping_add(1));
    }
}

impl LabelMap<Vec<u64>> {
    /// Appends a sample to the list stored for `key` (a new label starts an
    /// empty list).
    pub fn push_sample(&mut self, key: &str, sample: u64)
        ensures
            labels_unique(old(self)@),
            sample_appended(old(self)@, final(self)@, key@, sample),
    {
        proof {
            use_type_invariant(&*self);
            lemma_label_index(self@, key@);
        }
        let found = self.find(key);
        let mut entries: Vec<(String, Vec<u64>)> = Vec::new();
        std::mem::swap(&mut entries, &mut self.entries);
        match found {
            Some(i) => {
                let mut slot: (String, Vec<u64>) = (String::new(), Vec::new());
                entries.set_and_swap(i, &mut slot);
                let mut samples = slot.1;
                samples.push(sample);
                let k2 = slot.0;
                assert(samples@ == old(self)@[i as int].1@.push(sample));
                assert(k2@ == key@);
                entries.set(i, (k2, samples));
                proof {
                    let t = LabelMap { entries };
                    assert(t@[i as int].1@ == old(self)@[i as int].1@.push(sample));
                    assert(t@[i as int].0 == key@);
                    assert forall|j: int|
                        0 <= j < old(self)@.len() && j != i implies #[trigger] t@[j] == old(
                        self,
                    )@[j] by {}
                    assert(labels_unique(t@)) by {
                        assert forall|a: int, b: int|
                            0 <= a < t@.len() && 0 <= b < t@.len() && a != b implies (
                            #[trigger] t@[a]).0 != (#[trigger] t@[b]).0 by {
                            assert(old(self)@[a].0 != old(self)@[b].0);
                        }
                    }
                }
            },
            None => {
                let mut samples: Vec<u64> = Vec::new();
                samples.push(sample);
                entries.push((key.to_owned(), samples));
                proof {
                    let t = LabelMap { entries };
                    assert(t@.drop_last() =~= old(self)@);
                    assert(labels_unique(t@)) by {
                        assert forall|a: int, b: int|
                            0 <= a < t@.len() && 0 <= b < t@.len() && a != b implies (
                            #[trigger] t@[a]).0 != (#[trigger] t@[b]).0 by {
                            if a < old(self)@.len() && b < old(self)@.len() {
                                assert(old(self)@[a].0 != old(self)@[b].0);
                            } else if a < old(self)@.len() {
                                assert(t@[a] == old(self)@[a]);
                            } else {
                                assert(t@[b] == old(self)@[b]);
                            }
                        }
                    }
                }
            },
        }
        self.entries = entries;
    }
}

} // verus!
