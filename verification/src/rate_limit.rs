//! Rate limiting with token buckets at four levels, checked in this order
//! (fail fast): global, per client IP, per user, per bucket. A request
//! over any limit is refused, naming the level that refused it.
//!
//! Every limiter is a `governor` direct limiter whose quota of n cells per
//! second is also its burst size. Per-IP and per-user limiters are made on
//! first use and remember when they were last used; idle ones are evicted,
//! and all of them are dropped at once when their number reaches its
//! maximum, so that their count stays bounded.

use vstd::prelude::*;
use governor::clock::DefaultClock;
use governor::state::{InMemoryState, NotKeyed};
use governor::{Quota, RateLimiter};
use std::num::NonZeroU32;
use std::time::{Duration, Instant};
use crate::labels::{
    label_index, label_insert, labels_unique, lemma_label_index, lemma_label_index_push,
    lemma_label_index_same_labels, lemma_label_index_unique, lemma_label_insert,
};
use vstd::hash_map::StringHashMap;
use crate::text::{opt_str_view, push_str, str_eq, to_string};
use crate::time::{
    duration_from_secs, duration_from_secs_spec, duration_nanos, duration_nanos_spec, elapsed_nanos,
    instant_now,
};

verus! {

broadcast use vstd::std_specs::vec::axiom_spec_into_iter;

/// Most per-IP limiters kept at once.
const DEFAULT_MAX_IP_LIMITERS: usize = 100_000;

/// Most per-user limiters kept at once.
const DEFAULT_MAX_USER_LIMITERS: usize = 50_000;

/// Seconds a per-IP or per-user limiter may stay unused before eviction.
const DEFAULT_IDLE_TTL_SECS: u64 = 300;

/// Seconds between two runs of the periodic cleanup.
pub const DEFAULT_CLEANUP_INTERVAL_SECS: u64 = 60;

/// Declares `governor::Quota`: how many cells a limiter lets through per
/// period, and its burst size.
#[verifier::external_type_specification]
#[verifier::external_body]
pub struct ExQuota(Quota);

/// What `Quota::per_second` returns for a number of cells per second.
pub uninterp spec fn per_second_quota(rps: u32) -> Quota;

/// Wrapper of `governor::Quota::per_second`: the quota of `rps` cells per
/// second, whose burst size is also `rps`. The function takes a
/// `NonZeroU32`; `requires` keeps the argument nonzero, so the conversion
/// always succeeds.
#[verifier::external_body]
fn quota_per_second(rps: u32) -> (q: Quota)
    requires
        rps > 0,
    ensures
        q == per_second_quota(rps),
{
    Quota::per_second(NonZeroU32::new(rps).unwrap())
}

/// A `governor` direct (unkeyed) in-memory limiter on the default clock.
/// It is held whole and opaque: Verus refuses a declaration of
/// `governor::RateLimiter`, whose type parameters carry bounds of
/// governor's own traits.
#[verifier::external_body]
pub struct GovernorLimiter {
    inner: RateLimiter<NotKeyed, InMemoryState, DefaultClock>,
}

/// The quota a limiter was made with.
pub uninterp spec fn limiter_quota(limiter: GovernorLimiter) -> Quota;

/// Wrapper of `governor::RateLimiter::direct`: a fresh limiter for
/// `quota` (its bucket full). The contract claims only that it runs at
/// that quota.
#[verifier::external_body]
fn direct_limiter(quota: Quota) -> (r: GovernorLimiter)
    ensures
        limiter_quota(r) == quota,
{
    GovernorLimiter { inner: RateLimiter::direct(quota) }
}

/// Wrapper of `governor::RateLimiter::check`: whether one more cell
/// conforms now, in which case the limiter counts it. Nothing is claimed
/// of the answer, which depends on the clock and on earlier checks.
#[verifier::external_body]
fn limiter_check(limiter: &GovernorLimiter) -> (r: bool) {
    limiter.inner.check().is_ok()
}

/// A limiter, with the answers it has given so far (oldest first).
pub struct DirectLimiter {
    limiter: GovernorLimiter,
    answers: Ghost<Seq<bool>>,
}

impl DirectLimiter {
    /// The quota the limiter runs at.
    pub closed spec fn quota(self) -> Quota {
        limiter_quota(self.limiter)
    }

    /// The answers the limiter has given, oldest first.
    pub closed spec fn answers(self) -> Seq<bool> {
        self.answers@
    }

    /// A fresh limiter of `rps` cells per second, that has answered
    /// nothing yet.
    fn new(rps: u32) -> (r: Self)
        requires
            rps > 0,
        ensures
            r.quota() == per_second_quota(rps),
            r.answers() == Seq::<bool>::empty(),
    {
        DirectLimiter { limiter: direct_limiter(quota_per_second(rps)), answers: Ghost(Seq::empty()) }
    }

    /// Asks the limiter whether one more request conforms; the answer is
    /// recorded.
    fn check(&mut self) -> (r: bool)
        ensures
            final(self).quota() == old(self).quota(),
            final(self).answers() == old(self).answers().push(r),
    {
        let r = limiter_check(&self.limiter);
        self.answers = Ghost(self.answers@.push(r));
        r
    }
}

/// `now - last`, or 0 when `last` is later (as `Instant::duration_since`
/// saturates).
pub open spec fn age(last: u128, now: u128) -> int {
    if now >= last {
        now - last
    } else {
        0
    }
}

/// Whether an entry last used at `last` is still fresh at `now`: used
/// less than `ttl` nanoseconds ago.
pub open spec fn is_fresh(last: u128, now: u128, ttl: u128) -> bool {
    age(last, now) < ttl
}

/// The entries still fresh at `now`, in their order.
pub open spec fn fresh_entries(s: Seq<(Seq<char>, u128)>, now: u128, ttl: u128) -> Seq<
    (Seq<char>, u128),
> {
    s.filter(|e: (Seq<char>, u128)| is_fresh(e.1, now, ttl))
}

/// The entries after a use of `key` at `now`: when they already number
/// `max` or more they are all dropped first; then `key` gets `now` as its
/// last use (a new key goes last).
pub open spec fn touched(s: Seq<(Seq<char>, u128)>, max: nat, key: Seq<char>, now: u128) -> Seq<
    (Seq<char>, u128),
> {
    label_insert(
        if s.len() >= max {
            Seq::empty()
        } else {
            s
        },
        key,
        now,
    )
}

/// The entries after one run of the periodic cleanup at `now`: the idle
/// ones go; if some went and more than `max` remain, all go.
pub open spec fn after_cleanup_cycle(s: Seq<(Seq<char>, u128)>, now: u128, ttl: u128, max: nat) -> Seq<
    (Seq<char>, u128),
> {
    let kept = fresh_entries(s, now, ttl);
    if kept.len() < s.len() && kept.len() > max {
        Seq::empty()
    } else {
        kept
    }
}

/// A per-key limiter, and its last use in nanoseconds since the clock
/// origin of its manager.
struct TrackedLimiter {
    key: String,
    limiter: DirectLimiter,
    last_accessed: u128,
}

/// Key and last use of a tracked limiter.
spec fn tracked_view(e: TrackedLimiter) -> (Seq<char>, u128) {
    (e.key@, e.last_accessed)
}

/// Per-key limiters, at most one per key, in first-use order, with the
/// position of each key's entry.
struct TrackedTable {
    entries: Vec<TrackedLimiter>,
    index: StringHashMap<usize>,
}

impl View for TrackedTable {
    type V = Seq<(Seq<char>, u128)>;

    closed spec fn view(&self) -> Seq<(Seq<char>, u128)> {
        self.entries@.map_values(|e: TrackedLimiter| tracked_view(e))
    }
}

/// `index` holds the position of the entry of each label of `s`, and
/// nothing else.
spec fn indexes(index: Map<Seq<char>, usize>, s: Seq<(Seq<char>, u128)>) -> bool {
    forall|k: Seq<char>|
        #![trigger index.contains_key(k)]
        #![trigger label_index(s, k)]
        (index.contains_key(k) <==> label_index(s, k) is Some) && (index.contains_key(k) ==> label_index(s, k)
            == Some(index[k] as int))
}

impl TrackedTable {
    /// Every limiter of the table runs at quota `q`.
    spec fn all_at(&self, q: Quota) -> bool {
        forall|i: int| 0 <= i < self.entries@.len() ==> (#[trigger] self.entries@[i].limiter).quota() == q
    }

    /// Keys are unique and the index finds each entry.
    spec fn wf(&self) -> bool {
        labels_unique(self@) && indexes(self.index@, self@)
    }

    /// Keys and the quotas of their limiters.
    spec fn quota_view(&self) -> Seq<(Seq<char>, Quota)> {
        self.entries@.map_values(|e: TrackedLimiter| (e.key@, e.limiter.quota()))
    }

    /// The answers each key's limiter has given.
    spec fn answer_map(&self) -> Map<Seq<char>, Seq<bool>> {
        Map::new(
            |k: Seq<char>| label_index(self@, k) is Some,
            |k: Seq<char>| self.entries@[label_index(self@, k)->0].limiter.answers(),
        )
    }

    /// The two views have the same labels at the same places.
    proof fn lemma_quota_labels(&self, k: Seq<char>)
        ensures
            label_index(self.quota_view(), k) == label_index(self@, k),
            self.quota_view().len() == self@.len(),
    {
        assert forall|i: int| 0 <= i < self.quota_view().len() implies (#[trigger] self.quota_view()[i]).0
            == self@[i].0 by {}
        lemma_label_index_same_labels(self.quota_view(), self@, k);
    }

    fn new() -> (r: Self)
        ensures
            r@ == Seq::<(Seq<char>, u128)>::empty(),
            r.wf(),
            forall|q: Quota| r.all_at(q),
            r.quota_view() == Seq::<(Seq<char>, Quota)>::empty(),
            r.answer_map() == Map::<Seq<char>, Seq<bool>>::empty(),
    {
        let r = TrackedTable { entries: Vec::new(), index: StringHashMap::new() };
        assert(r@ =~= Seq::<(Seq<char>, u128)>::empty());
        assert(r.quota_view() =~= Seq::<(Seq<char>, Quota)>::empty());
        assert(r.answer_map() =~= Map::<Seq<char>, Seq<bool>>::empty());
        r
    }

    fn len(&self) -> (r: usize)
        ensures
            r == self@.len(),
    {
        self.entries.len()
    }

    /// Drops every entry.
    fn clear(&mut self)
        ensures
            final(self)@ == Seq::<(Seq<char>, u128)>::empty(),
            final(self).wf(),
            forall|q: Quota| final(self).all_at(q),
            final(self).answer_map() == Map::<Seq<char>, Seq<bool>>::empty(),
    {
        self.entries = Vec::new();
        self.index = StringHashMap::new();
        assert(self@ =~= Seq::<(Seq<char>, u128)>::empty());
        assert(self.answer_map() =~= Map::<Seq<char>, Seq<bool>>::empty());
    }

    /// Position of the entry for `key`.
    fn find(&self, key: &str) -> (r: Option<usize>)
        requires
            self.wf(),
        ensures
            r matches Some(i) ==> label_index(self@, key@) == Some(i as int) && i < self@.len(),
            r is None ==> label_index(self@, key@) is None,
    {
        proof {
            lemma_label_index(self@, key@);
        }
        match self.index.get(key) {
            Some(i) => Some(*i),
            None => None,
        }
    }

    /// Asks the limiter at position `i`, recording its answer there; keys,
    /// last uses and quotas stay.
    fn check_entry(&mut self, i: usize, Ghost(key): Ghost<Seq<char>>) -> (r: bool)
        requires
            old(self).wf(),
            i < old(self)@.len(),
            old(self)@[i as int].0 == key,
        ensures
            final(self)@ == old(self)@,
            final(self).quota_view() == old(self).quota_view(),
            final(self).index@ == old(self).index@,
            final(self).answer_map() == old(self).answer_map().insert(
                key,
                old(self).answer_map()[key].push(r),
            ),
            forall|q: Quota| old(self).all_at(q) ==> #[trigger] final(self).all_at(q),
    {
        let ghost before = *self;
        proof {
            lemma_label_index_unique(before@, key, i as int);
        }
        let r = self.entries[i].limiter.check();
        assert(self.entries@ =~= before.entries@.update(
            i as int,
            TrackedLimiter { limiter: self.entries@[i as int].limiter, ..before.entries@[i as int] },
        ));
        assert(self@ =~= before@);
        assert(self.quota_view() =~= before.quota_view());
        assert forall|k: Seq<char>| #[trigger] self.answer_map().contains_key(k) == before.answer_map().insert(
            key,
            before.answer_map()[key].push(r),
        ).contains_key(k) && (self.answer_map().contains_key(k) ==> self.answer_map()[k]
            == before.answer_map().insert(key, before.answer_map()[key].push(r))[k]) by {
            lemma_label_index(before@, k);
            if let Some(j) = label_index(before@, k) {
                if j != i {
                    assert(before@[j].0 != key);
                }
            }
        }
        assert(self.answer_map() =~= before.answer_map().insert(key, before.answer_map()[key].push(r)));
        r
    }

    /// Records a use of `key` at `now`, making its limiter (at `rps` cells
    /// per second) when there is none, and asks that limiter whether the
    /// request conforms.
    fn touch_and_check(&mut self, key: &str, now: u128, rps: u32) -> (r: bool)
        requires
            rps > 0,
            old(self).wf(),
            old(self).all_at(per_second_quota(rps)),
        ensures
            final(self)@ == label_insert(old(self)@, key@, now),
            final(self).wf(),
            final(self).all_at(per_second_quota(rps)),
            final(self).answer_map() == old(self).answer_map().insert(
                key@,
                (if old(self).answer_map().contains_key(key@) {
                    old(self).answer_map()[key@]
                } else {
                    Seq::<bool>::empty()
                }).push(r),
            ),
    {
        proof {
            lemma_label_index(self@, key@);
            lemma_label_insert(self@, key@, now, key@);
        }
        let ghost before = *self;
        match self.find(key) {
            Some(i) => {
                self.entries[i].last_accessed = now;
                assert(self@ =~= before@.update(i as int, (key@, now))) by {
                    assert forall|j: int| 0 <= j < self@.len() implies #[trigger] self@[j] == before@.update(
                        i as int,
                        (key@, now),
                    )[j] by {
                        if j == i {
                            assert(before@[j].0 == key@);
                        }
                    }
                }
                assert forall|k: Seq<char>| #[trigger] label_index(self@, k) == label_index(before@, k) by {
                    lemma_label_index_same_labels(self@, before@, k);
                }
                assert forall|j: int| 0 <= j < self.entries@.len() implies (#[trigger] self.entries@[j]).limiter
                    == before.entries@[j].limiter by {}
                assert forall|k: Seq<char>| #[trigger] self.answer_map().contains_key(k)
                    == before.answer_map().contains_key(k) && (self.answer_map().contains_key(k)
                    ==> self.answer_map()[k] == before.answer_map()[k]) by {
                    lemma_label_index(before@, k);
                }
                assert(self.answer_map() =~= before.answer_map());
                assert(self.all_at(per_second_quota(rps)));
                self.check_entry(i, Ghost(key@))
            },
            None => {
                let limiter = DirectLimiter::new(rps);
                let n = self.entries.len();
                self.entries.push(TrackedLimiter { key: to_string(key), limiter, last_accessed: now });
                self.index.insert(to_string(key), n);
                assert(self@ =~= before@.push((key@, now)));
                assert forall|k: Seq<char>| #[trigger] label_index(self@, k) == (match label_index(before@, k) {
                    Some(i) => Some(i),
                    None => if key@ == k {
                        Some(n as int)
                    } else {
                        None
                    },
                }) by {
                    lemma_label_index_push(before@, (key@, now), k);
                }
                assert forall|k: Seq<char>| #[trigger] self.answer_map().contains_key(k)
                    == before.answer_map().insert(key@, Seq::<bool>::empty()).contains_key(k) && (
                self.answer_map().contains_key(k) ==> self.answer_map()[k] == before.answer_map().insert(
                    key@,
                    Seq::<bool>::empty(),
                )[k]) by {
                    lemma_label_index(before@, k);
                    assert(label_index(self@, k) == (match label_index(before@, k) {
                        Some(i) => Some(i),
                        None => if key@ == k {
                            Some(n as int)
                        } else {
                            None
                        },
                    }));
                }
                assert(self.answer_map() =~= before.answer_map().insert(key@, Seq::<bool>::empty()));
                self.check_entry(n, Ghost(key@))
            },
        }
    }

    /// Gives `key` the limiter `limiter`, in place of the one it had, if any
    /// (a new key goes last).
    fn put(&mut self, key: &str, limiter: DirectLimiter)
        requires
            old(self).wf(),
        ensures
            final(self).wf(),
            final(self).quota_view() == label_insert(old(self).quota_view(), key@, limiter.quota()),
            final(self).answer_map() == old(self).answer_map().insert(key@, limiter.answers()),
    {
        proof {
            lemma_label_index(self@, key@);
            lemma_label_insert(self@, key@, 0, key@);
            self.lemma_quota_labels(key@);
            lemma_label_index(self.quota_view(), key@);
        }
        let ghost before = *self;
        match self.find(key) {
            Some(i) => {
                let ghost old_key = self.entries@[i as int].key;
                self.entries[i].limiter = limiter;
                assert(self@ =~= before@);
                assert(self.quota_view() =~= before.quota_view().update(i as int, (key@, limiter.quota())));
                assert forall|k: Seq<char>| #[trigger] self.answer_map().contains_key(k)
                    == before.answer_map().insert(key@, limiter.answers()).contains_key(k) && (
                self.answer_map().contains_key(k) ==> self.answer_map()[k] == before.answer_map().insert(
                    key@,
                    limiter.answers(),
                )[k]) by {
                    lemma_label_index(before@, k);
                    if let Some(j) = label_index(before@, k) {
                        if j != i {
                            assert(before@[j].0 != key@);
                        }
                    }
                }
                assert(self.answer_map() =~= before.answer_map().insert(key@, limiter.answers()));
            },
            None => {
                let n = self.entries.len();
                self.entries.push(TrackedLimiter { key: to_string(key), limiter, last_accessed: 0 });
                self.index.insert(to_string(key), n);
                assert(self@ =~= before@.push((key@, 0)));
                assert(self.quota_view() =~= before.quota_view().push((key@, limiter.quota())));
                assert forall|k: Seq<char>| #[trigger] label_index(self@, k) == (match label_index(before@, k) {
                    Some(i) => Some(i),
                    None => if key@ == k {
                        Some(n as int)
                    } else {
                        None
                    },
                }) by {
                    lemma_label_index_push(before@, (key@, 0), k);
                }
                assert forall|k: Seq<char>| #[trigger] self.answer_map().contains_key(k)
                    == before.answer_map().insert(key@, limiter.answers()).contains_key(k) && (
                self.answer_map().contains_key(k) ==> self.answer_map()[k] == before.answer_map().insert(
                    key@,
                    limiter.answers(),
                )[k]) by {
                    lemma_label_index(before@, k);
                    assert(label_index(self@, k) == (match label_index(before@, k) {
                        Some(i) => Some(i),
                        None => if key@ == k {
                            Some(n as int)
                        } else {
                            None
                        },
                    }));
                }
                assert(self.answer_map() =~= before.answer_map().insert(key@, limiter.answers()));
            },
        }
    }

    /// Asks the limiter of `key`, if it has one, recording the answer;
    /// without one the answer is yes and nothing changes.
    fn check_key(&mut self, key: &str) -> (r: bool)
        requires
            old(self).wf(),
        ensures
            final(self).wf(),
            final(self)@ == old(self)@,
            final(self).quota_view() == old(self).quota_view(),
            label_index(old(self)@, key@) is None ==> r && final(self).answer_map() == old(self).answer_map(),
            label_index(old(self)@, key@) is Some ==> final(self).answer_map() == old(self).answer_map().insert(
                key@,
                old(self).answer_map()[key@].push(r),
            ),
    {
        proof {
            lemma_label_index(self@, key@);
        }
        match self.find(key) {
            Some(i) => self.check_entry(i, Ghost(key@)),
            None => true,
        }
    }

    /// Evicts the entries idle for `ttl` nanoseconds or more at `now`;
    /// returns how many went.
    fn evict_idle(&mut self, now: u128, ttl: u128, Ghost(q): Ghost<Quota>) -> (evicted: usize)
        requires
            old(self).wf(),
            old(self).all_at(q),
        ensures
            final(self)@ == fresh_entries(old(self)@, now, ttl),
            evicted == old(self)@.len() - final(self)@.len(),
            final(self).wf(),
            final(self).all_at(q),
    {
        let ghost orig = self.entries@;
        let ghost orig_view = self@;
        let ghost pred = |e: (Seq<char>, u128)| is_fresh(e.1, now, ttl);
        let before_count = self.entries.len();
        let mut entries: Vec<TrackedLimiter> = Vec::new();
        std::mem::swap(&mut entries, &mut self.entries);
        let mut kept: Vec<TrackedLimiter> = Vec::new();
        let mut index: StringHashMap<usize> = StringHashMap::new();
        assert(kept@.map_values(|e: TrackedLimiter| tracked_view(e)) =~= Seq::<(Seq<char>, u128)>::empty());
        for e in it: entries.into_iter()
            invariant
                it.seq() == orig,
                orig_view == orig.map_values(|e: TrackedLimiter| tracked_view(e)),
                labels_unique(orig_view),
                pred == (|e: (Seq<char>, u128)| is_fresh(e.1, now, ttl)),
                forall|i: int| 0 <= i < orig.len() ==> (#[trigger] orig[i].limiter).quota() == q,
                kept@.map_values(|e: TrackedLimiter| tracked_view(e)) == orig_view.take(it.index() as int).filter(
                    pred,
                ),
                labels_unique(kept@.map_values(|e: TrackedLimiter| tracked_view(e))),
                indexes(index@, kept@.map_values(|e: TrackedLimiter| tracked_view(e))),
                forall|j: int| 0 <= j < kept@.len() ==> (#[trigger] kept@[j].limiter).quota() == q,
        {
            let ghost idx = it.index() as int;
            let ghost kv = kept@.map_values(|e: TrackedLimiter| tracked_view(e));
            proof {
                assert(orig[idx] == e);
                assert(orig_view.take(idx + 1) =~= orig_view.take(idx).push(orig_view[idx]));
                orig_view.take(idx).lemma_filter_push(orig_view[idx], pred);
            }
            let fresh = if now >= e.last_accessed {
                now - e.last_accessed < ttl
            } else {
                0 < ttl
            };
            if fresh {
                proof {
                    lemma_label_index(kv, e.key@);
                    if let Some(j) = label_index(kv, e.key@) {
                        assert(kv[j].0 == e.key@);
                        assert(orig_view.take(idx).filter(pred).contains(kv[j]));
                        orig_view.take(idx).lemma_filter_contains_rev(pred, kv[j]);
                        let i = choose|i: int| 0 <= i < idx && orig_view.take(idx)[i] == kv[j];
                        assert(orig_view[i] == kv[j]);
                        assert(orig_view[idx].0 == e.key@);
                        assert(false);
                    }
                }
                let n = kept.len();
                let key = e.key.clone();
                kept.push(e);
                index.insert(key, n);
                proof {
                    let kv2 = kept@.map_values(|e: TrackedLimiter| tracked_view(e));
                    assert(kv2 =~= kv.push(tracked_view(e)));
                    assert forall|k: Seq<char>| #[trigger] label_index(kv2, k) == (match label_index(kv, k) {
                        Some(i) => Some(i),
                        None => if e.key@ == k {
                            Some(n as int)
                        } else {
                            None
                        },
                    }) by {
                        lemma_label_index_push(kv, tracked_view(e), k);
                    }
                    assert forall|a: int, b: int|
                        0 <= a < kv2.len() && 0 <= b < kv2.len() && a != b implies (#[trigger] kv2[a]).0 != (
                        #[trigger] kv2[b]).0 by {
                        if a < kv.len() && b < kv.len() {
                            assert(kv2[a] == kv[a] && kv2[b] == kv[b]);
                        } else if a < kv.len() {
                            assert(kv2[a] == kv[a]);
                        } else {
                            assert(kv2[b] == kv[b]);
                        }
                    }
                }
            }
        }
        assert(orig_view.take(orig.len() as int) =~= orig_view);
        self.entries = kept;
        self.index = index;
        proof {
            orig_view.lemma_filter_len(pred);
        }
        before_count - self.entries.len()
    }
}

/// The level at which a request was refused.
#[derive(Debug, Clone, PartialEq, Eq)]
pub enum RateLimitError {
    /// Over the global limit.
    Global,
    /// Over the limit of this client IP address (in its text form).
    PerIp(String),
    /// Over the limit of this user.
    PerUser(String),
    /// Over the limit of this bucket.
    PerBucket(String),
}

/// The text describing a refusal.
pub open spec fn rate_limit_message(e: RateLimitError) -> Seq<char> {
    match e {
        RateLimitError::Global => "Global rate limit exceeded"@,
        RateLimitError::PerIp(ip) => "Rate limit exceeded for IP: "@ + ip@,
        RateLimitError::PerUser(user) => "Rate limit exceeded for user: "@ + user@,
        RateLimitError::PerBucket(bucket) => "Rate limit exceeded for bucket: "@ + bucket@,
    }
}

impl RateLimitError {
    /// The text describing the refusal.
    pub fn message(&self) -> (r: String)
        ensures
            r@ == rate_limit_message(*self),
    {
        match self {
            RateLimitError::Global => to_string("Global rate limit exceeded"),
            RateLimitError::PerIp(ip) => {
                let mut out = to_string("Rate limit exceeded for IP: ");
                push_str(&mut out, ip.as_str());
                out
            },
            RateLimitError::PerUser(user) => {
                let mut out = to_string("Rate limit exceeded for user: ");
                push_str(&mut out, user.as_str());
                out
            },
            RateLimitError::PerBucket(bucket) => {
                let mut out = to_string("Rate limit exceeded for bucket: ");
                push_str(&mut out, bucket.as_str());
                out
            },
        }
    }
}

/// What a rate limit manager holds, as plain values: the quotas of the
/// global and per-bucket limiters, the per-IP and per-user entries with
/// their last use (nanoseconds since the manager's clock origin), the
/// configured per-IP and per-user rates, the caps on those entries and
/// the idle time after which they are evicted.
pub struct RateLimitView {
    pub global: Option<Quota>,
    pub buckets: Seq<(Seq<char>, Quota)>,
    pub ips: Seq<(Seq<char>, u128)>,
    pub users: Seq<(Seq<char>, u128)>,
    pub per_ip_rps: Option<u32>,
    pub per_user_rps: Option<u32>,
    pub max_ip_limiters: nat,
    pub max_user_limiters: nat,
    pub idle_ttl: Duration,
}

/// A configured rate: none for a missing or zero rate.
pub open spec fn enabled_rate(rps: Option<u32>) -> Option<u32> {
    match rps {
        Some(r) => if r > 0 {
            Some(r)
        } else {
            None
        },
        None => None,
    }
}

/// The quota of a configured rate, none for a missing or zero rate.
pub open spec fn quota_for(rps: Option<u32>) -> Option<Quota> {
    match enabled_rate(rps) {
        Some(r) => Some(per_second_quota(r)),
        None => None,
    }
}

/// A fresh manager: the given rates, no bucket limiter, no per-IP or
/// per-user entry, at most 100000 per-IP and 50000 per-user limiters, an
/// idle time of five minutes.
pub open spec fn initial_view(global_rps: Option<u32>, per_ip_rps: Option<u32>, per_user_rps: Option<u32>) -> RateLimitView {
    RateLimitView {
        global: quota_for(global_rps),
        buckets: Seq::empty(),
        ips: Seq::empty(),
        users: Seq::empty(),
        per_ip_rps: enabled_rate(per_ip_rps),
        per_user_rps: enabled_rate(per_user_rps),
        max_ip_limiters: 100_000,
        max_user_limiters: 50_000,
        idle_ttl: duration_from_secs_spec(300),
    }
}

/// The per-IP entries after the per-IP stage of a request from
/// `client_ip`: touched when there is an address and a per-IP rate.
pub open spec fn ip_stage(before: RateLimitView, after: RateLimitView, client_ip: Option<Seq<char>>) -> bool {
    if client_ip is Some && before.per_ip_rps is Some {
        exists|t: u128| after.ips == #[trigger] touched(before.ips, before.max_ip_limiters, client_ip->0, t)
    } else {
        after.ips == before.ips
    }
}

/// The per-user entries after the per-user stage of a request by
/// `user_id`: touched when there is a user and a per-user rate.
pub open spec fn user_stage(before: RateLimitView, after: RateLimitView, user_id: Option<Seq<char>>) -> bool {
    if user_id is Some && before.per_user_rps is Some {
        exists|t: u128| after.users == #[trigger] touched(before.users, before.max_user_limiters, user_id->0, t)
    } else {
        after.users == before.users
    }
}

/// Everything but the per-IP and per-user entries is unchanged.
pub open spec fn same_settings(a: RateLimitView, b: RateLimitView) -> bool {
    &&& a.global == b.global
    &&& a.buckets == b.buckets
    &&& a.per_ip_rps == b.per_ip_rps
    &&& a.per_user_rps == b.per_user_rps
    &&& a.max_ip_limiters == b.max_ip_limiters
    &&& a.max_user_limiters == b.max_user_limiters
    &&& a.idle_ttl == b.idle_ttl
}

/// What a check of every limit for a request does: the stages run in the
/// order global, per IP, per user, per bucket; a refusal names its stage
/// (and the address, user or bucket concerned) and leaves the later
/// stages unrun; a stage refuses only where its limiter exists.
pub open spec fn checked_all(
    before: RateLimitView,
    after: RateLimitView,
    bucket_name: Seq<char>,
    client_ip: Option<Seq<char>>,
    user_id: Option<Seq<char>>,
    r: Result<(), RateLimitError>,
) -> bool {
    &&& same_settings(before, after)
    &&& match r {
        Err(RateLimitError::Global) => before.global is Some && after == before,
        Err(RateLimitError::PerIp(ip)) => client_ip == Some(ip@) && before.per_ip_rps is Some
            && ip_stage(before, after, client_ip) && after.users == before.users,
        Err(RateLimitError::PerUser(user)) => user_id == Some(user@) && before.per_user_rps is Some
            && ip_stage(before, after, client_ip) && user_stage(before, after, user_id),
        Err(RateLimitError::PerBucket(bucket)) => bucket@ == bucket_name && label_index(
            before.buckets,
            bucket_name,
        ) is Some && ip_stage(before, after, client_ip) && user_stage(before, after, user_id),
        Ok(()) => ip_stage(before, after, client_ip) && user_stage(before, after, user_id),
    }
}

/// The answers the limiters of a manager have given, oldest first: the
/// global limiter's, and each bucket's, address's and user's by key.
pub struct LimiterAnswers {
    pub global: Seq<bool>,
    pub buckets: Map<Seq<char>, Seq<bool>>,
    pub ips: Map<Seq<char>, Seq<bool>>,
    pub users: Map<Seq<char>, Seq<bool>>,
}

/// The answers by key after the limiter of `key` answered `a`: when the
/// table was dropped first (`reset`), only that key's answer remains; a
/// new key starts with no earlier answers.
pub open spec fn after_use(m: Map<Seq<char>, Seq<bool>>, reset: bool, key: Seq<char>, a: bool) -> Map<
    Seq<char>,
    Seq<bool>,
> {
    let base = if reset {
        Map::<Seq<char>, Seq<bool>>::empty()
    } else {
        m
    };
    base.insert(
        key,
        (if base.contains_key(key) {
            base[key]
        } else {
            Seq::<bool>::empty()
        }).push(a),
    )
}

/// The outcome decided by the answers of the four checks, taken in the
/// order global, per IP (when there is an address), per user (when there
/// is a user), per bucket: the first refusal decides, and the request is
/// allowed when no check refuses.
pub open spec fn decided_by(
    r: Result<(), RateLimitError>,
    global_ok: bool,
    ip: Option<(Seq<char>, bool)>,
    user: Option<(Seq<char>, bool)>,
    bucket_name: Seq<char>,
    bucket_ok: bool,
) -> bool {
    if !global_ok {
        r == Err::<(), RateLimitError>(RateLimitError::Global)
    } else if ip is Some && !ip.unwrap().1 {
        r matches Err(RateLimitError::PerIp(s)) && s@ == ip.unwrap().0
    } else if user is Some && !user.unwrap().1 {
        r matches Err(RateLimitError::PerUser(s)) && s@ == user.unwrap().0
    } else if !bucket_ok {
        r matches Err(RateLimitError::PerBucket(s)) && s@ == bucket_name
    } else {
        r is Ok
    }
}

/// An optional key and answer, the key as text.
pub open spec fn answer_view(o: Option<(&str, bool)>) -> Option<(Seq<char>, bool)> {
    match o {
        Some((k, a)) => Some((k@, a)),
        None => None,
    }
}

/// The outcome of a request from the answers of its checks (see
/// `decided_by`).
pub fn first_refusal(
    global_ok: bool,
    ip: Option<(&str, bool)>,
    user: Option<(&str, bool)>,
    bucket_name: &str,
    bucket_ok: bool,
) -> (r: Result<(), RateLimitError>)
    ensures
        decided_by(r, global_ok, answer_view(ip), answer_view(user), bucket_name@, bucket_ok),
{
    if !global_ok {
        return Err(RateLimitError::Global);
    }
    if let Some((addr, ok)) = ip {
        if !ok {
            return Err(RateLimitError::PerIp(to_string(addr)));
        }
    }
    if let Some((name, ok)) = user {
        if !ok {
            return Err(RateLimitError::PerUser(to_string(name)));
        }
    }
    if !bucket_ok {
        return Err(RateLimitError::PerBucket(to_string(bucket_name)));
    }
    Ok(())
}

/// The answer of the global check, read from the answers after it: the
/// global limiter's last answer, or yes without a global limiter.
pub open spec fn global_answer(before: RateLimitView, after: LimiterAnswers) -> bool {
    if before.global is Some {
        after.global.last()
    } else {
        true
    }
}

/// The answer of the per-IP check of `ip`: its limiter's last answer, or
/// yes without a per-IP limit.
pub open spec fn ip_answer(before: RateLimitView, after: LimiterAnswers, ip: Seq<char>) -> bool {
    if before.per_ip_rps is Some {
        after.ips[ip].last()
    } else {
        true
    }
}

/// The answer of the per-user check of `user`: its limiter's last answer,
/// or yes without a per-user limit.
pub open spec fn user_answer(before: RateLimitView, after: LimiterAnswers, user: Seq<char>) -> bool {
    if before.per_user_rps is Some {
        after.users[user].last()
    } else {
        true
    }
}

/// The answer of the check of bucket `bucket`: its limiter's last answer,
/// or yes for a bucket without a limiter.
pub open spec fn bucket_answer(before: RateLimitView, after: LimiterAnswers, bucket: Seq<char>) -> bool {
    if label_index(before.buckets, bucket) is Some {
        after.buckets[bucket].last()
    } else {
        true
    }
}

/// The address and the answer of its check, when there is an address.
pub open spec fn ip_check(before: RateLimitView, after: LimiterAnswers, client_ip: Option<Seq<char>>) -> Option<
    (Seq<char>, bool),
> {
    match client_ip {
        Some(ip) => Some((ip, ip_answer(before, after, ip))),
        None => None,
    }
}

/// The user and the answer of its check, when there is a user.
pub open spec fn user_check(before: RateLimitView, after: LimiterAnswers, user_id: Option<Seq<char>>) -> Option<
    (Seq<char>, bool),
> {
    match user_id {
        Some(u) => Some((u, user_answer(before, after, u))),
        None => None,
    }
}

/// Each check that ran asked its own limiter once, and no other limiter
/// answered: the global check always runs; the per-IP check runs after a
/// global yes, when there is an address and a per-IP limit; the per-user
/// check after that, when there is a user and a per-user limit; the
/// bucket check after that, when the bucket has a limiter.
pub open spec fn answers_recorded(
    before: RateLimitView,
    a0: LimiterAnswers,
    a1: LimiterAnswers,
    bucket_name: Seq<char>,
    client_ip: Option<Seq<char>>,
    user_id: Option<Seq<char>>,
    r: Result<(), RateLimitError>,
) -> bool {
    let past_global = !(r == Err::<(), RateLimitError>(RateLimitError::Global));
    let past_ip = past_global && !(r matches Err(RateLimitError::PerIp(_)));
    let past_user = past_ip && !(r matches Err(RateLimitError::PerUser(_)));
    &&& if before.global is Some {
        a1.global == a0.global.push(a1.global.last())
    } else {
        a1.global == a0.global
    }
    &&& if past_global && client_ip is Some && before.per_ip_rps is Some {
        a1.ips == after_use(
            a0.ips,
            before.ips.len() >= before.max_ip_limiters,
            client_ip->0,
            a1.ips[client_ip->0].last(),
        )
    } else {
        a1.ips == a0.ips
    }
    &&& if past_ip && user_id is Some && before.per_user_rps is Some {
        a1.users == after_use(
            a0.users,
            before.users.len() >= before.max_user_limiters,
            user_id->0,
            a1.users[user_id->0].last(),
        )
    } else {
        a1.users == a0.users
    }
    &&& if past_user && label_index(before.buckets, bucket_name) is Some {
        a1.buckets == a0.buckets.insert(bucket_name, a0.buckets[bucket_name].push(a1.buckets[bucket_name].last()))
    } else {
        a1.buckets == a0.buckets
    }
}

/// No limiter has answered yet.
pub open spec fn no_answers() -> LimiterAnswers {
    LimiterAnswers {
        global: Seq::empty(),
        buckets: Map::empty(),
        ips: Map::empty(),
        users: Map::empty(),
    }
}

/// Rate limiter manager: a global limiter, per-bucket limiters, and
/// per-IP and per-user limiters made on first use.
pub struct RateLimitManager {
    global: Option<DirectLimiter>,
    buckets: TrackedTable,
    ips: TrackedTable,
    users: TrackedTable,
    per_ip_rps: Option<u32>,
    per_user_rps: Option<u32>,
    max_ip_limiters: usize,
    max_user_limiters: usize,
    idle_ttl: Duration,
    origin: Instant,
}

impl View for RateLimitManager {
    type V = RateLimitView;

    closed spec fn view(&self) -> RateLimitView {
        RateLimitView {
            global: match self.global {
                Some(l) => Some(l.quota()),
                None => None,
            },
            buckets: self.buckets.quota_view(),
            ips: self.ips@,
            users: self.users@,
            per_ip_rps: self.per_ip_rps,
            per_user_rps: self.per_user_rps,
            max_ip_limiters: self.max_ip_limiters as nat,
            max_user_limiters: self.max_user_limiters as nat,
            idle_ttl: self.idle_ttl,
        }
    }
}

/// The entries of a tracked table are consistent with its rate: unique
/// keys, found by the index, at most `max` of them, every limiter at the
/// rate; none without a rate.
spec fn table_ok(t: TrackedTable, rps: Option<u32>, max: usize) -> bool {
    &&& t.wf()
    &&& 0 < max
    &&& t@.len() <= max
    &&& match rps {
        Some(r) => r > 0 && t.all_at(per_second_quota(r)),
        None => t@.len() == 0,
    }
}

/// The rate kept for a configured one: none for a missing or zero rate.
fn enabled(rps: Option<u32>) -> (r: Option<u32>)
    ensures
        r == enabled_rate(rps),
{
    match rps {
        Some(x) => if x > 0 {
            Some(x)
        } else {
            None
        },
        None => None,
    }
}

impl RateLimitManager {
    #[verifier::type_invariant]
    spec fn inv(&self) -> bool {
        &&& self.buckets.wf()
        &&& table_ok(self.ips, self.per_ip_rps, self.max_ip_limiters)
        &&& table_ok(self.users, self.per_user_rps, self.max_user_limiters)
    }

    /// The answers every limiter of the manager has given.
    pub closed spec fn answers(self) -> LimiterAnswers {
        LimiterAnswers {
            global: match self.global {
                Some(l) => l.answers(),
                None => Seq::empty(),
            },
            buckets: self.buckets.answer_map(),
            ips: self.ips.answer_map(),
            users: self.users.answer_map(),
        }
    }

    /// A manager with optional global and per-IP limits (a missing or
    /// zero rate disables its limit) and no per-user limit.
    pub fn new(global_rps: Option<u32>, per_ip_rps: Option<u32>) -> (r: Self)
        ensures
            r@ == initial_view(global_rps, per_ip_rps, None),
            r.answers() == no_answers(),
    {
        Self::with_user_limit(global_rps, per_ip_rps, None)
    }

    /// A manager with optional global, per-IP and per-user limits (a
    /// missing or zero rate disables its limit).
    pub fn with_user_limit(global_rps: Option<u32>, per_ip_rps: Option<u32>, per_user_rps: Option<u32>) -> (r: Self)
        ensures
            r@ == initial_view(global_rps, per_ip_rps, per_user_rps),
            r.answers() == no_answers(),
    {
        let global = match enabled(global_rps) {
            Some(rps) => Some(DirectLimiter::new(rps)),
            None => None,
        };
        let r = RateLimitManager {
            global,
            buckets: TrackedTable::new(),
            ips: TrackedTable::new(),
            users: TrackedTable::new(),
            per_ip_rps: enabled(per_ip_rps),
            per_user_rps: enabled(per_user_rps),
            max_ip_limiters: DEFAULT_MAX_IP_LIMITERS,
            max_user_limiters: DEFAULT_MAX_USER_LIMITERS,
            idle_ttl: duration_from_secs(DEFAULT_IDLE_TTL_SECS),
            origin: instant_now(),
        };
        assert(r.answers() =~= no_answers());
        r
    }

    /// Adds (or replaces) the limiter of a bucket; a zero rate adds none.
    /// A new limiter has given no answer yet.
    pub fn add_bucket_limiter(&mut self, bucket_name: String, requests_per_second: u32)
        ensures
            requests_per_second == 0 ==> final(self)@ == old(self)@ && final(self).answers() == old(self).answers(),
            requests_per_second > 0 ==> final(self)@ == (RateLimitView {
                buckets: label_insert(
                    old(self)@.buckets,
                    bucket_name@,
                    per_second_quota(requests_per_second),
                ),
                ..old(self)@
            }),
            requests_per_second > 0 ==> final(self).answers() == (LimiterAnswers {
                buckets: old(self).answers().buckets.insert(bucket_name@, Seq::<bool>::empty()),
                ..old(self).answers()
            }),
    {
        proof {
            use_type_invariant(&*self);
        }
        if requests_per_second > 0 {
            let limiter = DirectLimiter::new(requests_per_second);
            let mut buckets = TrackedTable::new();
            std::mem::swap(&mut buckets, &mut self.buckets);
            buckets.put(bucket_name.as_str(), limiter);
            self.buckets = buckets;
        }
    }

    /// Whether a request passes the global limit: the global limiter's
    /// answer, recorded; yes without one.
    pub fn check_global(&mut self) -> (r: bool)
        ensures
            final(self)@ == old(self)@,
            old(self)@.global is None ==> r && final(self).answers() == old(self).answers(),
            old(self)@.global is Some ==> final(self).answers() == (LimiterAnswers {
                global: old(self).answers().global.push(r),
                ..old(self).answers()
            }),
    {
        proof {
            use_type_invariant(&*self);
        }
        let mut global: Option<DirectLimiter> = None;
        std::mem::swap(&mut global, &mut self.global);
        match global {
            Some(mut limiter) => {
                let r = limiter.check();
                self.global = Some(limiter);
                r
            },
            None => true,
        }
    }

    /// Whether a request passes the limit of a bucket: the bucket
    /// limiter's answer, recorded; yes for a bucket without one.
    pub fn check_bucket(&mut self, bucket_name: &str) -> (r: bool)
        ensures
            final(self)@ == old(self)@,
            label_index(old(self)@.buckets, bucket_name@) is None ==> r && final(self).answers() == old(
                self,
            ).answers(),
            label_index(old(self)@.buckets, bucket_name@) is Some ==> final(self).answers() == (LimiterAnswers {
                buckets: old(self).answers().buckets.insert(
                    bucket_name@,
                    old(self).answers().buckets[bucket_name@].push(r),
                ),
                ..old(self).answers()
            }),
    {
        proof {
            use_type_invariant(&*self);
            self.buckets.lemma_quota_labels(bucket_name@);
        }
        let mut buckets = TrackedTable::new();
        std::mem::swap(&mut buckets, &mut self.buckets);
        let r = buckets.check_key(bucket_name);
        self.buckets = buckets;
        r
    }

    /// The current reading of the manager's clock, in nanoseconds since
    /// its origin. Nothing is claimed of the value.
    pub fn now_nanos(&self) -> (r: u128) {
        elapsed_nanos(&self.origin)
    }

    /// Whether a request from `ip` passes the per-IP limit, as of `now`:
    /// the address's limiter's answer, recorded; yes without a per-IP
    /// limit. With one, the address's entry is used at `now`, made first
    /// when missing (all entries are dropped first when they already
    /// number the maximum).
    pub fn check_ip_at(&mut self, ip: &str, now: u128) -> (r: bool)
        ensures
            old(self)@.per_ip_rps is None ==> r && final(self)@ == old(self)@ && final(self).answers() == old(
                self,
            ).answers(),
            old(self)@.per_ip_rps is Some ==> final(self)@ == (RateLimitView {
                ips: touched(old(self)@.ips, old(self)@.max_ip_limiters, ip@, now),
                ..old(self)@
            }),
            old(self)@.per_ip_rps is Some ==> final(self).answers() == (LimiterAnswers {
                ips: after_use(
                    old(self).answers().ips,
                    old(self)@.ips.len() >= old(self)@.max_ip_limiters,
                    ip@,
                    r,
                ),
                ..old(self).answers()
            }),
            final(self)@.ips.len() <= final(self)@.max_ip_limiters,
    {
        proof {
            use_type_invariant(&*self);
        }
        match self.per_ip_rps {
            None => true,
            Some(rps) => {
                let mut table = TrackedTable::new();
                std::mem::swap(&mut table, &mut self.ips);
                if table.len() >= self.max_ip_limiters {
                    table.clear();
                }
                let ghost base = table@;
                proof {
                    lemma_label_index(base, ip@);
                }
                let r = table.touch_and_check(ip, now, rps);
                assert(base.len() < self.max_ip_limiters);
                assert(table@.len() <= base.len() + 1);
                self.ips = table;
                r
            },
        }
    }

    /// Whether a request from `ip` passes the per-IP limit (see
    /// `check_ip_at`), used now.
    pub fn check_ip(&mut self, ip: &str) -> (r: bool)
        ensures
            old(self)@.per_ip_rps is None ==> r && final(self)@ == old(self)@ && final(self).answers() == old(
                self,
            ).answers(),
            old(self)@.per_ip_rps is Some ==> exists|t: u128|
                final(self)@ == (RateLimitView {
                    ips: #[trigger] touched(old(self)@.ips, old(self)@.max_ip_limiters, ip@, t),
                    ..old(self)@
                }),
            old(self)@.per_ip_rps is Some ==> final(self).answers() == (LimiterAnswers {
                ips: after_use(
                    old(self).answers().ips,
                    old(self)@.ips.len() >= old(self)@.max_ip_limiters,
                    ip@,
                    r,
                ),
                ..old(self).answers()
            }),
            final(self)@.ips.len() <= final(self)@.max_ip_limiters,
    {
        let now = self.now_nanos();
        let r = self.check_ip_at(ip, now);
        assert(old(self)@.per_ip_rps is Some ==> final(self)@.ips == touched(
            old(self)@.ips,
            old(self)@.max_ip_limiters,
            ip@,
            now,
        ));
        r
    }

    /// Whether a request by `user_id` passes the per-user limit, as of
    /// `now`: the user's limiter's answer, recorded; yes without a
    /// per-user limit. With one, the user's entry is used at `now`, made
    /// first when missing (all entries are dropped first when they already
    /// number the maximum).
    pub fn check_user_at(&mut self, user_id: &str, now: u128) -> (r: bool)
        ensures
            old(self)@.per_user_rps is None ==> r && final(self)@ == old(self)@ && final(self).answers() == old(
                self,
            ).answers(),
            old(self)@.per_user_rps is Some ==> final(self)@ == (RateLimitView {
                users: touched(old(self)@.users, old(self)@.max_user_limiters, user_id@, now),
                ..old(self)@
            }),
            old(self)@.per_user_rps is Some ==> final(self).answers() == (LimiterAnswers {
                users: after_use(
                    old(self).answers().users,
                    old(self)@.users.len() >= old(self)@.max_user_limiters,
                    user_id@,
                    r,
                ),
                ..old(self).answers()
            }),
            final(self)@.users.len() <= final(self)@.max_user_limiters,
    {
        proof {
            use_type_invariant(&*self);
        }
        match self.per_user_rps {
            None => true,
            Some(rps) => {
                let mut table = TrackedTable::new();
                std::mem::swap(&mut table, &mut self.users);
                if table.len() >= self.max_user_limiters {
                    table.clear();
                }
                let ghost base = table@;
                proof {
                    lemma_label_index(base, user_id@);
                }
                let r = table.touch_and_check(user_id, now, rps);
                assert(base.len() < self.max_user_limiters);
                assert(table@.len() <= base.len() + 1);
                self.users = table;
                r
            },
        }
    }

    /// Whether a request by `user_id` passes the per-user limit (see
    /// `check_user_at`), used now.
    pub fn check_user(&mut self, user_id: &str) -> (r: bool)
        ensures
            old(self)@.per_user_rps is None ==> r && final(self)@ == old(self)@ && final(self).answers() == old(
                self,
            ).answers(),
            old(self)@.per_user_rps is Some ==> exists|t: u128|
                final(self)@ == (RateLimitView {
                    users: #[trigger] touched(old(self)@.users, old(self)@.max_user_limiters, user_id@, t),
                    ..old(self)@
                }),
            old(self)@.per_user_rps is Some ==> final(self).answers() == (LimiterAnswers {
                users: after_use(
                    old(self).answers().users,
                    old(self)@.users.len() >= old(self)@.max_user_limiters,
                    user_id@,
                    r,
                ),
                ..old(self).answers()
            }),
            final(self)@.users.len() <= final(self)@.max_user_limiters,
    {
        let now = self.now_nanos();
        let r = self.check_user_at(user_id, now);
        assert(old(self)@.per_user_rps is Some ==> final(self)@.users == touched(
            old(self)@.users,
            old(self)@.max_user_limiters,
            user_id@,
            now,
        ));
        r
    }

    /// Checks every limit for a request to `bucket_name` from `client_ip`:
    /// global, per IP, per bucket; the first refusal decides.
    pub fn check_all(&mut self, bucket_name: &str, client_ip: Option<&str>) -> (r: Result<(), RateLimitError>)
        ensures
            checked_all(old(self)@, final(self)@, bucket_name@, opt_str_view(client_ip), None, r),
            answers_recorded(
                old(self)@,
                old(self).answers(),
                final(self).answers(),
                bucket_name@,
                opt_str_view(client_ip),
                None,
                r,
            ),
            decided_by(
                r,
                global_answer(old(self)@, final(self).answers()),
                ip_check(old(self)@, final(self).answers(), opt_str_view(client_ip)),
                None,
                bucket_name@,
                bucket_answer(old(self)@, final(self).answers(), bucket_name@),
            ),
    {
        self.check_all_with_user(bucket_name, client_ip, None)
    }

    /// Checks every limit for a request to `bucket_name` from `client_ip`
    /// by `user_id`: global, per IP, per user, per bucket, each asking its
    /// own limiter once and only while no earlier check refused; the first
    /// refusal decides, and the request is allowed when none refuses.
    pub fn check_all_with_user(
        &mut self,
        bucket_name: &str,
        client_ip: Option<&str>,
        user_id: Option<&str>,
    ) -> (r: Result<(), RateLimitError>)
        ensures
            checked_all(old(self)@, final(self)@, bucket_name@, opt_str_view(client_ip), opt_str_view(user_id), r),
            answers_recorded(
                old(self)@,
                old(self).answers(),
                final(self).answers(),
                bucket_name@,
                opt_str_view(client_ip),
                opt_str_view(user_id),
                r,
            ),
            decided_by(
                r,
                global_answer(old(self)@, final(self).answers()),
                ip_check(old(self)@, final(self).answers(), opt_str_view(client_ip)),
                user_check(old(self)@, final(self).answers(), opt_str_view(user_id)),
                bucket_name@,
                bucket_answer(old(self)@, final(self).answers(), bucket_name@),
            ),
    {
        let ghost v0 = self@;
        let ghost a0 = self.answers();
        let global_ok = self.check_global();
        let ghost a_g = self.answers();
        let mut ip_result: Option<(&str, bool)> = None;
        if global_ok {
            if let Some(ip) = client_ip {
                let now = self.now_nanos();
                let allowed = self.check_ip_at(ip, now);
                assert(opt_str_view(client_ip)->0 == ip@);
                assert(v0.per_ip_rps is Some ==> self@.ips == touched(
                    v0.ips,
                    v0.max_ip_limiters,
                    opt_str_view(client_ip)->0,
                    now,
                ));
                ip_result = Some((ip, allowed));
            }
        }
        let ip_ok = match ip_result {
            Some((_, a)) => a,
            None => true,
        };
        let ghost v_ip = self@;
        let ghost a_ip = self.answers();
        let mut user_result: Option<(&str, bool)> = None;
        if global_ok && ip_ok {
            if let Some(user) = user_id {
                let now = self.now_nanos();
                let allowed = self.check_user_at(user, now);
                assert(opt_str_view(user_id)->0 == user@);
                assert(v_ip.per_user_rps is Some ==> self@.users == touched(
                    v_ip.users,
                    v_ip.max_user_limiters,
                    opt_str_view(user_id)->0,
                    now,
                ));
                user_result = Some((user, allowed));
            }
        }
        let user_ok = match user_result {
            Some((_, a)) => a,
            None => true,
        };
        let ghost a_user = self.answers();
        let bucket_ok = if global_ok && ip_ok && user_ok {
            self.check_bucket(bucket_name)
        } else {
            true
        };
        let r = first_refusal(global_ok, ip_result, user_result, bucket_name, bucket_ok);
        r
    }

    /// Number of per-IP limiters kept.
    pub fn tracked_ip_count(&self) -> (r: usize)
        ensures
            r == self@.ips.len(),
            r <= self@.max_ip_limiters,
    {
        proof {
            use_type_invariant(self);
        }
        self.ips.len()
    }

    /// Number of bucket limiters.
    pub fn tracked_bucket_count(&self) -> (r: usize)
        ensures
            r == self@.buckets.len(),
    {
        proof {
            self.buckets.lemma_quota_labels(Seq::empty());
        }
        self.buckets.len()
    }

    /// Number of per-user limiters kept.
    pub fn tracked_user_count(&self) -> (r: usize)
        ensures
            r == self@.users.len(),
            r <= self@.max_user_limiters,
    {
        proof {
            use_type_invariant(self);
        }
        self.users.len()
    }

    /// Evicts the per-IP limiters idle for `ttl_nanos` or more at `now`;
    /// returns how many went.
    pub fn cleanup_stale_ips_at(&mut self, now: u128, ttl_nanos: u128) -> (evicted: usize)
        ensures
            final(self)@ == (RateLimitView { ips: fresh_entries(old(self)@.ips, now, ttl_nanos), ..old(self)@ }),
            evicted == old(self)@.ips.len() - final(self)@.ips.len(),
    {
        proof {
            use_type_invariant(&*self);
        }
        match self.per_ip_rps {
            Some(rps) => {
                let mut table = TrackedTable::new();
                std::mem::swap(&mut table, &mut self.ips);
                let ghost before = table@;
                let evicted = table.evict_idle(now, ttl_nanos, Ghost(per_second_quota(rps)));
                proof {
                    before.lemma_filter_len(|e: (Seq<char>, u128)| is_fresh(e.1, now, ttl_nanos));
                }
                self.ips = table;
                evicted
            },
            None => {
                assert(fresh_entries(self.ips@, now, ttl_nanos) =~= self.ips@) by {
                    reveal(Seq::filter);
                }
                0
            },
        }
    }

    /// Evicts the per-IP limiters unused for `ttl` or longer; returns how
    /// many went.
    pub fn cleanup_stale_ips(&mut self, ttl: Duration) -> (evicted: usize)
        ensures
            exists|now: u128|
                final(self)@ == (RateLimitView {
                    ips: #[trigger] fresh_entries(old(self)@.ips, now, duration_nanos_spec(ttl)),
                    ..old(self)@
                }),
            evicted == old(self)@.ips.len() - final(self)@.ips.len(),
    {
        let now = self.now_nanos();
        let ttl_nanos = duration_nanos(&ttl);
        let evicted = self.cleanup_stale_ips_at(now, ttl_nanos);
        assert(final(self)@.ips == fresh_entries(old(self)@.ips, now, duration_nanos_spec(ttl)));
        evicted
    }

    /// Evicts the per-user limiters idle for `ttl_nanos` or more at
    /// `now`; returns how many went.
    pub fn cleanup_stale_users_at(&mut self, now: u128, ttl_nanos: u128) -> (evicted: usize)
        ensures
            final(self)@ == (RateLimitView {
                users: fresh_entries(old(self)@.users, now, ttl_nanos),
                ..old(self)@
            }),
            evicted == old(self)@.users.len() - final(self)@.users.len(),
    {
        proof {
            use_type_invariant(&*self);
        }
        match self.per_user_rps {
            Some(rps) => {
                let mut table = TrackedTable::new();
                std::mem::swap(&mut table, &mut self.users);
                let ghost before = table@;
                let evicted = table.evict_idle(now, ttl_nanos, Ghost(per_second_quota(rps)));
                proof {
                    before.lemma_filter_len(|e: (Seq<char>, u128)| is_fresh(e.1, now, ttl_nanos));
                }
                self.users = table;
                evicted
            },
            None => {
                assert(fresh_entries(self.users@, now, ttl_nanos) =~= self.users@) by {
                    reveal(Seq::filter);
                }
                0
            },
        }
    }

    /// Evicts the per-user limiters unused for `ttl` or longer; returns
    /// how many went.
    pub fn cleanup_stale_users(&mut self, ttl: Duration) -> (evicted: usize)
        ensures
            exists|now: u128|
                final(self)@ == (RateLimitView {
                    users: #[trigger] fresh_entries(old(self)@.users, now, duration_nanos_spec(ttl)),
                    ..old(self)@
                }),
            evicted == old(self)@.users.len() - final(self)@.users.len(),
    {
        let now = self.now_nanos();
        let ttl_nanos = duration_nanos(&ttl);
        let evicted = self.cleanup_stale_users_at(now, ttl_nanos);
        assert(final(self)@.users == fresh_entries(old(self)@.users, now, duration_nanos_spec(ttl)));
        evicted
    }

    /// One run of the periodic cleanup at `now`: the per-IP and per-user
    /// limiters idle for the idle time or more are evicted; where some
    /// went and more than the maximum remain, all of that kind go.
    /// Returns how many per-IP and per-user limiters went idle.
    pub fn cleanup_cycle_at(&mut self, now: u128) -> (r: (usize, usize))
        ensures
            final(self)@ == (RateLimitView {
                ips: after_cleanup_cycle(
                    old(self)@.ips,
                    now,
                    duration_nanos_spec(old(self)@.idle_ttl),
                    old(self)@.max_ip_limiters,
                ),
                users: after_cleanup_cycle(
                    old(self)@.users,
                    now,
                    duration_nanos_spec(old(self)@.idle_ttl),
                    old(self)@.max_user_limiters,
                ),
                ..old(self)@
            }),
            r.0 == old(self)@.ips.len() - fresh_entries(
                old(self)@.ips,
                now,
                duration_nanos_spec(old(self)@.idle_ttl),
            ).len(),
            r.1 == old(self)@.users.len() - fresh_entries(
                old(self)@.users,
                now,
                duration_nanos_spec(old(self)@.idle_ttl),
            ).len(),
    {
        proof {
            use_type_invariant(&*self);
        }
        let ttl = duration_nanos(&self.idle_ttl);
        let ip_evicted = self.cleanup_stale_ips_at(now, ttl);
        if ip_evicted > 0 && self.tracked_ip_count() > self.max_ip_limiters {
            let mut table = TrackedTable::new();
            std::mem::swap(&mut table, &mut self.ips);
        }
        let user_evicted = self.cleanup_stale_users_at(now, ttl);
        if user_evicted > 0 && self.tracked_user_count() > self.max_user_limiters {
            let mut table = TrackedTable::new();
            std::mem::swap(&mut table, &mut self.users);
        }
        (ip_evicted, user_evicted)
    }

    /// One run of the periodic cleanup, now (see `cleanup_cycle_at`).
    pub fn run_cleanup_cycle(&mut self) -> (r: (usize, usize))
        ensures
            exists|now: u128|
                final(self)@ == (RateLimitView {
                    ips: #[trigger] after_cleanup_cycle(
                        old(self)@.ips,
                        now,
                        duration_nanos_spec(old(self)@.idle_ttl),
                        old(self)@.max_ip_limiters,
                    ),
                    users: after_cleanup_cycle(
                        old(self)@.users,
                        now,
                        duration_nanos_spec(old(self)@.idle_ttl),
                        old(self)@.max_user_limiters,
                    ),
                    ..old(self)@
                }),
    {
        let now = self.now_nanos();
        let r = self.cleanup_cycle_at(now);
        assert(final(self)@.ips == after_cleanup_cycle(
            old(self)@.ips,
            now,
            duration_nanos_spec(old(self)@.idle_ttl),
            old(self)@.max_ip_limiters,
        ));
        r
    }

    /// The idle time after which per-IP and per-user limiters are evicted.
    pub fn idle_ttl(&self) -> (r: Duration)
        ensures
            r == self@.idle_ttl,
    {
        self.idle_ttl
    }
}

/// A use of one key leaves the entry of every other key as it was, while
/// the entries are below their cap: one client's traffic does not touch
/// another client's limiter.
pub proof fn law_touch_keeps_other_keys(
    s: Seq<(Seq<char>, u128)>,
    max: nat,
    key: Seq<char>,
    other: Seq<char>,
    now: u128,
)
    requires
        labels_unique(s),
        s.len() < max,
        other != key,
    ensures
        crate::labels::label_value(touched(s, max, key, now), other) == crate::labels::label_value(s, other),
{
    lemma_label_insert(s, key, now, other);
}

/// A use of a key records it at `now`, and never lets the entries exceed
/// their cap.
pub proof fn law_touch_bounded(s: Seq<(Seq<char>, u128)>, max: nat, key: Seq<char>, now: u128)
    requires
        labels_unique(s),
        0 < max,
        s.len() <= max,
    ensures
        touched(s, max, key, now).len() <= max,
        crate::labels::label_value(touched(s, max, key, now), key) == Some(now),
{
    let base = if s.len() >= max {
        Seq::<(Seq<char>, u128)>::empty()
    } else {
        s
    };
    assert(labels_unique(base));
    lemma_label_index(base, key);
    lemma_label_insert(base, key, now, key);
}

/// The cleanup keeps exactly the entries used less than `ttl` ago: one
/// used recently stays, one idle for `ttl` or more goes.
pub proof fn law_cleanup_keeps_recent(s: Seq<(Seq<char>, u128)>, now: u128, ttl: u128, i: int)
    requires
        0 <= i < s.len(),
    ensures
        fresh_entries(s, now, ttl).contains(s[i]) <==> is_fresh(s[i].1, now, ttl),
{
    let p = |e: (Seq<char>, u128)| is_fresh(e.1, now, ttl);
    if p(s[i]) {
        s.lemma_filter_contains(p, i);
    }
    if fresh_entries(s, now, ttl).contains(s[i]) {
        let j = choose|j: int| 0 <= j < s.filter(p).len() && s.filter(p)[j] == s[i];
        s.lemma_filter_pred(p, j);
    }
}

/// A manager with no limit that applies to a request refuses none: no
/// global limit, no per-IP limit or no address, no per-user limit or no
/// user, no limiter for the bucket.
pub proof fn law_unlimited_request_allowed(
    before: RateLimitView,
    after: RateLimitView,
    bucket_name: Seq<char>,
    client_ip: Option<Seq<char>>,
    user_id: Option<Seq<char>>,
    r: Result<(), RateLimitError>,
)
    requires
        checked_all(before, after, bucket_name, client_ip, user_id, r),
        before.global is None,
        client_ip is None || before.per_ip_rps is None,
        user_id is None || before.per_user_rps is None,
        label_index(before.buckets, bucket_name) is None,
    ensures
        r is Ok,
{
}

/// A request is allowed exactly when every check it went through said
/// yes: the global one, the per-IP one (with an address), the per-user
/// one (with a user) and the bucket's.
pub proof fn law_allowed_iff_all_admit(
    r: Result<(), RateLimitError>,
    global_ok: bool,
    ip: Option<(Seq<char>, bool)>,
    user: Option<(Seq<char>, bool)>,
    bucket_name: Seq<char>,
    bucket_ok: bool,
)
    requires
        decided_by(r, global_ok, ip, user, bucket_name, bucket_ok),
    ensures
        r is Ok <==> (global_ok && (ip is None || ip.unwrap().1) && (user is None || user.unwrap().1)
            && bucket_ok),
{
}

} // verus!
