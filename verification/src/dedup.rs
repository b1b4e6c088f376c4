use vstd::prelude::*;
use vstd::hash_set::StringHashSet;

verus! {

/// Keys of transfers already handed to the notifier, per chain listener.
pub const SENT_NOTIFICATIONS_LIMIT: usize = 10000;

/// Solana transaction signatures already picked up for processing.
pub const PROCESSED_TRANSACTIONS_LIMIT: usize = 10000;

/// Token accounts already checked against the watched mint.
pub const VERIFIED_ACCOUNTS_LIMIT: usize = 50000;

/// Transaction hashes already seen by the notification workers.
pub const SEEN_HASHES_LIMIT: usize = 1000;

/// A set of string keys used to drop duplicates, bounded by a limit.
///
/// When recording keys makes the set grow past its limit, the whole set is
/// cleared: memory stays bounded at the price of forgetting old keys.
pub struct DedupCache {
    seen: StringHashSet,
    limit: usize,
}

impl View for DedupCache {
    type V = Set<Seq<char>>;

    closed spec fn view(&self) -> Set<Seq<char>> {
        self.seen@
    }
}

/// What the set becomes once `grown` has been recorded: unchanged while it
/// stays within `limit`, emptied as soon as it exceeds it.
pub open spec fn bounded(grown: Set<Seq<char>>, limit: nat) -> Set<Seq<char>> {
    if grown.len() > limit {
        Set::empty()
    } else {
        grown
    }
}

/// The cache never holds more keys than its limit, and stays finite.
pub proof fn lemma_bounded_within_limit(grown: Set<Seq<char>>, limit: nat)
    requires
        grown.finite(),
    ensures
        bounded(grown, limit).finite(),
        bounded(grown, limit).len() <= limit,
{
}

/// A key just recorded is remembered, unless recording it reset the cache.
pub proof fn lemma_recorded_key_is_remembered(before: Set<Seq<char>>, key: Seq<char>, limit: nat)
    ensures
        bounded(before.insert(key), limit).contains(key) || bounded(before.insert(key), limit)
            == Set::<Seq<char>>::empty(),
{
}

/// Recording a key that the cache already holds leaves the cache as it was.
pub proof fn lemma_known_key_leaves_cache_unchanged(
    before: Set<Seq<char>>,
    key: Seq<char>,
    limit: nat,
)
    requires
        before.finite(),
        before.len() <= limit,
        before.contains(key),
    ensures
        bounded(before.insert(key), limit) == before,
{
    assert(before.insert(key) =~= before);
}

/// Whether a notification under `key` is to be delivered: exactly when the
/// key has not been recorded as delivered.
pub fn should_deliver(sent: &DedupCache, key: &str) -> (b: bool)
    ensures
        b == !sent@.contains(key@),
{
    !sent.contains(key)
}

/// Records the outcome of a delivery under `key`: the key is remembered only
/// when the delivery succeeded; a failed delivery leaves the cache as it was.
pub fn record_delivery(sent: &mut DedupCache, key: String, delivered: bool)
    ensures
        delivered ==> final(sent)@ == bounded(old(sent)@.insert(key@), old(sent).limit()),
        delivered ==> final(sent)@.contains(key@) || final(sent)@ == Set::<Seq<char>>::empty(),
        !delivered ==> final(sent)@ == old(sent)@,
        final(sent).limit() == old(sent).limit(),
        final(sent)@.len() <= final(sent).limit(),
{
    proof {
        use_type_invariant(&*sent);
    }
    if delivered {
        sent.record(key);
    }
}

/// The cache after recording `keys` one after another into a cache that
/// held `start`, each record emptying it if it grew past `limit`.
pub open spec fn recorded_all(start: Set<Seq<char>>, keys: Seq<Seq<char>>, limit: nat) -> Set<
    Seq<char>,
>
    decreases keys.len(),
{
    if keys.len() == 0 {
        start
    } else {
        bounded(recorded_all(start, keys.drop_last(), limit).insert(keys.last()), limit)
    }
}

/// While the cache is never emptied (its start and all the keys fit within
/// the limit), it holds exactly what it started with and every key recorded.
pub proof fn lemma_recorded_all_keeps_every_key(
    start: Set<Seq<char>>,
    keys: Seq<Seq<char>>,
    limit: nat,
)
    requires
        start.finite(),
        start.len() + keys.len() <= limit,
    ensures
        recorded_all(start, keys, limit).finite(),
        recorded_all(start, keys, limit).len() <= start.len() + keys.len(),
        forall|k: Seq<char>|
            #[trigger] recorded_all(start, keys, limit).contains(k) <==> start.contains(k)
                || keys.contains(k),
    decreases keys.len(),
{
    if keys.len() > 0 {
        let prev = keys.drop_last();
        lemma_recorded_all_keeps_every_key(start, prev, limit);
        let held = recorded_all(start, prev, limit);
        assert(held.insert(keys.last()).len() <= held.len() + 1);
        assert forall|k: Seq<char>| keys.contains(k) <==> prev.contains(k) || k == keys.last() by {
            if keys.contains(k) {
                let i = choose|i: int| 0 <= i < keys.len() && keys[i] == k;
                if i < keys.len() - 1 {
                    assert(prev[i] == k);
                }
            }
            if prev.contains(k) {
                let i = choose|i: int| 0 <= i < prev.len() && prev[i] == k;
                assert(keys[i] == k);
            }
            if k == keys.last() {
                assert(keys[keys.len() - 1] == k);
            }
        }
    }
}

/// Each key is taken up as new at most once: while the cache is never
/// emptied, recording a key that was already recorded earlier in the run,
/// or that the cache started with, finds it present, so the record reports
/// it as not new and nothing is done for it a second time.
pub proof fn lemma_each_key_new_at_most_once(
    start: Set<Seq<char>>,
    keys: Seq<Seq<char>>,
    limit: nat,
)
    requires
        start.finite(),
        start.len() + keys.len() <= limit,
    ensures
        forall|i: int, j: int|
            0 <= i < j < keys.len() && keys[i] == keys[j] ==> #[trigger] recorded_all(
                start,
                keys.take(j),
                limit,
            ).contains(#[trigger] keys[i]),
        forall|j: int|
            0 <= j < keys.len() && start.contains(keys[j]) ==> #[trigger] recorded_all(
                start,
                keys.take(j),
                limit,
            ).contains(keys[j]),
{
    assert forall|i: int, j: int|
        0 <= i < j < keys.len() && keys[i] == keys[j] implies #[trigger] recorded_all(
            start,
            keys.take(j),
            limit,
        ).contains(#[trigger] keys[i]) by {
        lemma_recorded_all_keeps_every_key(start, keys.take(j), limit);
        assert(keys.take(j)[i] == keys[i]);
    }
    assert forall|j: int| 0 <= j < keys.len() && start.contains(keys[j]) implies #[trigger] recorded_all(
        start,
        keys.take(j),
        limit,
    ).contains(keys[j]) by {
        lemma_recorded_all_keeps_every_key(start, keys.take(j), limit);
    }
}

impl DedupCache {
    /// The most keys the cache holds.
    pub closed spec fn limit(&self) -> nat {
        self.limit as nat
    }

    #[verifier::type_invariant]
    spec fn within_limit(self) -> bool {
        &&& self.seen@.finite()
        &&& self.seen@.len() <= self.limit
    }

    /// An empty cache that holds at most `limit` keys.
    pub fn new(limit: usize) -> (c: Self)
        ensures
            c@ == Set::<Seq<char>>::empty(),
            c.limit() == limit,
    {
        DedupCache { seen: StringHashSet::new(), limit }
    }

    /// Whether `key` has been recorded since the last reset.
    pub fn contains(&self, key: &str) -> (b: bool)
        ensures
            b == self@.contains(key@),
    {
        self.seen.contains(key)
    }

    /// The number of keys held; never more than the limit.
    pub fn len(&self) -> (n: usize)
        ensures
            n == self@.len(),
            n <= self.limit(),
            self@.finite(),
    {
        proof {
            use_type_invariant(self);
        }
        self.seen.len()
    }

    /// Record `key`; returns whether it was new. The cache is emptied when it
    /// grows past its limit.
    pub fn record(&mut self, key: String) -> (fresh: bool)
        ensures
            fresh == !old(self)@.contains(key@),
            final(self)@ == bounded(old(self)@.insert(key@), old(self).limit()),
            final(self).limit() == old(self).limit(),
            final(self)@.len() <= final(self).limit(),
    {
        proof {
            use_type_invariant(&*self);
        }
        let mut seen = StringHashSet::new();
        std::mem::swap(&mut seen, &mut self.seen);
        let fresh = seen.insert(key);
        if seen.len() > self.limit {
            seen.clear();
        }
        self.seen = seen;
        fresh
    }

    /// Record two keys, then empty the cache if it grew past its limit.
    pub fn record_pair(&mut self, first: String, second: String)
        ensures
            final(self)@ == bounded(
                old(self)@.insert(first@).insert(second@),
                old(self).limit(),
            ),
            final(self).limit() == old(self).limit(),
            final(self)@.len() <= final(self).limit(),
    {
        proof {
            use_type_invariant(&*self);
        }
        let mut seen = StringHashSet::new();
        std::mem::swap(&mut seen, &mut self.seen);
        seen.insert(first);
        seen.insert(second);
        if seen.len() > self.limit {
            seen.clear();
        }
        self.seen = seen;
    }
}

} // verus!
