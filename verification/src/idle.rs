//! The idle tab cache: a short-lived holding area for tabs that were just
//! released. A new request takes the most recently released tab; a tab that
//! nobody took within the grace period leaves the cache to be closed.
//!
//! The cache keeps no clock. Whoever drives it says what time it is, in
//! milliseconds on a clock that never runs backwards.

use vstd::prelude::*;

verus! {

/// One cached tab: its id, the tab, and the time at which it was offered.
#[derive(Debug)]
pub struct IdleTab<T> {
    pub id: u128,
    pub tab: T,
    pub enqueued_at: u64,
}

/// The cache as a sequence of entries, oldest first, and its grace period.
pub struct IdleModel<T> {
    pub entries: Seq<IdleTab<T>>,
    pub grace: u64,
}

/// Some entry carries this id.
pub open spec fn holds<T>(entries: Seq<IdleTab<T>>, id: u128) -> bool {
    exists|i: int| 0 <= i < entries.len() && (#[trigger] entries[i]).id == id
}

/// No id occurs twice.
pub open spec fn distinct_ids<T>(entries: Seq<IdleTab<T>>) -> bool {
    forall|i: int, j: int|
        0 <= i < j < entries.len() ==> (#[trigger] entries[i]).id != (#[trigger] entries[j]).id
}

/// The position of the entry that carries this id, where there is one.
pub open spec fn index_of<T>(entries: Seq<IdleTab<T>>, id: u128) -> int {
    choose|i: int| 0 <= i < entries.len() && (#[trigger] entries[i]).id == id
}

/// The grace period of an entry has run out at time `now`.
pub open spec fn due<T>(entry: IdleTab<T>, now: u64, grace: u64) -> bool {
    now >= entry.enqueued_at && now - entry.enqueued_at >= grace
}

impl<T> IdleModel<T> {
    /// An id appears in the cache at most once.
    pub open spec fn wf(self) -> bool {
        distinct_ids(self.entries)
    }

    /// An empty cache.
    pub open spec fn empty(grace: u64) -> IdleModel<T> {
        IdleModel { entries: Seq::empty(), grace }
    }

    /// The number of cached tabs.
    pub open spec fn len(self) -> nat {
        self.entries.len()
    }

    /// An offer of this id is taken in: the cache holds no entry with it.
    pub open spec fn accepts(self, id: u128) -> bool {
        !holds(self.entries, id)
    }

    /// The cache after the offer of a tab: the new entry comes last, or the
    /// cache stays as it is where it already holds the id.
    pub open spec fn offer(self, id: u128, tab: T, now: u64) -> IdleModel<T> {
        if self.accepts(id) {
            IdleModel { entries: self.entries.push(IdleTab { id, tab, enqueued_at: now }), ..self }
        } else {
            self
        }
    }

    /// The entry that a reclaim hands out: the one offered last.
    pub open spec fn top(self) -> Option<IdleTab<T>> {
        if self.entries.len() > 0 {
            Some(self.entries.last())
        } else {
            None
        }
    }

    /// The cache after a reclaim.
    pub open spec fn reclaim(self) -> IdleModel<T> {
        if self.entries.len() > 0 {
            IdleModel { entries: self.entries.drop_last(), ..self }
        } else {
            self
        }
    }

    /// The expiry timer of `id`, firing at time `now`, removes an entry: the
    /// cache holds the id and that entry's grace period has run out.
    pub open spec fn expires(self, id: u128, now: u64) -> bool {
        holds(self.entries, id) && due(self.entries[index_of(self.entries, id)], now, self.grace)
    }

    /// The cache after the expiry timer of `id` fired at time `now`.
    pub open spec fn expire(self, id: u128, now: u64) -> IdleModel<T> {
        if self.expires(id, now) {
            IdleModel { entries: self.entries.remove(index_of(self.entries, id)), ..self }
        } else {
            self
        }
    }

    /// The cache after it was cleared.
    pub open spec fn clear(self) -> IdleModel<T> {
        IdleModel { entries: Seq::empty(), ..self }
    }
}

/// In a sequence without repeated ids, the entry with a given id stands at one
/// position only.
pub proof fn lemma_index_of_unique<T>(entries: Seq<IdleTab<T>>, at: int)
    requires
        distinct_ids(entries),
        0 <= at < entries.len(),
    ensures
        holds(entries, entries[at].id),
        index_of(entries, entries[at].id) == at,
{
    let id = entries[at].id;
    let found = index_of(entries, id);
    assert(0 <= found < entries.len() && entries[found].id == id);
    if found < at {
        assert(entries[found].id != entries[at].id);
    } else if at < found {
        assert(entries[at].id != entries[found].id);
    }
}

/// Removing an entry keeps the ids distinct and takes its id out.
pub proof fn lemma_remove_keeps_distinct<T>(entries: Seq<IdleTab<T>>, at: int)
    requires
        distinct_ids(entries),
        0 <= at < entries.len(),
    ensures
        distinct_ids(entries.remove(at)),
        !holds(entries.remove(at), entries[at].id),
        forall|id: u128| id != entries[at].id ==> (holds(entries.remove(at), id) <==> holds(entries, id)),
{
    let rest = entries.remove(at);
    assert forall|i: int, j: int| 0 <= i < j < rest.len() implies (#[trigger] rest[i]).id != (
    #[trigger] rest[j]).id by {
        let oi = if i < at { i } else { i + 1 };
        let oj = if j < at { j } else { j + 1 };
        assert(rest[i] == entries[oi]);
        assert(rest[j] == entries[oj]);
        assert(entries[oi].id != entries[oj].id);
    }
    if holds(rest, entries[at].id) {
        let k = choose|k: int| 0 <= k < rest.len() && (#[trigger] rest[k]).id == entries[at].id;
        let ok = if k < at { k } else { k + 1 };
        assert(rest[k] == entries[ok]);
        if ok < at {
            assert(entries[ok].id != entries[at].id);
        } else {
            assert(entries[at].id != entries[ok].id);
        }
    }
    assert forall|id: u128| id != entries[at].id implies (holds(rest, id) <==> holds(
        entries,
        id,
    )) by {
        if holds(rest, id) {
            let k = choose|k: int| 0 <= k < rest.len() && (#[trigger] rest[k]).id == id;
            let ok = if k < at { k } else { k + 1 };
            assert(rest[k] == entries[ok]);
            assert(entries[ok].id == id);
        }
        if holds(entries, id) {
            let k = choose|k: int| 0 <= k < entries.len() && (#[trigger] entries[k]).id == id;
            assert(k != at);
            let nk = if k < at { k } else { k - 1 };
            assert(rest[nk] == entries[k]);
            assert(rest[nk].id == id);
        }
    }
}

/// An entry that is offered and reclaimed leaves nothing behind for its
/// expiry timer: whenever the timer fires after the reclaim, it finds no entry,
/// removes nothing and hands out no tab to close, so the tab went to the
/// reclaimer alone.
pub proof fn lemma_reclaim_then_expire<T>(cache: IdleModel<T>, id: u128, tab: T, at: u64, now: u64)
    requires
        cache.wf(),
        cache.accepts(id),
    ensures
        cache.offer(id, tab, at).top() == Some(IdleTab { id, tab, enqueued_at: at }),
        cache.offer(id, tab, at).reclaim() == cache,
        !cache.offer(id, tab, at).reclaim().expires(id, now),
        cache.offer(id, tab, at).reclaim().expire(id, now) == cache,
{
    let offered = cache.offer(id, tab, at);
    assert(offered.reclaim().entries =~= cache.entries);
}

/// An entry whose expiry timer removed it cannot be reclaimed afterwards: the
/// cache is as it was before the offer, so a reclaim hands out what it would
/// have handed out then, and a second firing of the timer does nothing. The
/// tab went to the timer alone.
pub proof fn lemma_expire_then_reclaim<T>(cache: IdleModel<T>, id: u128, tab: T, at: u64, now: u64)
    requires
        cache.wf(),
        cache.accepts(id),
        due(IdleTab { id, tab, enqueued_at: at }, now, cache.grace),
    ensures
        cache.offer(id, tab, at).expires(id, now),
        cache.offer(id, tab, at).expire(id, now) == cache,
        cache.offer(id, tab, at).expire(id, now).top() == cache.top(),
        cache.top() matches Some(other) ==> other.id != id,
        forall|later: u64| !cache.offer(id, tab, at).expire(id, now).expires(id, later),
{
    let offered = cache.offer(id, tab, at);
    let last = cache.entries.len() as int;
    assert(offered.entries[last] == IdleTab { id, tab, enqueued_at: at });
    assert forall|i: int, j: int| 0 <= i < j < offered.entries.len() implies (
    #[trigger] offered.entries[i]).id != (#[trigger] offered.entries[j]).id by {
        if j < last {
            assert(offered.entries[i] == cache.entries[i]);
            assert(offered.entries[j] == cache.entries[j]);
        } else {
            assert(offered.entries[i] == cache.entries[i]);
        }
    }
    lemma_index_of_unique(offered.entries, last);
    assert(offered.entries.remove(last) =~= cache.entries);
    if cache.entries.len() > 0 {
        assert(cache.entries.last() == cache.entries[last - 1]);
    }
}

/// A cached tab whose grace period has run out leaves the cache when its
/// timer fires, wherever it stands: the cache is one entry shorter, the other
/// entries keep their order, and the id is gone.
pub proof fn lemma_expire_removes<T>(cache: IdleModel<T>, position: int, now: u64)
    requires
        cache.wf(),
        0 <= position < cache.entries.len(),
        due(cache.entries[position], now, cache.grace),
    ensures
        cache.expires(cache.entries[position].id, now),
        cache.expire(cache.entries[position].id, now).entries == cache.entries.remove(position),
        cache.expire(cache.entries[position].id, now).len() == cache.len() - 1,
        cache.expire(cache.entries[position].id, now).wf(),
        !holds(cache.expire(cache.entries[position].id, now).entries, cache.entries[position].id),
{
    lemma_index_of_unique(cache.entries, position);
    lemma_remove_keeps_distinct(cache.entries, position);
}

/// A cached tab whose grace period has not run out stays when a timer for its
/// id fires: the cache is unchanged.
pub proof fn lemma_early_timer_is_ignored<T>(cache: IdleModel<T>, position: int, now: u64)
    requires
        cache.wf(),
        0 <= position < cache.entries.len(),
        !due(cache.entries[position], now, cache.grace),
    ensures
        !cache.expires(cache.entries[position].id, now),
        cache.expire(cache.entries[position].id, now) == cache,
{
    lemma_index_of_unique(cache.entries, position);
}

/// Every operation keeps the ids in the cache distinct.
pub proof fn lemma_operations_keep_wf<T>(cache: IdleModel<T>, id: u128, tab: T, now: u64)
    requires
        cache.wf(),
    ensures
        cache.offer(id, tab, now).wf(),
        cache.reclaim().wf(),
        cache.expire(id, now).wf(),
        cache.clear().wf(),
{
    let offered = cache.offer(id, tab, now);
    assert forall|i: int, j: int| 0 <= i < j < offered.entries.len() implies (
    #[trigger] offered.entries[i]).id != (#[trigger] offered.entries[j]).id by {
        if cache.accepts(id) {
            if j < cache.entries.len() {
                assert(offered.entries[i] == cache.entries[i]);
                assert(offered.entries[j] == cache.entries[j]);
            } else {
                assert(offered.entries[i] == cache.entries[i]);
            }
        }
    }
    let reclaimed = cache.reclaim();
    assert forall|i: int, j: int| 0 <= i < j < reclaimed.entries.len() implies (
    #[trigger] reclaimed.entries[i]).id != (#[trigger] reclaimed.entries[j]).id by {
        assert(reclaimed.entries[i] == cache.entries[i]);
        assert(reclaimed.entries[j] == cache.entries[j]);
    }
    if cache.expires(id, now) {
        let at = index_of(cache.entries, id);
        lemma_remove_keeps_distinct(cache.entries, at);
    }
}

/// A short-lived holding area for released tabs.
#[derive(Debug)]
pub struct IdleTabCache<T> {
    entries: Vec<IdleTab<T>>,
    grace: u64,
}

impl<T> View for IdleTabCache<T> {
    type V = IdleModel<T>;

    closed spec fn view(&self) -> IdleModel<T> {
        IdleModel { entries: self.entries@, grace: self.grace }
    }
}

impl<T> IdleTabCache<T> {
    #[verifier::type_invariant]
    spec fn inv(&self) -> bool {
        distinct_ids(self.entries@)
    }

    /// An empty cache whose entries stay for `grace` milliseconds.
    pub fn new(grace: u64) -> (cache: IdleTabCache<T>)
        ensures
            cache@ == IdleModel::<T>::empty(grace),
            cache@.wf(),
    {
        IdleTabCache { entries: Vec::new(), grace }
    }

    /// The number of cached tabs.
    pub fn len(&self) -> (len: usize)
        ensures
            len == self@.len(),
            self@.wf(),
    {
        proof {
            use_type_invariant(self);
        }
        self.entries.len()
    }

    /// The grace period, in milliseconds.
    pub fn grace(&self) -> (grace: u64)
        ensures
            grace == self@.grace,
    {
        self.grace
    }

    /// Moves the entries out and leaves the cache empty.
    fn take_entries(&mut self) -> (entries: Vec<IdleTab<T>>)
        ensures
            entries@ == old(self).entries@,
            final(self).entries@ == Seq::<IdleTab<T>>::empty(),
            final(self).grace == old(self).grace,
    {
        let mut entries: Vec<IdleTab<T>> = Vec::new();
        std::mem::swap(&mut self.entries, &mut entries);
        entries
    }

    /// The position of the entry with this id, if the cache holds one.
    fn position(&self, id: u128) -> (found: Option<usize>)
        ensures
            match found {
                Some(at) => at < self.entries@.len() && self.entries@[at as int].id == id,
                None => !holds(self.entries@, id),
            },
    {
        let mut at: usize = 0;
        while at < self.entries.len()
            invariant
                at <= self.entries@.len(),
                forall|j: int| 0 <= j < at ==> (#[trigger] self.entries@[j]).id != id,
            decreases self.entries@.len() - at,
        {
            if self.entries[at].id == id {
                return Some(at);
            }
            at += 1;
        }
        None
    }

    /// Whether the cache holds an entry with this id.
    pub fn contains(&self, id: u128) -> (found: bool)
        ensures
            found == holds(self@.entries, id),
    {
        self.position(id).is_some()
    }

    /// Stores a tab for reuse, as the most recent entry, with `now` as the
    /// start of its grace period. Where the cache already holds the id, the
    /// cache stays as it is and the tab comes back to the caller.
    pub fn offer(&mut self, id: u128, tab: T, now: u64) -> (refused: Option<T>)
        ensures
            final(self)@ == old(self)@.offer(id, tab, now),
            refused == if old(self)@.accepts(id) { None } else { Some(tab) },
            holds(final(self)@.entries, id),
            final(self)@.wf(),
    {
        proof {
            use_type_invariant(&*self);
        }
        if self.position(id).is_some() {
            return Some(tab);
        }
        let mut entries = self.take_entries();
        let ghost before = entries@;
        entries.push(IdleTab { id, tab, enqueued_at: now });
        proof {
            let after = entries@;
            assert forall|i: int, j: int| 0 <= i < j < after.len() implies (#[trigger] after[i]).id
                != (#[trigger] after[j]).id by {
                if j < before.len() {
                    assert(after[i] == before[i] && after[j] == before[j]);
                } else {
                    assert(after[i] == before[i]);
                    assert(after[j].id == id);
                }
            }
            assert(after[before.len() as int].id == id);
        }
        self.entries = entries;
        None
    }

    /// Takes out the most recently offered tab, if there is one.
    pub fn reclaim(&mut self) -> (taken: Option<IdleTab<T>>)
        ensures
            taken == old(self)@.top(),
            final(self)@ == old(self)@.reclaim(),
            final(self)@.wf(),
    {
        proof {
            use_type_invariant(&*self);
        }
        let mut entries = self.take_entries();
        let ghost before = entries@;
        let taken = entries.pop();
        proof {
            let after = entries@;
            assert forall|i: int, j: int| 0 <= i < j < after.len() implies (#[trigger] after[i]).id
                != (#[trigger] after[j]).id by {
                assert(after[i] == before[i] && after[j] == before[j]);
            }
        }
        self.entries = entries;
        taken
    }

    /// The expiry timer of `id` fired at time `now`. Where the cache holds the
    /// id and that entry's grace period has run out, the entry leaves the
    /// cache and its tab is handed out to be closed. Otherwise nothing
    /// happens: the entry was reclaimed, or it is a later offer of the same
    /// tab.
    pub fn expire(&mut self, id: u128, now: u64) -> (closed: Option<T>)
        ensures
            final(self)@ == old(self)@.expire(id, now),
            closed == if old(self)@.expires(id, now) {
                Some(old(self)@.entries[index_of(old(self)@.entries, id)].tab)
            } else {
                None
            },
            final(self)@.wf(),
    {
        proof {
            use_type_invariant(&*self);
        }
        match self.position(id) {
            None => None,
            Some(at) => {
                proof {
                    lemma_index_of_unique(self.entries@, at as int);
                    lemma_remove_keeps_distinct(self.entries@, at as int);
                }
                let entered = self.entries[at].enqueued_at;
                if now >= entered && now - entered >= self.grace {
                    let mut entries = self.take_entries();
                    let entry = entries.remove(at);
                    self.entries = entries;
                    Some(entry.tab)
                } else {
                    None
                }
            },
        }
    }

    /// Empties the cache and hands out every entry, oldest first, to be
    /// closed.
    pub fn clear(&mut self) -> (cleared: Vec<IdleTab<T>>)
        ensures
            cleared@ == old(self)@.entries,
            final(self)@ == old(self)@.clear(),
            final(self)@.wf(),
    {
        self.take_entries()
    }
}

} // verus!
