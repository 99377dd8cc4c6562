use vstd::prelude::*;
use crate::common::str_eq;
use crate::value::Error;

verus! {

/// One registry entry: a connection identifier bound to the handle of its
/// pooled connection, and whether that pool is still open.  The handle is
/// the caller's name for the pool itself, which lives outside the registry.
pub struct Entry {
    pub id: String,
    pub handle: u64,
    pub live: bool,
}

/// Identifiers are pairwise distinct: at most one pooled connection is ever
/// keyed by one identifier.
pub open spec fn distinct_ids(s: Seq<Entry>) -> bool {
    forall|i: int, j: int|
        0 <= i < j < s.len() ==> (#[trigger] s[i]).id@ != (#[trigger] s[j]).id@
}

/// Whether some entry is keyed by `id`.
pub open spec fn has_id(s: Seq<Entry>, id: Seq<char>) -> bool {
    exists|i: int| 0 <= i < s.len() && (#[trigger] s[i]).id@ == id
}

/// The index of the entry keyed by `id`; meaningful when `has_id` holds.
pub open spec fn idx_of(s: Seq<Entry>, id: Seq<char>) -> int {
    choose|i: int| 0 <= i < s.len() && (#[trigger] s[i]).id@ == id
}

/// The entry keyed by `id`; meaningful when `has_id` holds.
pub open spec fn entry_of(s: Seq<Entry>, id: Seq<char>) -> Entry {
    s[idx_of(s, id)]
}

/// With distinct identifiers, the entry keyed by `id` sits at a unique
/// index.
pub proof fn lemma_idx_unique(s: Seq<Entry>, id: Seq<char>)
    requires
        distinct_ids(s),
        has_id(s, id),
    ensures
        0 <= idx_of(s, id) < s.len(),
        s[idx_of(s, id)].id@ == id,
        forall|j: int| 0 <= j < s.len() && (#[trigger] s[j]).id@ == id ==> j == idx_of(s, id),
{
    let w = idx_of(s, id);
    assert(0 <= w < s.len() && s[w].id@ == id);
    assert forall|j: int| 0 <= j < s.len() && (#[trigger] s[j]).id@ == id implies j == w by {
        if j < w {
            assert(s[j].id@ != s[w].id@);
        } else if w < j {
            assert(s[w].id@ != s[j].id@);
        }
    }
}

/// Overwriting the entry at an index with one carrying the same identifier
/// keeps the identifiers distinct and leaves every other key's entry alone.
pub proof fn lemma_update_same_id(s: Seq<Entry>, i: int, e: Entry)
    requires
        distinct_ids(s),
        0 <= i < s.len(),
        e.id@ == s[i].id@,
    ensures
        distinct_ids(s.update(i, e)),
        forall|o: Seq<char>| #[trigger] has_id(s.update(i, e), o) == has_id(s, o),
        has_id(s, e.id@) ==> entry_of(s.update(i, e), e.id@) == e,
        forall|o: Seq<char>|
            o != e.id@ && has_id(s, o) ==> #[trigger] entry_of(s.update(i, e), o) == entry_of(
                s,
                o,
            ),
{
    let t = s.update(i, e);
    assert(forall|p: int| 0 <= p < t.len() ==> (#[trigger] t[p]).id@ == s[p].id@);
    assert forall|o: Seq<char>| #[trigger] has_id(t, o) == has_id(s, o) by {
        if has_id(t, o) {
            let w = choose|w: int| 0 <= w < t.len() && (#[trigger] t[w]).id@ == o;
            assert(s[w].id@ == o);
        }
        if has_id(s, o) {
            let w = choose|w: int| 0 <= w < s.len() && (#[trigger] s[w]).id@ == o;
            assert(t[w].id@ == o);
        }
    }
    if has_id(s, e.id@) {
        lemma_idx_unique(s, e.id@);
        assert(distinct_ids(t));
        lemma_idx_unique(t, e.id@);
        assert(t[i].id@ == e.id@);
        assert(idx_of(t, e.id@) == i);
    }
    assert forall|o: Seq<char>| o != e.id@ && has_id(s, o) implies #[trigger] entry_of(t, o)
        == entry_of(s, o) by {
        lemma_idx_unique(s, o);
        assert(distinct_ids(t));
        lemma_idx_unique(t, o);
        let w = idx_of(s, o);
        assert(t[w].id@ == o);
        assert(idx_of(t, o) == w);
        assert(w != i);
    }
}

/// Appending an entry under a fresh identifier keeps the identifiers
/// distinct, keys the new identifier to the new entry, and leaves every
/// other key's entry alone.
pub proof fn lemma_push_fresh_id(s: Seq<Entry>, e: Entry)
    requires
        distinct_ids(s),
        !has_id(s, e.id@),
    ensures
        distinct_ids(s.push(e)),
        has_id(s.push(e), e.id@),
        entry_of(s.push(e), e.id@) == e,
        forall|o: Seq<char>|
            o != e.id@ ==> #[trigger] has_id(s.push(e), o) == has_id(s, o),
        forall|o: Seq<char>|
            o != e.id@ && has_id(s, o) ==> #[trigger] entry_of(s.push(e), o) == entry_of(s, o),
{
    let t = s.push(e);
    assert(t[s.len() as int] == e);
    assert forall|p: int, q: int| 0 <= p < q < t.len() implies (#[trigger] t[p]).id@ != (
    #[trigger] t[q]).id@ by {
        if q < s.len() {
            assert(s[p].id@ != s[q].id@);
        } else {
            assert(t[q] == e);
            assert(t[p] == s[p]);
            if t[p].id@ == e.id@ {
                assert(has_id(s, e.id@));
            }
        }
    }
    assert(has_id(t, e.id@));
    lemma_idx_unique(t, e.id@);
    assert(idx_of(t, e.id@) == s.len() as int);
    assert forall|o: Seq<char>| o != e.id@ implies #[trigger] has_id(t, o) == has_id(s, o) by {
        if has_id(t, o) {
            let w = choose|w: int| 0 <= w < t.len() && (#[trigger] t[w]).id@ == o;
            assert(w < s.len());
            assert(s[w].id@ == o);
        }
        if has_id(s, o) {
            let w = choose|w: int| 0 <= w < s.len() && (#[trigger] s[w]).id@ == o;
            assert(t[w].id@ == o);
        }
    }
    assert forall|o: Seq<char>| o != e.id@ && has_id(s, o) implies #[trigger] entry_of(t, o)
        == entry_of(s, o) by {
        lemma_idx_unique(s, o);
        lemma_idx_unique(t, o);
        let w = idx_of(s, o);
        assert(t[w].id@ == o);
        assert(idx_of(t, o) == w);
    }
}

/// The identifier-keyed connection registry of one database domain: a store
/// of identifier → pooled-connection handle, with insert-on-load,
/// lookup-on-use and close-on-teardown.  The caller is expected to guard a
/// registry with one mutual-exclusion lock and hold that lock for the whole
/// of a command's interaction with it.
pub struct DbInstances {
    entries: Vec<Entry>,
}

impl View for DbInstances {
    type V = Seq<Entry>;

    closed spec fn view(&self) -> Seq<Entry> {
        self.entries@
    }
}

impl DbInstances {
    /// The registry invariant: at most one entry per identifier.
    pub open spec fn wf(&self) -> bool {
        distinct_ids(self@)
    }

    /// Whether `id` is keyed to an entry (live or closed).
    pub open spec fn contains_id(&self, id: Seq<char>) -> bool {
        has_id(self@, id)
    }

    /// The entry keyed by `id`; meaningful when `contains_id` holds.
    pub open spec fn entry_for(&self, id: Seq<char>) -> Entry {
        entry_of(self@, id)
    }

    /// An empty registry.
    pub fn new() -> (r: DbInstances)
        ensures
            r.wf(),
            r@.len() == 0,
    {
        DbInstances { entries: Vec::new() }
    }

    /// The index of the entry keyed by `id`, if any.
    fn find(&self, id: &str) -> (r: Option<usize>)
        requires
            self.wf(),
        ensures
            r matches Some(i) ==> self.contains_id(id@) && i < self@.len() && self@[
                i as int
            ].id@ == id@ && idx_of(self@, id@) == i as int,
            r is None ==> !self.contains_id(id@),
    {
        let n = self.entries.len();
        let mut i: usize = 0;
        while i < n
            invariant
                n == self@.len(),
                i <= n,
                self.wf(),
                forall|j: int| 0 <= j < i ==> (#[trigger] self@[j]).id@ != id@,
            decreases n - i,
        {
            if str_eq(self.entries[i].id.as_str(), id) {
                proof {
                    assert(self@[i as int].id@ == id@);
                    assert(self.contains_id(id@));
                    lemma_idx_unique(self@, id@);
                }
                return Some(i);
            }
            i += 1;
        }
        None
    }

    /// Whether the pool keyed by `id` is still open; `None` when the
    /// identifier is not keyed at all.
    pub fn is_live(&self, id: &str) -> (r: Option<bool>)
        requires
            self.wf(),
        ensures
            self.contains_id(id@) ==> r == Some(self.entry_for(id@).live),
            !self.contains_id(id@) ==> r is None,
    {
        match self.find(id) {
            Some(i) => Some(self.entries[i].live),
            None => None,
        }
    }

    /// Keys `id` to a fresh live entry for `handle`, replacing any earlier
    /// entry for the same identifier, so that the registry never holds two
    /// connections for one identifier.  Every other identifier keeps its
    /// entry untouched.
    pub fn load(&mut self, id: String, handle: u64)
        requires
            old(self).wf(),
        ensures
            final(self).wf(),
            final(self).contains_id(id@),
            final(self).entry_for(id@) == (Entry { id, handle, live: true }),
            forall|o: Seq<char>|
                o != id@ ==> #[trigger] final(self).contains_id(o) == old(self).contains_id(o),
            forall|o: Seq<char>|
                o != id@ && old(self).contains_id(o) ==> #[trigger] final(self).entry_for(o)
                    == old(self).entry_for(o),
    {
        let e = Entry { id, handle, live: true };
        match self.find(e.id.as_str()) {
            Some(i) => {
                proof {
                    lemma_update_same_id(self@, i as int, e);
                }
                self.entries[i] = e;
            },
            None => {
                proof {
                    lemma_push_fresh_id(self@, e);
                }
                self.entries.push(e);
            },
        }
    }

    /// Looks up the pooled-connection handle for `id`, failing with
    /// `DatabaseNotLoaded` when no entry is keyed by it.  The lookup does
    /// not ask whether the pool is still open: a closed pool stays keyed,
    /// and use of its handle fails inside the pool layer, not here.
    pub fn resolve(&self, id: &str) -> (r: Result<u64, Error>)
        requires
            self.wf(),
        ensures
            self.contains_id(id@) ==> r == Ok::<u64, Error>(self.entry_for(id@).handle),
            !self.contains_id(id@) ==> (r matches Err(e) && e matches Error::DatabaseNotLoaded(n)
                && n@ == id@),
    {
        match self.find(id) {
            Some(i) => Ok(self.entries[i].handle),
            None => Err(Error::DatabaseNotLoaded(id.to_owned())),
        }
    }

    /// Marks the entry keyed by `id` as closed and hands back its handle so
    /// the caller can tear the pool down, failing with `DatabaseNotLoaded`
    /// when no entry is keyed by it.  The entry itself stays in the
    /// registry: a later lookup still resolves, and failure then surfaces
    /// from the closed pool.
    pub fn close(&mut self, id: &str) -> (r: Result<u64, Error>)
        requires
            old(self).wf(),
        ensures
            final(self).wf(),
            old(self).contains_id(id@) ==> r == Ok::<u64, Error>(old(self).entry_for(id@).handle),
            old(self).contains_id(id@) ==> final(self).contains_id(id@),
            old(self).contains_id(id@) ==> final(self).entry_for(id@).id@ == id@,
            old(self).contains_id(id@) ==> final(self).entry_for(id@).handle
                == old(self).entry_for(id@).handle,
            old(self).contains_id(id@) ==> !final(self).entry_for(id@).live,
            old(self).contains_id(id@) ==> (forall|o: Seq<char>|
                o != id@ ==> #[trigger] final(self).contains_id(o) == old(self).contains_id(o)),
            old(self).contains_id(id@) ==> (forall|o: Seq<char>|
                o != id@ && old(self).contains_id(o) ==> #[trigger] final(self).entry_for(o)
                    == old(self).entry_for(o)),
            !old(self).contains_id(id@) ==> (r matches Err(e) && e matches Error::DatabaseNotLoaded(n)
                && n@ == id@ && final(self)@ == old(self)@),
    {
        match self.find(id) {
            Some(i) => {
                let h = self.entries[i].handle;
                proof {
                    lemma_idx_unique(self@, id@);
                }
                let entry = &mut self.entries[i];
                entry.live = false;
                proof {
                    lemma_update_same_id(old(self)@, i as int, self@[i as int]);
                }
                Ok(h)
            },
            None => Err(Error::DatabaseNotLoaded(id.to_owned())),
        }
    }

    /// Closes every registered connection: every entry is marked closed,
    /// and the handles come back in registry order so the caller can tear
    /// each pool down.  No entry is removed.
    pub fn close_all(&mut self) -> (r: Vec<u64>)
        requires
            old(self).wf(),
        ensures
            final(self).wf(),
            final(self)@.len() == old(self)@.len(),
            r@.len() == old(self)@.len(),
            forall|i: int| 0 <= i < old(self)@.len() ==> r@[i] == (#[trigger] old(self)@[i]).handle,
            forall|i: int|
                0 <= i < old(self)@.len() ==> (#[trigger] final(self)@[i]).id@ == old(self)@[i].id@
                    && final(self)@[i].handle == old(self)@[i].handle
                    && !final(self)@[i].live,
    {
        let n = self.entries.len();
        let mut handles: Vec<u64> = Vec::new();
        let mut i: usize = 0;
        while i < n
            invariant
                n == self@.len(),
                self@.len() == old(self)@.len(),
                i <= n,
                handles@.len() == i,
                forall|j: int| 0 <= j < i ==> handles@[j] == (#[trigger] old(self)@[j]).handle,
                forall|j: int|
                    0 <= j < i ==> (#[trigger] self@[j]).id@ == old(self)@[j].id@ && self@[j].handle
                        == old(self)@[j].handle && !self@[j].live,
                forall|j: int| i <= j < n ==> #[trigger] self@[j] == old(self)@[j],
                distinct_ids(self@),
            decreases n - i,
        {
            let h = self.entries[i].handle;
            handles.push(h);
            let entry = &mut self.entries[i];
            entry.live = false;
            proof {
                assert(forall|p: int|
                    0 <= p < self@.len() ==> (#[trigger] self@[p]).id@ == old(self)@[p].id@);
            }
            i += 1;
        }
        handles
    }
}

} // verus!
