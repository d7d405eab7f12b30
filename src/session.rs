//! The state of one session during one request: its data, its expiry and
//! the lifecycle flags that the middleware acts on once the handler is done.
use vstd::prelude::*;

verus! {

/// No two entries share a key.
pub open spec fn keys_unique(entries: Seq<(String, String)>) -> bool {
    forall|i: int, j: int|
        0 <= i < entries.len() && 0 <= j < entries.len() && i != j ==> entries[i].0@
            != entries[j].0@
}

/// The value stored under `key`, if any.
pub open spec fn lookup(entries: Seq<(String, String)>, key: Seq<char>) -> Option<Seq<char>> {
    if exists|i: int| 0 <= i < entries.len() && entries[i].0@ == key {
        let i = choose|i: int| 0 <= i < entries.len() && entries[i].0@ == key;
        Some(entries[i].1@)
    } else {
        None
    }
}

proof fn lemma_lookup_at(entries: Seq<(String, String)>, i: int)
    requires
        keys_unique(entries),
        0 <= i < entries.len(),
    ensures
        lookup(entries, entries[i].0@) == Some(entries[i].1@),
{
    let key = entries[i].0@;
    assert(0 <= i < entries.len() && entries[i].0@ == key);
}

/// The data of a list of entries, as a map.
pub open spec fn entries_map(entries: Seq<(String, String)>) -> Map<Seq<char>, Seq<char>> {
    Map::new(|k: Seq<char>| lookup(entries, k) is Some, |k: Seq<char>| lookup(entries, k)->Some_0)
}

/// One session: its store identifier, its data and its lifecycle flags.
#[derive(Clone, Debug)]
pub struct SessionState {
    id: Option<String>,
    entries: Vec<(String, String)>,
    expiry: Option<u64>,
    changed: bool,
    destroyed: bool,
    regenerate_requested: bool,
}

impl SessionState {
    /// Well-formed: no key is stored twice.
    pub closed spec fn wf(&self) -> bool {
        keys_unique(self.entries@)
    }

    /// The identifier under which the store holds this session, if any.
    pub closed spec fn id_spec(&self) -> Option<Seq<char>> {
        match self.id {
            Some(s) => Some(s@),
            None => None,
        }
    }

    /// The session's data.
    pub closed spec fn data(&self) -> Map<Seq<char>, Seq<char>> {
        entries_map(self.entries@)
    }

    pub closed spec fn expiry_spec(&self) -> Option<u64> {
        self.expiry
    }

    pub closed spec fn changed_spec(&self) -> bool {
        self.changed
    }

    pub closed spec fn destroyed_spec(&self) -> bool {
        self.destroyed
    }

    pub closed spec fn regenerate_spec(&self) -> bool {
        self.regenerate_requested
    }

    /// Expired at `now`: the expiry lies strictly before it.
    pub open spec fn expired_at(&self, now: u64) -> bool {
        match self.expiry_spec() {
            Some(t) => t < now,
            None => false,
        }
    }

    /// A new session: no identifier, no data, no expiry, no flag set.
    pub fn fresh() -> (r: SessionState)
        ensures
            r.wf(),
            r.id_spec() is None,
            r.data() == Map::<Seq<char>, Seq<char>>::empty(),
            r.expiry_spec() is None,
            !r.changed_spec(),
            !r.destroyed_spec(),
            !r.regenerate_spec(),
    {
        let r = SessionState {
            id: None,
            entries: Vec::new(),
            expiry: None,
            changed: false,
            destroyed: false,
            regenerate_requested: false,
        };
        assert(r.data() =~= Map::<Seq<char>, Seq<char>>::empty());
        r
    }

    /// A session as the store holds it under `id`, with no flag set.
    pub fn from_record(id: String, entries: Vec<(String, String)>, expiry: Option<u64>) -> (r:
        SessionState)
        requires
            keys_unique(entries@),
        ensures
            r.wf(),
            r.id_spec() == Some(id@),
            r.data() == entries_map(entries@),
            r.expiry_spec() == expiry,
            !r.changed_spec(),
            !r.destroyed_spec(),
            !r.regenerate_spec(),
    {
        SessionState {
            id: Some(id),
            entries,
            expiry,
            changed: false,
            destroyed: false,
            regenerate_requested: false,
        }
    }

    /// The identifier under which the store holds this session, if any.
    pub fn id(&self) -> (r: Option<&String>)
        ensures
            match r {
                Some(s) => self.id_spec() == Some(s@),
                None => self.id_spec() is None,
            },
    {
        self.id.as_ref()
    }

    /// The stored entries, each key once.
    pub fn entries(&self) -> (r: &Vec<(String, String)>)
        requires
            self.wf(),
        ensures
            keys_unique(r@),
            entries_map(r@) == self.data(),
    {
        &self.entries
    }

    pub fn expiry(&self) -> (r: Option<u64>)
        ensures
            r == self.expiry_spec(),
    {
        self.expiry
    }

    /// Whether the data changed since the session was created or loaded.
    pub fn data_changed(&self) -> (r: bool)
        ensures
            r == self.changed_spec(),
    {
        self.changed
    }

    pub fn is_destroyed(&self) -> (r: bool)
        ensures
            r == self.destroyed_spec(),
    {
        self.destroyed
    }

    pub fn should_regenerate(&self) -> (r: bool)
        ensures
            r == self.regenerate_spec(),
    {
        self.regenerate_requested
    }

    /// Whether the session has expired at `now` (seconds since the epoch).
    pub fn is_expired(&self, now: u64) -> (r: bool)
        ensures
            r == self.expired_at(now),
    {
        match self.expiry {
            Some(t) => t < now,
            None => false,
        }
    }

    fn position(&self, key: &str) -> (r: Option<usize>)
        ensures
            match r {
                Some(i) => i < self.entries@.len() && self.entries@[i as int].0@ == key@,
                None => forall|i: int|
                    0 <= i < self.entries@.len() ==> self.entries@[i].0@ != key@,
            },
    {
        let wanted: String = key.to_owned();
        let mut i: usize = 0;
        while i < self.entries.len()
            invariant
                wanted@ == key@,
                i <= self.entries@.len(),
                forall|j: int| 0 <= j < i ==> self.entries@[j].0@ != key@,
            decreases self.entries@.len() - i,
        {
            if self.entries[i].0.eq(&wanted) {
                return Some(i);
            }
            i = i + 1;
        }
        None
    }

    /// The value stored under `key`.
    pub fn get(&self, key: &str) -> (r: Option<String>)
        requires
            self.wf(),
        ensures
            match r {
                Some(v) => self.data().contains_key(key@) && self.data()[key@] == v@,
                None => !self.data().contains_key(key@),
            },
    {
        match self.position(key) {
            Some(i) => {
                proof {
                    lemma_lookup_at(self.entries@, i as int);
                }
                Some(self.entries[i].1.clone())
            },
            None => None,
        }
    }

    /// Stores `value` under `key` and marks the session changed.
    pub fn set(&mut self, key: String, value: String)
        requires
            old(self).wf(),
        ensures
            final(self).wf(),
            final(self).data() == old(self).data().insert(key@, value@),
            final(self).changed_spec(),
            final(self).id_spec() == old(self).id_spec(),
            final(self).expiry_spec() == old(self).expiry_spec(),
            final(self).destroyed_spec() == old(self).destroyed_spec(),
            final(self).regenerate_spec() == old(self).regenerate_spec(),
    {
        let ghost before = self.entries@;
        let ghost k = key@;
        let ghost v = value@;
        match self.position(key.as_str()) {
            Some(i) => {
                self.entries.set(i, (key, value));
                proof {
                    lemma_lookup_at(self.entries@, i as int);
                    assert forall|q: Seq<char>| q != k implies lookup(self.entries@, q) == lookup(
                        before,
                        q,
                    ) by {
                        if exists|j: int| 0 <= j < before.len() && before[j].0@ == q {
                            let j = choose|j: int| 0 <= j < before.len() && before[j].0@ == q;
                            lemma_lookup_at(before, j);
                            lemma_lookup_at(self.entries@, j);
                        }
                    }
                }
            },
            None => {
                self.entries.push((key, value));
                proof {
                    let n = before.len() as int;
                    lemma_lookup_at(self.entries@, n);
                    assert forall|q: Seq<char>| q != k implies lookup(self.entries@, q) == lookup(
                        before,
                        q,
                    ) by {
                        if exists|j: int| 0 <= j < before.len() && before[j].0@ == q {
                            let j = choose|j: int| 0 <= j < before.len() && before[j].0@ == q;
                            lemma_lookup_at(before, j);
                            lemma_lookup_at(self.entries@, j);
                        }
                    }
                }
            },
        }
        self.changed = true;
        proof {
            assert(self.data() =~= old(self).data().insert(k, v));
        }
    }

    /// Removes what is stored under `key` and marks the session changed.
    pub fn remove(&mut self, key: &str)
        requires
            old(self).wf(),
        ensures
            final(self).wf(),
            final(self).data() == old(self).data().remove(key@),
            final(self).changed_spec(),
            final(self).id_spec() == old(self).id_spec(),
            final(self).expiry_spec() == old(self).expiry_spec(),
            final(self).destroyed_spec() == old(self).destroyed_spec(),
            final(self).regenerate_spec() == old(self).regenerate_spec(),
    {
        let ghost before = self.entries@;
        if let Some(i) = self.position(key) {
            self.entries.remove(i);
            proof {
                let after = self.entries@;
                assert forall|a: int, b: int|
                    0 <= a < after.len() && 0 <= b < after.len() && a != b implies after[a].0@
                    != after[b].0@ by {
                    let a0 = if a < i { a } else { a + 1 };
                    let b0 = if b < i { b } else { b + 1 };
                    assert(after[a] == before[a0]);
                    assert(after[b] == before[b0]);
                }
                assert forall|q: Seq<char>| q != key@ implies lookup(after, q) == lookup(before, q) by {
                    if exists|j: int| 0 <= j < before.len() && before[j].0@ == q {
                        let j = choose|j: int| 0 <= j < before.len() && before[j].0@ == q;
                        lemma_lookup_at(before, j);
                        let j1 = if j < i { j } else { j - 1 };
                        assert(after[j1] == before[j]);
                        lemma_lookup_at(after, j1);
                    } else {
                        assert forall|j: int| 0 <= j < after.len() implies after[j].0@ != q by {
                            let j0 = if j < i { j } else { j + 1 };
                            assert(after[j] == before[j0]);
                        }
                    }
                }
                assert forall|j: int| 0 <= j < after.len() implies after[j].0@ != key@ by {
                    let j0 = if j < i { j } else { j + 1 };
                    assert(after[j] == before[j0]);
                }
            }
        }
        self.changed = true;
        proof {
            assert(self.data() =~= old(self).data().remove(key@));
        }
    }

    /// Marks the session for destruction; this cannot be undone.
    pub fn destroy(&mut self)
        ensures
            final(self).destroyed_spec(),
            final(self).data() == old(self).data(),
            old(self).wf() ==> final(self).wf(),
            final(self).id_spec() == old(self).id_spec(),
            final(self).expiry_spec() == old(self).expiry_spec(),
            final(self).changed_spec() == old(self).changed_spec(),
            final(self).regenerate_spec() == old(self).regenerate_spec(),
    {
        self.destroyed = true;
    }

    /// Asks for a new identifier to be issued when the session is stored.
    pub fn regenerate(&mut self)
        ensures
            final(self).regenerate_spec(),
            final(self).data() == old(self).data(),
            old(self).wf() ==> final(self).wf(),
            final(self).id_spec() == old(self).id_spec(),
            final(self).expiry_spec() == old(self).expiry_spec(),
            final(self).changed_spec() == old(self).changed_spec(),
            final(self).destroyed_spec() == old(self).destroyed_spec(),
    {
        self.regenerate_requested = true;
    }

    /// Sets the expiry to `at` (seconds since the epoch).
    pub fn set_expiry(&mut self, at: u64)
        ensures
            final(self).expiry_spec() == Some(at),
            final(self).data() == old(self).data(),
            old(self).wf() ==> final(self).wf(),
            final(self).id_spec() == old(self).id_spec(),
            final(self).changed_spec() == old(self).changed_spec(),
            final(self).destroyed_spec() == old(self).destroyed_spec(),
            final(self).regenerate_spec() == old(self).regenerate_spec(),
    {
        self.expiry = Some(at);
    }

    /// Drops the identifier, so that the store issues a new one for the same
    /// data.
    pub fn inner_regenerate(&mut self)
        ensures
            final(self).id_spec() is None,
            final(self).data() == old(self).data(),
            old(self).wf() ==> final(self).wf(),
            final(self).expiry_spec() == old(self).expiry_spec(),
            final(self).changed_spec() == old(self).changed_spec(),
            final(self).destroyed_spec() == old(self).destroyed_spec(),
            final(self).regenerate_spec() == old(self).regenerate_spec(),
    {
        self.id = None;
    }
}

} // verus!
