//! The connection registry: a cache holding at most one live handle per
//! database file path.
//!
//! The registry owns no engine resources itself.  It hands out opaque
//! numeric handles; the shell around the library keeps the actual engine
//! sessions keyed by those handles, opens a session when the registry
//! reports a fresh handle, and drops it when the handle is released.

use vstd::prelude::*;

verus! {

/// One cached association: a database path, the key the session was opened
/// with, and the opaque handle standing for the live session.
#[derive(Clone, Debug)]
pub struct RegistryEntry {
    pub db_path: String,
    pub key: Option<String>,
    pub handle: u64,
}

/// The view of an optional key: the characters, when one is present.
pub open spec fn opt_text_view(k: Option<String>) -> Option<Seq<char>> {
    match k {
        Some(s) => Some(s@),
        None => None,
    }
}

/// The handle cached for `path` in `entries`, scanning from the front.
pub open spec fn spec_find(entries: Seq<RegistryEntry>, path: Seq<char>) -> Option<u64>
    decreases entries.len(),
{
    if entries.len() == 0 {
        None
    } else if entries[0].db_path@ == path {
        Some(entries[0].handle)
    } else {
        spec_find(entries.drop_first(), path)
    }
}

/// Scanning from position `i` finds the same handle as scanning from the
/// front, provided no entry before `i` carries the path.
proof fn lemma_find_skip(entries: Seq<RegistryEntry>, path: Seq<char>, i: int)
    requires
        0 <= i <= entries.len(),
        forall|j: int| 0 <= j < i ==> entries[j].db_path@ != path,
    ensures
        spec_find(entries, path) == spec_find(entries.skip(i), path),
    decreases i,
{
    if i == 0 {
        assert(entries.skip(0) =~= entries);
    } else {
        let rest = entries.drop_first();
        assert(entries[0].db_path@ != path);
        assert(spec_find(entries, path) == spec_find(rest, path));
        assert(forall|j: int| 0 <= j < i - 1 ==> rest[j].db_path@ != path);
        lemma_find_skip(rest, path, i - 1);
        assert(rest.skip(i - 1) =~= entries.skip(i));
    }
}

/// If no entry carries the path, nothing is found.
proof fn lemma_find_none(entries: Seq<RegistryEntry>, path: Seq<char>)
    requires
        forall|j: int| 0 <= j < entries.len() ==> entries[j].db_path@ != path,
    ensures
        spec_find(entries, path) is None,
{
    lemma_find_skip(entries, path, entries.len() as int);
    assert(entries.skip(entries.len() as int) =~= Seq::<RegistryEntry>::empty());
}

/// Appending an entry leaves every other path's lookup unchanged, and fills
/// a path that had no entry.
proof fn lemma_find_push(entries: Seq<RegistryEntry>, e: RegistryEntry, path: Seq<char>)
    ensures
        e.db_path@ != path ==> spec_find(entries.push(e), path) == spec_find(entries, path),
        spec_find(entries, path) is None && e.db_path@ == path ==> spec_find(
            entries.push(e),
            path,
        ) == Some(e.handle),
    decreases entries.len(),
{
    let pushed = entries.push(e);
    if entries.len() == 0 {
        assert(pushed[0] == e);
        assert(pushed.drop_first() =~= Seq::<RegistryEntry>::empty());
        if e.db_path@ != path {
            assert(spec_find(pushed, path) == spec_find(pushed.drop_first(), path));
            assert(spec_find(pushed.drop_first(), path) is None);
        } else {
            assert(spec_find(pushed, path) == Some(e.handle));
        }
    } else {
        lemma_find_push(entries.drop_first(), e, path);
        assert(pushed[0] == entries[0]);
        assert(pushed.drop_first() =~= entries.drop_first().push(e));
        if entries[0].db_path@ == path {
            assert(spec_find(pushed, path) == Some(entries[0].handle));
            assert(spec_find(entries, path) == Some(entries[0].handle));
        } else {
            assert(spec_find(pushed, path) == spec_find(entries.drop_first().push(e), path));
            assert(spec_find(entries, path) == spec_find(entries.drop_first(), path));
        }
    }
}

/// Removing an entry that does not carry the path leaves that path's lookup
/// unchanged.
proof fn lemma_find_remove(entries: Seq<RegistryEntry>, i: int, path: Seq<char>)
    requires
        0 <= i < entries.len(),
        entries[i].db_path@ != path,
    ensures
        spec_find(entries.remove(i), path) == spec_find(entries, path),
    decreases entries.len(),
{
    if i == 0 {
        assert(entries.remove(0) =~= entries.drop_first());
    } else {
        assert(entries.remove(i)[0] == entries[0]);
        if entries[0].db_path@ != path {
            lemma_find_remove(entries.drop_first(), i - 1, path);
            assert(entries.remove(i).drop_first() =~= entries.drop_first().remove(i - 1));
        }
    }
}

/// The process-wide connection cache, owned and passed explicitly.
#[derive(Debug)]
pub struct ConnectionRegistry {
    pub entries: Vec<RegistryEntry>,
    pub next_handle: u64,
}

impl ConnectionRegistry {
    /// Well-formedness: no two entries share a path, and every cached
    /// handle was drawn from the counter.
    pub open spec fn wf(self) -> bool {
        &&& forall|i: int, j: int|
            0 <= i < j < self.entries@.len() ==> (#[trigger] self.entries@[i]).db_path@ != (
            #[trigger] self.entries@[j]).db_path@
        &&& forall|i: int|
            0 <= i < self.entries@.len() ==> (#[trigger] self.entries@[i]).handle
                < self.next_handle
    }

    /// The handle cached for a path, if any: the registry's model.
    pub open spec fn cached(self, path: Seq<char>) -> Option<u64> {
        spec_find(self.entries@, path)
    }

    /// What acquiring a path guarantees: the path is cached under the
    /// returned handle afterwards; a cache hit returns the cached handle and
    /// changes nothing, ignoring the key argument; a miss appends one entry
    /// carrying the path and key under a fresh handle; no other path's
    /// cache line moves.
    pub open spec fn acquire_post(
        pre: Self,
        post: Self,
        path: Seq<char>,
        key: Option<Seq<char>>,
        handle: u64,
        opened: bool,
    ) -> bool {
        &&& post.wf()
        &&& post.cached(path) == Some(handle)
        &&& opened == (pre.cached(path) is None)
        &&& match pre.cached(path) {
            Some(h) => handle == h && post == pre,
            None => {
                &&& handle == pre.next_handle
                &&& post.next_handle == pre.next_handle + 1
                &&& post.entries@.len() == pre.entries@.len() + 1
                &&& post.entries@ =~= pre.entries@.push(post.entries@.last())
                &&& post.entries@.last().db_path@ == path
                &&& opt_text_view(post.entries@.last().key) == key
                &&& post.entries@.last().handle == handle
            },
        }
        &&& forall|q: Seq<char>| q != path ==> post.cached(q) == pre.cached(q)
    }

    /// What releasing a path guarantees: the path has no cached handle
    /// afterwards, no other path's cache line moves, and releasing a path
    /// that was not cached is a no-op.
    pub open spec fn release_post(pre: Self, post: Self, path: Seq<char>) -> bool {
        &&& post.wf()
        &&& post.cached(path) is None
        &&& forall|q: Seq<char>| q != path ==> post.cached(q) == pre.cached(q)
        &&& pre.cached(path) is None ==> post == pre
        &&& post.next_handle == pre.next_handle
    }

    /// An empty registry: nothing cached.
    pub fn new() -> (r: ConnectionRegistry)
        ensures
            r.wf(),
            r.entries@.len() == 0,
            r.next_handle == 0,
            forall|q: Seq<char>| r.cached(q) is None,
    {
        ConnectionRegistry { entries: Vec::new(), next_handle: 0 }
    }

    /// The position of the entry carrying `db_path`, if one exists.
    fn find_entry(&self, db_path: &String) -> (r: Option<usize>)
        ensures
            match r {
                Some(i) => i < self.entries@.len() && self.entries@[i as int].db_path@ == db_path@
                    && self.cached(db_path@) == Some(self.entries@[i as int].handle),
                None => self.cached(db_path@) is None && forall|j: int|
                    0 <= j < self.entries@.len() ==> self.entries@[j].db_path@ != db_path@,
            },
    {
        let n = self.entries.len();
        for i in 0..n
            invariant
                n == self.entries@.len(),
                forall|j: int| 0 <= j < i ==> self.entries@[j].db_path@ != db_path@,
        {
            if self.entries[i].db_path == *db_path {
                proof {
                    lemma_find_skip(self.entries@, db_path@, i as int);
                }
                return Some(i);
            }
        }
        proof {
            lemma_find_none(self.entries@, db_path@);
        }
        None
    }

    /// The handle currently cached for a path, if any.
    pub fn cached_handle(&self, db_path: &String) -> (r: Option<u64>)
        ensures
            r == self.cached(db_path@),
    {
        match self.find_entry(db_path) {
            Some(i) => Some(self.entries[i].handle),
            None => None,
        }
    }

    /// Acquire a handle for a database path.
    ///
    /// On a cache hit the cached handle is returned unchanged and the key
    /// argument is ignored; on a miss a fresh handle is recorded for the
    /// path together with the key.  The second component of the result is
    /// true exactly when the path was not cached: the caller must then open
    /// the actual engine session for the new handle.
    pub fn open_db_connections(&mut self, db_path: &String, key: &Option<String>) -> (r: (
        u64,
        bool,
    ))
        requires
            old(self).wf(),
            old(self).next_handle < u64::MAX,
        ensures
            Self::acquire_post(
                *old(self),
                *final(self),
                db_path@,
                opt_text_view(*key),
                r.0,
                r.1,
            ),
    {
        match self.find_entry(db_path) {
            Some(i) => {
                let h = self.entries[i].handle;
                (h, false)
            },
            None => {
                let handle = self.next_handle;
                let cloned_key = match key {
                    Some(k) => Some(k.clone()),
                    None => None,
                };
                let entry = RegistryEntry { db_path: db_path.clone(), key: cloned_key, handle };
                self.entries.push(entry);
                self.next_handle = self.next_handle + 1;
                proof {
                    lemma_find_push(old(self).entries@, self.entries@.last(), db_path@);
                    assert forall|q: Seq<char>| q != db_path@ implies self.cached(q) == old(
                        self,
                    ).cached(q) by {
                        lemma_find_push(old(self).entries@, self.entries@.last(), q);
                    }
                }
                (handle, true)
            },
        }
    }

    /// Release the cached handle for a path, if one exists.
    ///
    /// Releasing a path with no cached handle succeeds as a no-op.  The
    /// caller drops the actual engine session for the released handle.
    pub fn remove_db_connection(&mut self, db_path: &String)
        requires
            old(self).wf(),
        ensures
            Self::release_post(*old(self), *final(self), db_path@),
    {
        match self.find_entry(db_path) {
            Some(i) => {
                self.entries.remove(i);
                proof {
                    let pre = old(self).entries@;
                    let post = self.entries@;
                    assert(post =~= pre.remove(i as int));
                    assert forall|j: int| 0 <= j < post.len() implies post[j].db_path@
                        != db_path@ by {
                        if j < i {
                            assert(post[j] == pre[j]);
                        } else {
                            assert(post[j] == pre[j + 1]);
                        }
                    }
                    lemma_find_none(post, db_path@);
                    assert forall|q: Seq<char>| q != db_path@ implies self.cached(q) == old(
                        self,
                    ).cached(q) by {
                        lemma_find_remove(pre, i as int, q);
                    }
                    assert forall|x: int, y: int|
                        0 <= x < y < post.len() implies (#[trigger] post[x]).db_path@ != (
                    #[trigger] post[y]).db_path@ by {
                        if y < i {
                            assert(post[x] == pre[x] && post[y] == pre[y]);
                        } else if x < i {
                            assert(post[x] == pre[x] && post[y] == pre[y + 1]);
                        } else {
                            assert(post[x] == pre[x + 1] && post[y] == pre[y + 1]);
                        }
                    }
                }
            },
            None => {},
        }
    }
}

/// Law: acquiring the same path twice, with no release in between, yields
/// the same handle both times, and the second acquisition changes nothing.
pub proof fn lemma_acquire_twice_same_handle(
    r0: ConnectionRegistry,
    r1: ConnectionRegistry,
    r2: ConnectionRegistry,
    path: Seq<char>,
    key1: Option<Seq<char>>,
    key2: Option<Seq<char>>,
    h1: u64,
    h2: u64,
    opened1: bool,
    opened2: bool,
)
    requires
        ConnectionRegistry::acquire_post(r0, r1, path, key1, h1, opened1),
        ConnectionRegistry::acquire_post(r1, r2, path, key2, h2, opened2),
    ensures
        h2 == h1,
        !opened2,
        r2 == r1,
{
}

} // verus!
