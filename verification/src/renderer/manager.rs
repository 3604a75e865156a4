//! Label-keyed store of shared, reference-counted objects.
//!
//! The renderer keeps one such store for bind-group layouts and one for
//! compiled pipelines, so that identical visual kinds across displays share
//! their GPU objects. For a given label at most one instance exists at any
//! time, and `get_or_init` is the only creation path and is idempotent.

use std::sync::Arc;
use vstd::prelude::*;

verus! {

/// Relies on `Arc::clone`: the clone shares the same allocation, so it holds
/// the same value as the original handle.
#[verifier::external_body]
fn arc_clone<T>(a: &Arc<T>) -> (r: Arc<T>)
    ensures
        r == *a,
{
    a.clone()
}

/// A label-keyed store of shared handles. Keys are unique; the pair of
/// columns always has equal length.
pub struct Manager<T> {
    names: Vec<String>,
    values: Vec<Arc<T>>,
}

impl<T> Manager<T> {
    /// The store is well formed: one value per name, and no name twice.
    pub closed spec fn wf(self) -> bool {
        &&& self.names@.len() == self.values@.len()
        &&& forall|i: int, j: int|
            0 <= i < j < self.names@.len() ==> self.names@[i]@ != self.names@[j]@
    }

    /// Whether some entry carries the key `k`.
    pub closed spec fn spec_has(self, k: Seq<char>) -> bool {
        exists|i: int| 0 <= i < self.names@.len() && self.names@[i]@ == k
    }

    /// The index of the entry carrying `k` (meaningful only when `spec_has`).
    pub closed spec fn spec_idx(self, k: Seq<char>) -> int {
        choose|i: int| 0 <= i < self.names@.len() && self.names@[i]@ == k
    }

    /// The handle stored under `k`, if any.
    pub closed spec fn spec_get(self, k: Seq<char>) -> Option<Arc<T>> {
        if self.spec_has(k) {
            Some(self.values@[self.spec_idx(k)])
        } else {
            None
        }
    }

    /// How many labels are stored.
    pub closed spec fn spec_len(self) -> nat {
        self.names@.len()
    }

    /// An empty store.
    pub fn new() -> (r: Self)
        ensures
            r.wf(),
            r.spec_len() == 0,
            forall|k: Seq<char>| !r.spec_has(k),
            forall|k: Seq<char>| r.spec_get(k) is None,
    {
        Self { names: Vec::new(), values: Vec::new() }
    }

    /// An empty store; the capacity is a size hint only and does not affect
    /// the contents.
    pub fn with_capacity(capacity: usize) -> (r: Self)
        ensures
            r.wf(),
            r.spec_len() == 0,
            forall|k: Seq<char>| !r.spec_has(k),
            forall|k: Seq<char>| r.spec_get(k) is None,
    {
        Self { names: Vec::with_capacity(capacity), values: Vec::with_capacity(capacity) }
    }

    /// Finds the column index of `name`, if present.
    fn find(&self, name: &str) -> (r: Option<usize>)
        requires
            self.wf(),
        ensures
            match r {
                Some(i) => {
                    &&& self.spec_has(name@)
                    &&& 0 <= i < self.names@.len()
                    &&& self.names@[i as int]@ == name@
                    &&& i == self.spec_idx(name@)
                },
                None => !self.spec_has(name@),
            },
    {
        let ghost k = name@;
        let mut i: usize = 0;
        while i < self.names.len()
            invariant
                self.wf(),
                0 <= i <= self.names@.len(),
                forall|j: int| 0 <= j < i ==> self.names@[j]@ != k,
                k == name@,
            decreases self.names@.len() - i,
        {
            let candidate: String = self.names[i].clone();
            let probe: String = name.to_owned();
            if candidate == probe {
                proof {
                    assert(self.names@[i as int]@ == k);
                    assert(self.spec_has(k));
                    let w = self.spec_idx(k);
                    assert(0 <= w < self.names@.len() && self.names@[w]@ == k);
                    assert(w == i as int);
                }
                return Some(i);
            }
            i += 1;
        }
        proof {
            assert(!self.spec_has(k));
        }
        None
    }

    /// Returns the shared handle stored under `name`, if any; the store is
    /// not changed.
    pub fn get(&self, name: &str) -> (r: Option<Arc<T>>)
        requires
            self.wf(),
        ensures
            r == self.spec_get(name@),
            r is Some <==> self.spec_has(name@),
    {
        match self.find(name) {
            Some(i) => Some(arc_clone(&self.values[i])),
            None => None,
        }
    }

    /// Whether an entry exists under `name`.
    pub fn contains(&self, name: &str) -> (r: bool)
        requires
            self.wf(),
        ensures
            r == self.spec_has(name@),
    {
        self.find(name).is_some()
    }

    /// Returns the handle stored under `name` if one exists, leaving the
    /// store unchanged; otherwise invokes `init` once, stores its result
    /// under `name`, and returns it. This is the only creation path, and a
    /// second call with the same label returns the stored handle untouched.
    pub fn get_or_init<F: FnOnce() -> Arc<T>>(&mut self, name: &str, init: F) -> (r: Arc<T>)
        requires
            old(self).wf(),
            call_requires(init, ()),
        ensures
            final(self).wf(),
            final(self).spec_has(name@),
            final(self).spec_get(name@) == Some(r),
            old(self).spec_has(name@) ==> {
                &&& *final(self) == *old(self)
                &&& Some(r) == old(self).spec_get(name@)
            },
            !old(self).spec_has(name@) ==> {
                &&& call_ensures(init, (), r)
                &&& final(self).spec_len() == old(self).spec_len() + 1
            },
            forall|k: Seq<char>|
                k != name@ ==> final(self).spec_get(k) == old(self).spec_get(k),
            forall|k: Seq<char>|
                k != name@ ==> final(self).spec_has(k) == old(self).spec_has(k),
    {
        match self.find(name) {
            Some(i) => arc_clone(&self.values[i]),
            None => {
                let v = init();
                let r = arc_clone(&v);
                self.names.push(name.to_owned());
                self.values.push(v);
                proof {
                    self.lemma_push_frame(*old(self), name@);
                }
                r
            },
        }
    }

    /// Stores `value` under `name` as a fresh shared handle, returning the
    /// handle it displaces, if any.
    pub fn insert(&mut self, name: String, value: T) -> (r: Option<Arc<T>>)
        requires
            old(self).wf(),
        ensures
            final(self).wf(),
            r == old(self).spec_get(name@),
            final(self).spec_has(name@),
            final(self).spec_get(name@) matches Some(v) && *v == value,
            forall|k: Seq<char>|
                k != name@ ==> final(self).spec_get(k) == old(self).spec_get(k),
            forall|k: Seq<char>|
                k != name@ ==> final(self).spec_has(k) == old(self).spec_has(k),
    {
        self.insert_rc(name, Arc::new(value))
    }

    /// Stores an existing shared handle under `name`, returning the handle
    /// it displaces, if any.
    pub fn insert_rc(&mut self, name: String, value: Arc<T>) -> (r: Option<Arc<T>>)
        requires
            old(self).wf(),
        ensures
            final(self).wf(),
            r == old(self).spec_get(name@),
            final(self).spec_has(name@),
            final(self).spec_get(name@) == Some(value),
            forall|k: Seq<char>|
                k != name@ ==> final(self).spec_get(k) == old(self).spec_get(k),
            forall|k: Seq<char>|
                k != name@ ==> final(self).spec_has(k) == old(self).spec_has(k),
    {
        match self.find(name.as_str()) {
            Some(i) => {
                let displaced = arc_clone(&self.values[i]);
                let slot = &mut self.values[i];
                *slot = value;
                proof {
                    self.lemma_update_frame(*old(self), name@, i as int);
                }
                Some(displaced)
            },
            None => {
                self.names.push(name);
                self.values.push(value);
                proof {
                    self.lemma_push_frame(*old(self), name@);
                }
                None
            },
        }
    }

    /// Removes the entry under `name`, returning its handle, if any.
    pub fn remove(&mut self, name: &str) -> (r: Option<Arc<T>>)
        requires
            old(self).wf(),
        ensures
            final(self).wf(),
            r == old(self).spec_get(name@),
            !final(self).spec_has(name@),
            final(self).spec_get(name@) is None,
            forall|k: Seq<char>|
                k != name@ ==> final(self).spec_get(k) == old(self).spec_get(k),
            forall|k: Seq<char>|
                k != name@ ==> final(self).spec_has(k) == old(self).spec_has(k),
    {
        match self.find(name) {
            Some(i) => {
                self.names.remove(i);
                let v = self.values.remove(i);
                proof {
                    self.lemma_remove_frame(*old(self), name@, i as int);
                }
                Some(v)
            },
            None => None,
        }
    }

    /// Drops every entry.
    pub fn clear(&mut self)
        ensures
            final(self).wf(),
            final(self).spec_len() == 0,
            forall|k: Seq<char>| !final(self).spec_has(k),
            forall|k: Seq<char>| final(self).spec_get(k) is None,
    {
        self.names.clear();
        self.values.clear();
    }

    /// Replaces the handle under `name` only if one is already stored,
    /// returning the displaced handle; an absent label is left absent.
    pub fn update(&mut self, name: &str, value: T) -> (r: Option<Arc<T>>)
        requires
            old(self).wf(),
        ensures
            final(self).wf(),
            old(self).spec_has(name@) ==> {
                &&& r == old(self).spec_get(name@)
                &&& (final(self).spec_get(name@) matches Some(v) && *v == value)
            },
            !old(self).spec_has(name@) ==> r is None && *final(self) == *old(self),
            forall|k: Seq<char>|
                k != name@ ==> final(self).spec_get(k) == old(self).spec_get(k),
            forall|k: Seq<char>|
                k != name@ ==> final(self).spec_has(k) == old(self).spec_has(k),
    {
        if self.contains(name) {
            self.insert(name.to_owned(), value)
        } else {
            None
        }
    }

    /// Replacing the value at a key's own column leaves every other key's
    /// lookup unchanged.
    proof fn lemma_update_frame(self, prev: Self, k: Seq<char>, i: int)
        requires
            prev.wf(),
            0 <= i < prev.names@.len(),
            prev.names@[i]@ == k,
            i == prev.spec_idx(k),
            self.names@ == prev.names@,
            self.values@.len() == prev.values@.len(),
            forall|j: int| 0 <= j < prev.values@.len() && j != i ==> self.values@[j] == prev.values@[j],
        ensures
            self.wf(),
            self.spec_has(k),
            self.spec_get(k) == Some(self.values@[i]),
            forall|k2: Seq<char>| k2 != k ==> self.spec_get(k2) == prev.spec_get(k2),
            forall|k2: Seq<char>| k2 != k ==> self.spec_has(k2) == prev.spec_has(k2),
    {
        assert(self.spec_has(k)) by {
            assert(self.names@[i]@ == k);
        }
        assert(self.spec_idx(k) == i) by {
            let w = self.spec_idx(k);
            assert(0 <= w < self.names@.len() && self.names@[w]@ == k);
            if w != i {
                if w < i {
                    assert(prev.names@[w]@ != prev.names@[i]@);
                } else {
                    assert(prev.names@[i]@ != prev.names@[w]@);
                }
            }
        }
        assert forall|k2: Seq<char>| k2 != k implies self.spec_get(k2) == prev.spec_get(k2) by {
            if prev.spec_has(k2) {
                let w = prev.spec_idx(k2);
                assert(0 <= w < prev.names@.len() && prev.names@[w]@ == k2);
                assert(self.spec_idx(k2) == w) by {
                    let w2 = self.spec_idx(k2);
                    assert(0 <= w2 < self.names@.len() && self.names@[w2]@ == k2);
                    if w2 != w {
                        if w2 < w {
                            assert(prev.names@[w2]@ != prev.names@[w]@);
                        } else {
                            assert(prev.names@[w]@ != prev.names@[w2]@);
                        }
                    }
                }
                assert(w != i);
                assert(self.values@[w] == prev.values@[w]);
            }
        }
    }

    /// Removing a key's column removes exactly that key and leaves every
    /// other key's lookup unchanged.
    proof fn lemma_remove_frame(self, prev: Self, k: Seq<char>, i: int)
        requires
            prev.wf(),
            0 <= i < prev.names@.len(),
            prev.names@[i]@ == k,
            self.names@ == prev.names@.remove(i),
            self.values@ == prev.values@.remove(i),
        ensures
            self.wf(),
            !self.spec_has(k),
            forall|k2: Seq<char>| k2 != k ==> self.spec_get(k2) == prev.spec_get(k2),
            forall|k2: Seq<char>| k2 != k ==> self.spec_has(k2) == prev.spec_has(k2),
    {
        prev.names@.remove_ensures(i);
        prev.values@.remove_ensures(i);
        // A new index maps back to an old index that is not the removed one.
        let back = |j: int| if j < i { j } else { j + 1 };
        assert forall|a: int, b: int|
            0 <= a < b < self.names@.len() implies self.names@[a]@ != self.names@[b]@ by {
            assert(self.names@[a] == prev.names@[back(a)]);
            assert(self.names@[b] == prev.names@[back(b)]);
            assert(0 <= back(a) < back(b) < prev.names@.len());
        }
        assert forall|j: int| 0 <= j < self.names@.len() implies self.names@[j]@ != k by {
            let o = back(j);
            assert(self.names@[j] == prev.names@[o]);
            assert(o != i);
            if o < i {
                assert(prev.names@[o]@ != prev.names@[i]@);
            } else {
                assert(prev.names@[i]@ != prev.names@[o]@);
            }
        }
        assert(!self.spec_has(k));
        assert forall|k2: Seq<char>| k2 != k implies self.spec_has(k2) == prev.spec_has(k2) by {
            if self.spec_has(k2) {
                let w = self.spec_idx(k2);
                assert(0 <= w < self.names@.len() && self.names@[w]@ == k2);
                assert(prev.names@[back(w)]@ == k2);
                assert(prev.spec_has(k2));
            }
            if prev.spec_has(k2) {
                let w = prev.spec_idx(k2);
                assert(0 <= w < prev.names@.len() && prev.names@[w]@ == k2);
                assert(w != i);
                if w < i {
                    assert(self.names@[w]@ == k2);
                } else {
                    assert(self.names@[w - 1] == prev.names@[w]);
                    assert(self.names@[w - 1]@ == k2);
                }
                assert(self.spec_has(k2));
            }
        }
        assert forall|k2: Seq<char>| k2 != k implies self.spec_get(k2) == prev.spec_get(k2) by {
            if prev.spec_has(k2) {
                let w = prev.spec_idx(k2);
                assert(0 <= w < prev.names@.len() && prev.names@[w]@ == k2);
                assert(w != i);
                let nw = if w < i { w } else { w - 1 };
                assert(self.names@[nw]@ == k2);
                assert(self.spec_idx(k2) == nw) by {
                    let w2 = self.spec_idx(k2);
                    assert(0 <= w2 < self.names@.len() && self.names@[w2]@ == k2);
                    if w2 != nw {
                        if w2 < nw {
                            assert(self.names@[w2]@ != self.names@[nw]@);
                        } else {
                            assert(self.names@[nw]@ != self.names@[w2]@);
                        }
                    }
                }
                assert(self.values@[nw] == prev.values@[w]);
            }
        }
    }

    /// Pushing one fresh entry keeps the store well formed, makes the new
    /// key present, and leaves every other key's lookup unchanged.
    proof fn lemma_push_frame(self, prev: Self, k: Seq<char>)
        requires
            prev.wf(),
            !prev.spec_has(k),
            self.names@.len() == prev.names@.len() + 1,
            forall|i: int| 0 <= i < prev.names@.len() ==> self.names@[i] == prev.names@[i],
            self.names@[self.names@.len() - 1]@ == k,
            self.values@.len() == prev.values@.len() + 1,
            forall|i: int| 0 <= i < prev.values@.len() ==> self.values@[i] == prev.values@[i],
        ensures
            self.wf(),
            self.spec_has(k),
            self.spec_get(k) == Some(self.values@[self.values@.len() - 1]),
            forall|k2: Seq<char>| k2 != k ==> self.spec_get(k2) == prev.spec_get(k2),
            forall|k2: Seq<char>| k2 != k ==> self.spec_has(k2) == prev.spec_has(k2),
    {
        let last = prev.names@.len() as int;
        assert forall|i: int, j: int|
            0 <= i < j < self.names@.len() implies self.names@[i]@ != self.names@[j]@ by {
            if j < last {
                assert(prev.names@[i]@ != prev.names@[j]@);
            } else {
                assert(self.names@[j]@ == k);
                assert(self.names@[i] == prev.names@[i]);
                assert(prev.names@[i]@ != k) by {
                    if prev.names@[i]@ == k {
                        assert(prev.spec_has(k));
                    }
                }
            }
        }
        assert(self.spec_has(k)) by {
            assert(self.names@[last]@ == k);
        }
        assert(self.spec_idx(k) == last) by {
            let w = self.spec_idx(k);
            assert(0 <= w < self.names@.len() && self.names@[w]@ == k);
            if w < last {
                assert(prev.names@[w]@ == k);
                assert(prev.spec_has(k));
            }
        }
        assert forall|k2: Seq<char>| k2 != k implies self.spec_has(k2) == prev.spec_has(k2) by {
            if self.spec_has(k2) {
                let w = self.spec_idx(k2);
                assert(0 <= w < self.names@.len() && self.names@[w]@ == k2);
                assert(w != last);
                assert(prev.names@[w]@ == k2);
                assert(prev.spec_has(k2));
            }
            if prev.spec_has(k2) {
                let w = choose|i: int| 0 <= i < prev.names@.len() && prev.names@[i]@ == k2;
                assert(self.names@[w]@ == k2);
                assert(self.spec_has(k2));
            }
        }
        assert forall|k2: Seq<char>| k2 != k implies self.spec_get(k2) == prev.spec_get(k2) by {
            if prev.spec_has(k2) {
                let w1 = self.spec_idx(k2);
                let w2 = prev.spec_idx(k2);
                assert(0 <= w2 < prev.names@.len() && prev.names@[w2]@ == k2);
                assert(self.names@[w2]@ == k2);
                assert(0 <= w1 < self.names@.len() && self.names@[w1]@ == k2);
                assert(w1 != last);
                assert(prev.names@[w1]@ == k2);
                if w1 != w2 {
                    assert(prev.names@[w1]@ != prev.names@[w2]@ || true);
                    if w1 < w2 {
                        assert(prev.names@[w1]@ != prev.names@[w2]@);
                    } else {
                        assert(prev.names@[w2]@ != prev.names@[w1]@);
                    }
                    assert(false);
                }
                assert(self.values@[w1] == prev.values@[w2]);
            }
        }
    }
}

/// A label's lookup yields a handle exactly when the label is present.
pub proof fn lemma_get_some_iff_has<T>(m: Manager<T>, k: Seq<char>)
    ensures
        m.spec_get(k) is Some <==> m.spec_has(k),
{
}

/// Law: the cache's creation path is idempotent per label. After a first
/// `get_or_init` stored handle `r1` under a label, the contract of any
/// second `get_or_init` with the same label forces it to return that very
/// handle and leave the store untouched, so the factory's effect happens at
/// most once per label.
pub proof fn lemma_get_or_init_idempotent<T>(
    m1: Manager<T>,
    m2: Manager<T>,
    k: Seq<char>,
    r1: Arc<T>,
    r2: Arc<T>,
)
    requires
        m1.spec_get(k) == Some(r1),
        m1.spec_has(k) ==> m2 == m1 && Some(r2) == m1.spec_get(k),
    ensures
        r2 == r1,
        m2 == m1,
{
    assert(m1.spec_has(k));
}

} // verus!
