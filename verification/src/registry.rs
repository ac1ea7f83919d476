//! The context object holding named handles: the directories of open
//! sessions and of low-level runtimes are explicit values passed to
//! command handlers, never implicit singletons.
//!
//! A registry keeps uniquely named entries in insertion order. The
//! open, replace, close and lookup semantics are specified here; the
//! reader/writer lock that guards a registry shared between threads
//! is the embedding program's affair.

use vstd::prelude::*;

use crate::options::str_eq;

verus! {

/// The position of the entry carrying `name`, searching from the
/// front.
pub open spec fn find_name<S>(entries: Seq<(String, S)>, name: Seq<char>) -> Option<int>
    decreases entries.len(),
{
    if entries.len() == 0 {
        None
    } else if entries[0].0@ == name {
        Some(0)
    } else {
        match find_name(entries.drop_first(), name) {
            Some(i) => Some(i + 1),
            None => None,
        }
    }
}

/// No two entries carry the same name.
pub open spec fn unique_names<S>(entries: Seq<(String, S)>) -> bool {
    forall|i: int, j: int|
        0 <= i < j < entries.len() ==> (#[trigger] entries[i]).0@ != (#[trigger] entries[j]).0@
}

proof fn lemma_find_name_present<S>(entries: Seq<(String, S)>, name: Seq<char>, i: int)
    requires
        0 <= i < entries.len(),
        entries[i].0@ == name,
        forall|j: int| 0 <= j < i ==> (#[trigger] entries[j]).0@ != name,
    ensures
        find_name(entries, name) == Some(i),
    decreases i,
{
    if i == 0 {
    } else {
        assert(entries[0].0@ != name);
        let rest = entries.drop_first();
        assert(rest[i - 1].0@ == name);
        assert(forall|j: int| 0 <= j < i - 1 ==> (#[trigger] rest[j]).0@ != name);
        lemma_find_name_present(rest, name, i - 1);
    }
}

proof fn lemma_find_name_missing<S>(entries: Seq<(String, S)>, name: Seq<char>)
    requires
        find_name(entries, name) is None,
    ensures
        forall|j: int| 0 <= j < entries.len() ==> (#[trigger] entries[j]).0@ != name,
    decreases entries.len(),
{
    if entries.len() > 0 {
        lemma_find_name_missing(entries.drop_first(), name);
        assert forall|j: int| 0 <= j < entries.len() implies (#[trigger] entries[j]).0@
            != name by {
            if j > 0 {
                assert(entries.drop_first()[j - 1] == entries[j]);
            }
        }
    }
}

proof fn lemma_find_name_absent<S>(entries: Seq<(String, S)>, name: Seq<char>)
    requires
        forall|j: int| 0 <= j < entries.len() ==> (#[trigger] entries[j]).0@ != name,
    ensures
        find_name(entries, name) is None,
    decreases entries.len(),
{
    if entries.len() > 0 {
        let rest = entries.drop_first();
        assert(forall|j: int| 0 <= j < rest.len() ==> (#[trigger] rest[j]).0@ != name);
        lemma_find_name_absent(rest, name);
    }
}

/// A directory of uniquely named handles, kept in insertion order.
pub struct Registry<S> {
    entries: Vec<(String, S)>,
}

impl<S> Registry<S> {
    /// The entries, in insertion order.
    pub closed spec fn entries(&self) -> Seq<(String, S)> {
        self.entries@
    }

    /// The registry never holds two entries under one name.
    pub closed spec fn wf(&self) -> bool {
        unique_names(self.entries@)
    }

    /// An empty registry.
    pub fn new() -> (r: Registry<S>)
        ensures
            r.wf(),
            r.entries().len() == 0,
    {
        Registry { entries: Vec::new() }
    }

    /// How many handles are registered.
    pub fn len(&self) -> (n: usize)
        ensures
            n == self.entries().len(),
    {
        self.entries.len()
    }

    /// Where the entry named `name` sits, if anywhere.
    fn position(&self, name: &str) -> (r: Option<usize>)
        ensures
            match r {
                Some(i) => i < self.entries().len() && self.entries()[i as int].0@ == name@
                    && find_name(self.entries(), name@) == Some(i as int),
                None => find_name(self.entries(), name@) is None,
            },
    {
        let mut i: usize = 0;
        while i < self.entries.len()
            invariant
                i <= self.entries@.len(),
                forall|j: int| 0 <= j < i ==> (#[trigger] self.entries@[j]).0@ != name@,
            decreases self.entries@.len() - i,
        {
            if str_eq(self.entries[i].0.as_str(), name) {
                proof {
                    lemma_find_name_present(self.entries@, name@, i as int);
                }
                return Some(i);
            }
            i = i + 1;
        }
        proof {
            lemma_find_name_absent(self.entries@, name@);
        }
        None
    }

    /// Borrow the handle registered under `name`: the referenced
    /// session or runtime a command works with.
    pub fn lookup(&self, name: &str) -> (r: Option<&S>)
        ensures
            match find_name(self.entries(), name@) {
                Some(i) => r matches Some(s) && *s == self.entries()[i].1,
                None => r is None,
            },
    {
        match self.position(name) {
            Some(i) => Some(&self.entries[i].1),
            None => None,
        }
    }

    /// Register `handle` under `name`. When the name was already
    /// taken the previous handle is displaced and handed back, so the
    /// caller can close it: opening is always close-then-replace.
    pub fn open(&mut self, name: String, handle: S) -> (displaced: Option<S>)
        requires
            old(self).wf(),
        ensures
            final(self).wf(),
            match find_name(old(self).entries(), name@) {
                Some(i) => {
                    &&& displaced matches Some(s) && s == old(self).entries()[i].1
                    &&& final(self).entries() == old(self).entries().update(i, (name, handle))
                },
                None => {
                    &&& displaced is None
                    &&& final(self).entries() == old(self).entries().push((name, handle))
                },
            },
    {
        match self.position(name.as_str()) {
            Some(i) => {
                let mut entry = (name, handle);
                core::mem::swap(&mut self.entries[i], &mut entry);
                proof {
                    assert(self.entries@ =~= old(self).entries@.update(
                        i as int,
                        (name, handle),
                    ));
                    assert forall|p: int, q: int|
                        0 <= p < q < self.entries@.len() implies (
                    #[trigger] self.entries@[p]).0@ != (#[trigger] self.entries@[q]).0@ by {
                        assert(old(self).entries@[p].0@ != old(self).entries@[q].0@);
                    }
                }
                Some(entry.1)
            },
            None => {
                proof {
                    lemma_find_name_missing(self.entries@, name@);
                }
                self.entries.push((name, handle));
                proof {
                    assert forall|p: int, q: int|
                        0 <= p < q < self.entries@.len() implies (
                    #[trigger] self.entries@[p]).0@ != (#[trigger] self.entries@[q]).0@ by {
                        if q < self.entries@.len() - 1 {
                            assert(old(self).entries@[p].0@ != old(self).entries@[q].0@);
                        } else {
                            assert(old(self).entries@[p].0@ != name@);
                        }
                    }
                }
                None
            },
        }
    }

    /// Unregister the handle named `name` and hand it back for the
    /// caller to close; an unknown name changes nothing.
    pub fn close(&mut self, name: &str) -> (closed: Option<S>)
        requires
            old(self).wf(),
        ensures
            final(self).wf(),
            match find_name(old(self).entries(), name@) {
                Some(i) => {
                    &&& closed matches Some(s) && s == old(self).entries()[i].1
                    &&& final(self).entries() == old(self).entries().remove(i)
                },
                None => {
                    &&& closed is None
                    &&& final(self).entries() == old(self).entries()
                },
            },
    {
        match self.position(name) {
            Some(i) => {
                let entry = self.entries.remove(i);
                proof {
                    let pre = old(self).entries@;
                    let post = self.entries@;
                    assert forall|p: int, q: int|
                        0 <= p < q < post.len() implies (#[trigger] post[p]).0@ != (
                    #[trigger] post[q]).0@ by {
                        let p0: int = if p < i { p } else { p + 1 };
                        let q0: int = if q < i { q } else { q + 1 };
                        assert(post[p] == pre[p0]);
                        assert(post[q] == pre[q0]);
                        assert(pre[p0].0@ != pre[q0].0@);
                    }
                }
                Some(entry.1)
            },
            None => None,
        }
    }

    /// The registered names, in insertion order, for the listing
    /// commands.
    pub fn names(&self) -> (r: Vec<String>)
        ensures
            r@.len() == self.entries().len(),
            forall|i: int|
                0 <= i < r@.len() ==> (#[trigger] r@[i])@ == self.entries()[i].0@,
    {
        let mut out: Vec<String> = Vec::new();
        let mut i: usize = 0;
        while i < self.entries.len()
            invariant
                i <= self.entries@.len(),
                out@.len() == i,
                forall|j: int| 0 <= j < i ==> (#[trigger] out@[j])@ == self.entries@[j].0@,
            decreases self.entries@.len() - i,
        {
            out.push(self.entries[i].0.clone());
            i = i + 1;
        }
        out
    }
}

} // verus!
