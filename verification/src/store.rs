//! The service's persistent state, modelled exactly: a collection of stored
//! files, each a byte sequence identified by a relative path. The abstract
//! view of a store is a map from paths to contents; uploads insert,
//! deletes remove, downloads look up, and the listing enumerates exactly the
//! stored paths.

use vstd::prelude::*;

verus! {

/// The map described by an entry list, later entries overriding earlier ones.
spec fn map_of(entries: Seq<(String, Vec<u8>)>) -> Map<Seq<char>, Seq<u8>>
    decreases entries.len(),
{
    if entries.len() == 0 {
        Map::empty()
    } else {
        map_of(entries.drop_last()).insert(entries.last().0@, entries.last().1@)
    }
}

/// No two entries carry the same path.
spec fn unique_keys(entries: Seq<(String, Vec<u8>)>) -> bool {
    forall|i: int, j: int|
        0 <= i < j < entries.len() ==> entries[i].0@ != entries[j].0@
}

proof fn lemma_no_key(entries: Seq<(String, Vec<u8>)>, k: Seq<char>)
    requires
        forall|i: int| 0 <= i < entries.len() ==> entries[i].0@ != k,
    ensures
        !map_of(entries).contains_key(k),
    decreases entries.len(),
{
    if entries.len() > 0 {
        let dl = entries.drop_last();
        assert(forall|i: int| 0 <= i < dl.len() ==> dl[i] == entries[i]);
        lemma_no_key(dl, k);
        assert(entries.last().0@ != k);
    }
}

proof fn lemma_get(entries: Seq<(String, Vec<u8>)>, i: int)
    requires
        unique_keys(entries),
        0 <= i < entries.len(),
    ensures
        map_of(entries).contains_key(entries[i].0@),
        map_of(entries)[entries[i].0@] == entries[i].1@,
    decreases entries.len(),
{
    let dl = entries.drop_last();
    assert(forall|m: int| 0 <= m < dl.len() ==> dl[m] == entries[m]);
    if i < entries.len() - 1 {
        assert(unique_keys(dl));
        lemma_get(dl, i);
        assert(entries[i].0@ != entries.last().0@);
    }
}

proof fn lemma_dom(entries: Seq<(String, Vec<u8>)>, k: Seq<char>)
    ensures
        map_of(entries).contains_key(k) <==> exists|i: int|
            0 <= i < entries.len() && entries[i].0@ == k,
    decreases entries.len(),
{
    if entries.len() > 0 {
        let dl = entries.drop_last();
        assert(forall|m: int| 0 <= m < dl.len() ==> dl[m] == entries[m]);
        lemma_dom(dl, k);
        if entries.last().0@ == k {
            assert(entries[entries.len() - 1].0@ == k);
        }
        if map_of(dl).contains_key(k) {
            let i = choose|i: int| 0 <= i < dl.len() && dl[i].0@ == k;
            assert(entries[i].0@ == k);
        }
        if exists|i: int| 0 <= i < entries.len() && entries[i].0@ == k {
            let i = choose|i: int| 0 <= i < entries.len() && entries[i].0@ == k;
            if i < entries.len() - 1 {
                assert(dl[i].0@ == k);
            }
        }
    }
}

proof fn lemma_dom_len(entries: Seq<(String, Vec<u8>)>)
    requires
        unique_keys(entries),
    ensures
        map_of(entries).dom().finite(),
        map_of(entries).dom().len() == entries.len(),
    decreases entries.len(),
{
    if entries.len() == 0 {
        assert(map_of(entries).dom() =~= Set::<Seq<char>>::empty());
    } else {
        let dl = entries.drop_last();
        let k = entries.last().0@;
        assert(forall|m: int| 0 <= m < dl.len() ==> dl[m] == entries[m]);
        assert(unique_keys(dl));
        lemma_dom_len(dl);
        lemma_no_key(dl, k);
        assert(map_of(entries).dom() =~= map_of(dl).dom().insert(k));
        vstd::set::axiom_set_insert_finite(map_of(dl).dom(), k);
        vstd::set::axiom_set_insert_len(map_of(dl).dom(), k);
    }
}

proof fn lemma_remove(entries: Seq<(String, Vec<u8>)>, i: int)
    requires
        unique_keys(entries),
        0 <= i < entries.len(),
    ensures
        map_of(entries.remove(i)) == map_of(entries).remove(entries[i].0@),
    decreases entries.len(),
{
    let k = entries[i].0@;
    let dl = entries.drop_last();
    let rs = entries.remove(i);
    entries.remove_ensures(i);
    assert(forall|m: int| 0 <= m < dl.len() ==> dl[m] == entries[m]);
    assert(unique_keys(dl));
    if i == entries.len() - 1 {
        assert(rs =~= dl);
        lemma_no_key(dl, k);
        assert(map_of(dl).insert(k, entries[i].1@).remove(k) =~= map_of(dl));
    } else {
        assert(rs.len() == entries.len() - 1);
        assert(rs[rs.len() - 1] == entries[entries.len() - 1]);
        assert(rs.last() == entries.last());
        dl.remove_ensures(i);
        assert(rs.drop_last() =~= dl.remove(i));
        lemma_remove(dl, i);
        let lk = entries.last().0@;
        let lv = entries.last().1@;
        assert(entries[i].0@ != entries[entries.len() - 1].0@);
        assert(k != lk);
        assert(map_of(dl).remove(k).insert(lk, lv) =~= map_of(dl).insert(lk, lv).remove(
            k,
        ));
        assert(map_of(rs) == map_of(dl.remove(i)).insert(lk, lv));
    }
}

/// The stored files: byte contents keyed by relative path.
pub struct FileStore {
    entries: Vec<(String, Vec<u8>)>,
}

impl View for FileStore {
    type V = Map<Seq<char>, Seq<u8>>;

    closed spec fn view(&self) -> Map<Seq<char>, Seq<u8>> {
        map_of(self.entries@)
    }
}

impl FileStore {
    /// Well-formedness: each path is stored at most once.
    pub closed spec fn wf(&self) -> bool {
        unique_keys(self.entries@)
    }

    /// The stored paths, in insertion order.
    pub closed spec fn paths(&self) -> Seq<Seq<char>> {
        self.entries@.map_values(|e: (String, Vec<u8>)| e.0@)
    }

    /// The listing enumerates exactly the stored paths, each once.
    pub proof fn lemma_paths(&self)
        requires
            self.wf(),
        ensures
            forall|k: Seq<char>| self.paths().contains(k) <==> self@.contains_key(k),
            forall|i: int, j: int|
                0 <= i < j < self.paths().len() ==> self.paths()[i] != self.paths()[j],
            self.paths().len() == self@.dom().len(),
    {
        assert forall|k: Seq<char>| self.paths().contains(k) <==> self@.contains_key(k) by {
            lemma_dom(self.entries@, k);
            if self.paths().contains(k) {
                let i = choose|i: int| 0 <= i < self.paths().len() && self.paths()[i] == k;
                assert(self.entries@[i].0@ == k);
            }
            if exists|i: int| 0 <= i < self.entries@.len() && self.entries@[i].0@ == k {
                let i = choose|i: int| 0 <= i < self.entries@.len() && self.entries@[i].0@ == k;
                assert(self.paths()[i] == k);
            }
        }
        lemma_dom_len(self.entries@);
    }

    /// A store with nothing in it.
    pub fn new() -> (r: FileStore)
        ensures
            r.wf(),
            r@ == Map::<Seq<char>, Seq<u8>>::empty(),
            r.paths() == Seq::<Seq<char>>::empty(),
    {
        let r = FileStore { entries: Vec::new() };
        proof {
            assert(r.paths() =~= Seq::<Seq<char>>::empty());
        }
        r
    }

    /// Index of the entry stored under `path`, if any.
    fn find(&self, path: &String) -> (r: Option<usize>)
        ensures
            match r {
                Some(i) => i < self.entries@.len() && self.entries@[i as int].0@ == path@,
                None => forall|i: int|
                    0 <= i < self.entries@.len() ==> self.entries@[i].0@ != path@,
            },
    {
        let mut i: usize = 0;
        while i < self.entries.len()
            invariant
                i <= self.entries@.len(),
                forall|j: int| 0 <= j < i ==> self.entries@[j].0@ != path@,
            decreases self.entries@.len() - i,
        {
            if self.entries[i].0 == *path {
                return Some(i);
            }
            i += 1;
        }
        None
    }

    /// Stores `contents` under `path`, overwriting any previous file there.
    pub fn upload(&mut self, path: String, contents: Vec<u8>)
        requires
            old(self).wf(),
        ensures
            final(self).wf(),
            final(self)@ == old(self)@.insert(path@, contents@),
    {
        let ghost k = path@;
        match self.find(&path) {
            Some(i) => {
                let ghost pre = self.entries@;
                proof {
                    lemma_remove(pre, i as int);
                    pre.remove_ensures(i as int);
                    let rs = pre.remove(i as int);
                    assert forall|m: int, n: int|
                        0 <= m < n < rs.len() implies rs[m].0@ != rs[n].0@ by {
                        let mm: int = if m < i { m } else { m + 1 };
                        let nn: int = if n < i { n } else { n + 1 };
                        assert(rs[m] == pre[mm]);
                        assert(rs[n] == pre[nn]);
                        assert(pre[mm].0@ != pre[nn].0@);
                    }
                    assert forall|m: int| 0 <= m < rs.len() implies rs[m].0@ != k by {
                        let mm: int = if m < i { m } else { m + 1 };
                        assert(rs[m] == pre[mm]);
                        if mm < i {
                            assert(pre[mm].0@ != pre[i as int].0@);
                        } else {
                            assert(pre[i as int].0@ != pre[mm].0@);
                        }
                    }
                }
                self.entries.remove(i);
            },
            None => {},
        }
        let ghost s1 = self.entries@;
        proof {
            lemma_no_key(s1, k);
        }
        self.entries.push((path, contents));
        proof {
            let s2 = self.entries@;
            assert(s2.drop_last() =~= s1);
            assert forall|m: int, n: int|
                0 <= m < n < s2.len() implies s2[m].0@ != s2[n].0@ by {
                if n < s2.len() - 1 {
                    assert(s2[m] == s1[m]);
                    assert(s2[n] == s1[n]);
                } else {
                    assert(s2[m] == s1[m]);
                    assert(s2[n].0@ == k);
                    assert(s1[m].0@ != k);
                }
            }
            assert(old(self)@.remove(k).insert(k, contents@) =~= old(self)@.insert(
                k,
                contents@,
            ));
        }
    }

    /// The bytes stored under `path`, or nothing when no such file exists.
    pub fn download(&self, path: &String) -> (r: Option<&Vec<u8>>)
        requires
            self.wf(),
        ensures
            match r {
                Some(contents) => self@.contains_key(path@) && contents@ == self@[path@],
                None => !self@.contains_key(path@),
            },
    {
        match self.find(path) {
            Some(i) => {
                proof {
                    lemma_get(self.entries@, i as int);
                }
                Some(&self.entries[i].1)
            },
            None => {
                proof {
                    lemma_no_key(self.entries@, path@);
                }
                None
            },
        }
    }

    /// Removes the file stored under `path`; reports whether one was there.
    pub fn delete(&mut self, path: &String) -> (r: bool)
        requires
            old(self).wf(),
        ensures
            final(self).wf(),
            r == old(self)@.contains_key(path@),
            final(self)@ == old(self)@.remove(path@),
    {
        match self.find(path) {
            Some(i) => {
                let ghost pre = self.entries@;
                proof {
                    lemma_get(pre, i as int);
                    lemma_remove(pre, i as int);
                    pre.remove_ensures(i as int);
                    let rs = pre.remove(i as int);
                    assert forall|m: int, n: int|
                        0 <= m < n < rs.len() implies rs[m].0@ != rs[n].0@ by {
                        let mm: int = if m < i { m } else { m + 1 };
                        let nn: int = if n < i { n } else { n + 1 };
                        assert(rs[m] == pre[mm]);
                        assert(rs[n] == pre[nn]);
                        assert(pre[mm].0@ != pre[nn].0@);
                    }
                }
                self.entries.remove(i);
                true
            },
            None => {
                proof {
                    lemma_no_key(self.entries@, path@);
                    assert(self@.remove(path@) =~= self@);
                }
                false
            },
        }
    }

    /// Every stored path, in insertion order.
    pub fn list_paths(&self) -> (r: Vec<String>)
        requires
            self.wf(),
        ensures
            r@.map_values(|p: String| p@) == self.paths(),
    {
        let mut r: Vec<String> = Vec::new();
        let mut i: usize = 0;
        while i < self.entries.len()
            invariant
                i <= self.entries@.len(),
                r@.len() == i,
                forall|j: int| 0 <= j < i ==> r@[j]@ == self.entries@[j].0@,
            decreases self.entries@.len() - i,
        {
            r.push(self.entries[i].0.clone());
            i += 1;
        }
        proof {
            assert(r@.map_values(|p: String| p@) =~= self.paths());
        }
        r
    }
}

} // verus!
