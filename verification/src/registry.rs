//! A table of connected clients keyed by their name, each with a value
//! (for a server: the channel that reaches the client).

use vstd::prelude::*;
use crate::text::{same_text, views};

verus! {

/// `list` names each element of `set` exactly once, and nothing else.
pub open spec fn lists_exactly(list: Seq<Seq<char>>, set: Set<Seq<char>>) -> bool {
    &&& list.no_duplicates()
    &&& forall|x: Seq<char>| list.contains(x) <==> set.contains(x)
}

/// The names of a list of entries.
pub open spec fn keys<T>(entries: Seq<(String, T)>) -> Seq<Seq<char>> {
    entries.map_values(|e: (String, T)| e.0@)
}

/// `x` is kept when leaving out `skip`.
pub open spec fn kept(skip: Option<&str>, x: Seq<char>) -> bool {
    match skip {
        Some(s) => x != s@,
        None => true,
    }
}

/// Clients keyed by name.
pub struct Registry<T> {
    entries: Vec<(String, T)>,
}

pub(crate) proof fn take_push_contains(s: Seq<Seq<char>>, i: int, y: Seq<char>)
    requires
        0 <= i < s.len(),
    ensures
        s.take(i + 1).contains(y) <==> (s.take(i).contains(y) || s[i] == y),
{
    let t = s.take(i);
    let t1 = s.take(i + 1);
    assert(t1 == t.push(s[i]));
    if t.contains(y) {
        let k = choose|k: int| 0 <= k < t.len() && t[k] == y;
        assert(t1[k] == y);
    }
    if s[i] == y {
        assert(t1[i] == y);
    }
    if t1.contains(y) {
        let k = choose|k: int| 0 <= k < t1.len() && t1[k] == y;
        if k < i {
            assert(t[k] == y);
        }
    }
}

impl<T> Registry<T> {
    /// The clients: each name and its value.
    pub closed spec fn view(&self) -> Map<Seq<char>, T> {
        let ks = keys(self.entries@);
        Map::new(|k: Seq<char>| ks.contains(k), |k: Seq<char>| self.entries@[ks.index_of(k)].1)
    }

    /// No name occurs twice.
    #[verifier::type_invariant]
    spec fn wf(&self) -> bool {
        keys(self.entries@).no_duplicates()
    }

    proof fn lemma_lookup(&self, i: int)
        requires
            self.wf(),
            0 <= i < self.entries@.len(),
        ensures
            self.view().dom().contains(self.entries@[i].0@),
            self.view()[self.entries@[i].0@] == self.entries@[i].1,
    {
        let ks = keys(self.entries@);
        let k = self.entries@[i].0@;
        assert(ks[i] == k);
        let j = ks.index_of(k);
        assert(ks[j] == k);
    }

    /// An empty table.
    pub fn new() -> (r: Self)
        ensures
            r.view() == Map::<Seq<char>, T>::empty(),
    {
        assert(keys(Seq::<(String, T)>::empty()) =~= Seq::<Seq<char>>::empty());
        let r = Registry { entries: Vec::new() };
        assert(r.view() =~= Map::<Seq<char>, T>::empty());
        r
    }

    /// The position of `name`, if present.
    fn find(&self, name: &str) -> (pos: Option<usize>)
        requires
            self.wf(),
        ensures
            match pos {
                Some(i) => i < self.entries@.len() && self.entries@[i as int].0@ == name@,
                None => !self.view().dom().contains(name@),
            },
    {
        let ghost ks = keys(self.entries@);
        let mut i: usize = 0;
        while i < self.entries.len()
            invariant
                i <= self.entries@.len(),
                ks == keys(self.entries@),
                forall|k: int| 0 <= k < i ==> ks[k] != name@,
            decreases self.entries@.len() - i,
        {
            if same_text(self.entries[i].0.as_str(), name) {
                return Some(i);
            }
            i = i + 1;
        }
        assert(!ks.contains(name@));
        None
    }

    /// Is `name` in the table.
    pub fn contains(&self, name: &str) -> (r: bool)
        ensures
            r == self.view().dom().contains(name@),
    {
        proof {
            use_type_invariant(self);
        }
        match self.find(name) {
            Some(i) => {
                proof {
                    self.lemma_lookup(i as int);
                }
                true
            },
            None => false,
        }
    }

    /// The value of `name`, if present.
    pub fn get(&self, name: &str) -> (r: Option<&T>)
        ensures
            match r {
                Some(v) => self.view().dom().contains(name@) && *v == self.view()[name@],
                None => !self.view().dom().contains(name@),
            },
    {
        proof {
            use_type_invariant(self);
        }
        match self.find(name) {
            Some(i) => {
                proof {
                    self.lemma_lookup(i as int);
                }
                Some(&self.entries[i].1)
            },
            None => None,
        }
    }

    /// Adds `name` with `value`, replacing and returning its previous value.
    pub fn insert(&mut self, name: String, value: T) -> (previous: Option<T>)
        ensures
            final(self).view() == old(self).view().insert(name@, value),
            match previous {
                Some(v) => old(self).view().dom().contains(name@) && v == old(self).view()[name@],
                None => !old(self).view().dom().contains(name@),
            },
    {
        proof {
            use_type_invariant(&*self);
        }
        let ghost old_entries = self.entries@;
        let ghost ks = keys(old_entries);
        match self.find(name.as_str()) {
            Some(i) => {
                proof {
                    self.lemma_lookup(i as int);
                }
                let ghost k = name@;
                let mut entries: Vec<(String, T)> = Vec::new();
                std::mem::swap(&mut entries, &mut self.entries);
                let (_, old_value) = entries.remove(i);
                entries.insert(i, (name, value));
                let ghost nks = keys(entries@);
                proof {
                    assert(entries@ == old_entries.update(i as int, entries@[i as int]));
                    assert(nks == ks.update(i as int, k));
                    assert(ks[i as int] == k);
                    assert(nks =~= ks);
                }
                self.entries = entries;
                proof {
                    assert forall|x: Seq<char>| #![auto] nks.contains(x) implies
                        self.entries@[nks.index_of(x)].1 == old(self).view().insert(k, value)[x] by {
                        let j = nks.index_of(x);
                        if x == k {
                            assert(nks[i as int] == k);
                        } else {
                            assert(ks.index_of(x) == j);
                        }
                    }
                    assert(self.view() =~= old(self).view().insert(k, value));
                }
                Some(old_value)
            },
            None => {
                let ghost k = name@;
                let mut entries: Vec<(String, T)> = Vec::new();
                std::mem::swap(&mut entries, &mut self.entries);
                entries.push((name, value));
                let ghost nks = keys(entries@);
                proof {
                    assert(nks == ks.push(k));
                    assert(!ks.contains(k));
                    assert forall|a: int, b: int| 0 <= a < nks.len() && 0 <= b < nks.len() && a != b
                        implies nks[a] != nks[b] by {
                        if a == ks.len() {
                            assert(ks[b] == nks[b]);
                        } else if b == ks.len() {
                            assert(ks[a] == nks[a]);
                        }
                    }
                }
                self.entries = entries;
                proof {
                    assert forall|x: Seq<char>| nks.contains(x) <==> (ks.contains(x) || x == k) by {
                        if ks.contains(x) {
                            let j = choose|j: int| 0 <= j < ks.len() && ks[j] == x;
                            assert(nks[j] == x);
                        }
                        if x == k {
                            assert(nks[ks.len() as int] == x);
                        }
                        if nks.contains(x) && x != k {
                            let j = choose|j: int| 0 <= j < nks.len() && nks[j] == x;
                            assert(ks[j] == x);
                        }
                    }
                    assert forall|x: Seq<char>| #![auto] nks.contains(x) implies
                        self.entries@[nks.index_of(x)].1 == old(self).view().insert(k, value)[x] by {
                        let j = nks.index_of(x);
                        if x == k {
                            assert(nks[ks.len() as int] == k);
                        } else {
                            let j0 = ks.index_of(x);
                            assert(nks[j0] == x);
                        }
                    }
                    assert(self.view() =~= old(self).view().insert(k, value));
                }
                None
            },
        }
    }

    /// Removes `name`, returning its value.
    pub fn remove(&mut self, name: &str) -> (removed: Option<T>)
        ensures
            final(self).view() == old(self).view().remove(name@),
            match removed {
                Some(v) => old(self).view().dom().contains(name@) && v == old(self).view()[name@],
                None => !old(self).view().dom().contains(name@),
            },
    {
        proof {
            use_type_invariant(&*self);
        }
        let ghost old_entries = self.entries@;
        let ghost ks = keys(old_entries);
        match self.find(name) {
            Some(i) => {
                proof {
                    self.lemma_lookup(i as int);
                }
                let mut entries: Vec<(String, T)> = Vec::new();
                std::mem::swap(&mut entries, &mut self.entries);
                let (_, v) = entries.remove(i);
                let ghost nks = keys(entries@);
                proof {
                    assert(entries@ == old_entries.remove(i as int));
                    assert(nks =~= ks.remove(i as int));
                    assert(ks[i as int] == name@);
                    assert forall|a: int, b: int| 0 <= a < nks.len() && 0 <= b < nks.len() && a != b
                        implies nks[a] != nks[b] by {
                        let a0 = if a < i { a } else { a + 1 };
                        let b0 = if b < i { b } else { b + 1 };
                        assert(nks[a] == ks[a0]);
                        assert(nks[b] == ks[b0]);
                    }
                }
                self.entries = entries;
                proof {
                    assert forall|x: Seq<char>| nks.contains(x) <==> (ks.contains(x) && x != name@) by {
                        if nks.contains(x) {
                            let j = choose|j: int| 0 <= j < nks.len() && nks[j] == x;
                            let j0 = if j < i { j } else { j + 1 };
                            assert(ks[j0] == x);
                            assert(j0 != i);
                        }
                        if ks.contains(x) && x != name@ {
                            let j = choose|j: int| 0 <= j < ks.len() && ks[j] == x;
                            assert(j != i);
                            let j1 = if j < i { j } else { j - 1 };
                            assert(nks[j1] == x);
                        }
                    }
                    assert forall|x: Seq<char>| #![auto] nks.contains(x) implies
                        self.entries@[nks.index_of(x)].1 == old(self).view()[x] by {
                        let j = nks.index_of(x);
                        assert(nks[j] == x);
                        let j0 = if j < i { j } else { j + 1 };
                        assert(ks[j0] == x);
                        assert(ks.contains(x));
                        let j2 = ks.index_of(x);
                        assert(ks[j2] == x);
                        assert(j2 == j0);
                        assert(self.entries@[j] == old_entries[j0]);
                    }
                    assert(self.view() =~= old(self).view().remove(name@));
                }
                Some(v)
            },
            None => {
                assert(self.view() =~= old(self).view().remove(name@));
                None
            },
        }
    }

    /// The names in the table, each once.
    pub fn names(&self) -> (names: Vec<String>)
        ensures
            lists_exactly(views(names@), self.view().dom()),
    {
        proof {
            use_type_invariant(self);
        }
        self.names_except_impl(None)
    }

    /// The names in the table other than `name`, each once.
    pub fn names_except(&self, name: &str) -> (names: Vec<String>)
        ensures
            lists_exactly(views(names@), self.view().dom().remove(name@)),
    {
        proof {
            use_type_invariant(self);
        }
        self.names_except_impl(Some(name))
    }

    fn names_except_impl(&self, skip: Option<&str>) -> (names: Vec<String>)
        requires
            self.wf(),
        ensures
            match skip {
                Some(s) => lists_exactly(views(names@), self.view().dom().remove(s@)),
                None => lists_exactly(views(names@), self.view().dom()),
            },
    {
        let ghost ks = keys(self.entries@);
        let mut names: Vec<String> = Vec::new();
        let mut i: usize = 0;
        while i < self.entries.len()
            invariant
                i <= self.entries@.len(),
                ks == keys(self.entries@),
                ks.no_duplicates(),
                views(names@).no_duplicates(),
                forall|x: Seq<char>|
                    #![trigger views(names@).contains(x)]
                    #![trigger ks.take(i as int).contains(x)]
                    views(names@).contains(x) <==> (ks.take(i as int).contains(x) && kept(skip, x)),
            decreases self.entries@.len() - i,
        {
            let keep = match skip {
                Some(s) => !same_text(self.entries[i].0.as_str(), s),
                None => true,
            };
            let ghost before = views(names@);
            let ghost e = ks[i as int];
            assert(e == self.entries@[i as int].0@);
            assert(keep == kept(skip, e));
            if keep {
                names.push(self.entries[i].0.clone());
            }
            proof {
                assert(ks[i as int] == self.entries@[i as int].0@);
                assert forall|x: Seq<char>| #![auto] true implies (ks.take(i + 1).contains(x) <==> (ks.take(i as int).contains(x) || ks[i as int] == x)) by {
                    take_push_contains(ks, i as int, x);
                }
                if keep {
                    assert(views(names@) == before.push(e));
                    assert(!before.contains(e)) by {
                        if before.contains(e) {
                            assert(ks.take(i as int).contains(e));
                            let k = choose|k: int| 0 <= k < i && ks.take(i as int)[k] == e;
                            assert(ks[k] == ks[i as int]);
                        }
                    }
                    assert forall|a: int, b: int| 0 <= a < views(names@).len() && 0 <= b < views(names@).len() && a != b
                        implies views(names@)[a] != views(names@)[b] by {
                        if a == before.len() {
                            assert(before.contains(views(names@)[b]) ==> views(names@)[b] != e);
                            assert(views(names@)[b] == before[b]);
                        } else if b == before.len() {
                            assert(views(names@)[a] == before[a]);
                        } else {
                            assert(views(names@)[a] == before[a]);
                            assert(views(names@)[b] == before[b]);
                        }
                    }
                    assert forall|x: Seq<char>| views(names@).contains(x) <==> (before.contains(x) || x == e) by {
                        if before.contains(x) {
                            let j = choose|j: int| 0 <= j < before.len() && before[j] == x;
                            assert(views(names@)[j] == x);
                        }
                        if x == e {
                            assert(views(names@)[before.len() as int] == x);
                        }
                        if views(names@).contains(x) && x != e {
                            let j = choose|j: int| 0 <= j < views(names@).len() && views(names@)[j] == x;
                            assert(before[j] == x);
                        }
                    }
                } else {
                    assert(views(names@) == before);
                    assert(!kept(skip, e));
                }
                assert forall|x: Seq<char>|
                    #![trigger views(names@).contains(x)]
                    #![trigger ks.take(i + 1).contains(x)]
                    views(names@).contains(x) <==> (ks.take(i + 1).contains(x) && kept(skip, x)) by {
                    take_push_contains(ks, i as int, x);
                    assert(before.contains(x) <==> (ks.take(i as int).contains(x) && kept(skip, x)));
                    if keep {
                        assert(views(names@).contains(x) <==> (before.contains(x) || x == e));
                    }
                }
            }
            i = i + 1;
        }
        assert(ks.take(self.entries@.len() as int) =~= ks);
        assert forall|x: Seq<char>| views(names@).contains(x) <==> match skip {
            Some(s) => self.view().dom().remove(s@).contains(x),
            None => self.view().dom().contains(x),
        } by {
            assert(self.view().dom().contains(x) <==> ks.contains(x));
            assert(views(names@).contains(x) <==> (ks.contains(x) && kept(skip, x)));
        }
        names
    }
}

} // verus!
