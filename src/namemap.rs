//! A small map from names to values that keeps the order of insertion.
use vstd::prelude::*;

verus! {

/// Index of the first entry named `k`.
pub open spec fn key_index<T>(s: Seq<(Seq<char>, T)>, k: Seq<char>) -> Option<int>
    decreases s.len(),
{
    if s.len() == 0 {
        None
    } else if s[0].0 == k {
        Some(0)
    } else {
        match key_index(s.drop_first(), k) {
            Some(i) => Some(i + 1),
            None => None,
        }
    }
}

pub open spec fn has_key<T>(s: Seq<(Seq<char>, T)>, k: Seq<char>) -> bool {
    key_index(s, k) is Some
}

/// The value of the first entry named `k`.
pub open spec fn lookup<T>(s: Seq<(Seq<char>, T)>, k: Seq<char>) -> Option<T> {
    match key_index(s, k) {
        Some(i) => Some(s[i].1),
        None => None,
    }
}

/// Adds `(k, v)` unless an entry named `k` is there already.
pub open spec fn with_absent<T>(s: Seq<(Seq<char>, T)>, k: Seq<char>, v: T) -> Seq<
    (Seq<char>, T),
> {
    if has_key(s, k) {
        s
    } else {
        s.push((k, v))
    }
}

/// Sets the value of `k` to `v`, adding the entry when it is missing.
pub open spec fn with_put<T>(s: Seq<(Seq<char>, T)>, k: Seq<char>, v: T) -> Seq<(Seq<char>, T)> {
    match key_index(s, k) {
        Some(i) => s.update(i, (k, v)),
        None => s.push((k, v)),
    }
}

pub proof fn lemma_key_index<T>(s: Seq<(Seq<char>, T)>, k: Seq<char>)
    ensures
        match key_index(s, k) {
            Some(i) => 0 <= i < s.len() && s[i].0 == k && forall|j: int|
                0 <= j < i ==> s[j].0 != k,
            None => forall|j: int| 0 <= j < s.len() ==> s[j].0 != k,
        },
    decreases s.len(),
{
    if s.len() > 0 && s[0].0 != k {
        lemma_key_index(s.drop_first(), k);
        assert forall|j: int| 0 < j < s.len() implies s[j] == s.drop_first()[j - 1] by {}
    }
}

pub proof fn lemma_key_index_unique<T>(s: Seq<(Seq<char>, T)>, k: Seq<char>, i: int)
    requires
        0 <= i < s.len(),
        s[i].0 == k,
        forall|j: int| 0 <= j < i ==> s[j].0 != k,
    ensures
        key_index(s, k) == Some(i),
{
    lemma_key_index(s, k);
    match key_index(s, k) {
        Some(m) => {
            if m < i {
                assert(s[m].0 != k);
            }
            if i < m {
                assert(s[i].0 != k);
            }
        },
        None => {
            assert(s[i].0 != k);
        },
    }
}

pub open spec fn entries_view<T>(v: Seq<(String, T)>) -> Seq<(Seq<char>, T)> {
    v.map_values(|e: (String, T)| (e.0@, e.1))
}

pub proof fn lemma_entries_view_push<T>(v: Seq<(String, T)>, x: (String, T))
    ensures
        entries_view(v.push(x)) == entries_view(v).push((x.0@, x.1)),
{
    assert(entries_view(v.push(x)) =~= entries_view(v).push((x.0@, x.1)));
}

/// Names and values, in the order in which the names were first added.
#[derive(Debug)]
pub struct NameMap<T> {
    entries: Vec<(String, T)>,
}

impl<T> View for NameMap<T> {
    type V = Seq<(Seq<char>, T)>;

    closed spec fn view(&self) -> Seq<(Seq<char>, T)> {
        entries_view(self.entries@)
    }
}

impl<T: Copy> NameMap<T> {
    pub fn new() -> (r: Self)
        ensures
            r@ == Seq::<(Seq<char>, T)>::empty(),
    {
        let r = NameMap { entries: Vec::new() };
        assert(r@ =~= Seq::<(Seq<char>, T)>::empty());
        r
    }

    pub fn len(&self) -> (r: usize)
        ensures
            r == self@.len(),
    {
        self.entries.len()
    }

    fn find(&self, name: &String) -> (r: Option<usize>)
        ensures
            match r {
                Some(i) => i < self.entries@.len() && key_index(self@, name@) == Some(i as int),
                None => key_index(self@, name@) == None::<int>,
            },
    {
        proof {
            lemma_key_index(self@, name@);
        }
        let mut i: usize = 0;
        while i < self.entries.len()
            invariant
                i <= self.entries@.len(),
                self@ == entries_view(self.entries@),
                forall|j: int| 0 <= j < i ==> self@[j].0 != name@,
            decreases self.entries@.len() - i,
        {
            if self.entries[i].0 == *name {
                proof {
                    lemma_key_index_unique(self@, name@, i as int);
                }
                return Some(i);
            }
            i = i + 1;
        }
        proof {
            match key_index(self@, name@) {
                Some(m) => {
                    assert(self@[m].0 != name@);
                },
                None => {},
            }
        }
        None
    }

    /// The value stored under `name`.
    pub fn get(&self, name: &str) -> (r: Option<T>)
        ensures
            r == lookup(self@, name@),
    {
        let key = name.to_owned();
        match self.find(&key) {
            Some(i) => Some(self.entries[i].1),
            None => None,
        }
    }

    pub fn contains_key(&self, name: &str) -> (r: bool)
        ensures
            r == has_key(self@, name@),
    {
        let key = name.to_owned();
        self.find(&key).is_some()
    }

    /// Adds `name` with `value` unless the name is there already.
    pub fn insert_if_absent(&mut self, name: String, value: T)
        ensures
            final(self)@ == with_absent(old(self)@, name@, value),
    {
        match self.find(&name) {
            Some(_) => {},
            None => {
                self.entries.push((name, value));
                assert(self@ =~= old(self)@.push((name@, value)));
            },
        }
    }

    /// Sets the value of `name`, adding it when it is missing.
    pub fn insert(&mut self, name: String, value: T)
        ensures
            final(self)@ == with_put(old(self)@, name@, value),
    {
        match self.find(&name) {
            Some(i) => {
                self.entries.set(i, (name, value));
                assert(self@ =~= old(self)@.update(i as int, (name@, value)));
            },
            None => {
                self.entries.push((name, value));
                assert(self@ =~= old(self)@.push((name@, value)));
            },
        }
    }

    /// The name of the entry at `i`.
    pub fn name_at(&self, i: usize) -> (r: String)
        requires
            i < self@.len(),
        ensures
            r@ == self@[i as int].0,
    {
        self.entries[i].0.clone()
    }

    /// The value of the entry at `i`.
    pub fn value_at(&self, i: usize) -> (r: T)
        requires
            i < self@.len(),
        ensures
            r == self@[i as int].1,
    {
        self.entries[i].1
    }
}

impl<T: Copy> Clone for NameMap<T> {
    fn clone(&self) -> (r: Self)
        ensures
            r@ == self@,
    {
        let mut entries: Vec<(String, T)> = Vec::new();
        let mut i: usize = 0;
        while i < self.entries.len()
            invariant
                i <= self.entries@.len(),
                entries_view(entries@) == entries_view(self.entries@.subrange(0, i as int)),
            decreases self.entries@.len() - i,
        {
            let name = self.entries[i].0.clone();
            let ghost before = entries@;
            entries.push((name, self.entries[i].1));
            assert(entries@ == before.push((name, self.entries@[i as int].1)));
            assert(self.entries@.subrange(0, i + 1) == self.entries@.subrange(0, i as int).push(
                self.entries@[i as int],
            ));
            proof {
                lemma_entries_view_push(before, (name, self.entries@[i as int].1));
                lemma_entries_view_push(
                    self.entries@.subrange(0, i as int),
                    self.entries@[i as int],
                );
            }
            i = i + 1;
        }
        assert(self.entries@.subrange(0, self.entries@.len() as int) == self.entries@);
        NameMap { entries }
    }
}

} // verus!
