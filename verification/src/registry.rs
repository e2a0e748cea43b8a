//! An association list from names to values, in which every name occurs once.
//! It stands for the name-keyed maps of the semantic model: models by name,
//! metrics and dimensions of a model by name.

use vstd::prelude::*;
use crate::text::str_eq;

verus! {

/// The map that inserting `entries` one after another, in order, gives: when a name
/// occurs more than once, the last value wins.
pub open spec fn entries_map<V>(entries: Seq<(String, V)>) -> Map<Seq<char>, V>
    decreases entries.len(),
{
    if entries.len() == 0 {
        Map::empty()
    } else {
        let last = entries.last();
        entries_map(entries.drop_last()).insert(last.0@, last.1)
    }
}

/// No name occurs twice in `entries`.
pub open spec fn names_unique<V>(entries: Seq<(String, V)>) -> bool {
    forall|i: int, j: int|
        0 <= i < entries.len() && 0 <= j < entries.len() && i != j ==> entries[i].0@
            != entries[j].0@
}

/// The names of `entries` are exactly the keys of their map, and with unique names
/// each entry's value is the map's value for its name.
pub proof fn lemma_entries_map<V>(entries: Seq<(String, V)>)
    ensures
        forall|k: Seq<char>|
            entries_map(entries).contains_key(k) <==> exists|i: int|
                0 <= i < entries.len() && #[trigger] entries[i].0@ == k,
        entries_map(entries).dom().finite(),
        names_unique(entries) ==> forall|i: int|
            0 <= i < entries.len() ==> entries_map(entries)[#[trigger] entries[i].0@]
                == entries[i].1,
    decreases entries.len(),
{
    if entries.len() > 0 {
        let prefix = entries.drop_last();
        lemma_entries_map(prefix);
        assert forall|k: Seq<char>|
            entries_map(entries).contains_key(k) <==> exists|i: int|
                0 <= i < entries.len() && #[trigger] entries[i].0@ == k by {
            if entries_map(prefix).contains_key(k) {
                let i = choose|i: int| 0 <= i < prefix.len() && #[trigger] prefix[i].0@ == k;
                assert(entries[i].0@ == k);
            }
            if exists|i: int| 0 <= i < entries.len() && #[trigger] entries[i].0@ == k {
                let i = choose|i: int| 0 <= i < entries.len() && #[trigger] entries[i].0@ == k;
                if i < entries.len() - 1 {
                    assert(prefix[i].0@ == k);
                }
            }
        }
        if names_unique(entries) {
            assert(names_unique(prefix));
            assert forall|i: int| 0 <= i < entries.len() implies entries_map(
                entries,
            )[#[trigger] entries[i].0@] == entries[i].1 by {
                if i < entries.len() - 1 {
                    assert(prefix[i].0@ == entries[i].0@);
                }
            }
        }
    }
}

/// Name-keyed values in which every name occurs once.
#[derive(Debug)]
pub struct Registry<V> {
    entries: Vec<(String, V)>,
}

impl<V> View for Registry<V> {
    type V = Map<Seq<char>, V>;

    /// The registered values by name.
    closed spec fn view(&self) -> Map<Seq<char>, V> {
        entries_map(self.entries@)
    }
}

impl<V> Registry<V> {
    #[verifier::type_invariant]
    spec fn unique(self) -> bool {
        names_unique(self.entries@)
    }

    /// Registers `entries` in order; when a name occurs more than once, the last
    /// value wins, as when a map is filled from them.
    pub fn from_entries(entries: Vec<(String, V)>) -> (res: Self)
        ensures
            res@ == entries_map(entries@),
    {
        let mut rest = entries;
        let mut acc: Vec<(String, V)> = Vec::new();
        let ghost all = rest@;
        let n = rest.len();
        let mut k: usize = 0;
        while k < n
            invariant
                n == all.len(),
                k <= n,
                rest@ == all.subrange(k as int, n as int),
                names_unique(acc@),
                entries_map(acc@) == entries_map(all.subrange(0, k as int)),
            decreases n - k,
        {
            let (name, value) = rest.remove(0);
            assert(all.subrange(0, k + 1).drop_last() =~= all.subrange(0, k as int));
            assert(all[k as int] == (name, value));
            proof {
                lemma_entries_map(acc@);
            }
            let found = Self::position(&acc, name.as_str());
            match found {
                Some(j) => {
                    let ghost before = acc@;
                    acc.remove(j);
                    acc.push((name, value));
                    proof {
                        lemma_entries_map(acc@);
                        assert(names_unique(acc@)) by {
                            assert forall|a: int, b: int|
                                0 <= a < acc@.len() && 0 <= b < acc@.len() && a != b implies acc@[a].0@
                                != acc@[b].0@ by {
                                if a < acc@.len() - 1 && b < acc@.len() - 1 {
                                    let a0 = if a < j { a } else { a + 1 };
                                    let b0 = if b < j { b } else { b + 1 };
                                    assert(acc@[a] == before[a0]);
                                    assert(acc@[b] == before[b0]);
                                } else if a < acc@.len() - 1 {
                                    let a0 = if a < j { a } else { a + 1 };
                                    assert(acc@[a] == before[a0]);
                                } else {
                                    let b0 = if b < j { b } else { b + 1 };
                                    assert(acc@[b] == before[b0]);
                                }
                            }
                        }
                        lemma_entries_map(acc@);
                        lemma_entries_map(before);
                        assert(entries_map(acc@) =~= entries_map(before).insert(name@, value)) by {
                            assert forall|key: Seq<char>|
                                #[trigger] entries_map(acc@).contains_key(key)
                                    <==> entries_map(before).insert(name@, value).contains_key(key) by {
                                if entries_map(before).contains_key(key) && key != name@ {
                                    let i = choose|i: int| 0 <= i < before.len() && #[trigger] before[i].0@ == key;
                                    assert(i != j);
                                    let i1 = if i < j { i } else { i - 1 };
                                    assert(acc@[i1] == before[i]);
                                }
                                if entries_map(acc@).contains_key(key) && key != name@ {
                                    let i = choose|i: int| 0 <= i < acc@.len() && #[trigger] acc@[i].0@ == key;
                                    let i0 = if i < j { i } else { i + 1 };
                                    assert(acc@[i] == before[i0]);
                                }
                                assert(acc@[acc@.len() - 1].0@ == name@);
                            }
                            assert forall|key: Seq<char>|
                                #[trigger] entries_map(acc@).contains_key(key) implies entries_map(acc@)[key]
                                    == entries_map(before).insert(name@, value)[key] by {
                                let i = choose|i: int| 0 <= i < acc@.len() && #[trigger] acc@[i].0@ == key;
                                if i < acc@.len() - 1 {
                                    let i0 = if i < j { i } else { i + 1 };
                                    assert(acc@[i] == before[i0]);
                                }
                            }
                        }
                    }
                },
                None => {
                    let ghost before = acc@;
                    acc.push((name, value));
                    proof {
                        assert(acc@.drop_last() =~= before);
                        assert(names_unique(acc@)) by {
                            assert forall|a: int, b: int|
                                0 <= a < acc@.len() && 0 <= b < acc@.len() && a != b implies acc@[a].0@
                                != acc@[b].0@ by {
                                if a == acc@.len() - 1 {
                                    assert(acc@[b] == before[b]);
                                } else if b == acc@.len() - 1 {
                                    assert(acc@[a] == before[a]);
                                } else {
                                    assert(acc@[a] == before[a]);
                                    assert(acc@[b] == before[b]);
                                }
                            }
                        }
                    }
                },
            }
            k = k + 1;
        }
        assert(all.subrange(0, n as int) =~= all);
        Registry { entries: acc }
    }

    /// The position of `name` among `entries`.
    fn position(entries: &Vec<(String, V)>, name: &str) -> (res: Option<usize>)
        ensures
            match res {
                Some(j) => j < entries@.len() && entries@[j as int].0@ == name@,
                None => forall|i: int| 0 <= i < entries@.len() ==> entries@[i].0@ != name@,
            },
    {
        let mut i: usize = 0;
        while i < entries.len()
            invariant
                i <= entries@.len(),
                forall|j: int| 0 <= j < i ==> entries@[j].0@ != name@,
            decreases entries@.len() - i,
        {
            if str_eq(entries[i].0.as_str(), name) {
                return Some(i);
            }
            i = i + 1;
        }
        None
    }

    /// The value registered under `name`.
    pub fn get(&self, name: &str) -> (res: Option<&V>)
        ensures
            match res {
                Some(v) => self@.contains_key(name@) && *v == self@[name@],
                None => !self@.contains_key(name@),
            },
    {
        proof {
            use_type_invariant(self);
            lemma_entries_map(self.entries@);
        }
        match Self::position(&self.entries, name) {
            Some(j) => Some(&self.entries[j].1),
            None => None,
        }
    }

    /// How many names are registered.
    pub fn len(&self) -> (res: usize)
        ensures
            res == self@.len(),
    {
        proof {
            use_type_invariant(self);
            lemma_unique_len(self.entries@);
        }
        self.entries.len()
    }
}

impl<V: Clone> Clone for Registry<V> {
    /// A copy registering the same names, each with a clone of its value.
    fn clone(&self) -> (res: Self)
        ensures
            res@.dom() == self@.dom(),
    {
        proof {
            use_type_invariant(self);
        }
        let mut entries: Vec<(String, V)> = Vec::new();
        let mut i: usize = 0;
        while i < self.entries.len()
            invariant
                names_unique(self.entries@),
                i <= self.entries@.len(),
                entries@.len() == i,
                forall|j: int| 0 <= j < i ==> #[trigger] entries@[j].0@ == self.entries@[j].0@,
            decreases self.entries@.len() - i,
        {
            let name = self.entries[i].0.clone();
            let value = self.entries[i].1.clone();
            entries.push((name, value));
            i = i + 1;
        }
        proof {
            lemma_entries_map(entries@);
            lemma_entries_map(self.entries@);
            assert forall|a: int, b: int|
                0 <= a < entries@.len() && 0 <= b < entries@.len() && a != b implies entries@[a].0@
                != entries@[b].0@ by {
                assert(entries@[a].0@ == self.entries@[a].0@);
                assert(entries@[b].0@ == self.entries@[b].0@);
            }
            assert forall|k: Seq<char>| #[trigger] entries_map(entries@).contains_key(k) <==> entries_map(self.entries@).contains_key(k) by {
                if entries_map(entries@).contains_key(k) {
                    let j = choose|j: int| 0 <= j < entries@.len() && #[trigger] entries@[j].0@ == k;
                    assert(self.entries@[j].0@ == k);
                }
                if entries_map(self.entries@).contains_key(k) {
                    let j = choose|j: int| 0 <= j < self.entries@.len() && #[trigger] self.entries@[j].0@ == k;
                    assert(entries@[j].0@ == k);
                }
            }
            assert(entries_map(entries@).dom() =~= entries_map(self.entries@).dom());
        }
        Registry { entries }
    }
}

/// With unique names, the map has one key per entry.
pub proof fn lemma_unique_len<V>(entries: Seq<(String, V)>)
    requires
        names_unique(entries),
    ensures
        entries_map(entries).len() == entries.len(),
    decreases entries.len(),
{
    if entries.len() > 0 {
        let prefix = entries.drop_last();
        assert(names_unique(prefix));
        lemma_unique_len(prefix);
        lemma_entries_map(prefix);
        let last = entries.last();
        if entries_map(prefix).contains_key(last.0@) {
            let i = choose|i: int| 0 <= i < prefix.len() && #[trigger] prefix[i].0@ == last.0@;
            assert(entries[i].0@ == entries[entries.len() - 1].0@);
        }
    }
}

} // verus!
