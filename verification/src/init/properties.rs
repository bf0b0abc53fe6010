//! Properties of a service record: text values under text keys, each key
//! once.

use vstd::prelude::*;

verus! {

/// A finite map from keys to values, both text.
#[derive(Debug)]
pub struct Properties {
    pub(crate) entries: Vec<(String, String)>,
}

/// Whether no key occurs twice.
pub open spec fn distinct_keys(entries: Seq<(String, String)>) -> bool {
    forall|i: int, j: int|
        0 <= i < j < entries.len() ==> (#[trigger] entries[i]).0@ != (#[trigger] entries[j]).0@
}

/// Whether the entry at `i` has the key `key`.
pub open spec fn holds_at(entries: Seq<(String, String)>, key: Seq<char>, i: int) -> bool {
    0 <= i < entries.len() && entries[i].0@ == key
}

/// The map that a list of entries stands for.
pub open spec fn entries_map(entries: Seq<(String, String)>) -> Map<Seq<char>, Seq<char>> {
    Map::new(
        |key: Seq<char>| exists|i: int| holds_at(entries, key, i),
        |key: Seq<char>| entries[choose|i: int| holds_at(entries, key, i)].1@,
    )
}

impl View for Properties {
    type V = Map<Seq<char>, Seq<char>>;

    closed spec fn view(&self) -> Map<Seq<char>, Seq<char>> {
        entries_map(self.entries@)
    }
}

impl Properties {
    #[verifier::type_invariant]
    spec fn sound(self) -> bool {
        distinct_keys(self.entries@)
    }

    /// No properties.
    pub fn new() -> (r: Self)
        ensures
            r@ == Map::<Seq<char>, Seq<char>>::empty(),
    {
        let r = Properties { entries: Vec::new() };
        assert(entries_map(r.entries@) =~= Map::<Seq<char>, Seq<char>>::empty());
        r
    }

    /// Where the key stands among the entries, if it is there.
    fn find(&self, key: &String) -> (r: Option<usize>)
        ensures
            match r {
                Some(p) => holds_at(self.entries@, key@, p as int),
                None => !self@.contains_key(key@),
            },
    {
        let mut i: usize = 0;
        while i < self.entries.len()
            invariant
                i <= self.entries@.len(),
                forall|j: int| 0 <= j < i ==> !holds_at(self.entries@, key@, j),
            decreases self.entries@.len() - i,
        {
            if self.entries[i].0 == *key {
                return Some(i);
            }
            i += 1;
        }
        None
    }

    /// The value under `key`, if there is one.
    pub fn get(&self, key: &str) -> (r: Option<String>)
        ensures
            match r {
                Some(value) => self@.contains_key(key@) && self@[key@] == value@,
                None => !self@.contains_key(key@),
            },
    {
        proof {
            use_type_invariant(self);
        }
        let owned = key.to_owned();
        match self.find(&owned) {
            Some(p) => {
                proof {
                    let chosen = choose|i: int| holds_at(self.entries@, key@, i);
                    assert(holds_at(self.entries@, key@, p as int));
                    assert(chosen == p);
                }
                Some(self.entries[p].1.clone())
            },
            None => None,
        }
    }

    /// Puts `value` under `key`, in place of the value that was there, if
    /// there was one.
    pub fn insert(&mut self, key: String, value: String)
        ensures
            final(self)@ == old(self)@.insert(key@, value@),
    {
        proof {
            use_type_invariant(&*self);
        }
        let ghost before = self.entries@;
        let found = self.find(&key);
        let mut entries: Vec<(String, String)> = Vec::new();
        std::mem::swap(&mut self.entries, &mut entries);
        match found {
            Some(p) => {
                entries.set(p, (key, value));
            },
            None => {
                entries.push((key, value));
            },
        }
        proof {
            let after = entries@;
            assert forall|i: int, j: int| 0 <= i < j < after.len() implies (#[trigger] after[i]).0@
                != (#[trigger] after[j]).0@ by {
                match found {
                    Some(p) => {
                        assert(holds_at(before, key@, p as int));
                        assert(after[i].0@ == before[i].0@);
                        assert(after[j].0@ == before[j].0@);
                    },
                    None => {
                        assert(!holds_at(before, key@, i));
                        if j < before.len() {
                            assert(after[j] == before[j]);
                        }
                        assert(after[i] == before[i]);
                    },
                }
            }
            assert forall|k: Seq<char>| #[trigger]
                entries_map(after).contains_key(k) <==> entries_map(before).insert(
                    key@,
                    value@,
                ).contains_key(k) by {
                if entries_map(after).contains_key(k) {
                    let i = choose|i: int| holds_at(after, k, i);
                    if k != key@ {
                        assert(holds_at(before, k, i));
                    }
                }
                if entries_map(before).insert(key@, value@).contains_key(k) {
                    if k == key@ {
                        match found {
                            Some(p) => {
                                assert(holds_at(after, k, p as int));
                            },
                            None => {
                                assert(holds_at(after, k, after.len() - 1));
                            },
                        }
                    } else {
                        let i = choose|i: int| holds_at(before, k, i);
                        assert(holds_at(after, k, i));
                    }
                }
            }
            assert forall|k: Seq<char>| #[trigger] entries_map(after).contains_key(k) implies entries_map(
                after,
            )[k] == entries_map(before).insert(key@, value@)[k] by {
                let i = choose|i: int| holds_at(after, k, i);
                assert(holds_at(after, k, i));
                if k == key@ {
                    match found {
                        Some(p) => {
                            assert(holds_at(after, k, p as int));
                            assert(i == p);
                        },
                        None => {
                            assert(holds_at(after, k, after.len() - 1));
                            assert(i == after.len() - 1);
                        },
                    }
                } else {
                    let j = choose|j: int| holds_at(before, k, j);
                    assert(holds_at(before, k, i));
                    assert(holds_at(before, k, j));
                    assert(i == j);
                }
            }
            assert(entries_map(after) =~= entries_map(before).insert(key@, value@));
        }
        self.entries = entries;
    }

    /// A copy with the same values under the same keys.
    pub fn duplicate(&self) -> (r: Self)
        ensures
            r@ == self@,
    {
        proof {
            use_type_invariant(self);
        }
        let mut entries: Vec<(String, String)> = Vec::new();
        let mut i: usize = 0;
        while i < self.entries.len()
            invariant
                i <= self.entries@.len(),
                entries@ == self.entries@.take(i as int),
            decreases self.entries@.len() - i,
        {
            entries.push((self.entries[i].0.clone(), self.entries[i].1.clone()));
            assert(entries@ =~= self.entries@.take(i + 1));
            i += 1;
        }
        assert(entries@ =~= self.entries@);
        Properties { entries }
    }
}

} // verus!
