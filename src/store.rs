use vstd::prelude::*;

use crate::key::Key;

verus! {

/// A table from addresses to values, kept as a vector of entries whose
/// addresses are pairwise distinct.
pub struct KeyedStore<V> {
    pub entries: Vec<(Key, V)>,
}

/// The table an entry sequence stands for.
pub open spec fn map_of<V>(s: Seq<(Key, V)>) -> Map<Seq<u8>, V>
    decreases s.len(),
{
    if s.len() == 0 {
        Map::empty()
    } else {
        map_of(s.drop_last()).insert(s.last().0@, s.last().1)
    }
}

pub open spec fn keys_unique<V>(s: Seq<(Key, V)>) -> bool {
    forall|i: int, j: int| 0 <= i < j < s.len() ==> s[i].0@ != s[j].0@
}

proof fn lemma_map_of_entry<V>(s: Seq<(Key, V)>, i: int)
    requires
        keys_unique(s),
        0 <= i < s.len(),
    ensures
        map_of(s).contains_key(s[i].0@),
        map_of(s)[s[i].0@] == s[i].1,
    decreases s.len(),
{
    if i < s.len() - 1 {
        lemma_map_of_entry(s.drop_last(), i);
    }
}

proof fn lemma_map_of_absent<V>(s: Seq<(Key, V)>, k: Seq<u8>)
    requires
        forall|i: int| 0 <= i < s.len() ==> s[i].0@ != k,
    ensures
        !map_of(s).contains_key(k),
    decreases s.len(),
{
    if s.len() > 0 {
        lemma_map_of_absent(s.drop_last(), k);
    }
}

/// Both sequences hold unique keys and agree, key by key, with `m`.
proof fn lemma_map_of_equal<V>(s: Seq<(Key, V)>, m: Map<Seq<u8>, V>)
    requires
        keys_unique(s),
        forall|i: int| 0 <= i < s.len() ==> #[trigger] m.contains_key(s[i].0@) && m[s[i].0@] == s[i].1,
        forall|k: Seq<u8>| m.contains_key(k) ==> exists|i: int| 0 <= i < s.len() && s[i].0@ == k,
    ensures
        map_of(s) == m,
{
    assert forall|k: Seq<u8>| #[trigger] map_of(s).contains_key(k) == m.contains_key(k) && (m.contains_key(k) ==> map_of(s)[k] == m[k]) by {
        if m.contains_key(k) {
            let i = choose|i: int| 0 <= i < s.len() && s[i].0@ == k;
            lemma_map_of_entry(s, i);
        } else {
            assert forall|i: int| 0 <= i < s.len() implies s[i].0@ != k by {
                if s[i].0@ == k {
                    assert(m.contains_key(s[i].0@));
                }
            }
            lemma_map_of_absent(s, k);
        }
    }
    assert(map_of(s) =~= m);
}

impl<V: Copy> KeyedStore<V> {
    pub closed spec fn view(&self) -> Map<Seq<u8>, V> {
        map_of(self.entries@)
    }

    pub closed spec fn wf(&self) -> bool {
        keys_unique(self.entries@)
    }

    pub fn new() -> (r: Self)
        ensures
            r.wf(),
            r.view() == Map::<Seq<u8>, V>::empty(),
    {
        KeyedStore { entries: Vec::new() }
    }

    fn index_of(&self, k: &Key) -> (r: Option<usize>)
        ensures
            match r {
                Some(i) => i < self.entries@.len() && self.entries@[i as int].0@ == k@,
                None => forall|j: int| 0 <= j < self.entries@.len() ==> self.entries@[j].0@ != k@,
            },
    {
        let mut i: usize = 0;
        while i < self.entries.len()
            invariant
                i <= self.entries@.len(),
                forall|j: int| 0 <= j < i ==> self.entries@[j].0@ != k@,
            decreases self.entries@.len() - i,
        {
            if self.entries[i].0.equals(k) {
                return Some(i);
            }
            i = i + 1;
        }
        None
    }

    pub fn get(&self, k: &Key) -> (r: Option<V>)
        requires
            self.wf(),
        ensures
            r == (if self.view().contains_key(k@) {
                Some(self.view()[k@])
            } else {
                None
            }),
    {
        match self.index_of(k) {
            Some(i) => {
                proof {
                    lemma_map_of_entry(self.entries@, i as int);
                }
                Some(self.entries[i].1)
            },
            None => {
                proof {
                    lemma_map_of_absent(self.entries@, k@);
                }
                None
            },
        }
    }

    pub fn contains(&self, k: &Key) -> (r: bool)
        requires
            self.wf(),
        ensures
            r == self.view().contains_key(k@),
    {
        self.get(k).is_some()
    }

    pub fn set(&mut self, k: &Key, v: V)
        requires
            old(self).wf(),
        ensures
            final(self).wf(),
            final(self).view() == old(self).view().insert(k@, v),
    {
        let ghost s = self.entries@;
        let ghost m = map_of(s).insert(k@, v);
        match self.index_of(k) {
            Some(i) => {
                self.entries.set(i, (*k, v));
                proof {
                    let t = self.entries@;
                    assert forall|a: int| 0 <= a < t.len() implies #[trigger] m.contains_key(t[a].0@) && m[t[a].0@] == t[a].1 by {
                        if a != i {
                            lemma_map_of_entry(s, a);
                        }
                    }
                    assert forall|kk: Seq<u8>| m.contains_key(kk) implies exists|a: int| 0 <= a < t.len() && t[a].0@ == kk by {
                        if kk != k@ {
                            if forall|a: int| 0 <= a < s.len() ==> s[a].0@ != kk {
                                lemma_map_of_absent(s, kk);
                            }
                            let a = choose|a: int| 0 <= a < s.len() && s[a].0@ == kk;
                            assert(t[a].0@ == kk);
                        } else {
                            assert(t[i as int].0@ == kk);
                        }
                    }
                    lemma_map_of_equal(t, m);
                }
            },
            None => {
                self.entries.push((*k, v));
                proof {
                    assert(self.entries@.drop_last() =~= s);
                }
            },
        }
    }

    pub fn remove(&mut self, k: &Key)
        requires
            old(self).wf(),
        ensures
            final(self).wf(),
            final(self).view() == old(self).view().remove(k@),
    {
        let ghost s = self.entries@;
        let ghost m = map_of(s).remove(k@);
        match self.index_of(k) {
            Some(i) => {
                self.entries.remove(i);
                proof {
                    let t = self.entries@;
                    assert(t =~= s.remove(i as int));
                    assert forall|a: int| 0 <= a < t.len() implies #[trigger] m.contains_key(t[a].0@) && m[t[a].0@] == t[a].1 by {
                        if a < i {
                            assert(s[a].0@ != s[i as int].0@);
                            lemma_map_of_entry(s, a);
                        } else {
                            assert(s[i as int].0@ != s[a + 1].0@);
                            lemma_map_of_entry(s, a + 1);
                        }
                    }
                    assert forall|kk: Seq<u8>| m.contains_key(kk) implies exists|a: int| 0 <= a < t.len() && t[a].0@ == kk by {
                        if forall|a: int| 0 <= a < s.len() ==> s[a].0@ != kk {
                            lemma_map_of_absent(s, kk);
                        }
                        let a = choose|a: int| 0 <= a < s.len() && s[a].0@ == kk;
                        if a < i {
                            assert(t[a].0@ == kk);
                        } else {
                            assert(t[a - 1].0@ == kk);
                        }
                    }
                    lemma_map_of_equal(t, m);
                }
            },
            None => {
                proof {
                    lemma_map_of_absent(s, k@);
                    assert(m =~= map_of(s));
                }
            },
        }
    }
}

} // verus!
