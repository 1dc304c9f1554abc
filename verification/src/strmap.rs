use vstd::prelude::*;

verus! {

/// No two entries carry the same key.
pub open spec fn entries_distinct<V>(entries: Seq<(String, V)>) -> bool {
    forall|i: int, j: int|
        #![trigger entries[i], entries[j]]
        0 <= i < entries.len() && 0 <= j < entries.len() && i != j ==> entries[i].0@ != entries[j].0@
}

/// Some entry carries the key `k`.
pub open spec fn entries_have_key<V>(entries: Seq<(String, V)>, k: Seq<char>) -> bool {
    exists|i: int| 0 <= i < entries.len() && #[trigger] entries[i].0@ == k
}

/// The map that a list of entries with distinct keys stands for.
pub open spec fn entries_view<V: View>(entries: Seq<(String, V)>) -> Map<Seq<char>, V::V> {
    Map::new(
        |k: Seq<char>| entries_have_key(entries, k),
        |k: Seq<char>| entries[choose|i: int| 0 <= i < entries.len() && #[trigger] entries[i].0@ == k].1@,
    )
}

proof fn lemma_view_at<V: View>(entries: Seq<(String, V)>, i: int)
    requires
        entries_distinct(entries),
        0 <= i < entries.len(),
    ensures
        entries_view(entries).contains_key(entries[i].0@),
        entries_view(entries)[entries[i].0@] == entries[i].1@,
{
    let k = entries[i].0@;
    assert(entries_have_key(entries, k));
    let j = choose|j: int| 0 <= j < entries.len() && #[trigger] entries[j].0@ == k;
    assert(entries[j].0@ == k);
    if j != i {
        assert(entries[i].0@ != entries[j].0@);
    }
}

proof fn lemma_view_absent<V: View>(entries: Seq<(String, V)>, k: Seq<char>)
    requires
        forall|i: int| 0 <= i < entries.len() ==> (#[trigger] entries[i]).0@ != k,
    ensures
        !entries_view(entries).contains_key(k),
{
    if entries_have_key(entries, k) {
        let j = choose|j: int| 0 <= j < entries.len() && #[trigger] entries[j].0@ == k;
        assert(entries[j].0@ != k);
    }
}

/// A string-keyed map, such as the labels, annotations or data of a
/// Kubernetes object. Each key occurs at most once.
pub struct StrMap<V> {
    entries: Vec<(String, V)>,
}

impl<V> StrMap<V> {
    #[verifier::type_invariant]
    spec fn keys_distinct(self) -> bool {
        entries_distinct(self.entries@)
    }
}

impl<V: View> View for StrMap<V> {
    type V = Map<Seq<char>, V::V>;

    closed spec fn view(&self) -> Map<Seq<char>, V::V> {
        entries_view(self.entries@)
    }
}

impl<V: View> StrMap<V> {
    /// The empty map.
    pub fn new() -> (m: Self)
        ensures
            m@ == Map::<Seq<char>, V::V>::empty(),
    {
        let m = StrMap { entries: Vec::new() };
        proof {
            assert forall|k: Seq<char>| !(#[trigger] m@.contains_key(k)) by {
                lemma_view_absent(m.entries@, k);
            }
            assert(m@ =~= Map::<Seq<char>, V::V>::empty());
        }
        m
    }

    /// Looks up the value stored under `key`.
    pub fn get(&self, key: &String) -> (res: Option<&V>)
        ensures
            res is Some <==> self@.contains_key(key@),
            res matches Some(v) ==> v@ == self@[key@],
    {
        proof {
            use_type_invariant(self);
        }
        let n = self.entries.len();
        let mut i: usize = 0;
        while i < n
            invariant
                n == self.entries@.len(),
                0 <= i <= n,
                entries_distinct(self.entries@),
                forall|j: int| 0 <= j < i ==> (#[trigger] self.entries@[j]).0@ != key@,
            decreases n - i,
        {
            if self.entries[i].0 == *key {
                proof {
                    lemma_view_at(self.entries@, i as int);
                }
                return Some(&self.entries[i].1);
            }
            i = i + 1;
        }
        proof {
            lemma_view_absent(self.entries@, key@);
        }
        None
    }

    /// Stores `value` under `key`, replacing what was stored there before.
    pub fn insert(&mut self, key: String, value: V)
        ensures
            final(self)@ == old(self)@.insert(key@, value@),
    {
        proof {
            use_type_invariant(&*self);
        }
        let ghost old_entries = self.entries@;
        let n = self.entries.len();
        let mut i: usize = 0;
        while i < n
            invariant
                n == self.entries@.len(),
                self.entries@ == old_entries,
                old(self).entries@ == old_entries,
                0 <= i <= n,
                entries_distinct(old_entries),
                forall|j: int| 0 <= j < i ==> (#[trigger] old_entries[j]).0@ != key@,
            decreases n - i,
        {
            if self.entries[i].0 == key {
                let ghost kv = key@;
                let ghost vv = value@;
                let mut entries: Vec<(String, V)> = Vec::new();
                std::mem::swap(&mut entries, &mut self.entries);
                entries.set(i, (key, value));
                proof {
                    let new_entries = entries@;
                    assert(new_entries == old_entries.update(i as int, new_entries[i as int]));
                    assert(entries_distinct(new_entries)) by {
                        assert forall|a: int, b: int|
                            0 <= a < new_entries.len() && 0 <= b < new_entries.len() && a != b
                            implies #[trigger] new_entries[a].0@ != #[trigger] new_entries[b].0@ by {
                            assert(old_entries[a].0@ != old_entries[b].0@);
                        }
                    }
                    lemma_view_at(new_entries, i as int);
                    assert forall|k: Seq<char>| k != kv && (#[trigger] entries_have_key(new_entries, k) || entries_have_key(old_entries, k)) implies
                        (entries_view(new_entries).contains_key(k) == entries_view(old_entries).contains_key(k))
                        && (entries_view(old_entries).contains_key(k) ==> entries_view(new_entries)[k] == entries_view(old_entries)[k])
                    by {
                        if entries_view(old_entries).contains_key(k) {
                            let j = choose|j: int| 0 <= j < old_entries.len() && #[trigger] old_entries[j].0@ == k;
                            lemma_view_at(old_entries, j);
                            assert(j != i);
                            assert(new_entries[j] == old_entries[j]);
                            lemma_view_at(new_entries, j);
                        } else {
                            assert forall|j: int| 0 <= j < new_entries.len() implies (#[trigger] new_entries[j]).0@ != k by {
                                if j != i {
                                    assert(new_entries[j] == old_entries[j]);
                                    if old_entries[j].0@ == k {
                                        lemma_view_at(old_entries, j);
                                    }
                                }
                            }
                            lemma_view_absent(new_entries, k);
                        }
                    }
                    lemma_view_at(old_entries, i as int);
                    assert(entries_view(new_entries) =~= entries_view(old_entries).insert(kv, vv));
                }
                self.entries = entries;
                return;
            }
            i = i + 1;
        }
        let ghost kv = key@;
        let ghost vv = value@;
        let mut entries: Vec<(String, V)> = Vec::new();
        std::mem::swap(&mut entries, &mut self.entries);
        entries.push((key, value));
        proof {
            let new_entries = entries@;
            assert(new_entries == old_entries.push(new_entries[n as int]));
            assert(entries_distinct(new_entries)) by {
                assert forall|a: int, b: int|
                    0 <= a < new_entries.len() && 0 <= b < new_entries.len() && a != b
                    implies #[trigger] new_entries[a].0@ != #[trigger] new_entries[b].0@ by {
                    if a < n && b < n {
                        assert(old_entries[a].0@ != old_entries[b].0@);
                    } else if a < n {
                        assert(old_entries[a].0@ != kv);
                    } else {
                        assert(old_entries[b].0@ != kv);
                    }
                }
            }
            lemma_view_at(new_entries, n as int);
            assert forall|k: Seq<char>| k != kv && (#[trigger] entries_have_key(new_entries, k) || entries_have_key(old_entries, k)) implies
                (entries_view(new_entries).contains_key(k) == entries_view(old_entries).contains_key(k))
                && (entries_view(old_entries).contains_key(k) ==> entries_view(new_entries)[k] == entries_view(old_entries)[k])
            by {
                if entries_view(old_entries).contains_key(k) {
                    let j = choose|j: int| 0 <= j < old_entries.len() && #[trigger] old_entries[j].0@ == k;
                    lemma_view_at(old_entries, j);
                    assert(new_entries[j] == old_entries[j]);
                    lemma_view_at(new_entries, j);
                } else {
                    assert forall|j: int| 0 <= j < new_entries.len() implies (#[trigger] new_entries[j]).0@ != k by {
                        if j < n {
                            assert(new_entries[j] == old_entries[j]);
                            if old_entries[j].0@ == k {
                                lemma_view_at(old_entries, j);
                            }
                        }
                    }
                    lemma_view_absent(new_entries, k);
                }
            }
            assert(entries_view(new_entries) =~= entries_view(old_entries).insert(kv, vv));
        }
        self.entries = entries;
    }

    /// The entries of the map, each key once.
    pub fn entries(&self) -> (res: &Vec<(String, V)>)
        ensures
            entries_distinct(res@),
            entries_view(res@) == self@,
    {
        proof {
            use_type_invariant(self);
        }
        &self.entries
    }
}

} // verus!
