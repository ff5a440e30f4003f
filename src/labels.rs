//! Static labels: a mapping from label key to value, fixed for every metric
//! that one build produces.

use vstd::prelude::*;

use crate::text::same_text;

verus! {

/// A mapping from label key to value, kept as a list of pairs with distinct
/// keys in the order in which keys were first inserted.
pub struct StaticLabels {
    pub(crate) entries: Vec<(String, String)>,
    model: Ghost<Map<Seq<char>, Seq<char>>>,
}

impl StaticLabels {
    #[verifier::type_invariant]
    spec fn inv(&self) -> bool {
        pairs_match(self.entries@, self.model@)
    }

    /// The mapping.
    pub closed spec fn view(&self) -> Map<Seq<char>, Seq<char>> {
        self.model@
    }

    /// The empty mapping.
    pub fn new() -> (r: StaticLabels)
        ensures
            r.view() == Map::<Seq<char>, Seq<char>>::empty(),
    {
        StaticLabels { entries: Vec::new(), model: Ghost(Map::empty()) }
    }

    /// Map `key` to `value`, replacing any earlier value of `key`.
    pub fn insert(self, key: String, value: String) -> (r: StaticLabels)
        ensures
            r.view() == self.view().insert(key@, value@),
    {
        proof {
            use_type_invariant(&self);
        }
        let ghost old_model = self.model@;
        let mut entries = self.entries;
        let ghost old_entries = entries@;
        let ghost new_model = old_model.insert(key@, value@);
        let n = entries.len();
        let mut i: usize = 0;
        while i < n
            invariant
                n == entries@.len(),
                entries@ == old_entries,
                pairs_match(old_entries, old_model),
                self.model@ == old_model,
                new_model == old_model.insert(key@, value@),
                i <= n,
                forall|j: int| 0 <= j < i ==> entries@[j].0@ != key@,
            decreases n - i,
        {
            if same_text(entries[i].0.as_str(), key.as_str()) {
                let k = entries[i].0.clone();
                entries.set(i, (k, value));
                proof {
                    assert forall|j: int| 0 <= j < entries@.len() implies #[trigger]
                        new_model.contains_key(entries@[j].0@) && new_model[entries@[j].0@]
                        == entries@[j].1@ by {
                        assert(old_model.contains_key(old_entries[j].0@));
                        if j < i {
                            assert(old_entries[j].0@ != old_entries[i as int].0@);
                        } else if j > i {
                            assert(old_entries[i as int].0@ != old_entries[j].0@);
                        }
                    }
                    assert forall|k2: Seq<char>| #[trigger]
                        new_model.contains_key(k2) implies exists|j: int|
                        0 <= j < entries@.len() && entries@[j].0@ == k2 by {
                        if k2 == key@ {
                            assert(entries@[i as int].0@ == k2);
                        } else {
                            let j = choose|j: int|
                                0 <= j < old_entries.len() && old_entries[j].0@ == k2;
                            assert(entries@[j].0@ == k2);
                        }
                    }
                }
                return StaticLabels { entries, model: Ghost(new_model) };
            }
            i = i + 1;
        }
        entries.push((key, value));
        proof {
            let last = old_entries.len() as int;
            assert forall|j: int| 0 <= j < entries@.len() implies #[trigger]
                new_model.contains_key(entries@[j].0@) && new_model[entries@[j].0@]
                == entries@[j].1@ by {
                if j != last {
                    assert(old_model.contains_key(old_entries[j].0@));
                    assert(old_entries[j].0@ != key@);
                }
            }
            assert forall|k2: Seq<char>| #[trigger]
                new_model.contains_key(k2) implies exists|j: int|
                0 <= j < entries@.len() && entries@[j].0@ == k2 by {
                if k2 == key@ {
                    assert(entries@[last].0@ == k2);
                } else {
                    let j = choose|j: int| 0 <= j < old_entries.len() && old_entries[j].0@ == k2;
                    assert(entries@[j].0@ == k2);
                }
            }
        }
        StaticLabels { entries, model: Ghost(new_model) }
    }

    /// Whether `key` is mapped.
    pub fn contains_key(&self, key: &str) -> (r: bool)
        ensures
            r == self.view().contains_key(key@),
    {
        proof {
            use_type_invariant(self);
        }
        let mut i: usize = 0;
        while i < self.entries.len()
            invariant
                i <= self.entries@.len(),
                pairs_match(self.entries@, self.model@),
                forall|j: int| 0 <= j < i ==> self.entries@[j].0@ != key@,
            decreases self.entries@.len() - i,
        {
            if same_text(self.entries[i].0.as_str(), key) {
                proof {
                    assert(self.model@.contains_key(self.entries@[i as int].0@));
                }
                return true;
            }
            i = i + 1;
        }
        false
    }

    /// The pairs, each key once.
    pub fn pairs(&self) -> (r: &Vec<(String, String)>)
        ensures
            r@.len() == self.view().dom().len(),
            forall|i: int|
                0 <= i < r@.len() ==> self.view().contains_key(#[trigger] r@[i].0@)
                    && self.view()[r@[i].0@] == r@[i].1@,
    {
        proof {
            use_type_invariant(self);
            lemma_pairs_len(self.entries@, self.model@);
        }
        &self.entries
    }
}

/// `s` lists each key of `m` once, with its value.
pub open spec fn pairs_match(s: Seq<(String, String)>, m: Map<Seq<char>, Seq<char>>) -> bool {
    &&& forall|i: int, j: int| 0 <= i < j < s.len() ==> s[i].0@ != s[j].0@
    &&& forall|i: int|
        0 <= i < s.len() ==> #[trigger] m.contains_key(s[i].0@) && m[s[i].0@] == s[i].1@
    &&& forall|k: Seq<char>|
        #[trigger] m.contains_key(k) ==> exists|i: int| 0 <= i < s.len() && s[i].0@ == k
}

/// A list of pairs with distinct keys that covers a map's domain has one
/// pair per key.
proof fn lemma_pairs_len(s: Seq<(String, String)>, m: Map<Seq<char>, Seq<char>>)
    requires
        forall|i: int, j: int| 0 <= i < j < s.len() ==> s[i].0@ != s[j].0@,
        forall|i: int| 0 <= i < s.len() ==> #[trigger] m.contains_key(s[i].0@),
        forall|k: Seq<char>|
            #[trigger] m.contains_key(k) ==> exists|i: int| 0 <= i < s.len() && s[i].0@ == k,
    ensures
        s.len() == m.dom().len(),
    decreases s.len(),
{
    let keys = s.map_values(|p: (String, String)| p.0@);
    assert(m.dom() =~= keys.to_set()) by {
        assert forall|k: Seq<char>| m.dom().contains(k) implies keys.to_set().contains(k) by {
            let i = choose|i: int| 0 <= i < s.len() && s[i].0@ == k;
            assert(keys[i] == k);
        }
        assert forall|k: Seq<char>| keys.to_set().contains(k) implies m.dom().contains(k) by {
            let i = choose|i: int| 0 <= i < keys.len() && keys[i] == k;
            assert(m.contains_key(s[i].0@));
        }
    }
    assert(keys.no_duplicates()) by {
        assert forall|i: int, j: int| 0 <= i < keys.len() && 0 <= j < keys.len() && i != j
            implies keys[i] != keys[j] by {
            if i < j {
                assert(s[i].0@ != s[j].0@);
            } else {
                assert(s[j].0@ != s[i].0@);
            }
        }
    }
    keys.unique_seq_to_set();
}

} // verus!
