//! The record of themes installed from git repositories: a map from the
//! theme's folder name to where it came from.

use vstd::prelude::*;

verus! {

/// Where a theme installed from git came from.
#[derive(Clone, Debug)]
pub struct GitThemeInfo {
    pub repo_url: String,
    pub branch: String,
    pub folder_name: String,
}

/// A map from folder names to [`GitThemeInfo`], kept as a list of pairs
/// in which no key occurs twice.
pub struct GitThemes {
    entries: Vec<(String, GitThemeInfo)>,
}

/// Whether some pair has the key `k`.
pub open spec fn has_key(s: Seq<(String, GitThemeInfo)>, k: Seq<char>) -> bool {
    exists|i: int| 0 <= i < s.len() && (#[trigger] s[i]).0@ == k
}

/// No key occurs twice.
pub open spec fn keys_distinct(s: Seq<(String, GitThemeInfo)>) -> bool {
    forall|i: int, j: int| 0 <= i < s.len() && 0 <= j < s.len() && i != j ==> (#[trigger] s[i]).0@ != (#[trigger] s[j]).0@
}

/// The value stored under `k` (meaningful where `has_key(s, k)`).
pub open spec fn value_of(s: Seq<(String, GitThemeInfo)>, k: Seq<char>) -> GitThemeInfo {
    s[choose|i: int| 0 <= i < s.len() && (#[trigger] s[i]).0@ == k].1
}

/// The map that a list of pairs with distinct keys stands for.
pub open spec fn pairs_to_map(s: Seq<(String, GitThemeInfo)>) -> Map<Seq<char>, GitThemeInfo> {
    Map::new(|k: Seq<char>| has_key(s, k), |k: Seq<char>| value_of(s, k))
}

proof fn lemma_value_at(s: Seq<(String, GitThemeInfo)>, i: int)
    requires
        keys_distinct(s),
        0 <= i < s.len(),
    ensures
        has_key(s, s[i].0@),
        pairs_to_map(s).contains_key(s[i].0@),
        pairs_to_map(s)[s[i].0@] == s[i].1,
{
    let k = s[i].0@;
    assert(has_key(s, k));
    let j = choose|j: int| 0 <= j < s.len() && (#[trigger] s[j]).0@ == k;
    assert(s[j].0@ == k);
}

impl View for GitThemes {
    type V = Map<Seq<char>, GitThemeInfo>;

    closed spec fn view(&self) -> Map<Seq<char>, GitThemeInfo> {
        pairs_to_map(self.entries@)
    }
}

/// The listed pairs stand for the whole record: every recorded folder name
/// occurs among them with its record, and nothing else does; with distinct
/// folder names there are as many pairs as records.
pub proof fn law_pairs_are_the_records(t: GitThemes)
    ensures
        pairs_to_map(t.pairs()) == t@,
        forall|k: Seq<char>| #[trigger] t@.contains_key(k) <==> has_key(t.pairs(), k),
        keys_distinct(t.pairs()) ==> t.pairs().len() == t@.len(),
{
    if keys_distinct(t.pairs()) {
        t.lemma_len();
    }
}

impl GitThemes {
    /// The pairs, in the order they are kept.
    pub closed spec fn pairs(&self) -> Seq<(String, GitThemeInfo)> {
        self.entries@
    }

    /// No folder name occurs twice.
    #[verifier::type_invariant]
    spec fn keys_unique(self) -> bool {
        keys_distinct(self.entries@)
    }

    /// An empty record.
    pub fn new() -> (res: Self)
        ensures
            res@ == Map::<Seq<char>, GitThemeInfo>::empty(),
    {
        let res = GitThemes { entries: Vec::new() };
        assert(res@ =~= Map::<Seq<char>, GitThemeInfo>::empty());
        res
    }

    /// Number of recorded themes.
    pub fn len(&self) -> (n: usize)
        ensures
            n == self@.len(),
    {
        proof {
            use_type_invariant(self);
            self.lemma_len();
        }
        self.entries.len()
    }

    proof fn lemma_len(&self)
        requires
            keys_distinct(self.entries@),
        ensures
            self@.dom().finite(),
            self@.len() == self.entries@.len(),
        decreases self.entries@.len(),
    {
        let s = self.entries@;
        let m = self@;
        // the domain is the image of the index range under the key map
        let f = |i: int| s[i].0@;
        let idx = Set::new(|i: int| 0 <= i < s.len());
        assert(idx =~= vstd::set_lib::set_int_range(0, s.len() as int));
        vstd::set_lib::lemma_int_range(0, s.len() as int);
        assert(m.dom() =~= idx.map(f)) by {
            assert forall|k: Seq<char>| m.dom().contains(k) implies idx.map(f).contains(k) by {
                let i = choose|i: int| 0 <= i < s.len() && (#[trigger] s[i]).0@ == k;
                assert(idx.contains(i) && f(i) == k);
            }
        }
        assert(vstd::relations::injective_on(f, idx)) by {
            assert forall|a: int, b: int| idx.contains(a) && idx.contains(b) && #[trigger] f(a) == #[trigger] f(b) implies a == b by {
            }
        }
        vstd::set_lib::lemma_map_size(idx, idx.map(f), f);
    }

    /// The position of key `k`, if it is recorded.
    fn find(&self, k: &str) -> (res: Option<usize>)
        ensures
            match res {
                Some(i) => i < self.entries@.len() && self.entries@[i as int].0@ == k@,
                None => !has_key(self.entries@, k@),
            },
    {
        let n = self.entries.len();
        let mut i: usize = 0;
        while i < n
            invariant
                n == self.entries@.len(),
                i <= n,
                forall|j: int| 0 <= j < i ==> (#[trigger] self.entries@[j]).0@ != k@,
            decreases n - i,
        {
            if crate::text::text_eq(self.entries[i].0.as_str(), k) {
                return Some(i);
            }
            i = i + 1;
        }
        None
    }

    /// Whether `k` is recorded.
    pub fn contains(&self, k: &str) -> (res: bool)
        ensures
            res == self@.contains_key(k@),
    {
        self.find(k).is_some()
    }

    /// The record kept under `k`.
    pub fn get(&self, k: &str) -> (res: Option<&GitThemeInfo>)
        ensures
            match res {
                Some(v) => self@.contains_key(k@) && *v == self@[k@],
                None => !self@.contains_key(k@),
            },
    {
        proof {
            use_type_invariant(self);
        }
        match self.find(k) {
            Some(i) => {
                proof {
                    lemma_value_at(self.entries@, i as int);
                }
                Some(&self.entries[i].1)
            },
            None => None,
        }
    }

    /// Records `v` under `k`, replacing what was kept there.
    pub fn insert(&mut self, k: String, v: GitThemeInfo)
        ensures
            final(self)@ == old(self)@.insert(k@, v),
    {
        proof {
            use_type_invariant(&*self);
        }
        let pos = self.find(k.as_str());
        let mut entries: Vec<(String, GitThemeInfo)> = Vec::new();
        std::mem::swap(&mut entries, &mut self.entries);
        let ghost old_s = entries@;
        let ghost key = k@;
        match pos {
            Some(i) => {
                entries.set(i, (k, v));
                let ghost s = entries@;
                assert(s == old_s.update(i as int, s[i as int]));
                assert(keys_distinct(s)) by {
                    assert forall|a: int, b: int| 0 <= a < s.len() && 0 <= b < s.len() && a != b implies (#[trigger] s[a]).0@ != (#[trigger] s[b]).0@ by {
                        if a != i && b != i {
                            assert(s[a] == old_s[a] && s[b] == old_s[b]);
                        } else if a == i {
                            assert(s[b] == old_s[b]);
                            assert(old_s[i as int].0@ == key);
                        } else {
                            assert(s[a] == old_s[a]);
                            assert(old_s[i as int].0@ == key);
                        }
                    }
                }
                assert(pairs_to_map(s) =~= pairs_to_map(old_s).insert(key, v)) by {
                    assert forall|q: Seq<char>| has_key(s, q) == (has_key(old_s, q) || q == key) by {
                        if has_key(s, q) {
                            let a = choose|a: int| 0 <= a < s.len() && (#[trigger] s[a]).0@ == q;
                            if a != i {
                                assert(old_s[a] == s[a]);
                            }
                        }
                        if has_key(old_s, q) {
                            let a = choose|a: int| 0 <= a < old_s.len() && (#[trigger] old_s[a]).0@ == q;
                            if a != i {
                                assert(old_s[a] == s[a]);
                            } else {
                                assert(s[i as int].0@ == q);
                            }
                        }
                        if q == key {
                            assert(s[i as int].0@ == q);
                        }
                    }
                    assert forall|q: Seq<char>| has_key(s, q) implies value_of(s, q) == (if q == key { v } else { value_of(old_s, q) }) by {
                        let a = choose|a: int| 0 <= a < s.len() && (#[trigger] s[a]).0@ == q;
                        lemma_value_at(s, a);
                        if a != i {
                            assert(old_s[a] == s[a]);
                            lemma_value_at(old_s, a);
                        }
                    }
                }
            },
            None => {
                entries.push((k, v));
                let ghost s = entries@;
                assert(s == old_s.push((s.last().0, v)));
                assert(keys_distinct(s)) by {
                    assert forall|a: int, b: int| 0 <= a < s.len() && 0 <= b < s.len() && a != b implies (#[trigger] s[a]).0@ != (#[trigger] s[b]).0@ by {
                        if a < old_s.len() && b < old_s.len() {
                            assert(s[a] == old_s[a] && s[b] == old_s[b]);
                        } else if a < old_s.len() {
                            assert(s[a] == old_s[a]);
                        } else {
                            assert(s[b] == old_s[b]);
                        }
                    }
                }
                let ghost last = (s.len() - 1) as int;
                assert(pairs_to_map(s) =~= pairs_to_map(old_s).insert(key, v)) by {
                    assert forall|q: Seq<char>| has_key(s, q) == (has_key(old_s, q) || q == key) by {
                        if has_key(s, q) {
                            let a = choose|a: int| 0 <= a < s.len() && (#[trigger] s[a]).0@ == q;
                            if a != last {
                                assert(old_s[a] == s[a]);
                            }
                        }
                        if has_key(old_s, q) {
                            let a = choose|a: int| 0 <= a < old_s.len() && (#[trigger] old_s[a]).0@ == q;
                            assert(old_s[a] == s[a]);
                        }
                        if q == key {
                            assert(s[last].0@ == q);
                        }
                    }
                    assert forall|q: Seq<char>| has_key(s, q) implies value_of(s, q) == (if q == key { v } else { value_of(old_s, q) }) by {
                        let a = choose|a: int| 0 <= a < s.len() && (#[trigger] s[a]).0@ == q;
                        lemma_value_at(s, a);
                        if a != last {
                            assert(old_s[a] == s[a]);
                            lemma_value_at(old_s, a);
                        }
                    }
                }
            },
        }
        self.entries = entries;
    }

    /// Forgets what is kept under `k`; nothing changes where `k` is not recorded.
    pub fn remove(&mut self, k: &str)
        ensures
            final(self)@ == old(self)@.remove(k@),
    {
        proof {
            use_type_invariant(&*self);
        }
        let pos = self.find(k);
        let mut entries: Vec<(String, GitThemeInfo)> = Vec::new();
        std::mem::swap(&mut entries, &mut self.entries);
        let ghost old_s = entries@;
        match pos {
            Some(i) => {
                let _ = entries.remove(i);
                let ghost s = entries@;
                assert(s == old_s.remove(i as int));
                assert forall|a: int| 0 <= a < s.len() implies #[trigger] s[a] == old_s[if a < i { a } else { a + 1 }] by {}
                assert(keys_distinct(s)) by {
                    assert forall|a: int, b: int| 0 <= a < s.len() && 0 <= b < s.len() && a != b implies (#[trigger] s[a]).0@ != (#[trigger] s[b]).0@ by {
                        let a2 = if a < i { a } else { a + 1 };
                        let b2 = if b < i { b } else { b + 1 };
                        assert(s[a] == old_s[a2] && s[b] == old_s[b2]);
                    }
                }
                assert(pairs_to_map(s) =~= pairs_to_map(old_s).remove(k@)) by {
                    assert forall|q: Seq<char>| has_key(s, q) == (has_key(old_s, q) && q != k@) by {
                        if has_key(s, q) {
                            let a = choose|a: int| 0 <= a < s.len() && (#[trigger] s[a]).0@ == q;
                            let a2 = if a < i { a } else { a + 1 };
                            assert(s[a] == old_s[a2]);
                            assert(old_s[a2].0@ == q);
                            assert(a2 != i);
                        }
                        if has_key(old_s, q) && q != k@ {
                            let a = choose|a: int| 0 <= a < old_s.len() && (#[trigger] old_s[a]).0@ == q;
                            assert(a != i);
                            let a1 = if a < i { a } else { a - 1 };
                            assert(s[a1] == old_s[a]);
                        }
                    }
                    assert forall|q: Seq<char>| has_key(s, q) implies value_of(s, q) == value_of(old_s, q) by {
                        let a = choose|a: int| 0 <= a < s.len() && (#[trigger] s[a]).0@ == q;
                        let a2 = if a < i { a } else { a + 1 };
                        assert(s[a] == old_s[a2]);
                        lemma_value_at(s, a);
                        lemma_value_at(old_s, a2);
                    }
                }
            },
            None => {
                assert(pairs_to_map(entries@) =~= pairs_to_map(old_s).remove(k@));
            },
        }
        self.entries = entries;
    }

    /// The recorded pairs, as folder name and record.
    pub fn entries(&self) -> (res: &[(String, GitThemeInfo)])
        ensures
            res@ == self.pairs(),
            res@.len() == self@.len(),
            keys_distinct(res@),
            pairs_to_map(res@) == self@,
            forall|k: Seq<char>| self@.contains_key(k) ==> exists|i: int| 0 <= i < res@.len() && (#[trigger] res@[i]).0@ == k,
    {
        proof {
            use_type_invariant(self);
            self.lemma_len();
        }
        self.entries.as_slice()
    }
}

} // verus!
