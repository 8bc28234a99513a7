//! Keyed storage used by every engine: a string-keyed map and a string set.
//!
//! Both are association lists whose keys are unique, viewed abstractly as a
//! `Map<Seq<char>, _>` and a `Set<Seq<char>>`. Uniqueness is a type
//! invariant, so callers reason about the abstract view alone.

use vstd::prelude::*;
use vstd::seq_lib::*;

verus! {

/// Character-sequence views of a sequence of strings.
pub open spec fn str_views(s: Seq<String>) -> Seq<Seq<char>> {
    s.map_values(|x: String| x@)
}

/// Character-sequence views of the keys of an entry sequence.
pub open spec fn key_views<V>(s: Seq<(String, V)>) -> Seq<Seq<char>> {
    s.map_values(|e: (String, V)| e.0@)
}

/// The map an entry sequence denotes; later entries win.
pub open spec fn map_of<V: View>(s: Seq<(String, V)>) -> Map<Seq<char>, V::V>
    decreases s.len(),
{
    if s.len() == 0 {
        Map::empty()
    } else {
        map_of(s.drop_last()).insert(s.last().0@, s.last().1@)
    }
}

proof fn lemma_no_dup_push<A>(s: Seq<A>, x: A)
    requires
        s.no_duplicates(),
        !s.contains(x),
    ensures
        s.push(x).no_duplicates(),
{
    assert forall|i: int, j: int|
        0 <= i < s.push(x).len() && 0 <= j < s.push(x).len() && i != j implies s.push(x)[i]
        != s.push(x)[j] by {
        if i < s.len() && j < s.len() {
            assert(s.push(x)[i] == s[i]);
            assert(s.push(x)[j] == s[j]);
        } else if i < s.len() {
            assert(s.push(x)[i] == s[i]);
            assert(s.contains(s[i]));
        } else {
            assert(s.push(x)[j] == s[j]);
            assert(s.contains(s[j]));
        }
    };
}

proof fn lemma_no_dup_remove<A>(s: Seq<A>, k: int)
    requires
        s.no_duplicates(),
        0 <= k < s.len(),
    ensures
        s.remove(k).no_duplicates(),
{
    s.remove_ensures(k);
    let t = s.remove(k);
    assert forall|i: int, j: int|
        0 <= i < t.len() && 0 <= j < t.len() && i != j implies t[i] != t[j] by {
        let si: int = if i < k { i } else { i + 1 };
        let sj: int = if j < k { j } else { j + 1 };
        assert(t[i] == s[si]);
        assert(t[j] == s[sj]);
    };
}

proof fn lemma_remove_to_set<A>(s: Seq<A>, k: int)
    requires
        s.no_duplicates(),
        0 <= k < s.len(),
    ensures
        s.remove(k).to_set() =~= s.to_set().remove(s[k]),
{
    s.remove_ensures(k);
    let t = s.remove(k);
    assert forall|y: A| t.to_set().contains(y) implies s.to_set().contains(y) && y != s[k] by {
        let j = choose|j: int| 0 <= j < t.len() && t[j] == y;
        let sj: int = if j < k { j } else { j + 1 };
        assert(s[sj] == y);
        assert(sj != k);
    };
    assert forall|y: A| s.to_set().contains(y) && y != s[k] implies t.to_set().contains(y) by {
        let j = choose|j: int| 0 <= j < s.len() && s[j] == y;
        if j < k {
            assert(t[j] == y);
        } else {
            assert(t[j - 1] == y);
        }
    };
}

proof fn lemma_map_of_contains<V: View>(s: Seq<(String, V)>, k: Seq<char>)
    ensures
        map_of(s).contains_key(k) <==> key_views(s).contains(k),
    decreases s.len(),
{
    if s.len() == 0 {
    } else {
        lemma_map_of_contains(s.drop_last(), k);
        assert(key_views(s.drop_last()) =~= key_views(s).drop_last());
        if k == s.last().0@ {
            assert(key_views(s)[s.len() - 1] == k);
        } else {
            if key_views(s).contains(k) {
                let j = choose|j: int| 0 <= j < key_views(s).len() && key_views(s)[j] == k;
                assert(key_views(s).drop_last()[j] == k);
            }
            if key_views(s).drop_last().contains(k) {
                let j = choose|j: int|
                    0 <= j < key_views(s).drop_last().len() && key_views(s).drop_last()[j] == k;
                assert(key_views(s)[j] == k);
            }
        }
    }
}

proof fn lemma_map_of_index<V: View>(s: Seq<(String, V)>, i: int)
    requires
        key_views(s).no_duplicates(),
        0 <= i < s.len(),
    ensures
        map_of(s).contains_key(s[i].0@),
        map_of(s)[s[i].0@] == s[i].1@,
    decreases s.len(),
{
    if i == s.len() - 1 {
    } else {
        assert(key_views(s.drop_last()) =~= key_views(s).drop_last());
        assert(key_views(s).drop_last().no_duplicates()) by {
            assert forall|a: int, b: int|
                0 <= a < key_views(s).drop_last().len() && 0 <= b < key_views(
                    s,
                ).drop_last().len() && a != b implies key_views(s).drop_last()[a] != key_views(
                s,
            ).drop_last()[b] by {
                assert(key_views(s)[a] == key_views(s).drop_last()[a]);
                assert(key_views(s)[b] == key_views(s).drop_last()[b]);
            };
        };
        lemma_map_of_index(s.drop_last(), i);
        assert(key_views(s)[i] != key_views(s)[s.len() - 1]);
        assert(s[i].0@ != s.last().0@);
        assert(s.drop_last()[i] == s[i]);
    }
}

proof fn lemma_map_of_push<V: View>(s: Seq<(String, V)>, e: (String, V))
    ensures
        map_of(s.push(e)) == map_of(s).insert(e.0@, e.1@),
{
    assert(s.push(e).drop_last() =~= s);
    assert(s.push(e).last() == e);
}

proof fn lemma_map_of_remove<V: View>(s: Seq<(String, V)>, i: int)
    requires
        key_views(s).no_duplicates(),
        0 <= i < s.len(),
    ensures
        map_of(s.remove(i)) =~= map_of(s).remove(s[i].0@),
    decreases s.len(),
{
    assert(key_views(s.drop_last()) =~= key_views(s).drop_last());
    assert(key_views(s).drop_last().no_duplicates()) by {
        assert forall|a: int, b: int|
            0 <= a < key_views(s).drop_last().len() && 0 <= b < key_views(s).drop_last().len() && a
            != b implies key_views(s).drop_last()[a] != key_views(s).drop_last()[b] by {
            assert(key_views(s)[a] == key_views(s).drop_last()[a]);
            assert(key_views(s)[b] == key_views(s).drop_last()[b]);
        };
    };
    if i == s.len() - 1 {
        assert(s.remove(i) =~= s.drop_last());
        lemma_map_of_contains(s.drop_last(), s[i].0@);
        assert(!key_views(s).drop_last().contains(s[i].0@)) by {
            if key_views(s).drop_last().contains(s[i].0@) {
                let j = choose|j: int|
                    0 <= j < key_views(s).drop_last().len() && key_views(s).drop_last()[j] == s[i].0@;
                assert(key_views(s)[j] == key_views(s)[i]);
            }
        };
        assert(!map_of(s.drop_last()).contains_key(s[i].0@));
    } else {
        lemma_map_of_remove(s.drop_last(), i);
        assert(s.remove(i).drop_last() =~= s.drop_last().remove(i)) by {
            s.remove_ensures(i);
            s.drop_last().remove_ensures(i);
        };
        assert(s.remove(i).last() == s.last()) by {
            s.remove_ensures(i);
        };
        assert(s.drop_last()[i] == s[i]);
        assert(key_views(s)[i] != key_views(s)[s.len() - 1]);
        assert(s[i].0@ != s.last().0@);
        assert(map_of(s.remove(i)) == map_of(s.drop_last().remove(i)).insert(
            s.last().0@,
            s.last().1@,
        ));
    }
}

/// String-keyed store of values: the durable ledger shape every engine
/// persists into. Later writes to a key overwrite earlier ones.
#[derive(Debug)]
pub struct StrMap<V: View> {
    entries: Vec<(String, V)>,
}

impl<V: View> View for StrMap<V> {
    type V = Map<Seq<char>, V::V>;

    closed spec fn view(&self) -> Map<Seq<char>, V::V> {
        map_of(self.entries@)
    }
}

impl<V: View> StrMap<V> {
    #[verifier::type_invariant]
    spec fn wf(self) -> bool {
        key_views(self.entries@).no_duplicates()
    }

    /// Empty store.
    pub fn new() -> (r: Self)
        ensures
            r@ == Map::<Seq<char>, V::V>::empty(),
    {
        StrMap { entries: Vec::new() }
    }

    fn find(&self, key: &String) -> (r: Option<usize>)
        ensures
            match r {
                Some(i) => i < self.entries@.len() && self.entries@[i as int].0@ == key@,
                None => !key_views(self.entries@).contains(key@),
            },
    {
        let n = self.entries.len();
        let mut i: usize = 0;
        while i < n
            invariant
                i <= n,
                n == self.entries@.len(),
                forall|j: int| 0 <= j < i ==> self.entries@[j].0@ != key@,
            decreases n - i,
        {
            if self.entries[i].0.eq(key) {
                return Some(i);
            }
            i += 1;
        }
        proof {
            assert forall|j: int| 0 <= j < key_views(self.entries@).len() implies key_views(
                self.entries@,
            )[j] != key@ by {
                assert(key_views(self.entries@)[j] == self.entries@[j].0@);
            };
        }
        None
    }

    /// Value stored under `key`, if any.
    pub fn get(&self, key: &String) -> (r: Option<&V>)
        ensures
            match r {
                Some(v) => self@.contains_key(key@) && v@ == self@[key@],
                None => !self@.contains_key(key@),
            },
    {
        proof {
            use_type_invariant(self);
        }
        match self.find(key) {
            Some(i) => {
                proof {
                    lemma_map_of_index(self.entries@, i as int);
                }
                Some(&self.entries[i].1)
            },
            None => {
                proof {
                    lemma_map_of_contains(self.entries@, key@);
                }
                None
            },
        }
    }

    /// Remove and return the value stored under `key`, if any.
    pub fn remove(&mut self, key: &String) -> (prev: Option<V>)
        ensures
            final(self)@ == old(self)@.remove(key@),
            match prev {
                Some(p) => old(self)@.contains_key(key@) && p@ == old(self)@[key@],
                None => !old(self)@.contains_key(key@),
            },
    {
        proof {
            use_type_invariant(&*self);
        }
        match self.find(key) {
            None => {
                proof {
                    lemma_map_of_contains(self.entries@, key@);
                    assert(self@.remove(key@) =~= self@);
                }
                None
            },
            Some(i) => {
                let ghost s = self.entries@;
                proof {
                    lemma_map_of_index(s, i as int);
                    lemma_map_of_remove(s, i as int);
                    lemma_no_dup_remove(key_views(s), i as int);
                    assert(key_views(s.remove(i as int)) =~= key_views(s).remove(i as int)) by {
                        s.remove_ensures(i as int);
                        key_views(s).remove_ensures(i as int);
                    };
                }
                let mut entries: Vec<(String, V)> = Vec::new();
                core::mem::swap(&mut entries, &mut self.entries);
                let e = entries.remove(i);
                self.entries = entries;
                Some(e.1)
            },
        }
    }

    /// Store `value` under `key`, overwriting and returning any prior value.
    pub fn insert(&mut self, key: &String, value: V) -> (prev: Option<V>)
        ensures
            final(self)@ == old(self)@.insert(key@, value@),
            match prev {
                Some(p) => old(self)@.contains_key(key@) && p@ == old(self)@[key@],
                None => !old(self)@.contains_key(key@),
            },
    {
        let prev = self.remove(key);
        proof {
            use_type_invariant(&*self);
            lemma_map_of_contains(self.entries@, key@);
        }
        let ghost s = self.entries@;
        let mut entries: Vec<(String, V)> = Vec::new();
        core::mem::swap(&mut entries, &mut self.entries);
        entries.push((key.clone(), value));
        proof {
            assert(key_views(entries@) =~= key_views(s).push(key@));
            lemma_no_dup_push(key_views(s), key@);
            lemma_map_of_push(s, (*key, value));
            assert(entries@ == s.push((*key, value)));
            assert(old(self)@.remove(key@).insert(key@, value@) =~= old(self)@.insert(
                key@,
                value@,
            ));
        }
        self.entries = entries;
        prev
    }
}

/// Unordered set of strings: the approved-party and per-owner token sets.
#[derive(Debug)]
pub struct StrSet {
    keys: Vec<String>,
}

impl View for StrSet {
    type V = Set<Seq<char>>;

    closed spec fn view(&self) -> Set<Seq<char>> {
        str_views(self.keys@).to_set()
    }
}

impl StrSet {
    #[verifier::type_invariant]
    spec fn wf(self) -> bool {
        str_views(self.keys@).no_duplicates()
    }

    /// Empty set.
    pub fn new() -> (r: Self)
        ensures
            r@ == Set::<Seq<char>>::empty(),
            r@.finite(),
    {
        let r = StrSet { keys: Vec::new() };
        proof {
            assert(str_views(r.keys@).to_set() =~= Set::<Seq<char>>::empty());
        }
        r
    }

    fn find(&self, x: &String) -> (r: Option<usize>)
        ensures
            match r {
                Some(i) => i < self.keys@.len() && self.keys@[i as int]@ == x@,
                None => !str_views(self.keys@).contains(x@),
            },
    {
        let n = self.keys.len();
        let mut i: usize = 0;
        while i < n
            invariant
                i <= n,
                n == self.keys@.len(),
                forall|j: int| 0 <= j < i ==> self.keys@[j]@ != x@,
            decreases n - i,
        {
            if self.keys[i].eq(x) {
                return Some(i);
            }
            i += 1;
        }
        proof {
            assert forall|j: int| 0 <= j < str_views(self.keys@).len() implies str_views(
                self.keys@,
            )[j] != x@ by {
                assert(str_views(self.keys@)[j] == self.keys@[j]@);
            };
        }
        None
    }

    /// Whether `x` is a member.
    pub fn contains(&self, x: &String) -> (r: bool)
        ensures
            r == self@.contains(x@),
    {
        match self.find(x) {
            Some(i) => {
                proof {
                    assert(str_views(self.keys@)[i as int] == x@);
                }
                true
            },
            None => false,
        }
    }

    /// Number of members.
    pub fn len(&self) -> (n: usize)
        ensures
            n == self@.len(),
            self@.finite(),
    {
        proof {
            use_type_invariant(self);
            str_views(self.keys@).unique_seq_to_set();
        }
        self.keys.len()
    }

    /// Whether the set has no members.
    pub fn is_empty(&self) -> (r: bool)
        ensures
            r <==> self@ == Set::<Seq<char>>::empty(),
            self@.finite(),
    {
        proof {
            use_type_invariant(self);
            str_views(self.keys@).unique_seq_to_set();
            if self.keys@.len() == 0 {
                assert(self@ =~= Set::<Seq<char>>::empty());
            } else {
                assert(str_views(self.keys@)[0] == self.keys@[0]@);
                assert(self@.contains(self.keys@[0]@));
            }
        }
        self.keys.len() == 0
    }

    /// Add `x`; reports whether it was newly added.
    pub fn insert(&mut self, x: &String) -> (added: bool)
        ensures
            final(self)@ == old(self)@.insert(x@),
            added == !old(self)@.contains(x@),
    {
        proof {
            use_type_invariant(&*self);
        }
        match self.find(x) {
            Some(i) => {
                proof {
                    assert(str_views(self.keys@)[i as int] == x@);
                    assert(self@.contains(x@));
                    assert(self@.insert(x@) =~= self@);
                }
                false
            },
            None => {
                let ghost s = self.keys@;
                let mut keys: Vec<String> = Vec::new();
                core::mem::swap(&mut keys, &mut self.keys);
                keys.push(x.clone());
                proof {
                    assert(str_views(keys@) =~= str_views(s).push(x@));
                    lemma_no_dup_push(str_views(s), x@);
                    assert(str_views(keys@).to_set() =~= str_views(s).to_set().insert(x@)) by {
                        assert forall|y: Seq<char>|
                            str_views(keys@).contains(y) implies str_views(s).to_set().insert(
                            x@,
                        ).contains(y) by {
                            let j = choose|j: int|
                                0 <= j < str_views(keys@).len() && str_views(keys@)[j] == y;
                            if j < str_views(s).len() {
                                assert(str_views(s)[j] == y);
                            }
                        };
                        assert forall|y: Seq<char>|
                            str_views(s).to_set().insert(x@).contains(y) implies str_views(
                            keys@,
                        ).contains(y) by {
                            if y == x@ {
                                assert(str_views(keys@)[str_views(s).len() as int] == y);
                            } else {
                                let j = choose|j: int|
                                    0 <= j < str_views(s).len() && str_views(s)[j] == y;
                                assert(str_views(keys@)[j] == y);
                            }
                        };
                    };
                }
                self.keys = keys;
                true
            },
        }
    }

    /// Remove `x`; reports whether it was a member.
    pub fn remove(&mut self, x: &String) -> (removed: bool)
        ensures
            final(self)@ == old(self)@.remove(x@),
            removed == old(self)@.contains(x@),
    {
        proof {
            use_type_invariant(&*self);
        }
        match self.find(x) {
            None => {
                proof {
                    assert(self@.remove(x@) =~= self@);
                }
                false
            },
            Some(i) => {
                let ghost s = self.keys@;
                proof {
                    assert(str_views(s)[i as int] == s[i as int]@);
                    assert(self@.contains(x@));
                    lemma_no_dup_remove(str_views(s), i as int);
                    lemma_remove_to_set(str_views(s), i as int);
                    assert(str_views(s.remove(i as int)) =~= str_views(s).remove(i as int)) by {
                        s.remove_ensures(i as int);
                        str_views(s).remove_ensures(i as int);
                    };
                }
                let mut keys: Vec<String> = Vec::new();
                core::mem::swap(&mut keys, &mut self.keys);
                let _ = keys.remove(i);
                self.keys = keys;
                true
            },
        }
    }

    /// Remove every member.
    pub fn clear(&mut self)
        ensures
            final(self)@ == Set::<Seq<char>>::empty(),
    {
        self.keys = Vec::new();
        proof {
            assert(str_views(self.keys@).to_set() =~= Set::<Seq<char>>::empty());
        }
    }

    /// The members as a vector, each exactly once.
    pub fn to_vec(&self) -> (r: Vec<String>)
        ensures
            str_views(r@).to_set() == self@,
            str_views(r@).no_duplicates(),
            r@.len() == self@.len(),
    {
        proof {
            use_type_invariant(self);
            str_views(self.keys@).unique_seq_to_set();
        }
        let n = self.keys.len();
        let mut r: Vec<String> = Vec::new();
        let mut i: usize = 0;
        while i < n
            invariant
                i <= n,
                n == self.keys@.len(),
                r@.len() == i,
                str_views(r@) =~= str_views(self.keys@).subrange(0, i as int),
            decreases n - i,
        {
            let x = self.keys[i].clone();
            let ghost prev = r@;
            r.push(x);
            proof {
                assert(r@ == prev.push(x));
                assert(str_views(prev) == str_views(self.keys@).subrange(0, i as int));
                assert forall|j: int| 0 <= j < r@.len() implies str_views(r@)[j] == str_views(
                    self.keys@,
                ).subrange(0, i as int + 1)[j] by {
                    assert(str_views(self.keys@).subrange(0, i as int + 1)[j] == str_views(
                        self.keys@,
                    )[j]);
                    if j < i {
                        assert(r@[j] == prev[j]);
                        assert(str_views(prev)[j] == str_views(self.keys@).subrange(
                            0,
                            i as int,
                        )[j]);
                    } else {
                        assert(r@[j] == x);
                        assert(str_views(self.keys@)[j] == self.keys@[j]@);
                    }
                };
                assert(str_views(r@) =~= str_views(self.keys@).subrange(0, i as int + 1));
            }
            i += 1;
        }
        proof {
            assert(str_views(r@) =~= str_views(self.keys@));
        }
        r
    }
}

impl Clone for StrSet {
    /// Clone preserving the members.
    fn clone(&self) -> (r: Self)
        ensures
            r@ == self@,
    {
        proof {
            use_type_invariant(self);
        }
        let keys = self.to_vec();
        let r = StrSet { keys };
        proof {
            assert(r@ =~= self@);
        }
        r
    }
}

} // verus!
