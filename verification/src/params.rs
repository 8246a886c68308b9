//! The parameter mapping of a request.
//!
//! A request carries named parameters: a mapping from parameter name to a
//! dynamic [`Value`]. Keys are unique and insertion order is irrelevant, so
//! the mapping denotes a finite map from name to value.

use vstd::prelude::*;

use crate::value::Value;
use crate::value::ValueModel;

verus! {

/// A mapping from parameter name to value, with unique keys.
pub struct RequestParams {
    entries: Vec<(String, Value)>,
}

/// No two entries share a key.
pub open spec fn keys_distinct(s: Seq<(String, Value)>) -> bool {
    forall|i: int, j: int| 0 <= i < j < s.len() ==> s[i].0@ != s[j].0@
}

/// The finite map denoted by an entry sequence; a later entry wins.
pub closed spec fn map_of(s: Seq<(String, Value)>) -> Map<Seq<char>, ValueModel>
    decreases s.len(),
{
    if s.len() == 0 {
        Map::empty()
    } else {
        map_of(s.drop_last()).insert(s.last().0@, s.last().1@)
    }
}

/// A key is in the map exactly when some entry carries it.
proof fn lemma_map_of_contains(s: Seq<(String, Value)>, k: Seq<char>)
    ensures
        map_of(s).contains_key(k) <==> exists|i: int| 0 <= i < s.len() && s[i].0@ == k,
    decreases s.len(),
{
    if s.len() > 0 {
        lemma_map_of_contains(s.drop_last(), k);
        assert(forall|i: int| 0 <= i < s.len() - 1 ==> s.drop_last()[i] == s[i]);
        if s.last().0@ == k {
            assert(s[s.len() - 1].0@ == k);
        } else {
            if exists|i: int| 0 <= i < s.len() && s[i].0@ == k {
                let i = choose|i: int| 0 <= i < s.len() && s[i].0@ == k;
                assert(s.drop_last()[i].0@ == k);
            }
        }
    }
}

/// With distinct keys, each entry's value is the map's value at its key.
proof fn lemma_map_of_index(s: Seq<(String, Value)>, i: int)
    requires
        keys_distinct(s),
        0 <= i < s.len(),
    ensures
        map_of(s).contains_key(s[i].0@),
        map_of(s)[s[i].0@] == s[i].1@,
    decreases s.len(),
{
    assert(forall|j: int| 0 <= j < s.len() - 1 ==> s.drop_last()[j] == s[j]);
    if i == s.len() - 1 {
    } else {
        assert(s[i].0@ != s.last().0@);
        lemma_map_of_index(s.drop_last(), i);
    }
}

/// Replacing the entry that carries a key denotes inserting at that key.
proof fn lemma_map_of_update(s: Seq<(String, Value)>, i: int, p: (String, Value))
    requires
        keys_distinct(s),
        0 <= i < s.len(),
        p.0@ == s[i].0@,
    ensures
        map_of(s.update(i, p)) =~= map_of(s).insert(p.0@, p.1@),
    decreases s.len(),
{
    let t = s.update(i, p);
    assert(forall|j: int| 0 <= j < s.len() - 1 ==> s.drop_last()[j] == s[j]);
    if i == s.len() - 1 {
        assert(t.drop_last() =~= s.drop_last());
    } else {
        assert(t.drop_last() =~= s.drop_last().update(i, p));
        lemma_map_of_update(s.drop_last(), i, p);
        assert(p.0@ != s.last().0@);
    }
}

impl RequestParams {
    /// The keys are distinct.
    pub closed spec fn wf(&self) -> bool {
        keys_distinct(self.entries@)
    }

    /// An empty mapping.
    pub fn new() -> (r: Self)
        ensures
            r.wf(),
            r@ == Map::<Seq<char>, ValueModel>::empty(),
    {
        RequestParams { entries: Vec::new() }
    }

    /// The index of the entry carrying `key`, if one does.
    fn index_of(&self, key: &String) -> (r: Option<usize>)
        ensures
            match r {
                Some(i) => i < self.entries@.len() && self.entries@[i as int].0@ == key@,
                None => forall|i: int|
                    0 <= i < self.entries@.len() ==> self.entries@[i].0@ != key@,
            },
    {
        let mut i: usize = 0;
        while i < self.entries.len()
            invariant
                i <= self.entries@.len(),
                forall|j: int| 0 <= j < i ==> self.entries@[j].0@ != key@,
            decreases self.entries@.len() - i,
        {
            if self.entries[i].0.eq(key) {
                return Some(i);
            }
            i = i + 1;
        }
        None
    }

    /// Whether a parameter of this name is present.
    pub fn contains_key(&self, key: &String) -> (r: bool)
        ensures
            r == self@.contains_key(key@),
    {
        proof {
            lemma_map_of_contains(self.entries@, key@);
        }
        self.index_of(key).is_some()
    }

    /// The value bound to `key`, if any.
    pub fn get(&self, key: &String) -> (r: Option<&Value>)
        requires
            self.wf(),
        ensures
            match r {
                Some(v) => self@.contains_key(key@) && v@ == self@[key@],
                None => !self@.contains_key(key@),
            },
    {
        proof {
            lemma_map_of_contains(self.entries@, key@);
        }
        match self.index_of(key) {
            Some(i) => {
                proof {
                    lemma_map_of_index(self.entries@, i as int);
                }
                Some(&self.entries[i].1)
            },
            None => None,
        }
    }

    /// Bind `key` to `value`, replacing any earlier binding.
    pub fn insert(&mut self, key: String, value: Value)
        requires
            old(self).wf(),
        ensures
            final(self).wf(),
            final(self)@ == old(self)@.insert(key@, value@),
    {
        match self.index_of(&key) {
            Some(i) => {
                proof {
                    lemma_map_of_update(self.entries@, i as int, (key, value));
                    assert forall|a: int, b: int|
                        0 <= a < b < self.entries@.update(i as int, (key, value)).len()
                        implies self.entries@.update(i as int, (key, value))[a].0@
                            != self.entries@.update(i as int, (key, value))[b].0@ by {
                        assert(self.entries@[a].0@ != self.entries@[b].0@);
                    }
                }
                self.entries.set(i, (key, value));
            },
            None => {
                proof {
                    let t = self.entries@.push((key, value));
                    assert(t.drop_last() =~= self.entries@);
                    assert(forall|j: int| 0 <= j < self.entries@.len() ==> t[j] == self.entries@[j]);
                }
                self.entries.push((key, value));
            },
        }
    }
}

impl View for RequestParams {
    type V = Map<Seq<char>, ValueModel>;

    closed spec fn view(&self) -> Map<Seq<char>, ValueModel> {
        map_of(self.entries@)
    }
}

} // verus!
