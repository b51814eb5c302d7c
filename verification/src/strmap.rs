//! A map from names to string values, such as environment variables and
//! HTTP headers.
use vstd::prelude::*;
use crate::text::{chars_lt, lemma_chars_lt_irreflexive, lemma_chars_lt_total, lemma_chars_lt_transitive, str_equal, str_less};

verus! {

/// Entries from names to values, in insertion order; a name appears once.
#[derive(Debug)]
pub enum StringMap {
    Nil,
    Cons(String, String, Box<StringMap>),
}

impl StringMap {
    /// The value stored for `key`.
    pub open spec fn lookup(self, key: Seq<char>) -> Option<Seq<char>>
        decreases self,
    {
        match self {
            StringMap::Nil => None,
            StringMap::Cons(k, v, rest) => if k@ == key {
                Some(v@)
            } else {
                rest.lookup(key)
            },
        }
    }

    /// The number of entries.
    pub open spec fn size(self) -> nat
        decreases self,
    {
        match self {
            StringMap::Nil => 0,
            StringMap::Cons(_, _, rest) => 1 + rest.size(),
        }
    }

    /// The entries, in order.
    pub open spec fn pairs(self) -> Seq<(Seq<char>, Seq<char>)>
        decreases self,
    {
        match self {
            StringMap::Nil => Seq::empty(),
            StringMap::Cons(k, v, rest) => seq![(k@, v@)] + rest.pairs(),
        }
    }

    /// The entries, in order, as owned pairs.
    pub fn to_pairs(&self) -> (r: Vec<(String, String)>)
        ensures
            r@.map_values(|e: (String, String)| (e.0@, e.1@)) == self.pairs(),
        decreases self,
    {
        match self {
            StringMap::Nil => {
                let r: Vec<(String, String)> = Vec::new();
                proof {
                    assert(r@.map_values(|e: (String, String)| (e.0@, e.1@)) =~= Seq::<(Seq<char>, Seq<char>)>::empty());
                }
                r
            },
            StringMap::Cons(k, v, rest) => {
                let tail = rest.to_pairs();
                let mut r: Vec<(String, String)> = Vec::new();
                r.push((k.clone(), v.clone()));
                let mut i: usize = 0;
                while i < tail.len()
                    invariant
                        i <= tail@.len(),
                        r@.len() == i + 1,
                        r@[0].0@ == k@ && r@[0].1@ == v@,
                        forall|j: int| 0 <= j < i ==> #[trigger] r@[j + 1] == tail@[j],
                    decreases tail@.len() - i,
                {
                    let e = (tail[i].0.clone(), tail[i].1.clone());
                    r.push(e);
                    i = i + 1;
                }
                proof {
                    let lhs = r@.map_values(|e: (String, String)| (e.0@, e.1@));
                    let rhs = seq![(k@, v@)] + tail@.map_values(|e: (String, String)| (e.0@, e.1@));
                    assert forall|m: int| 0 <= m < lhs.len() implies lhs[m] == rhs[m] by {
                        if m > 0 {
                            assert(r@[(m - 1) + 1] == tail@[m - 1]);
                        }
                    }
                    assert(lhs =~= rhs);
                }
                r
            },
        }
    }

    /// The number of entries.
    pub fn len(&self) -> (r: usize)
        requires
            self.size() <= usize::MAX,
        ensures
            r == self.size(),
        decreases self,
    {
        match self {
            StringMap::Nil => 0,
            StringMap::Cons(_, _, rest) => 1 + rest.len(),
        }
    }

    /// A copy of this map.
    pub fn duplicate(&self) -> (r: StringMap)
        ensures
            r == *self,
        decreases self,
    {
        match self {
            StringMap::Nil => StringMap::Nil,
            StringMap::Cons(k, v, rest) => StringMap::Cons(k.clone(), v.clone(), Box::new(rest.duplicate())),
        }
    }

    /// An empty map.
    pub fn new() -> (r: StringMap)
        ensures
            r == StringMap::Nil,
    {
        StringMap::Nil
    }

    /// The value stored for `key`.
    pub fn get(&self, key: &str) -> (r: Option<&String>)
        ensures
            r is Some == self.lookup(key@) is Some,
            r is Some ==> r->0@ == self.lookup(key@)->0,
        decreases self,
    {
        match self {
            StringMap::Nil => None,
            StringMap::Cons(k, v, rest) => {
                if str_equal(k.as_str(), key) {
                    Some(v)
                } else {
                    rest.get(key)
                }
            },
        }
    }

    /// The map after storing `value` for `key`, replacing any earlier value.
    pub fn insert(self, key: String, value: String) -> (r: StringMap)
        ensures
            r.lookup(key@) == Some(value@),
            forall|k: Seq<char>| k != key@ ==> r.lookup(k) == self.lookup(k),
        decreases self,
    {
        match self {
            StringMap::Nil => {
                let r = StringMap::Cons(key, value, Box::new(StringMap::Nil));
                proof {
                    assert forall|q: Seq<char>| q != key@ implies r.lookup(q) == self.lookup(q) by {
                        assert(self.lookup(q) is None);
                        assert(r.lookup(q) == StringMap::Nil.lookup(q));
                        assert(r.lookup(q) is None);
                    }
                }
                r
            },
            StringMap::Cons(k, v, rest) => {
                if str_equal(k.as_str(), key.as_str()) {
                    let r = StringMap::Cons(k, value, rest);
                    proof {
                        assert forall|q: Seq<char>| q != key@ implies r.lookup(q) == self.lookup(q) by {
                        }
                    }
                    r
                } else {
                    let inner = (*rest).insert(key, value);
                    let r = StringMap::Cons(k, v, Box::new(inner));
                    proof {
                        assert forall|q: Seq<char>| q != key@ implies r.lookup(q) == self.lookup(q) by {
                            assert(inner.lookup(q) == (*rest).lookup(q));
                        }
                    }
                    r
                }
            },
        }
    }
}

/// The value of the first pair named `key`.
pub open spec fn pairs_lookup(s: Seq<(Seq<char>, Seq<char>)>, key: Seq<char>) -> Option<Seq<char>>
    decreases s.len(),
{
    if s.len() == 0 {
        None
    } else if s[0].0 == key {
        Some(s[0].1)
    } else {
        pairs_lookup(s.drop_first(), key)
    }
}

/// Whether the names of the pairs increase strictly.
pub open spec fn keys_increasing(s: Seq<(Seq<char>, Seq<char>)>) -> bool {
    forall|i: int, j: int| 0 <= i < j < s.len() ==> chars_lt(#[trigger] s[i].0, #[trigger] s[j].0)
}

/// The pairs, as texts.
pub open spec fn pair_views(v: Seq<(String, String)>) -> Seq<(Seq<char>, Seq<char>)> {
    v.map_values(|e: (String, String)| (e.0@, e.1@))
}

/// Looking up a map is looking up its pairs.
proof fn lemma_lookup_pairs(m: StringMap, k: Seq<char>)
    ensures
        m.lookup(k) == pairs_lookup(m.pairs(), k),
    decreases m,
{
    match m {
        StringMap::Nil => {},
        StringMap::Cons(k0, v0, rest) => {
            lemma_lookup_pairs(*rest, k);
            assert(m.pairs().drop_first() =~= rest.pairs());
        },
    }
}

/// A pair added at the end is found only for a name not found before.
proof fn lemma_lookup_push(s: Seq<(Seq<char>, Seq<char>)>, e: (Seq<char>, Seq<char>), k: Seq<char>)
    ensures
        pairs_lookup(s.push(e), k) == match pairs_lookup(s, k) {
            Some(v) => Some(v),
            None => if k == e.0 { Some(e.1) } else { None },
        },
    decreases s.len(),
{
    if s.len() > 0 {
        assert(s.push(e).drop_first() =~= s.drop_first().push(e));
        assert(s.push(e)[0] == s[0]);
        lemma_lookup_push(s.drop_first(), e, k);
    } else {
        assert(s.push(e).drop_first() =~= Seq::<(Seq<char>, Seq<char>)>::empty());
        assert(s.push(e)[0] == e);
        assert(pairs_lookup(Seq::<(Seq<char>, Seq<char>)>::empty(), k) is None);
    }
}

/// A name that no pair has is not found.
proof fn lemma_lookup_absent(s: Seq<(Seq<char>, Seq<char>)>, k: Seq<char>)
    requires
        forall|j: int| 0 <= j < s.len() ==> #[trigger] s[j].0 != k,
    ensures
        pairs_lookup(s, k) is None,
    decreases s.len(),
{
    if s.len() > 0 {
        assert forall|j: int| 0 <= j < s.drop_first().len() implies #[trigger] s.drop_first()[j].0 != k by {
            assert(s.drop_first()[j] == s[j + 1]);
        }
        lemma_lookup_absent(s.drop_first(), k);
    }
}

/// A name that some pair has is found.
proof fn lemma_lookup_present(s: Seq<(Seq<char>, Seq<char>)>, i: int)
    requires
        0 <= i < s.len(),
    ensures
        pairs_lookup(s, s[i].0) is Some,
    decreases s.len(),
{
    if s[0].0 != s[i].0 {
        assert(s.drop_first()[i - 1] == s[i]);
        lemma_lookup_present(s.drop_first(), i - 1);
    }
}

/// Inserting a pair with a new name anywhere finds it, and finds every
/// other name as before.
proof fn lemma_lookup_insert(s: Seq<(Seq<char>, Seq<char>)>, p: int, e: (Seq<char>, Seq<char>), k: Seq<char>)
    requires
        0 <= p <= s.len(),
        pairs_lookup(s, e.0) is None,
    ensures
        pairs_lookup(s.insert(p, e), k) == if k == e.0 { Some(e.1) } else { pairs_lookup(s, k) },
    decreases p,
{
    if p > 0 {
        assert(s.insert(p, e).drop_first() =~= s.drop_first().insert(p - 1, e));
        assert(s.insert(p, e)[0] == s[0]);
        if s[0].0 != e.0 {
            lemma_lookup_insert(s.drop_first(), p - 1, e, k);
        }
    } else {
        assert(s.insert(0, e).drop_first() =~= s);
    }
}

impl StringMap {
    /// The entries sorted by name, one per name with the value that
    /// [`StringMap::lookup`] gives, as a `BTreeMap` would list them.
    pub fn to_sorted_pairs(&self) -> (r: Vec<(String, String)>)
        ensures
            keys_increasing(pair_views(r@)),
            forall|k: Seq<char>| #[trigger] pairs_lookup(pair_views(r@), k) == self.lookup(k),
    {
        let pairs = self.to_pairs();
        let ghost pv = pair_views(pairs@);
        let mut out: Vec<(String, String)> = Vec::new();
        let mut i: usize = 0;
        while i < pairs.len()
            invariant
                i <= pairs@.len(),
                pv == pair_views(pairs@),
                keys_increasing(pair_views(out@)),
                forall|k: Seq<char>| #[trigger] pairs_lookup(pair_views(out@), k) == pairs_lookup(pv.take(i as int), k),
            decreases pairs@.len() - i,
        {
            let ghost s = pair_views(out@);
            let key = &pairs[i].0;
            let mut p: usize = 0;
            while p < out.len() && str_less(out[p].0.as_str(), key.as_str())
                invariant
                    p <= out@.len(),
                    s == pair_views(out@),
                    forall|j: int| 0 <= j < p ==> chars_lt(#[trigger] s[j].0, key@),
                decreases out@.len() - p,
            {
                p = p + 1;
            }
            proof {
                assert(pv.take(i + 1) =~= pv.take(i as int).push(pv[i as int]));
                assert(pv[i as int] == (key@, pairs@[i as int].1@));
                assert forall|k: Seq<char>| #[trigger] pairs_lookup(pv.take(i + 1), k) == match pairs_lookup(pv.take(i as int), k) {
                    Some(v) => Some(v),
                    None => if k == key@ { Some(pairs@[i as int].1@) } else { None },
                } by {
                    lemma_lookup_push(pv.take(i as int), pv[i as int], k);
                }
            }
            if p < out.len() && str_equal(out[p].0.as_str(), key.as_str()) {
                proof {
                    assert(s[p as int].0 == key@);
                    lemma_lookup_present(s, p as int);
                }
            } else {
                proof {
                    assert forall|j: int| 0 <= j < s.len() implies #[trigger] s[j].0 != key@ by {
                        if j < p {
                            lemma_chars_lt_irreflexive(key@);
                        } else {
                            lemma_chars_lt_total(s[p as int].0, key@);
                            if j > p {
                                lemma_chars_lt_transitive(key@, s[p as int].0, s[j].0);
                                lemma_chars_lt_irreflexive(key@);
                            } else {
                                lemma_chars_lt_irreflexive(key@);
                            }
                        }
                    }
                    lemma_lookup_absent(s, key@);
                    if p < s.len() {
                        lemma_chars_lt_total(s[p as int].0, key@);
                    }
                }
                let e = (key.clone(), pairs[i].1.clone());
                out.insert(p, e);
                proof {
                    let t = pair_views(out@);
                    assert(t =~= s.insert(p as int, (key@, pairs@[i as int].1@)));
                    assert forall|a: int, b: int| 0 <= a < b < t.len() implies chars_lt(#[trigger] t[a].0, #[trigger] t[b].0) by {
                        if a < p && b < p {
                            assert(t[a] == s[a] && t[b] == s[b]);
                        } else if a < p && b == p {
                        } else if a < p && b > p {
                            assert(t[b] == s[b - 1]);
                            if a < b - 1 {
                                assert(chars_lt(s[a].0, s[b - 1].0));
                            }
                        } else if a == p {
                            assert(t[b] == s[b - 1]);
                            if b - 1 > p {
                                assert(chars_lt(s[p as int].0, s[b - 1].0));
                                lemma_chars_lt_transitive(key@, s[p as int].0, s[b - 1].0);
                            }
                        } else {
                            assert(t[a] == s[a - 1]);
                            assert(t[b] == s[b - 1]);
                        }
                    }
                    assert forall|k: Seq<char>| #[trigger] pairs_lookup(t, k) == pairs_lookup(pv.take(i + 1), k) by {
                        lemma_lookup_insert(s, p as int, (key@, pairs@[i as int].1@), k);
                    }
                }
            }
            i = i + 1;
        }
        proof {
            assert(pv.take(pairs@.len() as int) =~= pv);
            assert forall|k: Seq<char>| #[trigger] pairs_lookup(pair_views(out@), k) == self.lookup(k) by {
                lemma_lookup_pairs(*self, k);
            }
        }
        out
    }
}

} // verus!
