//! The search index over proxies and log messages: how texts are cut into
//! tokens and keywords, and which items each token and keyword leads to.
//! The floating-point scoring and ranking of results is done by the monitor.
use vstd::prelude::*;
use vstd::string::StrSliceExecFns;
use crate::common::{LogEntry, ProxyInfo};
use crate::text::{byte_len, char_is_alphanumeric, char_is_whitespace, chars_lt, chars_of, is_alphanumeric, is_whitespace, lowercase, owned, push_char, push_str, str_equal, str_less, string_from_chars, to_lowercase, utf8_len, lemma_chars_lt_irreflexive, lemma_chars_lt_total, lemma_chars_lt_transitive};

verus! {

/// Whether `c` separates pieces: whitespace when splitting into words,
/// anything not alphanumeric when splitting into tokens.
pub open spec fn is_sep(c: char, ws: bool) -> bool {
    if ws { is_whitespace(c) } else { !is_alphanumeric(c) }
}

/// The pieces of `s` between separators, empty ones included, as
/// `str::split` gives them.
pub open spec fn split_on(s: Seq<char>, ws: bool) -> Seq<Seq<char>>
    decreases s.len(),
{
    if s.len() == 0 {
        seq![Seq::<char>::empty()]
    } else {
        let r = split_on(s.drop_last(), ws);
        if is_sep(s.last(), ws) {
            r.push(Seq::<char>::empty())
        } else {
            r.update(r.len() - 1, r.last().push(s.last()))
        }
    }
}

proof fn lemma_split_on_nonempty(s: Seq<char>, ws: bool)
    ensures
        split_on(s, ws).len() >= 1,
    decreases s.len(),
{
    if s.len() > 0 {
        lemma_split_on_nonempty(s.drop_last(), ws);
    }
}

/// The texts of a list of strings.
pub open spec fn views(v: Seq<String>) -> Seq<Seq<char>> {
    v.map_values(|x: String| x@)
}

/// Splits `s` into the pieces between separators.
fn split_chars(s: &str, ws: bool) -> (r: Vec<String>)
    ensures
        views(r@) == split_on(s@, ws),
{
    let cs = chars_of(s);
    let mut parts: Vec<String> = Vec::new();
    let mut cur = String::new();
    let mut i: usize = 0;
    proof {
        assert(cs@.take(0) =~= Seq::<char>::empty());
        assert(views(parts@).push(cur@) =~= seq![Seq::<char>::empty()]);
    }
    while i < cs.len()
        invariant
            i <= cs@.len(),
            views(parts@).push(cur@) == split_on(cs@.take(i as int), ws),
        decreases cs@.len() - i,
    {
        let c = cs[i];
        proof {
            assert(cs@.take(i + 1).drop_last() =~= cs@.take(i as int));
            assert(cs@.take(i + 1).last() == c);
            lemma_split_on_nonempty(cs@.take(i as int), ws);
        }
        let sep = if ws { char_is_whitespace(c) } else { !char_is_alphanumeric(c) };
        let ghost before = views(parts@).push(cur@);
        if sep {
            let mut done = String::new();
            std::mem::swap(&mut done, &mut cur);
            parts.push(done);
            proof {
                assert(views(parts@).push(cur@) =~= before.push(Seq::<char>::empty()));
            }
        } else {
            push_char(&mut cur, c);
            proof {
                assert(views(parts@).push(cur@) =~= before.update(before.len() - 1, before.last().push(c)));
            }
        }
        i = i + 1;
    }
    proof {
        assert(cs@.take(cs@.len() as int) =~= cs@);
    }
    let ghost fin = views(parts@).push(cur@);
    parts.push(cur);
    proof {
        assert(views(parts@) =~= fin);
    }
    parts
}

/// The tokens of a text: the pieces between non-alphanumeric characters
/// that are longer than one byte.
pub open spec fn tokens_of(s: Seq<char>) -> Seq<Seq<char>> {
    split_on(s, false).filter(|t: Seq<char>| utf8_len(t) > 1)
}

/// The words of a text: the non-empty pieces between whitespace.
pub open spec fn words_of(s: Seq<char>) -> Seq<Seq<char>> {
    split_on(s, true).filter(|t: Seq<char>| t.len() > 0)
}

/// Whether a word, lower-cased, is one of the common English words that
/// carry no meaning for search.
pub open spec fn is_stop(l: Seq<char>) -> bool {
    l == "the"@ || l == "a"@ || l == "an"@ || l == "and"@ || l == "or"@ || l == "but"@ || l == "in"@
        || l == "on"@ || l == "at"@ || l == "to"@ || l == "for"@ || l == "of"@ || l == "with"@
        || l == "by"@ || l == "is"@ || l == "are"@ || l == "was"@ || l == "were"@ || l == "be"@
        || l == "been"@ || l == "have"@ || l == "has"@ || l == "had"@ || l == "do"@ || l == "does"@
        || l == "did"@ || l == "will"@ || l == "would"@ || l == "could"@ || l == "should"@
        || l == "this"@ || l == "that"@ || l == "these"@ || l == "those"@ || l == "it"@ || l == "its"@
        || l == "they"@ || l == "them"@ || l == "their"@
}

/// `s` without leading characters that are not alphanumeric.
pub open spec fn trim_start(s: Seq<char>) -> Seq<char>
    decreases s.len(),
{
    if s.len() > 0 && !is_alphanumeric(s[0]) { trim_start(s.drop_first()) } else { s }
}

/// `s` without trailing characters that are not alphanumeric.
pub open spec fn trim_end(s: Seq<char>) -> Seq<char>
    decreases s.len(),
{
    if s.len() > 0 && !is_alphanumeric(s.last()) { trim_end(s.drop_last()) } else { s }
}

/// `s` without leading or trailing characters that are not alphanumeric.
pub open spec fn trim_alnum(s: Seq<char>) -> Seq<char> {
    trim_end(trim_start(s))
}

/// The words of a description that count as keywords, before
/// normalization: longer than three bytes, not stop words, the first ten.
pub open spec fn meaningful_words(d: Seq<char>) -> Seq<Seq<char>> {
    let f = words_of(d).filter(|w: Seq<char>| utf8_len(w) > 3 && !is_stop(lowercase(w)));
    if f.len() <= 10 { f } else { f.take(10) }
}

/// The keywords a description contributes: its meaningful words, lower-cased
/// and trimmed, the empty ones dropped.
pub open spec fn description_keywords(d: Seq<char>) -> Seq<Seq<char>> {
    meaningful_words(d).map_values(|w: Seq<char>| trim_alnum(lowercase(w))).filter(|w: Seq<char>| w.len() > 0)
}

/// Every keyword candidate of an item: its name's tokens, lower-cased, and
/// its description's keywords.
pub open spec fn keyword_candidates(name: Seq<char>, d: Seq<char>) -> Seq<Seq<char>> {
    tokens_of(name).map_values(|t: Seq<char>| lowercase(t)) + description_keywords(d)
}

/// A list in strictly increasing order.
pub open spec fn strictly_sorted(s: Seq<Seq<char>>) -> bool {
    forall|i: int, j: int| 0 <= i < j < s.len() ==> chars_lt(#[trigger] s[i], #[trigger] s[j])
}

/// The keywords of an item: its distinct keyword candidates in increasing
/// order.
pub open spec fn keyword_list(name: Seq<char>, d: Seq<char>) -> Seq<Seq<char>> {
    choose|s: Seq<Seq<char>>| strictly_sorted(s) && s.to_set() == keyword_candidates(name, d).to_set()
}

/// An increasing list with `x` put in its place, if it is not there yet.
pub open spec fn sorted_insert(s: Seq<Seq<char>>, x: Seq<char>) -> Seq<Seq<char>>
    decreases s.len(),
{
    if s.len() == 0 {
        seq![x]
    } else if s[0] == x {
        s
    } else if chars_lt(x, s[0]) {
        seq![x] + s
    } else {
        seq![s[0]] + sorted_insert(s.drop_first(), x)
    }
}

/// The elements of a list, without repeats, in increasing order.
pub open spec fn sorted_distinct(c: Seq<Seq<char>>) -> Seq<Seq<char>>
    decreases c.len(),
{
    if c.len() == 0 {
        Seq::empty()
    } else {
        sorted_insert(sorted_distinct(c.drop_last()), c.last())
    }
}

/// Putting `x` into an increasing list keeps it increasing and adds `x`
/// to its elements.
proof fn lemma_sorted_insert(s: Seq<Seq<char>>, x: Seq<char>)
    requires
        strictly_sorted(s),
    ensures
        strictly_sorted(sorted_insert(s, x)),
        sorted_insert(s, x).to_set() == s.to_set().insert(x),
    decreases s.len(),
{
    let t = sorted_insert(s, x);
    if s.len() == 0 {
        assert(t.to_set() =~= s.to_set().insert(x)) by {
            assert(t[0] == x);
        }
    } else if s[0] == x {
        assert(s.to_set().contains(x));
        assert(t.to_set() =~= s.to_set().insert(x));
    } else if chars_lt(x, s[0]) {
        assert forall|i: int, j: int| 0 <= i < j < t.len() implies chars_lt(#[trigger] t[i], #[trigger] t[j]) by {
            if i == 0 {
                if j > 1 {
                    assert(chars_lt(s[0], s[j - 1]));
                    lemma_chars_lt_transitive(x, s[0], s[j - 1]);
                }
            } else {
                assert(t[i] == s[i - 1] && t[j] == s[j - 1]);
            }
        }
        assert forall|y: Seq<char>| t.to_set().contains(y) <==> s.to_set().insert(x).contains(y) by {
            if t.contains(y) {
                let k = choose|k: int| 0 <= k < t.len() && t[k] == y;
                if k > 0 {
                    assert(s[k - 1] == y);
                }
            }
            if s.contains(y) {
                let k = choose|k: int| 0 <= k < s.len() && s[k] == y;
                assert(t[k + 1] == y);
            }
            if y == x {
                assert(t[0] == y);
            }
        }
        assert(t.to_set() =~= s.to_set().insert(x));
    } else {
        lemma_chars_lt_total(x, s[0]);
        let rest = s.drop_first();
        assert(strictly_sorted(rest)) by {
            assert forall|i: int, j: int| 0 <= i < j < rest.len() implies chars_lt(#[trigger] rest[i], #[trigger] rest[j]) by {
                assert(rest[i] == s[i + 1] && rest[j] == s[j + 1]);
            }
        }
        lemma_sorted_insert(rest, x);
        let r = sorted_insert(rest, x);
        assert(t == seq![s[0]] + r);
        assert forall|j: int| 0 <= j < r.len() implies chars_lt(s[0], #[trigger] r[j]) by {
            assert(r.to_set().contains(r[j]));
            if r[j] != x {
                assert(rest.to_set().contains(r[j]));
                let k = choose|k: int| 0 <= k < rest.len() && rest[k] == r[j];
                assert(s[k + 1] == r[j]);
            }
        }
        assert forall|i: int, j: int| 0 <= i < j < t.len() implies chars_lt(#[trigger] t[i], #[trigger] t[j]) by {
            if i == 0 {
                assert(t[j] == r[j - 1]);
            } else {
                assert(t[i] == r[i - 1] && t[j] == r[j - 1]);
            }
        }
        assert forall|y: Seq<char>| t.to_set().contains(y) <==> s.to_set().insert(x).contains(y) by {
            if t.contains(y) {
                let k = choose|k: int| 0 <= k < t.len() && t[k] == y;
                if k > 0 {
                    assert(r[k - 1] == y);
                    assert(r.to_set().contains(y));
                    if y != x {
                        assert(rest.to_set().contains(y));
                        let m = choose|m: int| 0 <= m < rest.len() && rest[m] == y;
                        assert(s[m + 1] == y);
                    }
                }
            }
            if s.contains(y) {
                let k = choose|k: int| 0 <= k < s.len() && s[k] == y;
                if k == 0 {
                    assert(t[0] == y);
                } else {
                    assert(rest[k - 1] == y);
                    assert(rest.to_set().contains(y));
                    assert(r.to_set().contains(y));
                    let m = choose|m: int| 0 <= m < r.len() && r[m] == y;
                    assert(t[m + 1] == y);
                }
            }
            if y == x {
                assert(r.to_set().contains(x));
                let m = choose|m: int| 0 <= m < r.len() && r[m] == x;
                assert(t[m + 1] == y);
            }
        }
        assert(t.to_set() =~= s.to_set().insert(x));
    }
}

/// The sorted distinct elements of a list are increasing and are exactly
/// its elements.
proof fn lemma_sorted_distinct(c: Seq<Seq<char>>)
    ensures
        strictly_sorted(sorted_distinct(c)),
        sorted_distinct(c).to_set() == c.to_set(),
    decreases c.len(),
{
    if c.len() == 0 {
        assert(c.to_set() =~= Set::<Seq<char>>::empty());
        assert(sorted_distinct(c).to_set() =~= Set::<Seq<char>>::empty());
    } else {
        lemma_sorted_distinct(c.drop_last());
        lemma_sorted_insert(sorted_distinct(c.drop_last()), c.last());
        assert(c =~= c.drop_last().push(c.last()));
        assert(c.to_set() =~= c.drop_last().to_set().insert(c.last())) by {
            assert forall|y: Seq<char>| c.to_set().contains(y) <==> c.drop_last().to_set().insert(c.last()).contains(y) by {
                if c.contains(y) {
                    let k = choose|k: int| 0 <= k < c.len() && c[k] == y;
                    if k < c.len() - 1 {
                        assert(c.drop_last()[k] == y);
                    }
                }
                if c.drop_last().contains(y) {
                    let k = choose|k: int| 0 <= k < c.drop_last().len() && c.drop_last()[k] == y;
                    assert(c[k] == y);
                }
                if y == c.last() {
                    assert(c[c.len() - 1] == y);
                }
            }
        }
    }
}

/// The keywords of an item are well defined: they are increasing, without
/// repeats, and are exactly the item's keyword candidates.
pub proof fn lemma_keyword_list(name: Seq<char>, d: Seq<char>)
    ensures
        strictly_sorted(keyword_list(name, d)),
        keyword_list(name, d).to_set() == keyword_candidates(name, d).to_set(),
{
    lemma_sorted_distinct(keyword_candidates(name, d));
    let w = sorted_distinct(keyword_candidates(name, d));
    assert(strictly_sorted(w) && w.to_set() == keyword_candidates(name, d).to_set());
}

/// Two increasing lists with the same elements are the same list.
proof fn lemma_sorted_unique(a: Seq<Seq<char>>, b: Seq<Seq<char>>)
    requires
        strictly_sorted(a),
        strictly_sorted(b),
        a.to_set() == b.to_set(),
    ensures
        a == b,
    decreases a.len() + b.len(),
{
    if a.len() == 0 {
        if b.len() > 0 {
            assert(b.to_set().contains(b[0]));
            assert(!a.to_set().contains(b[0]));
        }
        assert(a =~= b);
    } else if b.len() == 0 {
        assert(a.to_set().contains(a[0]));
    } else {
        // the first elements are both the least element
        assert(a.to_set().contains(a[0]));
        assert(b.to_set().contains(b[0]));
        assert(b.contains(a[0]));
        assert(a.contains(b[0]));
        let ia = choose|i: int| 0 <= i < a.len() && a[i] == b[0];
        let ib = choose|i: int| 0 <= i < b.len() && b[i] == a[0];
        if a[0] != b[0] {
            assert(ia > 0 && ib > 0);
            assert(chars_lt(a[0], a[ia]));
            assert(chars_lt(b[0], b[ib]));
            lemma_chars_lt_total(a[0], b[0]);
        }
        let ta = a.drop_first();
        let tb = b.drop_first();
        assert forall|x: Seq<char>| ta.to_set().contains(x) <==> tb.to_set().contains(x) by {
            if ta.contains(x) {
                let i = choose|i: int| 0 <= i < ta.len() && ta[i] == x;
                assert(a[i + 1] == x);
                assert(chars_lt(a[0], x));
                lemma_chars_lt_irreflexive(x);
                assert(a.to_set().contains(x));
                assert(b.contains(x));
                let j = choose|j: int| 0 <= j < b.len() && b[j] == x;
                assert(j != 0);
                assert(tb[j - 1] == x);
            }
            if tb.contains(x) {
                let i = choose|i: int| 0 <= i < tb.len() && tb[i] == x;
                assert(b[i + 1] == x);
                assert(chars_lt(b[0], x));
                lemma_chars_lt_irreflexive(x);
                assert(b.to_set().contains(x));
                assert(a.contains(x));
                let j = choose|j: int| 0 <= j < a.len() && a[j] == x;
                assert(j != 0);
                assert(ta[j - 1] == x);
            }
        }
        assert(ta.to_set() =~= tb.to_set());
        lemma_sorted_unique(ta, tb);
        assert(a =~= seq![a[0]] + ta);
        assert(b =~= seq![b[0]] + tb);
    }
}

/// Inserts `x` into an increasing list without duplicates.
fn insert_sorted(v: &mut Vec<String>, x: String)
    requires
        strictly_sorted(views(old(v)@)),
    ensures
        strictly_sorted(views(final(v)@)),
        views(final(v)@).to_set() == views(old(v)@).to_set().insert(x@),
{
    let ghost s = views(v@);
    let mut p: usize = 0;
    while p < v.len() && str_less(v[p].as_str(), x.as_str())
        invariant
            p <= v@.len(),
            s == views(v@),
            forall|j: int| 0 <= j < p ==> chars_lt(#[trigger] s[j], x@),
        decreases v@.len() - p,
    {
        p = p + 1;
    }
    if p < v.len() && str_equal(v[p].as_str(), x.as_str()) {
        proof {
            assert(s[p as int] == x@);
            assert(s.to_set().insert(x@) =~= s.to_set());
        }
        return;
    }
    proof {
        if p < s.len() {
            lemma_chars_lt_total(s[p as int], x@);
        }
    }
    v.insert(p, x);
    proof {
        let t = views(v@);
        assert(t =~= s.insert(p as int, x@));
        assert forall|i: int, j: int| 0 <= i < j < t.len() implies chars_lt(#[trigger] t[i], #[trigger] t[j]) by {
            if i < p && j == p {
            } else if i < p && j > p {
                assert(t[j] == s[j - 1]);
                if i < j - 1 {
                    assert(chars_lt(s[i], s[j - 1]));
                }
            } else if i == p {
                assert(t[j] == s[j - 1]);
                if j - 1 > p {
                    assert(chars_lt(s[p as int], s[j - 1]));
                    lemma_chars_lt_transitive(x@, s[p as int], s[j - 1]);
                }
            } else if i > p {
                assert(t[i] == s[i - 1]);
                assert(t[j] == s[j - 1]);
            }
        }
        assert forall|y: Seq<char>| t.to_set().contains(y) <==> s.to_set().insert(x@).contains(y) by {
            if t.contains(y) {
                let k = choose|k: int| 0 <= k < t.len() && t[k] == y;
                if k < p {
                    assert(s[k] == y);
                } else if k > p {
                    assert(s[k - 1] == y);
                }
            }
            if s.contains(y) {
                let k = choose|k: int| 0 <= k < s.len() && s[k] == y;
                if k < p {
                    assert(t[k] == y);
                } else {
                    assert(t[k + 1] == y);
                }
            }
            if y == x@ {
                assert(t[p as int] == y);
            }
        }
        assert(t.to_set() =~= s.to_set().insert(x@));
    }
}

/// Category of searchable items.
#[derive(Debug, Clone, Copy, PartialEq, Eq, Structural)]
pub enum SearchCategory {
    Proxy,
    LogMessage,
    Method,
}

/// An item that can be found by search.
#[derive(Debug, Clone)]
pub struct SearchableItem {
    pub name: String,
    pub description: String,
    pub category: SearchCategory,
}

/// The item indices recorded for `key`: those of the last entry with that
/// key, or none.
pub open spec fn postings_lookup(es: Seq<(Seq<char>, Seq<usize>)>, key: Seq<char>) -> Seq<usize>
    decreases es.len(),
{
    if es.len() == 0 {
        Seq::empty()
    } else if es.last().0 == key {
        es.last().1
    } else {
        postings_lookup(es.drop_last(), key)
    }
}

/// A map from keys to the indices of the items filed under them, in the
/// order they were filed.
#[derive(Debug)]
pub struct TokenIndex {
    pub entries: Vec<(String, Vec<usize>)>,
}

impl TokenIndex {
    /// The entries, as (key, indices) pairs.
    pub open spec fn entry_views(self) -> Seq<(Seq<char>, Seq<usize>)> {
        self.entries@.map_values(|e: (String, Vec<usize>)| (e.0@, e.1@))
    }

    /// The indices filed under `key`.
    pub open spec fn postings(self, key: Seq<char>) -> Seq<usize> {
        postings_lookup(self.entry_views(), key)
    }

    /// An empty index.
    pub fn new() -> (r: Self)
        ensures
            r.entry_views() == Seq::<(Seq<char>, Seq<usize>)>::empty(),
            forall|k: Seq<char>| #[trigger] r.postings(k) == Seq::<usize>::empty(),
    {
        let r = TokenIndex { entries: Vec::new() };
        proof {
            assert(r.entry_views() =~= Seq::<(Seq<char>, Seq<usize>)>::empty());
        }
        r
    }

    /// The position of the last entry for `key`, if any.
    fn find(&self, key: &str) -> (r: Option<usize>)
        ensures
            match r {
                Some(i) => i < self.entry_views().len() && self.entry_views()[i as int].0 == key@
                    && forall|j: int| i < j < self.entry_views().len() ==> #[trigger] self.entry_views()[j].0 != key@,
                None => forall|j: int| 0 <= j < self.entry_views().len() ==> #[trigger] self.entry_views()[j].0 != key@,
            },
    {
        let mut i: usize = self.entries.len();
        while i > 0
            invariant
                i <= self.entries@.len(),
                forall|j: int| i <= j < self.entry_views().len() ==> #[trigger] self.entry_views()[j].0 != key@,
            decreases i,
        {
            if str_equal(self.entries[i - 1].0.as_str(), key) {
                return Some(i - 1);
            }
            i = i - 1;
        }
        None
    }

    /// The indices filed under `key`.
    pub fn get(&self, key: &str) -> (r: Vec<usize>)
        ensures
            r@ == self.postings(key@),
    {
        match self.find(key) {
            Some(i) => {
                proof {
                    lemma_postings_at(self.entry_views(), key@, i as int);
                }
                self.entries[i].1.clone()
            },
            None => {
                proof {
                    lemma_postings_absent(self.entry_views(), key@);
                }
                Vec::new()
            },
        }
    }

    /// The keys, in the order they were first filed.
    pub fn keys(&self) -> (r: Vec<String>)
        ensures
            views(r@) == self.entry_views().map_values(|e: (Seq<char>, Seq<usize>)| e.0),
    {
        let mut r: Vec<String> = Vec::new();
        let mut i: usize = 0;
        while i < self.entries.len()
            invariant
                i <= self.entries@.len(),
                views(r@) == self.entry_views().take(i as int).map_values(|e: (Seq<char>, Seq<usize>)| e.0),
            decreases self.entries@.len() - i,
        {
            let ghost before = views(r@);
            r.push(self.entries[i].0.clone());
            proof {
                assert(views(r@) =~= before.push(self.entries@[i as int].0@));
                assert(self.entry_views().take(i + 1).map_values(|e: (Seq<char>, Seq<usize>)| e.0)
                    =~= self.entry_views().take(i as int).map_values(|e: (Seq<char>, Seq<usize>)| e.0).push(self.entry_views()[i as int].0));
            }
            i = i + 1;
        }
        proof {
            assert(self.entry_views().take(self.entries@.len() as int) =~= self.entry_views());
        }
        r
    }

    /// Files item `idx` under `key`, after the items already there.
    pub fn add(&mut self, key: String, idx: usize)
        ensures
            final(self).postings(key@) == old(self).postings(key@).push(idx),
            forall|k: Seq<char>| k != key@ ==> #[trigger] final(self).postings(k) == old(self).postings(k),
    {
        let ghost es = self.entry_views();
        match self.find(key.as_str()) {
            Some(i) => {
                proof {
                    lemma_postings_at(es, key@, i as int);
                }
                let mut h: Vec<usize> = Vec::new();
                std::mem::swap(&mut h, &mut self.entries[i].1);
                h.push(idx);
                let ghost nh = h@;
                std::mem::swap(&mut h, &mut self.entries[i].1);
                proof {
                    assert(self.entry_views() =~= es.update(i as int, (key@, nh)));
                    lemma_postings_update(es, key@, i as int, nh);
                }
            },
            None => {
                proof {
                    lemma_postings_absent(es, key@);
                }
                let mut h: Vec<usize> = Vec::new();
                h.push(idx);
                let ghost nh = h@;
                let ghost kv = key@;
                self.entries.push((key, h));
                proof {
                    assert(self.entry_views() =~= es.push((kv, nh)));
                    assert(self.entry_views().drop_last() =~= es);
                    assert(nh =~= Seq::<usize>::empty().push(idx));
                }
            },
        }
    }
}

proof fn lemma_postings_at(es: Seq<(Seq<char>, Seq<usize>)>, k: Seq<char>, i: int)
    requires
        0 <= i < es.len(),
        es[i].0 == k,
        forall|j: int| i < j < es.len() ==> #[trigger] es[j].0 != k,
    ensures
        postings_lookup(es, k) == es[i].1,
    decreases es.len(),
{
    if i < es.len() - 1 {
        assert(es.last() == es[es.len() - 1]);
        lemma_postings_at(es.drop_last(), k, i);
    }
}

proof fn lemma_postings_absent(es: Seq<(Seq<char>, Seq<usize>)>, k: Seq<char>)
    requires
        forall|j: int| 0 <= j < es.len() ==> #[trigger] es[j].0 != k,
    ensures
        postings_lookup(es, k) == Seq::<usize>::empty(),
    decreases es.len(),
{
    if es.len() > 0 {
        assert(es.last() == es[es.len() - 1]);
        lemma_postings_absent(es.drop_last(), k);
    }
}

proof fn lemma_postings_update(es: Seq<(Seq<char>, Seq<usize>)>, k: Seq<char>, i: int, h: Seq<usize>)
    requires
        0 <= i < es.len(),
        es[i].0 == k,
        forall|j: int| i < j < es.len() ==> #[trigger] es[j].0 != k,
    ensures
        postings_lookup(es.update(i, (k, h)), k) == h,
        forall|k2: Seq<char>| k2 != k ==> #[trigger] postings_lookup(es.update(i, (k, h)), k2) == postings_lookup(es, k2),
    decreases es.len(),
{
    let u = es.update(i, (k, h));
    if i == es.len() - 1 {
        assert(u.drop_last() =~= es.drop_last());
        assert(u.last() == (k, h));
        assert(es.last().0 == k);
        assert forall|k2: Seq<char>| k2 != k implies #[trigger] postings_lookup(u, k2) == postings_lookup(es, k2) by {
        }
    } else {
        assert(u.drop_last() =~= es.drop_last().update(i, (k, h)));
        assert(u.last() == es.last());
        assert(es.last() == es[es.len() - 1]);
        lemma_postings_update(es.drop_last(), k, i, h);
        assert forall|k2: Seq<char>| k2 != k implies #[trigger] postings_lookup(u, k2) == postings_lookup(es, k2) by {
            assert(postings_lookup(u.drop_last(), k2) == postings_lookup(es.drop_last(), k2));
        }
    }
}

/// The indices that filing item `idx` under each of `keys`, in order, adds
/// to key `k`.
pub open spec fn added_postings(keys: Seq<Seq<char>>, k: Seq<char>, idx: usize) -> Seq<usize> {
    keys.filter(|t: Seq<char>| t == k).map_values(|t: Seq<char>| idx)
}

/// The indices that filing a batch of items, the first at `base`, each
/// under its own list of keys, adds to key `k`.
pub open spec fn batch_postings(keysets: Seq<Seq<Seq<char>>>, base: nat, k: Seq<char>) -> Seq<usize>
    decreases keysets.len(),
{
    if keysets.len() == 0 {
        Seq::empty()
    } else {
        batch_postings(keysets.drop_last(), base, k) + added_postings(keysets.last(), k, (base + keysets.len() - 1) as usize)
    }
}

/// Lightweight search index over proxies and log messages.
#[derive(Debug)]
pub struct SearchEngine {
    pub items: Vec<SearchableItem>,
    pub name_index: TokenIndex,
    pub keyword_index: TokenIndex,
}

/// The keys an item's name is filed under: its tokens, lower-cased.
pub open spec fn name_keys(name: Seq<char>) -> Seq<Seq<char>> {
    tokens_of(name).map_values(|t: Seq<char>| lowercase(t))
}

/// The keys an item's keywords are filed under: each keyword, lower-cased.
pub open spec fn keyword_keys(name: Seq<char>, d: Seq<char>) -> Seq<Seq<char>> {
    keyword_list(name, d).map_values(|t: Seq<char>| lowercase(t))
}

impl SearchEngine {
    /// An empty index.
    pub fn new() -> (r: Self)
        ensures
            r.items@.len() == 0,
            r.name_index.entry_views() == Seq::<(Seq<char>, Seq<usize>)>::empty(),
            r.keyword_index.entry_views() == Seq::<(Seq<char>, Seq<usize>)>::empty(),
            forall|k: Seq<char>| #[trigger] r.name_index.postings(k) == Seq::<usize>::empty(),
            forall|k: Seq<char>| #[trigger] r.keyword_index.postings(k) == Seq::<usize>::empty(),
    {
        SearchEngine { items: Vec::new(), name_index: TokenIndex::new(), keyword_index: TokenIndex::new() }
    }

    /// Splits a text into searchable tokens: the pieces between
    /// non-alphanumeric characters that are longer than one byte.
    pub fn tokenize(&self, text: &str) -> (r: Vec<String>)
        ensures
            views(r@) == tokens_of(text@),
    {
        let pieces = split_chars(text, false);
        let ghost pred = |t: Seq<char>| utf8_len(t) > 1;
        let mut r: Vec<String> = Vec::new();
        let mut i: usize = 0;
        proof {
            assert(views(pieces@).take(0).filter(pred) =~= Seq::<Seq<char>>::empty());
            assert(views(r@) =~= Seq::<Seq<char>>::empty());
        }
        while i < pieces.len()
            invariant
                i <= pieces@.len(),
                views(r@) == views(pieces@).take(i as int).filter(pred),
                pred == (|t: Seq<char>| utf8_len(t) > 1),
            decreases pieces@.len() - i,
        {
            proof {
                views(pieces@).lemma_take_succ_push(i as int);
                views(pieces@).take(i as int).lemma_filter_push(pieces@[i as int]@, pred);
            }
            if byte_len(pieces[i].as_str()) > 1 {
                let ghost before = views(r@);
                r.push(pieces[i].clone());
                proof {
                    assert(views(r@) =~= before.push(pieces@[i as int]@));
                }
            }
            i = i + 1;
        }
        proof {
            assert(views(pieces@).take(pieces@.len() as int) =~= views(pieces@));
        }
        r
    }

    /// Whether a word, lower-cased, is a common stop word.
    pub fn is_stopword(&self, word: &str) -> (r: bool)
        ensures
            r == is_stop(lowercase(word@)),
    {
        let l = to_lowercase(word);
        let w = l.as_str();
        str_equal(w, "the") || str_equal(w, "a") || str_equal(w, "an") || str_equal(w, "and")
            || str_equal(w, "or") || str_equal(w, "but") || str_equal(w, "in") || str_equal(w, "on")
            || str_equal(w, "at") || str_equal(w, "to") || str_equal(w, "for") || str_equal(w, "of")
            || str_equal(w, "with") || str_equal(w, "by") || str_equal(w, "is") || str_equal(w, "are")
            || str_equal(w, "was") || str_equal(w, "were") || str_equal(w, "be") || str_equal(w, "been")
            || str_equal(w, "have") || str_equal(w, "has") || str_equal(w, "had") || str_equal(w, "do")
            || str_equal(w, "does") || str_equal(w, "did") || str_equal(w, "will") || str_equal(w, "would")
            || str_equal(w, "could") || str_equal(w, "should") || str_equal(w, "this") || str_equal(w, "that")
            || str_equal(w, "these") || str_equal(w, "those") || str_equal(w, "it") || str_equal(w, "its")
            || str_equal(w, "they") || str_equal(w, "them") || str_equal(w, "their")
    }

    /// The keywords of an item: the lower-cased tokens of its name and the
    /// meaningful words of its description, lower-cased and trimmed of
    /// characters that are not alphanumeric, without duplicates, in
    /// increasing order.
    pub fn extract_keywords(&self, name: &str, description: &str) -> (r: Vec<String>)
        ensures
            views(r@) == keyword_list(name@, description@),
    {
        let ghost cands = keyword_candidates(name@, description@);
        let mut r: Vec<String> = Vec::new();
        let name_tokens = self.tokenize(name);
        let mut i: usize = 0;
        let ghost lower_tokens = tokens_of(name@).map_values(|t: Seq<char>| lowercase(t));
        proof {
            assert(views(r@).to_set() =~= lower_tokens.take(0).to_set());
        }
        while i < name_tokens.len()
            invariant
                i <= name_tokens@.len(),
                views(name_tokens@) == tokens_of(name@),
                lower_tokens == tokens_of(name@).map_values(|t: Seq<char>| lowercase(t)),
                strictly_sorted(views(r@)),
                views(r@).to_set() == lower_tokens.take(i as int).to_set(),
            decreases name_tokens@.len() - i,
        {
            let l = to_lowercase(name_tokens[i].as_str());
            proof {
                assert(l@ == lower_tokens[i as int]);
                assert(lower_tokens.take(i + 1) =~= lower_tokens.take(i as int).push(l@));
                lemma_to_set_push(lower_tokens.take(i as int), l@);
            }
            insert_sorted(&mut r, l);
            i = i + 1;
        }
        proof {
            assert(lower_tokens.take(name_tokens@.len() as int) =~= lower_tokens);
        }
        let desc = description_keyword_strings(self, description);
        let mut j: usize = 0;
        let ghost dk = description_keywords(description@);
        proof {
            assert(dk.take(0) =~= Seq::<Seq<char>>::empty());
            assert(lower_tokens + dk.take(0) =~= lower_tokens);
        }
        while j < desc.len()
            invariant
                j <= desc@.len(),
                views(desc@) == dk,
                dk == description_keywords(description@),
                strictly_sorted(views(r@)),
                views(r@).to_set() == (lower_tokens + dk.take(j as int)).to_set(),
            decreases desc@.len() - j,
        {
            proof {
                assert(lower_tokens + dk.take(j + 1) =~= (lower_tokens + dk.take(j as int)).push(dk[j as int]));
                lemma_to_set_push(lower_tokens + dk.take(j as int), dk[j as int]);
            }
            insert_sorted(&mut r, desc[j].clone());
            j = j + 1;
        }
        proof {
            assert(dk.take(desc@.len() as int) =~= dk);
            assert(cands == lower_tokens + dk);
            let s = views(r@);
            assert(strictly_sorted(s) && s.to_set() == cands.to_set());
            let c = keyword_list(name@, description@);
            assert(strictly_sorted(c) && c.to_set() == cands.to_set());
            lemma_sorted_unique(s, c);
        }
        r
    }

    /// Indexes one item under the given name keys and keywords.
    fn file_item(&mut self, item: SearchableItem, keys: &Vec<String>, keywords: &Vec<String>)
        requires
            old(self).items@.len() < usize::MAX,
        ensures
            final(self).items@ == old(self).items@.push(item),
            forall|k: Seq<char>| #[trigger] final(self).name_index.postings(k) == old(self).name_index.postings(k)
                + added_postings(views(keys@).map_values(|t: Seq<char>| lowercase(t)), k, old(self).items@.len() as usize),
            forall|k: Seq<char>| #[trigger] final(self).keyword_index.postings(k) == old(self).keyword_index.postings(k)
                + added_postings(views(keywords@).map_values(|t: Seq<char>| lowercase(t)), k, old(self).items@.len() as usize),
    {
        let idx = self.items.len();
        self.items.push(item);
        file_keys(&mut self.name_index, keys, idx);
        file_keys(&mut self.keyword_index, keywords, idx);
    }

    /// Indexes proxies by name and by the keywords of their name and
    /// transport type.
    pub fn index_proxies(&mut self, proxies: &[ProxyInfo])
        requires
            old(self).items@.len() + proxies@.len() <= usize::MAX,
        ensures
            final(self).items@.len() == old(self).items@.len() + proxies@.len(),
            forall|i: int| 0 <= i < old(self).items@.len() ==> #[trigger] final(self).items@[i] == old(self).items@[i],
            forall|k: Seq<char>| #[trigger] final(self).name_index.postings(k) == old(self).name_index.postings(k)
                + batch_postings(proxies@.map_values(|p: ProxyInfo| name_keys(p.name@)), old(self).items@.len(), k),
            forall|k: Seq<char>| #[trigger] final(self).keyword_index.postings(k) == old(self).keyword_index.postings(k)
                + batch_postings(proxies@.map_values(|p: ProxyInfo| keyword_keys(p.name@, proxy_transport_name(p))), old(self).items@.len(), k),
            forall|i: int| 0 <= i < proxies@.len() ==> {
                let it = #[trigger] final(self).items@[old(self).items@.len() + i];
                &&& it.name@ == proxies@[i].name@
                &&& it.description@ == proxy_transport_name(proxies@[i]) + " transport"@
                &&& it.category == SearchCategory::Proxy
            },
    {
        let mut i: usize = 0;
        let ghost base = self.items@;
        let ghost nks = proxies@.map_values(|p: ProxyInfo| name_keys(p.name@));
        let ghost kks = proxies@.map_values(|p: ProxyInfo| keyword_keys(p.name@, proxy_transport_name(p)));
        let ghost start_names = self.name_index;
        let ghost start_keywords = self.keyword_index;
        proof {
            assert forall|k: Seq<char>| #[trigger] self.name_index.postings(k) == start_names.postings(k) + batch_postings(nks.take(0), base.len(), k) by {
                assert(start_names.postings(k) + batch_postings(nks.take(0), base.len(), k) =~= start_names.postings(k));
            }
            assert forall|k: Seq<char>| #[trigger] self.keyword_index.postings(k) == start_keywords.postings(k) + batch_postings(kks.take(0), base.len(), k) by {
                assert(start_keywords.postings(k) + batch_postings(kks.take(0), base.len(), k) =~= start_keywords.postings(k));
            }
        }
        while i < proxies.len()
            invariant
                i <= proxies@.len(),
                base.len() + proxies@.len() <= usize::MAX,
                self.items@.len() == base.len() + i,
                forall|j: int| 0 <= j < base.len() ==> #[trigger] self.items@[j] == base[j],
                nks == proxies@.map_values(|p: ProxyInfo| name_keys(p.name@)),
                kks == proxies@.map_values(|p: ProxyInfo| keyword_keys(p.name@, proxy_transport_name(p))),
                forall|k: Seq<char>| #[trigger] self.name_index.postings(k) == start_names.postings(k) + batch_postings(nks.take(i as int), base.len(), k),
                forall|k: Seq<char>| #[trigger] self.keyword_index.postings(k) == start_keywords.postings(k) + batch_postings(kks.take(i as int), base.len(), k),
                forall|j: int| 0 <= j < i ==> {
                    let it = #[trigger] self.items@[base.len() + j];
                    &&& it.name@ == proxies@[j].name@
                    &&& it.description@ == proxy_transport_name(proxies@[j]) + " transport"@
                    &&& it.category == SearchCategory::Proxy
                },
            decreases proxies@.len() - i,
        {
            let p = &proxies[i];
            let tname = p.transport_type.debug_name();
            let keywords = self.extract_keywords(p.name.as_str(), tname);
            let keys = self.tokenize(p.name.as_str());
            let mut description = owned(tname);
            push_str(&mut description, " transport");
            let item = SearchableItem { name: p.name.clone(), description, category: SearchCategory::Proxy };
            let ghost names_before = self.name_index;
            let ghost keywords_before = self.keyword_index;
            self.file_item(item, &keys, &keywords);
            proof {
                assert(nks.take(i + 1).drop_last() =~= nks.take(i as int));
                assert(kks.take(i + 1).drop_last() =~= kks.take(i as int));
                assert(nks.take(i + 1).last() == views(keys@).map_values(|t: Seq<char>| lowercase(t)));
                assert(kks.take(i + 1).last() == views(keywords@).map_values(|t: Seq<char>| lowercase(t)));
                assert forall|k: Seq<char>| #[trigger] self.name_index.postings(k) == start_names.postings(k) + batch_postings(nks.take(i + 1), base.len(), k) by {
                    assert(start_names.postings(k) + batch_postings(nks.take(i + 1), base.len(), k)
                        =~= (start_names.postings(k) + batch_postings(nks.take(i as int), base.len(), k))
                        + added_postings(views(keys@).map_values(|t: Seq<char>| lowercase(t)), k, (base.len() + i) as usize));
                }
                assert forall|k: Seq<char>| #[trigger] self.keyword_index.postings(k) == start_keywords.postings(k) + batch_postings(kks.take(i + 1), base.len(), k) by {
                    assert(start_keywords.postings(k) + batch_postings(kks.take(i + 1), base.len(), k)
                        =~= (start_keywords.postings(k) + batch_postings(kks.take(i as int), base.len(), k))
                        + added_postings(views(keywords@).map_values(|t: Seq<char>| lowercase(t)), k, (base.len() + i) as usize));
                }
            }
            i = i + 1;
        }
        proof {
            assert(nks.take(proxies@.len() as int) =~= nks);
            assert(kks.take(proxies@.len() as int) =~= kks);
        }
    }

    /// Indexes log entries by message and by the keywords of their message
    /// and level.
    pub fn index_logs(&mut self, logs: &[LogEntry])
        requires
            old(self).items@.len() + logs@.len() <= usize::MAX,
        ensures
            final(self).items@.len() == old(self).items@.len() + logs@.len(),
            forall|i: int| 0 <= i < old(self).items@.len() ==> #[trigger] final(self).items@[i] == old(self).items@[i],
            forall|k: Seq<char>| #[trigger] final(self).name_index.postings(k) == old(self).name_index.postings(k)
                + batch_postings(logs@.map_values(|l: LogEntry| name_keys(l.message@)), old(self).items@.len(), k),
            forall|k: Seq<char>| #[trigger] final(self).keyword_index.postings(k) == old(self).keyword_index.postings(k)
                + batch_postings(logs@.map_values(|l: LogEntry| keyword_keys(l.message@, log_level_name(l))), old(self).items@.len(), k),
            forall|i: int| 0 <= i < logs@.len() ==> {
                let it = #[trigger] final(self).items@[old(self).items@.len() + i];
                &&& it.name@ == logs@[i].message@
                &&& it.description@ == log_level_name(logs@[i])
                &&& it.category == SearchCategory::LogMessage
            },
    {
        let mut i: usize = 0;
        let ghost base = self.items@;
        let ghost nks = logs@.map_values(|l: LogEntry| name_keys(l.message@));
        let ghost kks = logs@.map_values(|l: LogEntry| keyword_keys(l.message@, log_level_name(l)));
        let ghost start_names = self.name_index;
        let ghost start_keywords = self.keyword_index;
        proof {
            assert forall|k: Seq<char>| #[trigger] self.name_index.postings(k) == start_names.postings(k) + batch_postings(nks.take(0), base.len(), k) by {
                assert(start_names.postings(k) + batch_postings(nks.take(0), base.len(), k) =~= start_names.postings(k));
            }
            assert forall|k: Seq<char>| #[trigger] self.keyword_index.postings(k) == start_keywords.postings(k) + batch_postings(kks.take(0), base.len(), k) by {
                assert(start_keywords.postings(k) + batch_postings(kks.take(0), base.len(), k) =~= start_keywords.postings(k));
            }
        }
        while i < logs.len()
            invariant
                i <= logs@.len(),
                base.len() + logs@.len() <= usize::MAX,
                self.items@.len() == base.len() + i,
                forall|j: int| 0 <= j < base.len() ==> #[trigger] self.items@[j] == base[j],
                nks == logs@.map_values(|l: LogEntry| name_keys(l.message@)),
                kks == logs@.map_values(|l: LogEntry| keyword_keys(l.message@, log_level_name(l))),
                forall|k: Seq<char>| #[trigger] self.name_index.postings(k) == start_names.postings(k) + batch_postings(nks.take(i as int), base.len(), k),
                forall|k: Seq<char>| #[trigger] self.keyword_index.postings(k) == start_keywords.postings(k) + batch_postings(kks.take(i as int), base.len(), k),
                forall|j: int| 0 <= j < i ==> {
                    let it = #[trigger] self.items@[base.len() + j];
                    &&& it.name@ == logs@[j].message@
                    &&& it.description@ == log_level_name(logs@[j])
                    &&& it.category == SearchCategory::LogMessage
                },
            decreases logs@.len() - i,
        {
            let l = &logs[i];
            let lname = l.level.debug_name();
            let keywords = self.extract_keywords(l.message.as_str(), lname);
            let keys = self.tokenize(l.message.as_str());
            let item = SearchableItem { name: l.message.clone(), description: owned(lname), category: SearchCategory::LogMessage };
            let ghost names_before = self.name_index;
            let ghost keywords_before = self.keyword_index;
            self.file_item(item, &keys, &keywords);
            proof {
                assert(nks.take(i + 1).drop_last() =~= nks.take(i as int));
                assert(kks.take(i + 1).drop_last() =~= kks.take(i as int));
                assert(nks.take(i + 1).last() == views(keys@).map_values(|t: Seq<char>| lowercase(t)));
                assert(kks.take(i + 1).last() == views(keywords@).map_values(|t: Seq<char>| lowercase(t)));
                assert forall|k: Seq<char>| #[trigger] self.name_index.postings(k) == start_names.postings(k) + batch_postings(nks.take(i + 1), base.len(), k) by {
                    assert(start_names.postings(k) + batch_postings(nks.take(i + 1), base.len(), k)
                        =~= (start_names.postings(k) + batch_postings(nks.take(i as int), base.len(), k))
                        + added_postings(views(keys@).map_values(|t: Seq<char>| lowercase(t)), k, (base.len() + i) as usize));
                }
                assert forall|k: Seq<char>| #[trigger] self.keyword_index.postings(k) == start_keywords.postings(k) + batch_postings(kks.take(i + 1), base.len(), k) by {
                    assert(start_keywords.postings(k) + batch_postings(kks.take(i + 1), base.len(), k)
                        =~= (start_keywords.postings(k) + batch_postings(kks.take(i as int), base.len(), k))
                        + added_postings(views(keywords@).map_values(|t: Seq<char>| lowercase(t)), k, (base.len() + i) as usize));
                }
            }
            i = i + 1;
        }
        proof {
            assert(nks.take(logs@.len() as int) =~= nks);
            assert(kks.take(logs@.len() as int) =~= kks);
        }
    }

    /// The item at `index`, if there is one.
    pub fn get_item(&self, index: usize) -> (r: Option<&SearchableItem>)
        ensures
            index < self.items@.len() ==> r == Some(&self.items@[index as int]),
            index >= self.items@.len() ==> r is None,
    {
        if index < self.items.len() {
            Some(&self.items[index])
        } else {
            None
        }
    }

    /// The number of indexed items.
    pub fn total_items(&self) -> (r: usize)
        ensures
            r == self.items@.len(),
    {
        self.items.len()
    }
}

/// The name of a proxy's transport, as `{:?}` prints it.
pub open spec fn proxy_transport_name(p: ProxyInfo) -> Seq<char> {
    match p.transport_type {
        crate::common::TransportType::Stdio => "Stdio"@,
        crate::common::TransportType::HttpSse => "HttpSse"@,
        crate::common::TransportType::HttpStream => "HttpStream"@,
    }
}

/// The name of a log entry's level, as `{:?}` prints it.
pub open spec fn log_level_name(l: LogEntry) -> Seq<char> {
    match l.level {
        crate::common::LogLevel::Debug => "Debug"@,
        crate::common::LogLevel::Info => "Info"@,
        crate::common::LogLevel::Warning => "Warning"@,
        crate::common::LogLevel::Error => "Error"@,
        crate::common::LogLevel::Request => "Request"@,
        crate::common::LogLevel::Response => "Response"@,
    }
}

/// Files item `idx` under each key, lower-cased, in order.
fn file_keys(index: &mut TokenIndex, keys: &Vec<String>, idx: usize)
    ensures
        forall|k: Seq<char>| #[trigger] final(index).postings(k) == old(index).postings(k)
            + added_postings(views(keys@).map_values(|t: Seq<char>| lowercase(t)), k, idx),
{
    let ghost lk = views(keys@).map_values(|t: Seq<char>| lowercase(t));
    let ghost start = *index;
    let mut i: usize = 0;
    proof {
        assert forall|k: Seq<char>| #[trigger] index.postings(k) == start.postings(k) + added_postings(lk.take(0), k, idx) by {
            assert(lk.take(0).filter(|t: Seq<char>| t == k) =~= Seq::<Seq<char>>::empty());
            assert(start.postings(k) + added_postings(lk.take(0), k, idx) =~= start.postings(k));
        }
    }
    while i < keys.len()
        invariant
            i <= keys@.len(),
            lk == views(keys@).map_values(|t: Seq<char>| lowercase(t)),
            forall|k: Seq<char>| #[trigger] index.postings(k) == start.postings(k) + added_postings(lk.take(i as int), k, idx),
        decreases keys@.len() - i,
    {
        let l = to_lowercase(keys[i].as_str());
        let ghost before = *index;
        index.add(l, idx);
        proof {
            assert(lk.take(i + 1) =~= lk.take(i as int).push(lk[i as int]));
            assert forall|k: Seq<char>| #[trigger] index.postings(k) == start.postings(k) + added_postings(lk.take(i + 1), k, idx) by {
                lk.take(i as int).lemma_filter_push(lk[i as int], |t: Seq<char>| t == k);
                if k == lk[i as int] {
                    assert(added_postings(lk.take(i + 1), k, idx) =~= added_postings(lk.take(i as int), k, idx).push(idx));
                    assert(start.postings(k) + added_postings(lk.take(i + 1), k, idx)
                        =~= (start.postings(k) + added_postings(lk.take(i as int), k, idx)).push(idx));
                } else {
                    assert(added_postings(lk.take(i + 1), k, idx) =~= added_postings(lk.take(i as int), k, idx));
                }
            }
        }
        i = i + 1;
    }
    proof {
        assert(lk.take(keys@.len() as int) =~= lk);
    }
}

/// Adding an element to a list adds it to the list's set.
proof fn lemma_to_set_push(s: Seq<Seq<char>>, x: Seq<char>)
    ensures
        s.push(x).to_set() == s.to_set().insert(x),
{
    assert forall|y: Seq<char>| s.push(x).to_set().contains(y) <==> s.to_set().insert(x).contains(y) by {
        if s.push(x).contains(y) {
            let k = choose|k: int| 0 <= k < s.push(x).len() && s.push(x)[k] == y;
            if k < s.len() {
                assert(s[k] == y);
            }
        }
        if s.contains(y) {
            let k = choose|k: int| 0 <= k < s.len() && s[k] == y;
            assert(s.push(x)[k] == y);
        }
        if y == x {
            assert(s.push(x)[s.len() as int] == y);
        }
    }
    assert(s.push(x).to_set() =~= s.to_set().insert(x));
}

/// The words of a description, as strings.
fn words(description: &str) -> (r: Vec<String>)
    ensures
        views(r@) == words_of(description@),
{
    let pieces = split_chars(description, true);
    let ghost pred = |t: Seq<char>| t.len() > 0;
    let mut r: Vec<String> = Vec::new();
    let mut i: usize = 0;
    proof {
        assert(views(pieces@).take(0).filter(pred) =~= Seq::<Seq<char>>::empty());
        assert(views(r@) =~= Seq::<Seq<char>>::empty());
    }
    while i < pieces.len()
        invariant
            i <= pieces@.len(),
            views(r@) == views(pieces@).take(i as int).filter(pred),
            pred == (|t: Seq<char>| t.len() > 0),
        decreases pieces@.len() - i,
    {
        proof {
            views(pieces@).lemma_take_succ_push(i as int);
            views(pieces@).take(i as int).lemma_filter_push(pieces@[i as int]@, pred);
        }
        if pieces[i].as_str().unicode_len() > 0 {
            let ghost before = views(r@);
            r.push(pieces[i].clone());
            proof {
                assert(views(r@) =~= before.push(pieces@[i as int]@));
            }
        }
        i = i + 1;
    }
    proof {
        assert(views(pieces@).take(pieces@.len() as int) =~= views(pieces@));
    }
    r
}

/// `s` trimmed of characters that are not alphanumeric at both ends.
fn trim_non_alnum(s: &str) -> (r: String)
    ensures
        r@ == trim_alnum(s@),
{
    let cs = chars_of(s);
    let n = cs.len();
    let mut start: usize = 0;
    proof {
        assert(cs@.subrange(0, n as int) =~= cs@);
    }
    while start < n && !char_is_alphanumeric(cs[start])
        invariant
            start <= n,
            n == cs@.len(),
            trim_start(cs@) == trim_start(cs@.subrange(start as int, n as int)),
        decreases n - start,
    {
        proof {
            assert(cs@.subrange(start as int, n as int).drop_first() =~= cs@.subrange(start + 1, n as int));
        }
        start = start + 1;
    }
    let ghost ts = cs@.subrange(start as int, n as int);
    proof {
        assert(trim_start(ts) == ts);
        assert(ts.subrange(0, ts.len() as int) =~= ts);
    }
    let mut end: usize = n;
    while end > start && !char_is_alphanumeric(cs[end - 1])
        invariant
            start <= end <= n,
            n == cs@.len(),
            ts == cs@.subrange(start as int, n as int),
            trim_end(ts) == trim_end(cs@.subrange(start as int, end as int)),
        decreases end,
    {
        proof {
            assert(cs@.subrange(start as int, end as int).drop_last() =~= cs@.subrange(start as int, end - 1));
        }
        end = end - 1;
    }
    let mut r = String::new();
    let mut k: usize = start;
    while k < end
        invariant
            start <= k <= end <= n,
            n == cs@.len(),
            r@ == cs@.subrange(start as int, k as int),
        decreases end - k,
    {
        push_char(&mut r, cs[k]);
        proof {
            assert(cs@.subrange(start as int, k + 1) =~= cs@.subrange(start as int, k as int).push(cs@[k as int]));
        }
        k = k + 1;
    }
    proof {
        let te = cs@.subrange(start as int, end as int);
        assert(trim_end(te) == te);
    }
    r
}

/// The keywords a description contributes, as strings.
fn description_keyword_strings(engine: &SearchEngine, description: &str) -> (r: Vec<String>)
    ensures
        views(r@) == description_keywords(description@),
{
    let ws = words(description);
    let ghost pred = |w: Seq<char>| utf8_len(w) > 3 && !is_stop(lowercase(w));
    let mut picked: Vec<String> = Vec::new();
    let mut i: usize = 0;
    proof {
        assert(views(ws@).take(0).filter(pred) =~= Seq::<Seq<char>>::empty());
        assert(views(picked@) =~= Seq::<Seq<char>>::empty());
    }
    while i < ws.len()
        invariant
            i <= ws@.len(),
            views(picked@) == views(ws@).take(i as int).filter(pred),
            pred == (|w: Seq<char>| utf8_len(w) > 3 && !is_stop(lowercase(w))),
        decreases ws@.len() - i,
    {
        proof {
            views(ws@).lemma_take_succ_push(i as int);
            views(ws@).take(i as int).lemma_filter_push(ws@[i as int]@, pred);
        }
        if byte_len(ws[i].as_str()) > 3 && !engine.is_stopword(ws[i].as_str()) {
            let ghost before = views(picked@);
            picked.push(ws[i].clone());
            proof {
                assert(views(picked@) =~= before.push(ws@[i as int]@));
            }
        }
        i = i + 1;
    }
    proof {
        assert(views(ws@).take(ws@.len() as int) =~= views(ws@));
    }
    let ghost mw = meaningful_words(description@);
    let limit: usize = if picked.len() < 10 { picked.len() } else { 10 };
    proof {
        assert(pred =~= (|w: Seq<char>| utf8_len(w) > 3 && !is_stop(lowercase(w))));
        assert(views(picked@) == words_of(description@).filter(|w: Seq<char>| utf8_len(w) > 3 && !is_stop(lowercase(w))));
        assert(views(picked@).take(limit as int) =~= mw);
    }
    let ghost norm = mw.map_values(|w: Seq<char>| trim_alnum(lowercase(w)));
    let ghost keep = |w: Seq<char>| w.len() > 0;
    let mut r: Vec<String> = Vec::new();
    let mut j: usize = 0;
    proof {
        assert(norm.take(0).filter(keep) =~= Seq::<Seq<char>>::empty());
        assert(views(r@) =~= Seq::<Seq<char>>::empty());
    }
    while j < limit
        invariant
            j <= limit,
            limit <= picked@.len(),
            mw.len() == limit,
            forall|k: int| 0 <= k < limit ==> #[trigger] mw[k] == picked@[k]@,
            norm == mw.map_values(|w: Seq<char>| trim_alnum(lowercase(w))),
            views(r@) == norm.take(j as int).filter(keep),
            keep == (|w: Seq<char>| w.len() > 0),
        decreases limit - j,
    {
        let l = to_lowercase(picked[j].as_str());
        let t = trim_non_alnum(l.as_str());
        proof {
            assert(t@ == norm[j as int]);
            norm.lemma_take_succ_push(j as int);
            norm.take(j as int).lemma_filter_push(norm[j as int], keep);
        }
        if t.as_str().unicode_len() > 0 {
            let ghost before = views(r@);
            r.push(t);
            proof {
                assert(views(r@) =~= before.push(norm[j as int]));
            }
        }
        j = j + 1;
    }
    proof {
        assert(norm.take(limit as int) =~= norm);
    }
    r
}

} // verus!
