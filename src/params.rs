//! Request parameters held sorted by key, as OAuth 1.0a signs them.
//!
//! Keys are ordered by character code, which is the byte order of their
//! UTF-8 encodings. Inserting a key that is present replaces its value.

use vstd::prelude::*;
use vstd::pervasive::VecAdditionalExecFns;
use crate::percent::{percent_encode, percent_encoded};
use crate::text::{chars_of, push_str_chars, string_of};

verus! {

/// One parameter as text: key and value.
pub type Entry = (Seq<char>, Seq<char>);

/// Strict lexicographic order of keys, by character code.
pub open spec fn key_less(a: Seq<char>, b: Seq<char>) -> bool
    decreases a.len(),
{
    if a.len() == 0 {
        b.len() > 0
    } else if b.len() == 0 {
        false
    } else if a[0] != b[0] {
        (a[0] as u32) < (b[0] as u32)
    } else {
        key_less(a.drop_first(), b.drop_first())
    }
}

/// Keys in strictly increasing order (so each key occurs once).
pub open spec fn keys_sorted(s: Seq<Entry>) -> bool {
    forall|i: int, j: int| 0 <= i < j < s.len() ==> key_less(s[i].0, s[j].0)
}

/// The key-to-value mapping that a list of entries holds; a later entry
/// for a key replaces an earlier one.
pub open spec fn entries_map(s: Seq<Entry>) -> Map<Seq<char>, Seq<char>>
    decreases s.len(),
{
    if s.len() == 0 {
        Map::empty()
    } else {
        entries_map(s.drop_last()).insert(s.last().0, s.last().1)
    }
}

/// `key=value`, both percent-encoded.
pub open spec fn pair_text(e: Entry) -> Seq<char> {
    percent_encoded(e.0) + seq!['='] + percent_encoded(e.1)
}

/// The entries' pairs joined by `&`, in list order.
pub open spec fn param_string(s: Seq<Entry>) -> Seq<char>
    decreases s.len(),
{
    if s.len() == 0 {
        seq![]
    } else if s.len() == 1 {
        pair_text(s[0])
    } else {
        param_string(s.drop_last()) + seq!['&'] + pair_text(s.last())
    }
}

pub proof fn lemma_key_less_irreflexive(a: Seq<char>)
    ensures
        !key_less(a, a),
    decreases a.len(),
{
    if a.len() > 0 {
        lemma_key_less_irreflexive(a.drop_first());
    }
}

pub proof fn lemma_key_less_total(a: Seq<char>, b: Seq<char>)
    ensures
        a == b || key_less(a, b) || key_less(b, a),
        !(key_less(a, b) && key_less(b, a)),
    decreases a.len(),
{
    if a.len() > 0 && b.len() > 0 {
        if a[0] == b[0] {
            lemma_key_less_total(a.drop_first(), b.drop_first());
            if a.drop_first() == b.drop_first() {
                assert(a =~= seq![a[0]] + a.drop_first());
                assert(b =~= seq![b[0]] + b.drop_first());
            }
        } else {
            vstd::utf8::char_u32_cast(a[0], a[0] as u32);
            vstd::utf8::char_u32_cast(b[0], b[0] as u32);
        }
    } else if a.len() == 0 && b.len() == 0 {
        assert(a =~= b);
    }
}

pub proof fn lemma_key_less_transitive(a: Seq<char>, b: Seq<char>, c: Seq<char>)
    requires
        key_less(a, b),
        key_less(b, c),
    ensures
        key_less(a, c),
    decreases a.len(),
{
    if a.len() > 0 && b.len() > 0 && c.len() > 0 {
        if a[0] == b[0] && b[0] == c[0] {
            lemma_key_less_transitive(a.drop_first(), b.drop_first(), c.drop_first());
        }
    }
}

/// The keys of a mapping built from a list are the keys in the list.
pub proof fn lemma_entries_map_keys(s: Seq<Entry>, k: Seq<char>)
    ensures
        entries_map(s).contains_key(k) <==> exists|i: int| 0 <= i < s.len() && s[i].0 == k,
    decreases s.len(),
{
    if s.len() > 0 {
        lemma_entries_map_keys(s.drop_last(), k);
        if entries_map(s).contains_key(k) && k != s.last().0 {
            let i = choose|i: int| 0 <= i < s.drop_last().len() && s.drop_last()[i].0 == k;
            assert(s[i].0 == k);
        }
        if exists|i: int| 0 <= i < s.len() && s[i].0 == k {
            let i = choose|i: int| 0 <= i < s.len() && s[i].0 == k;
            if i < s.len() - 1 {
                assert(s.drop_last()[i].0 == k);
            }
        }
    }
}

/// In a sorted list, every entry is what the mapping holds for its key.
pub proof fn lemma_entries_map_value(s: Seq<Entry>, i: int)
    requires
        keys_sorted(s),
        0 <= i < s.len(),
    ensures
        entries_map(s).contains_key(s[i].0),
        entries_map(s)[s[i].0] == s[i].1,
    decreases s.len(),
{
    if i < s.len() - 1 {
        lemma_entries_map_value(s.drop_last(), i);
        lemma_key_less_irreflexive(s[i].0);
    }
}

/// Removing the last entry of a sorted list removes its key from the mapping.
proof fn lemma_entries_map_drop_last(s: Seq<Entry>)
    requires
        keys_sorted(s),
        s.len() > 0,
    ensures
        entries_map(s.drop_last()) == entries_map(s).remove(s.last().0),
        !entries_map(s.drop_last()).contains_key(s.last().0),
{
    let k = s.last().0;
    lemma_entries_map_keys(s.drop_last(), k);
    if entries_map(s.drop_last()).contains_key(k) {
        let i = choose|i: int| 0 <= i < s.drop_last().len() && s.drop_last()[i].0 == k;
        assert(key_less(s[i].0, s[s.len() - 1].0));
        lemma_key_less_irreflexive(k);
    }
    assert(entries_map(s.drop_last()) =~= entries_map(s).remove(k));
}

/// Two sorted lists that hold the same mapping are the same list.
pub proof fn lemma_sorted_entries_unique(a: Seq<Entry>, b: Seq<Entry>)
    requires
        keys_sorted(a),
        keys_sorted(b),
        entries_map(a) == entries_map(b),
    ensures
        a == b,
    decreases a.len() + b.len(),
{
    if a.len() == 0 && b.len() == 0 {
        assert(a =~= b);
    } else if a.len() == 0 {
        lemma_entries_map_keys(b, b[0].0);
        lemma_entries_map_keys(a, b[0].0);
    } else if b.len() == 0 {
        lemma_entries_map_keys(a, a[0].0);
        lemma_entries_map_keys(b, a[0].0);
    } else {
        let ka = a.last().0;
        let kb = b.last().0;
        lemma_entries_map_value(a, a.len() - 1);
        lemma_entries_map_value(b, b.len() - 1);
        lemma_entries_map_keys(a, kb);
        lemma_entries_map_keys(b, ka);
        let i = choose|i: int| 0 <= i < a.len() && a[i].0 == kb;
        let j = choose|j: int| 0 <= j < b.len() && b[j].0 == ka;
        if i < a.len() - 1 {
            assert(key_less(kb, ka));
        }
        if j < b.len() - 1 {
            assert(key_less(ka, kb));
        }
        lemma_key_less_total(ka, kb);
        assert(ka == kb);
        lemma_entries_map_drop_last(a);
        lemma_entries_map_drop_last(b);
        lemma_sorted_entries_unique(a.drop_last(), b.drop_last());
        assert(a =~= a.drop_last().push(a.last()));
        assert(b =~= b.drop_last().push(b.last()));
    }
}

/// Replacing the entry of a key that occurs once.
proof fn lemma_entries_map_update(s: Seq<Entry>, j: int, e: Entry)
    requires
        0 <= j < s.len(),
        s[j].0 == e.0,
        forall|i: int| 0 <= i < s.len() && i != j ==> s[i].0 != e.0,
    ensures
        entries_map(s.update(j, e)) == entries_map(s).insert(e.0, e.1),
    decreases s.len(),
{
    let t = s.update(j, e);
    if j == s.len() - 1 {
        assert(t.drop_last() =~= s.drop_last());
        assert(entries_map(t) =~= entries_map(s).insert(e.0, e.1));
    } else {
        assert(t.drop_last() =~= s.drop_last().update(j, e));
        lemma_entries_map_update(s.drop_last(), j, e);
        assert(entries_map(t) =~= entries_map(s).insert(e.0, e.1));
    }
}

/// Inserting an entry whose key is new, at any position.
proof fn lemma_entries_map_insert(s: Seq<Entry>, j: int, e: Entry)
    requires
        0 <= j <= s.len(),
        forall|i: int| 0 <= i < s.len() ==> s[i].0 != e.0,
    ensures
        entries_map(s.insert(j, e)) == entries_map(s).insert(e.0, e.1),
    decreases s.len(),
{
    let t = s.insert(j, e);
    if j == s.len() {
        assert(t.drop_last() =~= s);
    } else {
        assert(t.drop_last() =~= s.drop_last().insert(j, e));
        assert(t.last() == s.last());
        lemma_entries_map_insert(s.drop_last(), j, e);
        assert(entries_map(t) =~= entries_map(s).insert(e.0, e.1));
    }
}

/// Whether `a` sorts strictly before `b`.
pub fn key_lt(a: &str, b: &str) -> (r: bool)
    ensures
        r == key_less(a@, b@),
{
    let ca = chars_of(a);
    let cb = chars_of(b);
    let mut i: usize = 0;
    assert(a@.skip(0) =~= a@);
    assert(b@.skip(0) =~= b@);
    while i < ca.len() && i < cb.len()
        invariant
            ca@ == a@,
            cb@ == b@,
            i <= ca@.len(),
            i <= cb@.len(),
            key_less(a@, b@) == key_less(a@.skip(i as int), b@.skip(i as int)),
        decreases ca@.len() - i,
    {
        if ca[i] != cb[i] {
            return (ca[i] as u32) < (cb[i] as u32);
        }
        assert(a@.skip(i as int).drop_first() =~= a@.skip(i as int + 1));
        assert(b@.skip(i as int).drop_first() =~= b@.skip(i as int + 1));
        i = i + 1;
    }
    i < cb.len()
}

/// Parameters sorted by key, each key once.
pub struct QueryParams {
    entries: Vec<(String, String)>,
}

impl View for QueryParams {
    type V = Seq<Entry>;

    closed spec fn view(&self) -> Seq<Entry> {
        self.entries@.map_values(|e: (String, String)| (e.0@, e.1@))
    }
}

impl QueryParams {
    /// Well-formed: sorted by key, each key once.
    pub open spec fn wf(&self) -> bool {
        keys_sorted(self@)
    }

    /// The key-to-value mapping held.
    pub open spec fn map(&self) -> Map<Seq<char>, Seq<char>> {
        entries_map(self@)
    }

    /// No parameters.
    pub fn new() -> (r: Self)
        ensures
            r@ == Seq::<Entry>::empty(),
            r.wf(),
    {
        QueryParams { entries: Vec::new() }
    }

    /// Number of parameters.
    pub fn len(&self) -> (n: usize)
        ensures
            n == self@.len(),
    {
        self.entries.len()
    }

    /// Key and value of the `i`-th parameter in key order.
    pub fn entry(&self, i: usize) -> (r: (&str, &str))
        requires
            i < self@.len(),
        ensures
            r.0@ == self@[i as int].0,
            r.1@ == self@[i as int].1,
    {
        let e = &self.entries[i];
        (e.0.as_str(), e.1.as_str())
    }

    /// Sets `key` to `value`, replacing an earlier value of the same key.
    pub fn insert(&mut self, key: String, value: String)
        requires
            old(self).wf(),
        ensures
            final(self).wf(),
            final(self).map() == old(self).map().insert(key@, value@),
    {
        let ghost s = self@;
        let mut j: usize = 0;
        while j < self.entries.len() && key_lt(self.entries[j].0.as_str(), key.as_str())
            invariant
                s == self@,
                keys_sorted(s),
                j <= s.len(),
                forall|i: int| 0 <= i < j ==> key_less(s[i].0, key@),
            decreases s.len() - j,
        {
            j = j + 1;
        }
        let ghost e = (key@, value@);
        if j < self.entries.len() && crate::text::str_eq(self.entries[j].0.as_str(), key.as_str()) {
            proof {
                assert forall|i: int| 0 <= i < s.len() && i != j implies s[i].0 != key@ by {
                    if i < j {
                        assert(key_less(s[i].0, s[j as int].0));
                    } else {
                        assert(key_less(s[j as int].0, s[i].0));
                    }
                    lemma_key_less_irreflexive(key@);
                }
                lemma_entries_map_update(s, j as int, e);
            }
            self.entries.set(j, (key, value));
            proof {
                assert(self@ =~= s.update(j as int, e));
                assert forall|a: int, b: int| 0 <= a < b < self@.len() implies key_less(self@[a].0, self@[b].0) by {
                    assert(self@[a].0 == s[a].0);
                    assert(self@[b].0 == s[b].0);
                }
            }
        } else {
            proof {
                if j < s.len() {
                    lemma_key_less_total(s[j as int].0, key@);
                }
                assert forall|i: int| 0 <= i < s.len() implies s[i].0 != key@ && (i >= j ==> key_less(key@, s[i].0)) by {
                    lemma_key_less_irreflexive(key@);
                    if i > j {
                        lemma_key_less_transitive(key@, s[j as int].0, s[i].0);
                    }
                }
                lemma_entries_map_insert(s, j as int, e);
            }
            self.entries.insert(j, (key, value));
            proof {
                assert(self@ =~= s.insert(j as int, e));
                assert forall|a: int, b: int| 0 <= a < b < self@.len() implies key_less(self@[a].0, self@[b].0) by {
                    if b < j {
                    } else if a < j && b == j {
                    } else if a < j {
                        lemma_key_less_transitive(self@[a].0, key@, self@[b].0);
                    } else if a == j {
                    } else {
                        assert(self@[a] == s[a - 1]);
                        assert(self@[b] == s[b - 1]);
                    }
                }
            }
        }
    }

    /// The sorted pairs, percent-encoded, as `k1=v1&k2=v2...`.
    pub fn param_string(&self) -> (r: String)
        ensures
            r@ == param_string(self@),
    {
        let mut out: Vec<char> = Vec::new();
        let mut i: usize = 0;
        while i < self.entries.len()
            invariant
                i <= self@.len(),
                out@ == param_string(self@.take(i as int)),
            decreases self@.len() - i,
        {
            let ghost prev = out@;
            if i > 0 {
                out.push('&');
            }
            let k = percent_encode(self.entries[i].0.as_str());
            let v = percent_encode(self.entries[i].1.as_str());
            push_str_chars(&mut out, k.as_str());
            out.push('=');
            push_str_chars(&mut out, v.as_str());
            proof {
                let t = self@.take(i as int + 1);
                assert(t.drop_last() =~= self@.take(i as int));
                assert(t.last() == self@[i as int]);
                if i == 0 {
                    assert(out@ =~= pair_text(t[0]));
                } else {
                    assert(out@ =~= param_string(t.drop_last()) + seq!['&'] + pair_text(t.last()));
                }
            }
            i = i + 1;
        }
        assert(self@.take(i as int) =~= self@);
        string_of(out.as_slice())
    }
}

/// Whichever order the same parameters were inserted in, the sorted lists
/// are equal, and so are their parameter strings.
pub proof fn lemma_param_order_irrelevant(a: QueryParams, b: QueryParams)
    requires
        a.wf(),
        b.wf(),
        a.map() == b.map(),
    ensures
        a@ == b@,
        param_string(a@) == param_string(b@),
{
    lemma_sorted_entries_unique(a@, b@);
}

} // verus!
