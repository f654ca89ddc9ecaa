//! Fact extraction: the words of a mention, as the rule engine matches them.

use vstd::prelude::*;
use crate::text::{byte_len, chars_of, is_alnum, is_alphanumeric, is_white_space, is_whitespace, lower_of, string_of, to_lower, utf8_len};

verus! {

/// `cur` as a word list: one word if it is not empty.
pub open spec fn flush(cur: Seq<char>) -> Seq<Seq<char>> {
    if cur.len() > 0 {
        seq![cur]
    } else {
        seq![]
    }
}

/// The words of `s` after a partial word `cur`: maximal runs of
/// non-whitespace characters.
pub open spec fn words_after(s: Seq<char>, cur: Seq<char>) -> Seq<Seq<char>>
    decreases s.len(),
{
    if s.len() == 0 {
        flush(cur)
    } else if is_white_space(s[0]) {
        flush(cur) + words_after(s.drop_first(), seq![])
    } else {
        words_after(s.drop_first(), cur.push(s[0]))
    }
}

/// The whitespace-separated words of `s`.
pub open spec fn words(s: Seq<char>) -> Seq<Seq<char>> {
    words_after(s, seq![])
}

/// `s` without its leading and trailing characters that are not
/// alphanumeric.
pub open spec fn trim_non_alnum(s: Seq<char>) -> Seq<char>
    decreases s.len(),
{
    if s.len() == 0 {
        s
    } else if !is_alnum(s[0]) {
        trim_non_alnum(s.drop_first())
    } else if !is_alnum(s.last()) {
        trim_non_alnum(s.drop_last())
    } else {
        s
    }
}

/// The fact a word gives: lower-cased, then trimmed.
pub open spec fn fact_of(w: Seq<char>) -> Seq<char> {
    trim_non_alnum(lower_of(w))
}

/// A word gives a fact unless it is a handle (`@...`) or its fact is at
/// most one byte long.
pub open spec fn gives_fact(w: Seq<char>) -> bool {
    w.len() > 0 && w[0] != '@' && byte_len(fact_of(w)) > 1
}

/// The facts of a list of words, in order.
pub open spec fn facts_of(ws: Seq<Seq<char>>) -> Seq<Seq<char>>
    decreases ws.len(),
{
    if ws.len() == 0 {
        seq![]
    } else if gives_fact(ws.last()) {
        facts_of(ws.drop_last()).push(fact_of(ws.last()))
    } else {
        facts_of(ws.drop_last())
    }
}

/// The views of a list of strings.
pub open spec fn texts(v: Seq<String>) -> Seq<Seq<char>> {
    v.map_values(|x: String| x@)
}

/// `s[from..to]` as its own vector.
fn slice_chars(s: &Vec<char>, from: usize, to: usize) -> (r: Vec<char>)
    requires
        from <= to <= s@.len(),
    ensures
        r@ == s@.subrange(from as int, to as int),
{
    let mut r: Vec<char> = Vec::new();
    let mut k: usize = from;
    while k < to
        invariant
            from <= k <= to,
            to <= s@.len(),
            r@ == s@.subrange(from as int, k as int),
        decreases to - k,
    {
        r.push(s[k]);
        assert(s@.subrange(from as int, k + 1) =~= s@.subrange(from as int, k as int).push(s@[k as int]));
        k = k + 1;
    }
    r
}

/// `s` without its leading and trailing non-alphanumeric characters.
fn trim_chars(s: &Vec<char>) -> (r: Vec<char>)
    ensures
        r@ == trim_non_alnum(s@),
{
    let n = s.len();
    let mut i: usize = 0;
    assert(s@.subrange(0, n as int) =~= s@);
    while i < n && !is_alphanumeric(s[i])
        invariant
            n == s@.len(),
            i <= n,
            trim_non_alnum(s@) == trim_non_alnum(s@.subrange(i as int, n as int)),
        decreases n - i,
    {
        assert(s@.subrange(i as int, n as int).drop_first() =~= s@.subrange(i + 1, n as int));
        i = i + 1;
    }
    let mut j: usize = n;
    while j > i && !is_alphanumeric(s[j - 1])
        invariant
            n == s@.len(),
            i <= j <= n,
            i < n ==> is_alnum(s@[i as int]),
            trim_non_alnum(s@) == trim_non_alnum(s@.subrange(i as int, j as int)),
        decreases j - i,
    {
        let ghost sub = s@.subrange(i as int, j as int);
        assert(sub[0] == s@[i as int]);
        assert(sub.last() == s@[j - 1]);
        assert(sub.drop_last() =~= s@.subrange(i as int, j - 1));
        j = j - 1;
    }
    let r = slice_chars(s, i, j);
    proof {
        let sub = s@.subrange(i as int, j as int);
        if i < j {
            assert(sub[0] == s@[i as int]);
            assert(sub.last() == s@[j - 1]);
        }
    }
    r
}

/// The fact of one word, if it gives one.
fn fact_from_word(w: &Vec<char>) -> (r: Option<String>)
    ensures
        gives_fact(w@) ==> (r matches Some(f) && f@ == fact_of(w@)),
        !gives_fact(w@) ==> r is None,
{
    if w.len() == 0 || w[0] == '@' {
        return None;
    }
    let word = string_of(w.as_slice());
    let lower = to_lower(word.as_str());
    let trimmed = trim_chars(&chars_of(lower.as_str()));
    let fact = string_of(trimmed.as_slice());
    if utf8_len(fact.as_str()) > 1 {
        Some(fact)
    } else {
        None
    }
}

/// Splits a mention into words, drops handles (`@...`), lower-cases each
/// word, trims non-alphanumeric characters from both ends, and keeps the
/// results longer than one byte.
pub fn extract_facts(text: &str) -> (r: Vec<String>)
    ensures
        texts(r@) == facts_of(words(text@)),
{
    let cs = chars_of(text);
    let mut out: Vec<String> = Vec::new();
    let mut cur: Vec<char> = Vec::new();
    let ghost mut ws: Seq<Seq<char>> = seq![];
    let mut i: usize = 0;
    assert(cs@.skip(0) =~= cs@);
    assert(ws + words_after(cs@, cur@) =~= words(text@));
    while i < cs.len()
        invariant
            cs@ == text@,
            i <= cs@.len(),
            ws + words_after(cs@.skip(i as int), cur@) == words(text@),
            texts(out@) == facts_of(ws),
        decreases cs@.len() - i,
    {
        let c = cs[i];
        let ghost rest = cs@.skip(i as int);
        assert(rest.drop_first() =~= cs@.skip(i as int + 1));
        assert(rest[0] == c);
        if is_whitespace(c) {
            if cur.len() > 0 {
                let fact = fact_from_word(&cur);
                proof {
                    assert(ws.push(cur@).drop_last() =~= ws);
                }
                match fact {
                    Some(f) => {
                        out.push(f);
                        assert(texts(out@) =~= facts_of(ws.push(cur@)));
                    },
                    None => {},
                }
                proof {
                    assert(ws.push(cur@) + words_after(cs@.skip(i as int + 1), seq![]) =~= ws
                        + words_after(rest, cur@));
                    ws = ws.push(cur@);
                }
                cur = Vec::new();
            } else {
                assert(cur@ =~= Seq::<char>::empty());
                assert(flush(cur@) + words_after(rest.drop_first(), seq![]) =~= words_after(
                    rest.drop_first(),
                    cur@,
                ));
                assert(ws + words_after(cs@.skip(i as int + 1), cur@) =~= ws + words_after(rest, cur@));
            }
        } else {
            cur.push(c);
        }
        i = i + 1;
    }
    assert(cs@.skip(i as int) =~= Seq::<char>::empty());
    if cur.len() > 0 {
        let fact = fact_from_word(&cur);
        proof {
            assert(ws.push(cur@).drop_last() =~= ws);
            assert(ws + seq![cur@] =~= ws.push(cur@));
        }
        match fact {
            Some(f) => {
                out.push(f);
                assert(texts(out@) =~= facts_of(ws.push(cur@)));
            },
            None => {},
        }
    } else {
        assert(ws =~= ws + flush(cur@));
    }
    out
}

} // verus!
