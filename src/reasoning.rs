//! Keyword rules and the matching that infers a topic from facts.
//!
//! A rule's confidence on a set of facts is the share of its conditions
//! found among the facts, kept exactly as `matched / total`.

use vstd::prelude::*;
use crate::facts::texts;
use crate::text::{owned, str_eq};

verus! {

/// A named rule: keyword conditions and the topic tags it concludes.
pub struct Rule {
    pub name: String,
    pub conditions: Vec<String>,
    pub conclusions: Vec<String>,
}

/// The registered rules, tried in registration order.
pub struct ReasoningEngine {
    pub rules: Vec<Rule>,
}

/// The result of matching: the rule, its confidence as
/// `matched / total`, and its conclusions.
pub struct Inference {
    pub rule_name: String,
    pub matched: usize,
    pub total: usize,
    pub conclusions: Vec<String>,
}

/// The rules of an engine as text: name, keywords, conclusions.
pub open spec fn rules_view(rules: Seq<Rule>) -> Seq<(Seq<char>, Seq<Seq<char>>, Seq<Seq<char>>)> {
    rules.map_values(|r: Rule| (r.name@, texts(r.conditions@), texts(r.conclusions@)))
}

/// How many of the conditions occur among the facts.
pub open spec fn matched_count(conds: Seq<Seq<char>>, facts: Seq<Seq<char>>) -> nat
    decreases conds.len(),
{
    if conds.len() == 0 {
        0
    } else {
        matched_count(conds.drop_last(), facts) + (if facts.contains(conds.last()) {
            1nat
        } else {
            0nat
        })
    }
}

/// Conditions of `r` found among the facts.
pub open spec fn rule_matched(r: Rule, facts: Seq<Seq<char>>) -> nat {
    matched_count(texts(r.conditions@), facts)
}

/// Whether confidence `m1 / t1` exceeds `m2 / t2` (denominators positive).
pub open spec fn ratio_gt(m1: nat, t1: nat, m2: nat, t2: nat) -> bool {
    m1 * t2 > m2 * t1
}

/// Whether rule `i` has a strictly higher confidence than rule `j`.
pub open spec fn beats(rules: Seq<Rule>, facts: Seq<Seq<char>>, i: int, j: int) -> bool {
    ratio_gt(
        rule_matched(rules[i], facts),
        rules[i].conditions@.len(),
        rule_matched(rules[j], facts),
        rules[j].conditions@.len(),
    )
}

/// Whether rule `i` matches at all.
pub open spec fn rule_applies(rules: Seq<Rule>, facts: Seq<Seq<char>>, i: int) -> bool {
    rule_matched(rules[i], facts) > 0
}

/// Rule `i` is the best match among the first `n` rules: it matches, no
/// matching rule has a higher confidence, and every matching rule before
/// it has a lower one (the earliest registered wins a tie).
pub open spec fn best_among(rules: Seq<Rule>, facts: Seq<Seq<char>>, i: int, n: int) -> bool {
    &&& 0 <= i < n
    &&& rule_applies(rules, facts, i)
    &&& forall|j: int| 0 <= j < n && #[trigger] rule_applies(rules, facts, j) ==> !beats(rules, facts, j, i)
    &&& forall|j: int| 0 <= j < i && #[trigger] rule_applies(rules, facts, j) ==> beats(rules, facts, i, j)
}

pub proof fn lemma_matched_count_bound(conds: Seq<Seq<char>>, facts: Seq<Seq<char>>)
    ensures
        matched_count(conds, facts) <= conds.len(),
    decreases conds.len(),
{
    if conds.len() > 0 {
        lemma_matched_count_bound(conds.drop_last(), facts);
    }
}

proof fn lemma_ratio_chain(mi: nat, ti: nat, mb: nat, tb: nat, mj: nat, tj: nat)
    requires
        ti > 0,
        tb > 0,
        tj > 0,
        !ratio_gt(mj, tj, mb, tb),
        ratio_gt(mi, ti, mb, tb),
    ensures
        ratio_gt(mi, ti, mj, tj),
{
    assert(mj * tb <= mb * tj);
    assert(mi * tb > mb * ti);
    assert(mi * tj * tb > mj * ti * tb) by (nonlinear_arith)
        requires
            mj * tb <= mb * tj,
            mi * tb > mb * ti,
            tj > 0,
            ti > 0,
    {
        assert(mi * tb * tj > mb * ti * tj);
        assert(mj * tb * ti <= mb * tj * ti);
    }
    assert(mi * tj > mj * ti) by (nonlinear_arith)
        requires
            mi * tj * tb > mj * ti * tb,
            tb > 0,
    {
    }
}

/// The best match is unique.
pub proof fn lemma_best_unique(rules: Seq<Rule>, facts: Seq<Seq<char>>, i: int, k: int)
    requires
        best_among(rules, facts, i, rules.len() as int),
        best_among(rules, facts, k, rules.len() as int),
    ensures
        i == k,
{
    if i < k {
        assert(rule_applies(rules, facts, i));
    } else if k < i {
        assert(rule_applies(rules, facts, k));
    }
}

/// When two matching rules have equal confidence, the one registered later
/// is never the best match.
pub proof fn lemma_tie_goes_to_earlier(rules: Seq<Rule>, facts: Seq<Seq<char>>, a: int, b: int, best: int)
    requires
        0 <= a < b < rules.len(),
        rule_applies(rules, facts, a),
        rule_applies(rules, facts, b),
        !beats(rules, facts, a, b),
        !beats(rules, facts, b, a),
        best_among(rules, facts, best, rules.len() as int),
    ensures
        best != b,
{
    if best == b {
        assert(rule_applies(rules, facts, a));
    }
}

/// The exact product of two sizes.
fn mul_wide(a: usize, b: usize) -> (r: u128)
    ensures
        r == a * b,
{
    assert(0 <= (a as int) * (b as int) <= 0xFFFF_FFFF_FFFF_FFFFint * 0xFFFF_FFFF_FFFF_FFFFint) by (nonlinear_arith)
        requires
            0 <= a <= 0xFFFF_FFFF_FFFF_FFFFint,
            0 <= b <= 0xFFFF_FFFF_FFFF_FFFFint,
    ;
    (a as u128) * (b as u128)
}

/// Copies a list of strings.
fn copy_texts(v: &Vec<String>) -> (r: Vec<String>)
    ensures
        texts(r@) == texts(v@),
{
    let mut r: Vec<String> = Vec::new();
    let mut i: usize = 0;
    while i < v.len()
        invariant
            i <= v@.len(),
            texts(r@) == texts(v@).take(i as int),
        decreases v@.len() - i,
    {
        let copy = owned(v[i].as_str());
        assert(copy@ == texts(v@)[i as int]);
        let ghost prev = r@;
        r.push(copy);
        assert(texts(r@) =~= texts(prev).push(copy@));
        assert(texts(v@).take(i as int + 1) =~= texts(v@).take(i as int).push(texts(v@)[i as int]));
        i = i + 1;
    }
    assert(texts(v@).take(i as int) =~= texts(v@));
    r
}

/// Whether `word` is one of `facts`.
fn has_fact(facts: &Vec<String>, word: &String) -> (r: bool)
    ensures
        r == texts(facts@).contains(word@),
{
    let mut i: usize = 0;
    while i < facts.len()
        invariant
            i <= facts@.len(),
            forall|k: int| 0 <= k < i ==> facts@[k]@ != word@,
        decreases facts@.len() - i,
    {
        if str_eq(facts[i].as_str(), word.as_str()) {
            assert(texts(facts@)[i as int] == word@);
            return true;
        }
        i = i + 1;
    }
    assert(!texts(facts@).contains(word@)) by {
        if texts(facts@).contains(word@) {
            let k = choose|k: int| 0 <= k < texts(facts@).len() && texts(facts@)[k] == word@;
            assert(facts@[k]@ == word@);
        }
    }
    false
}

impl Rule {
    /// A rule with no conditions and no conclusions yet.
    pub fn new(name: &str) -> (r: Rule)
        ensures
            r.name@ == name@,
            r.conditions@.len() == 0,
            r.conclusions@.len() == 0,
            texts(r.conditions@) == Seq::<Seq<char>>::empty(),
            texts(r.conclusions@) == Seq::<Seq<char>>::empty(),
    {
        let r = Rule { name: owned(name), conditions: Vec::new(), conclusions: Vec::new() };
        assert(texts(r.conditions@) =~= Seq::<Seq<char>>::empty());
        assert(texts(r.conclusions@) =~= Seq::<Seq<char>>::empty());
        r
    }

    /// Adds a keyword condition.
    pub fn with_condition(self, keyword: &str) -> (r: Rule)
        ensures
            r.name == self.name,
            texts(r.conditions@) == texts(self.conditions@).push(keyword@),
            r.conclusions == self.conclusions,
    {
        let mut rule = self;
        rule.conditions.push(owned(keyword));
        assert(texts(rule.conditions@) =~= texts(self.conditions@).push(keyword@));
        rule
    }

    /// Adds a concluded topic tag.
    pub fn with_conclusion(self, tag: &str) -> (r: Rule)
        ensures
            r.name == self.name,
            r.conditions == self.conditions,
            texts(r.conclusions@) == texts(self.conclusions@).push(tag@),
    {
        let mut rule = self;
        rule.conclusions.push(owned(tag));
        assert(texts(rule.conclusions@) =~= texts(self.conclusions@).push(tag@));
        rule
    }

    /// How many of this rule's conditions are among the facts.
    pub fn count_matches(&self, facts: &Vec<String>) -> (n: usize)
        ensures
            n == rule_matched(*self, texts(facts@)),
    {
        let mut n: usize = 0;
        let mut i: usize = 0;
        while i < self.conditions.len()
            invariant
                i <= self.conditions@.len(),
                n == matched_count(texts(self.conditions@).take(i as int), texts(facts@)),
                n <= i,
            decreases self.conditions@.len() - i,
        {
            let found = has_fact(facts, &self.conditions[i]);
            assert(texts(self.conditions@).take(i as int + 1).drop_last() =~= texts(self.conditions@).take(i as int));
            if found {
                n = n + 1;
            }
            i = i + 1;
        }
        assert(texts(self.conditions@).take(i as int) =~= texts(self.conditions@));
        n
    }
}

impl ReasoningEngine {
    /// An engine without rules.
    pub fn new() -> (r: ReasoningEngine)
        ensures
            r.rules@.len() == 0,
            rules_view(r.rules@) == Seq::<(Seq<char>, Seq<Seq<char>>, Seq<Seq<char>>)>::empty(),
    {
        let r = ReasoningEngine { rules: Vec::new() };
        assert(rules_view(r.rules@) =~= Seq::<(Seq<char>, Seq<Seq<char>>, Seq<Seq<char>>)>::empty());
        r
    }

    /// Registers a rule after the ones already registered.
    pub fn add_rule(&mut self, rule: Rule)
        ensures
            final(self).rules@ == old(self).rules@.push(rule),
            rules_view(final(self).rules@) == rules_view(old(self).rules@).push(
                (rule.name@, texts(rule.conditions@), texts(rule.conclusions@)),
            ),
    {
        let ghost v = (rule.name@, texts(rule.conditions@), texts(rule.conclusions@));
        self.rules.push(rule);
        assert(rules_view(self.rules@) =~= rules_view(old(self).rules@).push(v));
    }

    /// The best-matching rule for the facts: highest confidence, the
    /// earliest registered among equals; `None` when no rule's conditions
    /// meet the facts at all.
    pub fn best_match(&self, facts: &Vec<String>) -> (r: Option<Inference>)
        ensures
            r is None <==> forall|i: int| 0 <= i < self.rules@.len() ==> !#[trigger] rule_applies(self.rules@, texts(facts@), i),
            r matches Some(inf) ==> exists|i: int|
                #[trigger] best_among(self.rules@, texts(facts@), i, self.rules@.len() as int)
                && inf.rule_name@ == self.rules@[i].name@
                && inf.matched == rule_matched(self.rules@[i], texts(facts@))
                && inf.total == self.rules@[i].conditions@.len()
                && texts(inf.conclusions@) == texts(self.rules@[i].conclusions@),
    {
        let ghost rules = self.rules@;
        let ghost fs = texts(facts@);
        let mut best: Option<usize> = None;
        let mut best_m: usize = 0;
        let mut best_t: usize = 0;
        let mut i: usize = 0;
        while i < self.rules.len()
            invariant
                rules == self.rules@,
                fs == texts(facts@),
                i <= rules.len(),
                best is None ==> forall|j: int| 0 <= j < i ==> !#[trigger] rule_applies(rules, fs, j),
                best matches Some(b) ==> {
                    &&& best_among(rules, fs, b as int, i as int)
                    &&& best_m == rule_matched(rules[b as int], fs)
                    &&& best_t == rules[b as int].conditions@.len()
                },
            decreases rules.len() - i,
        {
            let rule = &self.rules[i];
            let m = rule.count_matches(facts);
            let t = rule.conditions.len();
            proof {
                lemma_matched_count_bound(texts(rule.conditions@), fs);
            }
            if m > 0 {
                let better = match best {
                    None => true,
                    Some(_) => mul_wide(m, best_t) > mul_wide(best_m, t),
                };
                proof {
                    match best {
                        Some(b) => {
                            lemma_matched_count_bound(texts(rules[b as int].conditions@), fs);
                        },
                        None => {},
                    }
                }
                if better {
                    proof {
                        let ii = i as int;
                        assert forall|j: int| 0 <= j < ii && #[trigger] rule_applies(rules, fs, j) implies beats(rules, fs, ii, j) by {
                            let b = best->Some_0 as int;
                            lemma_matched_count_bound(texts(rules[j].conditions@), fs);
                            if j != b {
                                lemma_ratio_chain(
                                    rule_matched(rules[ii], fs),
                                    rules[ii].conditions@.len(),
                                    rule_matched(rules[b], fs),
                                    rules[b].conditions@.len(),
                                    rule_matched(rules[j], fs),
                                    rules[j].conditions@.len(),
                                );
                            }
                        }
                    }
                    best = Some(i);
                    best_m = m;
                    best_t = t;
                }
            }
            i = i + 1;
        }
        match best {
            None => None,
            Some(b) => {
                let rule = &self.rules[b];
                Some(
                    Inference {
                        rule_name: owned(rule.name.as_str()),
                        matched: best_m,
                        total: best_t,
                        conclusions: copy_texts(&rule.conclusions),
                    },
                )
            },
        }
    }
}

} // verus!
