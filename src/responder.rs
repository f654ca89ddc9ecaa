//! Replies to mentions: the topic rules, the candidate texts of each topic,
//! scoring by length, and truncation to the post limit.

use vstd::prelude::*;
use crate::facts::{extract_facts, facts_of, texts, words};
use crate::knowledge::{lookup_text, KnowledgeBase};
use crate::reasoning::{best_among, rule_applies, rules_view, ReasoningEngine, Rule};
use crate::text::{byte_len, char_byte_len, lemma_byte_len_concat, char_width, chars_of, lemma_byte_len_push, owned, push_str_chars, str_eq, string_of, utf8_len};

verus! {

/// Fitness of a candidate of `len` bytes, in tenths: an empty text or one
/// too long for a post scores 0, and texts of 51 to 150 bytes score best.
pub open spec fn fitness(len: nat) -> nat {
    if len == 0 {
        0
    } else if len > 280 {
        0
    } else if len > 250 {
        3
    } else if len > 150 {
        8
    } else if len > 50 {
        10
    } else {
        5
    }
}

/// The fitness of a text, in tenths.
pub fn fitness_score(text: &str) -> (r: u32)
    ensures
        r == fitness(byte_len(text@)),
{
    let len = utf8_len(text);
    if len == 0 {
        0
    } else if len > 280 {
        0
    } else if len > 250 {
        3
    } else if len > 150 {
        8
    } else if len > 50 {
        10
    } else {
        5
    }
}

/// Candidate `i` is the one to choose: it scores above zero, none scores
/// higher, and every earlier one scores lower.
pub open spec fn is_best_candidate(c: Seq<Seq<char>>, i: int) -> bool {
    &&& 0 <= i < c.len()
    &&& fitness(byte_len(c[i])) > 0
    &&& forall|j: int| 0 <= j < c.len() ==> fitness(byte_len(#[trigger] c[j])) <= fitness(byte_len(c[i]))
    &&& forall|j: int| 0 <= j < i ==> fitness(byte_len(#[trigger] c[j])) < fitness(byte_len(c[i]))
}

/// Whether no candidate scores above zero.
pub open spec fn none_fits(c: Seq<Seq<char>>) -> bool {
    forall|i: int| 0 <= i < c.len() ==> fitness(byte_len(#[trigger] c[i])) == 0
}

/// The chosen candidate, when one scores above zero.
pub open spec fn best_candidate(c: Seq<Seq<char>>) -> Option<Seq<char>> {
    if none_fits(c) {
        None
    } else {
        Some(c[choose|i: int| is_best_candidate(c, i)])
    }
}

proof fn lemma_best_candidate_unique(c: Seq<Seq<char>>, i: int, k: int)
    requires
        is_best_candidate(c, i),
        is_best_candidate(c, k),
    ensures
        i == k,
{
    if i < k {
        assert(fitness(byte_len(c[i])) < fitness(byte_len(c[k])));
    } else if k < i {
        assert(fitness(byte_len(c[k])) < fitness(byte_len(c[i])));
    }
}

/// The highest-scoring candidate that scores above zero; the first one
/// seen wins a tie.
pub fn select_best_response(candidates: Vec<String>) -> (r: Option<String>)
    ensures
        r matches Some(t) ==> best_candidate(texts(candidates@)) == Some(t@),
        r is None ==> best_candidate(texts(candidates@)) is None,
{
    let ghost c = texts(candidates@);
    let mut best: Option<usize> = None;
    let mut best_score: u32 = 0;
    let mut i: usize = 0;
    while i < candidates.len()
        invariant
            c == texts(candidates@),
            i <= c.len(),
            best is None ==> best_score == 0 && forall|j: int| 0 <= j < i ==> fitness(byte_len(#[trigger] c[j])) == 0,
            best matches Some(b) ==> {
                &&& b < i
                &&& best_score == fitness(byte_len(c[b as int]))
                &&& best_score > 0
                &&& forall|j: int| 0 <= j < i ==> fitness(byte_len(#[trigger] c[j])) <= best_score
                &&& forall|j: int| 0 <= j < b ==> fitness(byte_len(#[trigger] c[j])) < best_score
            },
        decreases c.len() - i,
    {
        let score = fitness_score(candidates[i].as_str());
        assert(c[i as int] == candidates@[i as int]@);
        if score > best_score {
            best = Some(i);
            best_score = score;
        }
        i = i + 1;
    }
    match best {
        None => None,
        Some(b) => {
            proof {
                assert(is_best_candidate(c, b as int));
                let k = choose|k: int| is_best_candidate(c, k);
                lemma_best_candidate_unique(c, b as int, k);
            }
            Some(owned(candidates[b].as_str()))
        },
    }
}

/// How many leading characters of `s` fit in `limit` bytes.
pub open spec fn prefix_within(s: Seq<char>, limit: nat) -> nat
    decreases s.len(),
{
    if s.len() == 0 || char_byte_len(s[0]) > limit {
        0
    } else {
        1 + prefix_within(s.drop_first(), (limit - char_byte_len(s[0])) as nat)
    }
}

/// Index of the last space in `s`, if any.
pub open spec fn last_space(s: Seq<char>) -> Option<int>
    decreases s.len(),
{
    if s.len() == 0 {
        None
    } else if s.last() == ' ' {
        Some(s.len() - 1)
    } else {
        last_space(s.drop_last())
    }
}

/// A text cut to fit a post: unchanged when it fits in 280 bytes;
/// otherwise cut at the last space within its first 277 bytes (at 277
/// bytes, kept to whole characters, when there is none) and ended by `...`.
pub open spec fn truncated(s: Seq<char>) -> Seq<char> {
    if byte_len(s) <= 280 {
        s
    } else {
        let window = s.take(prefix_within(s, 277) as int);
        match last_space(window) {
            Some(k) => s.take(k) + seq!['.', '.', '.'],
            None => window + seq!['.', '.', '.'],
        }
    }
}

proof fn lemma_prefix_within_step(s: Seq<char>, i: int, limit: nat, used: nat)
    requires
        0 <= i < s.len(),
        used + char_byte_len(s[i]) <= limit,
    ensures
        prefix_within(s.skip(i), (limit - used) as nat) == 1 + prefix_within(
            s.skip(i + 1),
            (limit - used - char_byte_len(s[i])) as nat,
        ),
{
    assert(s.skip(i)[0] == s[i]);
    assert(s.skip(i).drop_first() =~= s.skip(i + 1));
}

proof fn lemma_last_space_bound(s: Seq<char>)
    ensures
        last_space(s) matches Some(k) ==> 0 <= k < s.len() && s[k] == ' ',
    decreases s.len(),
{
    if s.len() > 0 && s.last() != ' ' {
        lemma_last_space_bound(s.drop_last());
    }
}

proof fn lemma_byte_len_take_mono(s: Seq<char>, a: int, b: int)
    requires
        0 <= a <= b <= s.len(),
    ensures
        byte_len(s.take(a)) <= byte_len(s.take(b)),
{
    assert(s.take(b) =~= s.take(a) + s.subrange(a, b));
    lemma_byte_len_concat(s.take(a), s.subrange(a, b));
}

proof fn lemma_prefix_within_fits(s: Seq<char>, limit: nat)
    ensures
        prefix_within(s, limit) <= s.len(),
        byte_len(s.take(prefix_within(s, limit) as int)) <= limit,
    decreases s.len(),
{
    let n = prefix_within(s, limit);
    if s.len() == 0 || char_byte_len(s[0]) > limit {
        assert(s.take(0) =~= Seq::<char>::empty());
    } else {
        let rest = s.drop_first();
        let lim2 = (limit - char_byte_len(s[0])) as nat;
        lemma_prefix_within_fits(rest, lim2);
        assert(s.take(n as int) =~= seq![s[0]] + rest.take((n - 1) as int));
        lemma_byte_len_concat(seq![s[0]], rest.take((n - 1) as int));
        crate::text::lemma_char_byte_len(s[0]);
    }
}

/// Every truncated text fits in a post.
pub proof fn lemma_truncated_fits(s: Seq<char>)
    ensures
        byte_len(truncated(s)) <= 280,
{
    if byte_len(s) > 280 {
        let n = prefix_within(s, 277) as int;
        lemma_prefix_within_fits(s, 277);
        let window = s.take(n);
        let dots = seq!['.', '.', '.'];
        assert(dots =~= Seq::<char>::empty().push('.').push('.').push('.'));
        assert(byte_len(Seq::<char>::empty()) == 0);
        lemma_byte_len_push(Seq::<char>::empty(), '.');
        lemma_byte_len_push(Seq::<char>::empty().push('.'), '.');
        lemma_byte_len_push(Seq::<char>::empty().push('.').push('.'), '.');
        lemma_last_space_bound(window);
        match last_space(window) {
            Some(k) => {
                lemma_byte_len_take_mono(s, k, n);
                lemma_byte_len_concat(s.take(k), dots);
            },
            None => {
                lemma_byte_len_concat(window, dots);
            },
        }
    }
}

/// Cuts a reply to fit in a post (see `truncated`).
pub fn truncate_to_tweet(text: String) -> (r: String)
    ensures
        r@ == truncated(text@),
        byte_len(r@) <= 280,
{
    proof {
        lemma_truncated_fits(text@);
    }
    if utf8_len(text.as_str()) <= 280 {
        return text;
    }
    let cs = chars_of(text.as_str());
    let ghost s = text@;
    let mut i: usize = 0;
    let mut used: usize = 0;
    assert(s.skip(0) =~= s);
    assert(s.take(0) =~= Seq::<char>::empty());
    while i < cs.len() && used + char_width(cs[i]) <= 277
        invariant
            cs@ == s,
            i <= s.len(),
            used <= 277,
            used == byte_len(s.take(i as int)),
            prefix_within(s, 277) == i + prefix_within(s.skip(i as int), (277 - used) as nat),
        decreases s.len() - i,
    {
        let w = char_width(cs[i]);
        proof {
            lemma_prefix_within_step(s, i as int, 277, used as nat);
            lemma_byte_len_push(s.take(i as int), s[i as int]);
            assert(s.take(i as int).push(s[i as int]) =~= s.take(i as int + 1));
        }
        used = used + w;
        i = i + 1;
    }
    proof {
        if i < s.len() {
            assert(s.skip(i as int)[0] == s[i as int]);
        }
        assert(prefix_within(s, 277) == i);
    }
    let ghost window = s.take(i as int);
    let mut k: usize = i;
    assert(window.take(i as int) =~= window);
    while k > 0 && cs[k - 1] != ' '
        invariant
            cs@ == s,
            k <= i <= s.len(),
            window == s.take(i as int),
            last_space(window) == last_space(window.take(k as int)),
        decreases k,
    {
        assert(window.take(k as int).drop_last() =~= window.take(k - 1));
        assert(window.take(k as int).last() == s[k - 1]);
        k = k - 1;
    }
    let mut out: Vec<char> = Vec::new();
    let cut = if k > 0 {
        k - 1
    } else {
        i
    };
    proof {
        if k > 0 {
            assert(window.take(k as int).last() == ' ');
            assert(window.take(k as int).last() == s[k - 1]);
        } else {
            assert(window.take(0) =~= Seq::<char>::empty());
        }
    }
    let mut m: usize = 0;
    while m < cut
        invariant
            cs@ == s,
            cut <= s.len(),
            m <= cut,
            out@ == s.take(m as int),
        decreases cut - m,
    {
        out.push(cs[m]);
        assert(s.take(m as int + 1) =~= s.take(m as int).push(s[m as int]));
        m = m + 1;
    }
    out.push('.');
    out.push('.');
    out.push('.');
    proof {
        assert(out@ =~= s.take(cut as int) + seq!['.', '.', '.']);
    }
    string_of(out.as_slice())
}


/// `a` followed by `b`.
fn cat(a: &str, b: &str) -> (r: String)
    ensures
        r@ == a@ + b@,
{
    let mut out: Vec<char> = Vec::new();
    push_str_chars(&mut out, a);
    push_str_chars(&mut out, b);
    string_of(out.as_slice())
}

/// The two candidates of a topic, in order.
fn pair(a: String, b: String) -> (r: Vec<String>)
    ensures
        texts(r@) == seq![a@, b@],
{
    let r = vec![a, b];
    assert(texts(r@) =~= seq![a@, b@]);
    r
}

/// The reply texts offered for a topic tag, in order of preference on a
/// tie; an unknown tag gets the general ones.
pub open spec fn candidates_for(topic: Seq<char>, kb: Seq<(Seq<char>, Seq<char>)>) -> Seq<Seq<char>> {
    if topic == "topic:what_is"@ {
        seq![lookup_text(kb, "what_is_agentropic"@) + "\n\nLearn more: https://agentropic.com"@, lookup_text(kb, "what_is_agentropic"@) + " "@ + lookup_text(kb, "modular"@)]
    } else if topic == "topic:patterns"@ {
        seq![lookup_text(kb, "patterns"@), lookup_text(kb, "patterns"@) + "\n\nExplore: https://github.com/agentropic/agentropic-examples"@]
    } else if topic == "topic:messaging"@ {
        seq![lookup_text(kb, "messaging"@), lookup_text(kb, "messaging"@) + "\n\n"@ + lookup_text(kb, "performatives"@)]
    } else if topic == "topic:cognition"@ {
        seq![lookup_text(kb, "cognition_crate"@) + "\n\n"@ + lookup_text(kb, "utility"@), lookup_text(kb, "cognition_crate"@)]
    } else if topic == "topic:bdi"@ {
        seq![lookup_text(kb, "bdi"@), lookup_text(kb, "bdi"@) + "\n\n"@ + lookup_text(kb, "beliefs"@)]
    } else if topic == "topic:auctions"@ {
        seq![lookup_text(kb, "market"@), lookup_text(kb, "market"@) + "\n\nSee the market_auction example for a full demo."@]
    } else if topic == "topic:swarm"@ {
        seq![lookup_text(kb, "swarm"@), lookup_text(kb, "swarm"@) + "\n\n"@ + lookup_text(kb, "patterns"@)]
    } else if topic == "topic:runtime"@ {
        seq![lookup_text(kb, "runtime_crate"@) + "\n\n"@ + lookup_text(kb, "supervisor"@), lookup_text(kb, "circuit_breaker"@) + "\n\n"@ + lookup_text(kb, "metrics"@)]
    } else if topic == "topic:getting_started"@ {
        seq![lookup_text(kb, "install"@) + "\n\n"@ + lookup_text(kb, "examples"@) + "\n\n"@ + lookup_text(kb, "docs"@), lookup_text(kb, "install"@) + "\n\nCheck out our examples: https://github.com/agentropic/agentropic-examples"@]
    } else if topic == "topic:why_rust"@ {
        seq![lookup_text(kb, "why_rust"@), lookup_text(kb, "why_rust"@) + "\n\n"@ + lookup_text(kb, "design"@)]
    } else if topic == "topic:examples"@ {
        seq![lookup_text(kb, "examples"@), lookup_text(kb, "examples"@) + "\n\nCovers all 5 crates end-to-end."@]
    } else {
        seq![lookup_text(kb, "what_is_agentropic"@) + "\n\nAsk me about patterns, messaging, cognition, runtime, or getting started!"@, "I'm Agentropic — a multi-agent framework for Rust! Ask me about our 8 patterns, BDI cognition, message routing, or how to get started.\n\nhttps://agentropic.com"@]
    }
}

/// The reply texts offered for a topic tag (see `candidates_for`).
pub fn get_response_candidates(topic: &str, beliefs: &KnowledgeBase) -> (r: Vec<String>)
    ensures
        texts(r@) == candidates_for(topic@, beliefs.view()),
{
    if str_eq(topic, "topic:what_is") {
        let a = cat(beliefs.lookup("what_is_agentropic").as_str(), "\n\nLearn more: https://agentropic.com");
        let b = cat(cat(beliefs.lookup("what_is_agentropic").as_str(), " ").as_str(), beliefs.lookup("modular").as_str());
        pair(a, b)
    } else if str_eq(topic, "topic:patterns") {
        let a = beliefs.lookup("patterns");
        let b = cat(beliefs.lookup("patterns").as_str(), "\n\nExplore: https://github.com/agentropic/agentropic-examples");
        pair(a, b)
    } else if str_eq(topic, "topic:messaging") {
        let a = beliefs.lookup("messaging");
        let b = cat(cat(beliefs.lookup("messaging").as_str(), "\n\n").as_str(), beliefs.lookup("performatives").as_str());
        pair(a, b)
    } else if str_eq(topic, "topic:cognition") {
        let a = cat(cat(beliefs.lookup("cognition_crate").as_str(), "\n\n").as_str(), beliefs.lookup("utility").as_str());
        let b = beliefs.lookup("cognition_crate");
        pair(a, b)
    } else if str_eq(topic, "topic:bdi") {
        let a = beliefs.lookup("bdi");
        let b = cat(cat(beliefs.lookup("bdi").as_str(), "\n\n").as_str(), beliefs.lookup("beliefs").as_str());
        pair(a, b)
    } else if str_eq(topic, "topic:auctions") {
        let a = beliefs.lookup("market");
        let b = cat(beliefs.lookup("market").as_str(), "\n\nSee the market_auction example for a full demo.");
        pair(a, b)
    } else if str_eq(topic, "topic:swarm") {
        let a = beliefs.lookup("swarm");
        let b = cat(cat(beliefs.lookup("swarm").as_str(), "\n\n").as_str(), beliefs.lookup("patterns").as_str());
        pair(a, b)
    } else if str_eq(topic, "topic:runtime") {
        let a = cat(cat(beliefs.lookup("runtime_crate").as_str(), "\n\n").as_str(), beliefs.lookup("supervisor").as_str());
        let b = cat(cat(beliefs.lookup("circuit_breaker").as_str(), "\n\n").as_str(), beliefs.lookup("metrics").as_str());
        pair(a, b)
    } else if str_eq(topic, "topic:getting_started") {
        let a = cat(cat(cat(cat(beliefs.lookup("install").as_str(), "\n\n").as_str(), beliefs.lookup("examples").as_str()).as_str(), "\n\n").as_str(), beliefs.lookup("docs").as_str());
        let b = cat(beliefs.lookup("install").as_str(), "\n\nCheck out our examples: https://github.com/agentropic/agentropic-examples");
        pair(a, b)
    } else if str_eq(topic, "topic:why_rust") {
        let a = beliefs.lookup("why_rust");
        let b = cat(cat(beliefs.lookup("why_rust").as_str(), "\n\n").as_str(), beliefs.lookup("design").as_str());
        pair(a, b)
    } else if str_eq(topic, "topic:examples") {
        let a = beliefs.lookup("examples");
        let b = cat(beliefs.lookup("examples").as_str(), "\n\nCovers all 5 crates end-to-end.");
        pair(a, b)
    } else {
        let a = cat(beliefs.lookup("what_is_agentropic").as_str(), "\n\nAsk me about patterns, messaging, cognition, runtime, or getting started!");
        let b = owned("I'm Agentropic — a multi-agent framework for Rust! Ask me about our 8 patterns, BDI cognition, message routing, or how to get started.\n\nhttps://agentropic.com");
        pair(a, b)
    }
}

/// The topic rules in registration order: name, keywords, conclusions.
pub open spec fn topic_rules() -> Seq<(Seq<char>, Seq<Seq<char>>, Seq<Seq<char>>)> {
    seq![
        ("topic:bdi"@, seq!["bdi"@, "belief"@, "desire"@, "intention"@], seq!["topic:bdi"@]),
        ("topic:auctions"@, seq!["auction"@, "market"@, "bid"@, "english"@, "dutch"@, "vickrey"@], seq!["topic:auctions"@]),
        ("topic:swarm"@, seq!["swarm"@, "flock"@, "consensus"@, "drone"@, "foraging"@], seq!["topic:swarm"@]),
        ("topic:patterns"@, seq!["pattern"@, "hierarchy"@, "coalition"@, "federation"@, "team"@, "holarchy"@, "blackboard"@, "organization"@], seq!["topic:patterns"@]),
        ("topic:messaging"@, seq!["message"@, "messaging"@, "router"@, "performative"@, "fipa"@, "communicate"@, "communication"@], seq!["topic:messaging"@]),
        ("topic:cognition"@, seq!["cognition"@, "reasoning"@, "planning"@, "utility"@, "thinking"@, "decision"@, "intelligence"@], seq!["topic:cognition"@]),
        ("topic:runtime"@, seq!["runtime"@, "supervisor"@, "circuit"@, "metric"@, "scheduler"@, "health"@, "restart"@], seq!["topic:runtime"@]),
        ("topic:getting_started"@, seq!["start"@, "install"@, "setup"@, "begin"@, "tutorial"@, "beginner"@, "learn"@], seq!["topic:getting_started"@]),
        ("topic:why_rust"@, seq!["rust"@, "performance"@, "safe"@, "safety"@, "fast"@, "speed"@], seq!["topic:why_rust"@]),
        ("topic:examples"@, seq!["example"@, "demo"@, "sample"@, "code"@, "show"@], seq!["topic:examples"@]),
        ("topic:what_is"@, seq!["what"@, "who"@, "about"@, "agentropic"@, "explain"@, "tell"@], seq!["topic:what_is"@]),
    ]
}

/// The topic rules, specific ones first and the broad "what is" last.
pub fn build_reasoning_engine() -> (r: ReasoningEngine)
    ensures
        rules_view(r.rules@) == topic_rules(),
{
    let mut engine = ReasoningEngine::new();
    // BDI — specific terms first
    let rule = Rule::new("topic:bdi")
        .with_condition("bdi")
        .with_condition("belief")
        .with_condition("desire")
        .with_condition("intention")
        .with_conclusion("topic:bdi");
    assert(texts(rule.conditions@) == seq!["bdi"@, "belief"@, "desire"@, "intention"@]);
    assert(texts(rule.conclusions@) == seq!["topic:bdi"@]);
    engine.add_rule(rule);

    // Auctions / Market
    let rule = Rule::new("topic:auctions")
        .with_condition("auction")
        .with_condition("market")
        .with_condition("bid")
        .with_condition("english")
        .with_condition("dutch")
        .with_condition("vickrey")
        .with_conclusion("topic:auctions");
    assert(texts(rule.conditions@) == seq!["auction"@, "market"@, "bid"@, "english"@, "dutch"@, "vickrey"@]);
    assert(texts(rule.conclusions@) == seq!["topic:auctions"@]);
    engine.add_rule(rule);

    // Swarm
    let rule = Rule::new("topic:swarm")
        .with_condition("swarm")
        .with_condition("flock")
        .with_condition("consensus")
        .with_condition("drone")
        .with_condition("foraging")
        .with_conclusion("topic:swarm");
    assert(texts(rule.conditions@) == seq!["swarm"@, "flock"@, "consensus"@, "drone"@, "foraging"@]);
    assert(texts(rule.conclusions@) == seq!["topic:swarm"@]);
    engine.add_rule(rule);

    // Patterns (broad)
    let rule = Rule::new("topic:patterns")
        .with_condition("pattern")
        .with_condition("hierarchy")
        .with_condition("coalition")
        .with_condition("federation")
        .with_condition("team")
        .with_condition("holarchy")
        .with_condition("blackboard")
        .with_condition("organization")
        .with_conclusion("topic:patterns");
    assert(texts(rule.conditions@) == seq!["pattern"@, "hierarchy"@, "coalition"@, "federation"@, "team"@, "holarchy"@, "blackboard"@, "organization"@]);
    assert(texts(rule.conclusions@) == seq!["topic:patterns"@]);
    engine.add_rule(rule);

    // Messaging
    let rule = Rule::new("topic:messaging")
        .with_condition("message")
        .with_condition("messaging")
        .with_condition("router")
        .with_condition("performative")
        .with_condition("fipa")
        .with_condition("communicate")
        .with_condition("communication")
        .with_conclusion("topic:messaging");
    assert(texts(rule.conditions@) == seq!["message"@, "messaging"@, "router"@, "performative"@, "fipa"@, "communicate"@, "communication"@]);
    assert(texts(rule.conclusions@) == seq!["topic:messaging"@]);
    engine.add_rule(rule);

    // Cognition
    let rule = Rule::new("topic:cognition")
        .with_condition("cognition")
        .with_condition("reasoning")
        .with_condition("planning")
        .with_condition("utility")
        .with_condition("thinking")
        .with_condition("decision")
        .with_condition("intelligence")
        .with_conclusion("topic:cognition");
    assert(texts(rule.conditions@) == seq!["cognition"@, "reasoning"@, "planning"@, "utility"@, "thinking"@, "decision"@, "intelligence"@]);
    assert(texts(rule.conclusions@) == seq!["topic:cognition"@]);
    engine.add_rule(rule);

    // Runtime
    let rule = Rule::new("topic:runtime")
        .with_condition("runtime")
        .with_condition("supervisor")
        .with_condition("circuit")
        .with_condition("metric")
        .with_condition("scheduler")
        .with_condition("health")
        .with_condition("restart")
        .with_conclusion("topic:runtime");
    assert(texts(rule.conditions@) == seq!["runtime"@, "supervisor"@, "circuit"@, "metric"@, "scheduler"@, "health"@, "restart"@]);
    assert(texts(rule.conclusions@) == seq!["topic:runtime"@]);
    engine.add_rule(rule);

    // Getting started
    let rule = Rule::new("topic:getting_started")
        .with_condition("start")
        .with_condition("install")
        .with_condition("setup")
        .with_condition("begin")
        .with_condition("tutorial")
        .with_condition("beginner")
        .with_condition("learn")
        .with_conclusion("topic:getting_started");
    assert(texts(rule.conditions@) == seq!["start"@, "install"@, "setup"@, "begin"@, "tutorial"@, "beginner"@, "learn"@]);
    assert(texts(rule.conclusions@) == seq!["topic:getting_started"@]);
    engine.add_rule(rule);

    // Why Rust
    let rule = Rule::new("topic:why_rust")
        .with_condition("rust")
        .with_condition("performance")
        .with_condition("safe")
        .with_condition("safety")
        .with_condition("fast")
        .with_condition("speed")
        .with_conclusion("topic:why_rust");
    assert(texts(rule.conditions@) == seq!["rust"@, "performance"@, "safe"@, "safety"@, "fast"@, "speed"@]);
    assert(texts(rule.conclusions@) == seq!["topic:why_rust"@]);
    engine.add_rule(rule);

    // Examples
    let rule = Rule::new("topic:examples")
        .with_condition("example")
        .with_condition("demo")
        .with_condition("sample")
        .with_condition("code")
        .with_condition("show")
        .with_conclusion("topic:examples");
    assert(texts(rule.conditions@) == seq!["example"@, "demo"@, "sample"@, "code"@, "show"@]);
    assert(texts(rule.conclusions@) == seq!["topic:examples"@]);
    engine.add_rule(rule);

    // What is Agentropic (broad catch-all)
    let rule = Rule::new("topic:what_is")
        .with_condition("what")
        .with_condition("who")
        .with_condition("about")
        .with_condition("agentropic")
        .with_condition("explain")
        .with_condition("tell")
        .with_conclusion("topic:what_is");
    assert(texts(rule.conditions@) == seq!["what"@, "who"@, "about"@, "agentropic"@, "explain"@, "tell"@]);
    assert(texts(rule.conclusions@) == seq!["topic:what_is"@]);
    engine.add_rule(rule);
    assert(rules_view(engine.rules@) == topic_rules());
    engine
}

/// The index of the best-matching rule.
pub open spec fn best_rule(rules: Seq<Rule>, facts: Seq<Seq<char>>) -> int {
    choose|i: int| best_among(rules, facts, i, rules.len() as int)
}

/// The topic that facts lead to: the first conclusion of the best-matching
/// rule, or `unknown` when there are no facts, no rule matches, or the rule
/// concludes nothing.
pub open spec fn topic_for(rules: Seq<Rule>, facts: Seq<Seq<char>>) -> Seq<char> {
    if facts.len() == 0 || forall|i: int| 0 <= i < rules.len() ==> !#[trigger] rule_applies(rules, facts, i) {
        "unknown"@
    } else if texts(rules[best_rule(rules, facts)].conclusions@).len() > 0 {
        texts(rules[best_rule(rules, facts)].conclusions@)[0]
    } else {
        "unknown"@
    }
}

/// The reply to a mention: the best-fitting candidate of its topic, cut to
/// fit a post; `None` when no candidate fits.
pub open spec fn reply_for(mention: Seq<char>, kb: Seq<(Seq<char>, Seq<char>)>, rules: Seq<Rule>) -> Option<Seq<char>> {
    let topic = topic_for(rules, facts_of(words(mention)));
    match best_candidate(candidates_for(topic, kb)) {
        Some(t) => Some(truncated(t)),
        None => None,
    }
}

/// Answers a mention from the knowledge base, with the topic that the
/// engine infers from the mention's facts.
pub fn generate_response(mention_text: &str, beliefs: &KnowledgeBase, engine: &ReasoningEngine) -> (r: Option<String>)
    ensures
        r matches Some(t) ==> reply_for(mention_text@, beliefs.view(), engine.rules@) == Some(t@) && byte_len(t@)
            <= 280,
        r is None ==> reply_for(mention_text@, beliefs.view(), engine.rules@) is None,
{
    let facts = extract_facts(mention_text);
    let ghost fs = texts(facts@);
    let ghost rules = engine.rules@;
    let topic = if facts.len() == 0 {
        owned("unknown")
    } else {
        match engine.best_match(&facts) {
            Some(inf) => {
                proof {
                    let i = choose|i: int| #[trigger] best_among(rules, fs, i, rules.len() as int)
                        && inf.rule_name@ == rules[i].name@
                        && texts(inf.conclusions@) == texts(rules[i].conclusions@);
                    let k = best_rule(rules, fs);
                    crate::reasoning::lemma_best_unique(rules, fs, i, k);
                }
                if inf.conclusions.len() > 0 {
                    proof {
                        assert(texts(inf.conclusions@)[0] == inf.conclusions@[0]@);
                    }
                    owned(inf.conclusions[0].as_str())
                } else {
                    owned("unknown")
                }
            },
            None => owned("unknown"),
        }
    };
    assert(topic@ == topic_for(rules, fs));
    let candidates = get_response_candidates(topic.as_str(), beliefs);
    match select_best_response(candidates) {
        Some(t) => Some(truncate_to_tweet(t)),
        None => None,
    }
}

} // verus!
