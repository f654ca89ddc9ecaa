use agentropic_bot::facts::extract_facts;
use agentropic_bot::knowledge::{build_knowledge_base, KnowledgeBase};
use agentropic_bot::reasoning::{ReasoningEngine, Rule};
use agentropic_bot::responder::{
    build_reasoning_engine, fitness_score, generate_response, get_response_candidates, select_best_response,
    truncate_to_tweet,
};

fn setup() -> (KnowledgeBase, ReasoningEngine) {
    (build_knowledge_base(), build_reasoning_engine())
}

#[test]
fn test_extract_facts() {
    let facts = extract_facts("@agentropic what patterns do you support?");
    assert!(facts.contains(&"patterns".to_string()));
    assert!(facts.contains(&"support".to_string()));
    assert!(!facts.iter().any(|f| f.starts_with('@')));
}

#[test]
fn test_engine_matches_patterns() {
    let (beliefs, engine) = setup();
    let response = generate_response("@agentropic what patterns do you support?", &beliefs, &engine);
    assert!(response.is_some());
    let text = response.unwrap();
    assert!(text.len() <= 280);
    assert!(text.to_lowercase().contains("pattern"));
}

#[test]
fn test_engine_matches_bdi() {
    let (beliefs, engine) = setup();
    let response = generate_response("@agentropic explain BDI belief desire intention", &beliefs, &engine);
    assert!(response.is_some());
    let text = response.unwrap();
    assert!(text.len() <= 280);
    assert!(text.to_lowercase().contains("belief") || text.to_lowercase().contains("bdi"));
}

#[test]
fn test_engine_matches_swarm() {
    let (beliefs, engine) = setup();
    let response = generate_response("@agentropic how does the swarm work?", &beliefs, &engine);
    assert!(response.is_some());
    let text = response.unwrap();
    assert!(text.len() <= 280);
}

#[test]
fn test_unknown_gives_default() {
    let (beliefs, engine) = setup();
    let response = generate_response("@agentropic xyzzy blorp", &beliefs, &engine);
    assert!(response.is_some());
    assert!(response.unwrap().len() <= 280);
}

#[test]
fn test_all_topics_produce_responses() {
    let (beliefs, engine) = setup();
    let queries = vec![
        "@agentropic what is agentropic?",
        "@agentropic what patterns?",
        "@agentropic how does messaging work?",
        "@agentropic tell me about cognition",
        "@agentropic what about BDI?",
        "@agentropic auction system?",
        "@agentropic swarm behavior?",
        "@agentropic runtime supervisor?",
        "@agentropic how to get started?",
        "@agentropic why Rust?",
        "@agentropic show examples",
        "@agentropic random gibberish xyz",
    ];

    for query in queries {
        let response = generate_response(query, &beliefs, &engine);
        assert!(response.is_some(), "No response for: {}", query);
        assert!(response.unwrap().len() <= 280, "Too long for: {}", query);
    }
}

#[test]
fn facts_of_a_question_are_its_words() {
    let facts = extract_facts("@bot what patterns do you support?");
    assert_eq!(facts, vec!["what", "patterns", "do", "you", "support"]);
}

#[test]
fn facts_are_lowercased_trimmed_and_longer_than_one_byte() {
    let facts = extract_facts("  Hello,   (World)!! a I' @x ..ok.. \"BDI\"");
    assert_eq!(facts, vec!["hello", "world", "ok", "bdi"]);
    assert!(extract_facts("").is_empty());
    assert!(extract_facts("@a @b c").is_empty());
}

#[test]
fn fitness_scores_by_length() {
    assert_eq!(fitness_score(&"x".repeat(60)), 10);
    assert_eq!(fitness_score(&"x".repeat(300)), 0);
    assert_eq!(fitness_score(&"x".repeat(281)), 0);
    assert_eq!(fitness_score(&"x".repeat(280)), 3);
    assert_eq!(fitness_score(&"x".repeat(251)), 3);
    assert_eq!(fitness_score(&"x".repeat(250)), 8);
    assert_eq!(fitness_score(&"x".repeat(151)), 8);
    assert_eq!(fitness_score(&"x".repeat(150)), 10);
    assert_eq!(fitness_score(&"x".repeat(51)), 10);
    assert_eq!(fitness_score(&"x".repeat(50)), 5);
    assert_eq!(fitness_score("x"), 5);
    assert_eq!(fitness_score(""), 0);
}

#[test]
fn select_prefers_fitting_candidates() {
    let long = "a".repeat(300);
    assert_eq!(
        select_best_response(vec![long.clone(), "fits well".to_string()]),
        Some("fits well".to_string())
    );
    assert_eq!(
        select_best_response(vec!["".to_string(), long.clone(), "fits well".to_string()]),
        Some("fits well".to_string())
    );
    assert_eq!(select_best_response(vec!["".to_string()]), None);
    assert_eq!(select_best_response(vec![long.clone()]), None);
    assert_eq!(select_best_response(vec![]), None);
    let mid = "m".repeat(100);
    assert_eq!(
        select_best_response(vec!["short".to_string(), mid.clone(), "x".repeat(120)]),
        Some(mid)
    );
}

#[test]
fn truncation_cuts_at_the_last_space() {
    let mut text = "a".repeat(200);
    text.push(' ');
    text.push_str(&"b".repeat(89));
    assert_eq!(text.len(), 290);
    let cut = truncate_to_tweet(text);
    assert_eq!(cut, format!("{}...", "a".repeat(200)));
}

#[test]
fn truncation_without_spaces_keeps_277_bytes() {
    let cut = truncate_to_tweet("z".repeat(290));
    assert_eq!(cut, format!("{}...", "z".repeat(277)));
    assert_eq!(cut.len(), 280);
}

#[test]
fn truncation_leaves_short_text_alone() {
    let text = "q".repeat(280);
    assert_eq!(truncate_to_tweet(text.clone()), text);
}

#[test]
fn truncation_keeps_whole_characters() {
    // 150 two-byte characters: 277 bytes would split one.
    let cut = truncate_to_tweet("é".repeat(150));
    assert_eq!(cut, format!("{}...", "é".repeat(138)));
}

#[test]
fn earlier_rule_wins_a_tie() {
    let mut engine = ReasoningEngine::new();
    engine.add_rule(Rule::new("first").with_condition("alpha").with_condition("beta").with_conclusion("topic:one"));
    engine.add_rule(Rule::new("second").with_condition("gamma").with_condition("delta").with_conclusion("topic:two"));
    let facts = vec!["alpha".to_string(), "gamma".to_string()];
    let inference = engine.best_match(&facts).unwrap();
    assert_eq!(inference.rule_name, "first");
    assert_eq!(inference.conclusions, vec!["topic:one".to_string()]);
    assert_eq!((inference.matched, inference.total), (1, 2));
}

#[test]
fn higher_confidence_beats_more_matches() {
    let mut engine = ReasoningEngine::new();
    engine.add_rule(
        Rule::new("broad")
            .with_condition("a1")
            .with_condition("a2")
            .with_condition("a3")
            .with_condition("a4")
            .with_conclusion("topic:broad"),
    );
    engine.add_rule(Rule::new("narrow").with_condition("a1").with_conclusion("topic:narrow"));
    let facts = vec!["a1".to_string(), "a2".to_string()];
    assert_eq!(engine.best_match(&facts).unwrap().rule_name, "narrow");
    assert!(engine.best_match(&vec!["zz".to_string()]).is_none());
}

#[test]
fn bdi_question_gets_the_bdi_topic() {
    let (beliefs, engine) = setup();
    let facts = extract_facts("@agentropic explain BDI belief desire intention");
    let inference = engine.best_match(&facts).unwrap();
    assert_eq!(inference.rule_name, "topic:bdi");
    assert_eq!((inference.matched, inference.total), (4, 4));
    let reply = generate_response("@agentropic explain BDI belief desire intention", &beliefs, &engine).unwrap();
    assert!(reply.starts_with("BDI stands for Belief-Desire-Intention."));
}

#[test]
fn unknown_topic_gets_the_general_candidates() {
    let beliefs = build_knowledge_base();
    let candidates = get_response_candidates("unknown", &beliefs);
    assert_eq!(candidates.len(), 2);
    assert!(candidates[0].ends_with("Ask me about patterns, messaging, cognition, runtime, or getting started!"));
    assert!(candidates[1].starts_with("I'm Agentropic"));
}

#[test]
fn lookup_of_a_missing_key_says_so() {
    let beliefs = build_knowledge_base();
    assert_eq!(beliefs.lookup("nothing_here"), "(no info on 'nothing_here')");
    assert_eq!(beliefs.lookup("website"), "Learn more at https://agentropic.com");
}

#[test]
fn swarm_demo_goes_to_the_earlier_swarm_rule() {
    let (beliefs, engine) = setup();
    let reply = generate_response("@agentropic swarm demo", &beliefs, &engine).unwrap();
    assert_eq!(
        reply,
        "Swarm pattern: decentralized coordination with flocking (separation, alignment, cohesion), foraging, and consensus voting."
    );
}

#[test]
fn every_topic_finds_its_knowledge() {
    let beliefs = build_knowledge_base();
    for topic in [
        "topic:what_is", "topic:patterns", "topic:messaging", "topic:cognition", "topic:bdi", "topic:auctions",
        "topic:swarm", "topic:runtime", "topic:getting_started", "topic:why_rust", "topic:examples", "unknown",
    ] {
        let candidates = get_response_candidates(topic, &beliefs);
        assert_eq!(candidates.len(), 2);
        assert!(candidates.iter().all(|c| !c.contains("(no info on '")), "missing knowledge for {}", topic);
        assert!(select_best_response(candidates).is_some(), "nothing fits for {}", topic);
    }
}

#[test]
fn rules_are_registered_in_order() {
    let engine = build_reasoning_engine();
    let names: Vec<&str> = engine.rules.iter().map(|r| r.name.as_str()).collect();
    assert_eq!(
        names,
        vec![
            "topic:bdi", "topic:auctions", "topic:swarm", "topic:patterns", "topic:messaging", "topic:cognition",
            "topic:runtime", "topic:getting_started", "topic:why_rust", "topic:examples", "topic:what_is",
        ]
    );
    assert!(engine.rules.iter().all(|r| r.conclusions == vec![r.name.clone()]));
}
