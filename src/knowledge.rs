//! The knowledge base: short texts about the framework, looked up by key.

use vstd::prelude::*;
use crate::text::{owned, push_str_chars, str_eq, string_of};

verus! {

/// Keyed texts; a lookup finds the first entry with the key.
pub struct KnowledgeBase {
    pub entries: Vec<(String, String)>,
}

/// What a lookup of `key` in `entries` gives: the value of the first entry
/// with that key, or a note that there is none.
pub open spec fn lookup_text(entries: Seq<(Seq<char>, Seq<char>)>, key: Seq<char>) -> Seq<char>
    decreases entries.len(),
{
    if entries.len() == 0 {
        "(no info on '"@ + key + "')"@
    } else if entries[0].0 == key {
        entries[0].1
    } else {
        lookup_text(entries.drop_first(), key)
    }
}

impl KnowledgeBase {
    /// The entries as text.
    pub open spec fn view(&self) -> Seq<(Seq<char>, Seq<char>)> {
        self.entries@.map_values(|e: (String, String)| (e.0@, e.1@))
    }

    /// An empty knowledge base.
    pub fn new() -> (r: KnowledgeBase)
        ensures
            r.view() == Seq::<(Seq<char>, Seq<char>)>::empty(),
    {
        let r = KnowledgeBase { entries: Vec::new() };
        assert(r.view() =~= Seq::<(Seq<char>, Seq<char>)>::empty());
        r
    }

    /// Adds an entry after the existing ones.
    pub fn add(&mut self, key: &str, value: &str)
        ensures
            final(self).view() == old(self).view().push((key@, value@)),
    {
        self.entries.push((owned(key), owned(value)));
        assert(final(self).view() =~= old(self).view().push((key@, value@)));
    }

    /// The text stored under `key`, or `(no info on 'key')`.
    pub fn lookup(&self, key: &str) -> (r: String)
        ensures
            r@ == lookup_text(self.view(), key@),
    {
        let mut i: usize = 0;
        assert(self.view().skip(0) =~= self.view());
        while i < self.entries.len()
            invariant
                i <= self.view().len(),
                lookup_text(self.view(), key@) == lookup_text(self.view().skip(i as int), key@),
            decreases self.view().len() - i,
        {
            let e = &self.entries[i];
            assert(self.view().skip(i as int)[0] == (e.0@, e.1@));
            if str_eq(e.0.as_str(), key) {
                return owned(e.1.as_str());
            }
            assert(self.view().skip(i as int).drop_first() =~= self.view().skip(i as int + 1));
            i = i + 1;
        }
        let mut out: Vec<char> = Vec::new();
        push_str_chars(&mut out, "(no info on '");
        push_str_chars(&mut out, key);
        push_str_chars(&mut out, "')");
        string_of(out.as_slice())
    }
}

/// The framework knowledge, in order: key and text.
pub open spec fn knowledge_entries() -> Seq<(Seq<char>, Seq<char>)> {
    seq![
        ("what_is_agentropic"@, "Agentropic is a modular multi-agent framework for Rust. It provides agent lifecycles, messaging, cognition, organizational patterns, and supervised runtime execution."@),
        ("language"@, "Agentropic is built entirely in Rust for type safety, performance, and zero-cost abstractions."@),
        ("license"@, "Agentropic is open source under the MIT and Apache-2.0 dual license."@),
        ("github"@, "Agentropic source code is available at https://github.com/agentropic"@),
        ("website"@, "Learn more at https://agentropic.com"@),
        ("crates"@, "Agentropic has 5 core crates: agentropic-core, agentropic-messaging, agentropic-cognition, agentropic-patterns, and agentropic-runtime."@),
        ("core_crate"@, "agentropic-core defines the Agent trait, AgentId, AgentContext, AgentState lifecycle, and error handling."@),
        ("messaging_crate"@, "agentropic-messaging provides Router, Message, MessageBuilder, and FIPA performatives for agent communication."@),
        ("cognition_crate"@, "agentropic-cognition provides BDI architecture (beliefs, desires, intentions), planning, reasoning, and utility functions."@),
        ("patterns_crate"@, "agentropic-patterns provides 8 organizational patterns for structuring multi-agent systems."@),
        ("runtime_crate"@, "agentropic-runtime provides scheduling, supervision, circuit breakers, metrics, and agent isolation."@),
        ("agent_trait"@, "Every agent implements the Agent trait with three async methods: initialize(), execute(), and shutdown()."@),
        ("agent_id"@, "Each agent has a unique UUID-based AgentId created with AgentId::new()."@),
        ("agent_state"@, "Agent lifecycle states: Created, Initialized, Running, Paused, Stopped. Transitions are validated."@),
        ("messaging"@, "Agents communicate through a Router using typed Messages with FIPA performatives like Inform, Request, Propose, Accept, and Reject."@),
        ("performatives"@, "Supported FIPA performatives: Inform, Request, Query, Propose, Accept, Reject, Confirm, Disconfirm, Subscribe, CFP, Refuse."@),
        ("router"@, "The Router handles message delivery. Agents register to get a receiver channel, then messages are routed by AgentId."@),
        ("bdi"@, "BDI stands for Belief-Desire-Intention. It's a cognitive architecture where agents maintain beliefs about the world, desires they want to achieve, and intentions they're pursuing."@),
        ("beliefs"@, "BeliefBase is a queryable knowledge store. Agents add, query, and remove beliefs as they learn about their environment."@),
        ("utility"@, "UtilityFunction maps states to numerical scores for strategy evaluation and decision making."@),
        ("planning"@, "The Planner supports state-action planning with preconditions and effects."@),
        ("reasoning"@, "The ReasoningEngine performs rule-based inference using if-then rules."@),
        ("patterns"@, "Agentropic supports 8 organizational patterns: Hierarchy, Swarm, Coalition, Market, Blackboard, Federation, Holarchy, and Team."@),
        ("hierarchy"@, "Hierarchy pattern: command chains with Strategic, Tactical, and Operational levels. Tasks delegate down the chain."@),
        ("swarm"@, "Swarm pattern: decentralized coordination with flocking (separation, alignment, cohesion), foraging, and consensus voting."@),
        ("coalition"@, "Coalition pattern: temporary alliances where agents join forces with a shared strategy and combined value."@),
        ("market"@, "Market pattern: resource allocation via auctions. Supports English, Dutch, Vickrey, and sealed-bid auction types."@),
        ("federation"@, "Federation pattern: governance with weighted voting, policies, thresholds, and rules."@),
        ("team"@, "Team pattern: role-based coordination with Leader, Coordinator, and Executor roles and responsibilities."@),
        ("holarchy"@, "Holarchy pattern: nested autonomous units (holons) that are both wholes and parts of larger systems."@),
        ("blackboard"@, "Blackboard pattern: shared knowledge space where multiple agents read and write information."@),
        ("supervisor"@, "Supervisor monitors agent health and applies restart policies: Never, Always, OnFailure, or ExponentialBackoff."@),
        ("circuit_breaker"@, "CircuitBreaker prevents cascading failures. States: Closed (normal), Open (blocking), HalfOpen (testing recovery)."@),
        ("scheduler"@, "Scheduler manages task queues with FairShare, Priority, RoundRobin, and FCFS policies."@),
        ("metrics"@, "MetricsRegistry collects Counter, Gauge, and Histogram metrics with label support and JSON export."@),
        ("backoff"@, "ExponentialBackoff provides retry logic with configurable initial delay, max delay, and multiplier."@),
        ("sandbox"@, "Sandbox provides agent isolation with CPU quota, memory limits, thread limits, and network isolation."@),
        ("install"@, "Add agentropic-core to your Cargo.toml dependencies. Use async-trait and tokio for async support."@),
        ("examples"@, "8 working examples are available at https://github.com/agentropic/agentropic-examples covering all 5 crates."@),
        ("docs"@, "Documentation is available at https://github.com/agentropic/agentropic-docs"@),
        ("why_rust"@, "Rust gives Agentropic type safety, zero-cost abstractions, fearless concurrency, and no garbage collector pauses."@),
        ("design"@, "Agentropic uses composition over inheritance, async-first design, zero-cost patterns, and fail-graceful architecture."@),
        ("fipa"@, "FIPA is the Foundation for Intelligent Physical Agents, an IEEE standard for agent communication that Agentropic implements."@),
        ("modular"@, "Use only what you need. A simple agent needs only agentropic-core. Complex systems compose all five crates."@),
    ]
}

/// The framework's knowledge, one entry per topic.
pub fn build_knowledge_base() -> (r: KnowledgeBase)
    ensures
        r.view() == knowledge_entries(),
{
    let mut kb = KnowledgeBase::new();
    // Core framework
    kb.add("what_is_agentropic", "Agentropic is a modular multi-agent framework for Rust. It provides agent lifecycles, messaging, cognition, organizational patterns, and supervised runtime execution.");
    kb.add("language", "Agentropic is built entirely in Rust for type safety, performance, and zero-cost abstractions.");
    kb.add("license", "Agentropic is open source under the MIT and Apache-2.0 dual license.");
    kb.add("github", "Agentropic source code is available at https://github.com/agentropic");
    kb.add("website", "Learn more at https://agentropic.com");

    // Crate structure
    kb.add("crates", "Agentropic has 5 core crates: agentropic-core, agentropic-messaging, agentropic-cognition, agentropic-patterns, and agentropic-runtime.");
    kb.add("core_crate", "agentropic-core defines the Agent trait, AgentId, AgentContext, AgentState lifecycle, and error handling.");
    kb.add("messaging_crate", "agentropic-messaging provides Router, Message, MessageBuilder, and FIPA performatives for agent communication.");
    kb.add("cognition_crate", "agentropic-cognition provides BDI architecture (beliefs, desires, intentions), planning, reasoning, and utility functions.");
    kb.add("patterns_crate", "agentropic-patterns provides 8 organizational patterns for structuring multi-agent systems.");
    kb.add("runtime_crate", "agentropic-runtime provides scheduling, supervision, circuit breakers, metrics, and agent isolation.");

    // Agent trait
    kb.add("agent_trait", "Every agent implements the Agent trait with three async methods: initialize(), execute(), and shutdown().");
    kb.add("agent_id", "Each agent has a unique UUID-based AgentId created with AgentId::new().");
    kb.add("agent_state", "Agent lifecycle states: Created, Initialized, Running, Paused, Stopped. Transitions are validated.");

    // Messaging
    kb.add("messaging", "Agents communicate through a Router using typed Messages with FIPA performatives like Inform, Request, Propose, Accept, and Reject.");
    kb.add("performatives", "Supported FIPA performatives: Inform, Request, Query, Propose, Accept, Reject, Confirm, Disconfirm, Subscribe, CFP, Refuse.");
    kb.add("router", "The Router handles message delivery. Agents register to get a receiver channel, then messages are routed by AgentId.");

    // Cognition
    kb.add("bdi", "BDI stands for Belief-Desire-Intention. It's a cognitive architecture where agents maintain beliefs about the world, desires they want to achieve, and intentions they're pursuing.");
    kb.add("beliefs", "BeliefBase is a queryable knowledge store. Agents add, query, and remove beliefs as they learn about their environment.");
    kb.add("utility", "UtilityFunction maps states to numerical scores for strategy evaluation and decision making.");
    kb.add("planning", "The Planner supports state-action planning with preconditions and effects.");
    kb.add("reasoning", "The ReasoningEngine performs rule-based inference using if-then rules.");

    // Patterns
    kb.add("patterns", "Agentropic supports 8 organizational patterns: Hierarchy, Swarm, Coalition, Market, Blackboard, Federation, Holarchy, and Team.");
    kb.add("hierarchy", "Hierarchy pattern: command chains with Strategic, Tactical, and Operational levels. Tasks delegate down the chain.");
    kb.add("swarm", "Swarm pattern: decentralized coordination with flocking (separation, alignment, cohesion), foraging, and consensus voting.");
    kb.add("coalition", "Coalition pattern: temporary alliances where agents join forces with a shared strategy and combined value.");
    kb.add("market", "Market pattern: resource allocation via auctions. Supports English, Dutch, Vickrey, and sealed-bid auction types.");
    kb.add("federation", "Federation pattern: governance with weighted voting, policies, thresholds, and rules.");
    kb.add("team", "Team pattern: role-based coordination with Leader, Coordinator, and Executor roles and responsibilities.");
    kb.add("holarchy", "Holarchy pattern: nested autonomous units (holons) that are both wholes and parts of larger systems.");
    kb.add("blackboard", "Blackboard pattern: shared knowledge space where multiple agents read and write information.");

    // Runtime
    kb.add("supervisor", "Supervisor monitors agent health and applies restart policies: Never, Always, OnFailure, or ExponentialBackoff.");
    kb.add("circuit_breaker", "CircuitBreaker prevents cascading failures. States: Closed (normal), Open (blocking), HalfOpen (testing recovery).");
    kb.add("scheduler", "Scheduler manages task queues with FairShare, Priority, RoundRobin, and FCFS policies.");
    kb.add("metrics", "MetricsRegistry collects Counter, Gauge, and Histogram metrics with label support and JSON export.");
    kb.add("backoff", "ExponentialBackoff provides retry logic with configurable initial delay, max delay, and multiplier.");
    kb.add("sandbox", "Sandbox provides agent isolation with CPU quota, memory limits, thread limits, and network isolation.");

    // Getting started
    kb.add("install", "Add agentropic-core to your Cargo.toml dependencies. Use async-trait and tokio for async support.");
    kb.add("examples", "8 working examples are available at https://github.com/agentropic/agentropic-examples covering all 5 crates.");
    kb.add("docs", "Documentation is available at https://github.com/agentropic/agentropic-docs");

    // Philosophy
    kb.add("why_rust", "Rust gives Agentropic type safety, zero-cost abstractions, fearless concurrency, and no garbage collector pauses.");
    kb.add("design", "Agentropic uses composition over inheritance, async-first design, zero-cost patterns, and fail-graceful architecture.");
    kb.add("fipa", "FIPA is the Foundation for Intelligent Physical Agents, an IEEE standard for agent communication that Agentropic implements.");
    kb.add("modular", "Use only what you need. A simple agent needs only agentropic-core. Complex systems compose all five crates.");

    assert(kb.view() == knowledge_entries());
    kb
}

} // verus!
