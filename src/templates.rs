//! The pools of ready-made posts, one per content category.
//!
//! Every template is at most 250 bytes long, which leaves room for the
//! signature that the generator appends when it fits.

use vstd::prelude::*;
use crate::text::owned;

verus! {

/// The views of a list of string slices.
pub open spec fn str_texts(v: Seq<&str>) -> Seq<Seq<char>> {
    v.map_values(|s: &str| s@)
}

/// Relies on rand's `Rng::gen_range` on `thread_rng()`: a value in
/// `0..n`; it panics on an empty range, which `n > 0` rules out.
#[verifier::external_body]
pub(crate) fn random_below(n: usize) -> (r: usize)
    requires
        n > 0,
    ensures
        r < n,
{
    rand::Rng::gen_range(&mut rand::thread_rng(), 0..n)
}

/// The texts of `TweetTemplates::ai_templates`.
pub open spec fn ai_texts() -> Seq<Seq<char>> {
    seq![
        "AI agents are evolving faster than most realize. The future is autonomous systems working together.\n\n#AI #Agents #MachineLearning"@,
        "The real revolution isn't chatbots — it's multi-agent systems. Agents coordinating decisions and action. Pure alpha.\n\n#AI #MultiAgent"@,
        "Neural networks were just the beginning. Agent swarms are the endgame.\n\n#AI #SwarmIntelligence"@,
        "AGI won't be one model. It'll be thousands of specialized agents in perfect coordination.\n\n#AGI #Agents"@,
        "While everyone's playing with prompts, smart money is building autonomous agent systems.\n\n#AI #Automation"@,
    ]
}

/// The texts of `TweetTemplates::agentropic_templates`.
pub open spec fn agentropic_texts() -> Seq<Seq<char>> {
    seq![
        "Production-ready multi-agent systems in Rust. BDI architecture, swarm coordination, fault tolerance — batteries included.\n\n#Rust #Agentropic"@,
        "Your agents deserve Rust's safety and performance. No GC pauses. No Python spaghetti. Just speed.\n\n#Rust #Agentropic"@,
        "8 org patterns for multi-agent systems: Hierarchy, Swarm, Market, Coalition, Team, Holarchy, Federation, Blackboard. All in Rust.\n\n#Agentropic"@,
        "FIPA messaging. BDI cognition. Fault-tolerant runtime. Swarm intelligence. All open source.\n\n#Rust #Agentropic #Agents"@,
        "While others figure out agent basics, Agentropic devs are deploying production swarms. Different game.\n\n#Agentropic #MultiAgent"@,
    ]
}

/// The texts of `TweetTemplates::crypto_ai_templates`.
pub open spec fn crypto_ai_texts() -> Seq<Seq<char>> {
    seq![
        "Blockchain + AI agents: on-chain coordination, autonomous execution, trustless cooperation. The future of DeFi is agentic.\n\n#DeFi #AIAgents"@,
        "Smart contracts are cool. AI agents executing them autonomously? That's next level.\n\n#AI #Blockchain #DeFi"@,
        "MEV but it's AI agents competing in milliseconds. That's the meta.\n\n#MEV #AIAgents #Crypto"@,
        "Every major protocol will have AI agents soon. The ones sleeping on this will regret it.\n\n#DeFi #AI #Agents"@,
        "Algo trading → AI trading agents → Agent swarms coordinating trades. We're entering the swarm era.\n\n#Crypto #AIAgents"@,
    ]
}

/// The texts of `TweetTemplates::meme_ai_templates`.
pub open spec fn meme_ai_texts() -> Seq<Seq<char>> {
    seq![
        "AI agent tokens are the new meta. Utility + memes = unstoppable force.\n\n#AI #MemeCoins #Crypto"@,
        "Imagine: AI agents shitposting their own meme coins into existence. Bullish.\n\n#AIAgents #Memes"@,
        "Doge had a dog. We have autonomous agents. Different era, same energy.\n\n#AI #MemeCoins"@,
        "AI tokens aren't just memes. They're infrastructure for autonomous economies. (Also they're memes.)\n\n#AI #Crypto"@,
        "The best performing asset next year will be an AI agent token nobody's heard of yet. Screenshot this.\n\n#Crypto #AI"@,
    ]
}

/// The texts of `TweetTemplates::general_bull_templates`.
pub open spec fn general_bull_texts() -> Seq<Seq<char>> {
    seq![
        "Agent economies are coming. Agents trading, coordinating value, building wealth. Humans? Optional.\n\n#AI #Agents #Future"@,
        "Going from single AI models to multi-agent systems is like going from single-player to MMO. We're going multiplayer.\n\n#AI #Agents"@,
        "Your next coworker won't be human. It'll be a swarm of specialized AI agents. Get ready.\n\n#AI #FutureOfWork"@,
        "AI agents don't sleep, don't take breaks, and scale infinitely. The workforce shift is already here.\n\n#AI #Automation"@,
        "Building AI agents right now is like building websites in 1995. Early. Weird. Massively underpriced.\n\n#AI #Agents #Tech"@,
    ]
}

/// Access to the template pools.
pub struct TweetTemplates;

/// One text of the pool, copied.
fn pick(pool: Vec<&'static str>) -> (r: String)
    requires
        pool@.len() > 0,
    ensures
        str_texts(pool@).contains(r@),
{
    let i = random_below(pool.len());
    let r = owned(pool[i]);
    assert(str_texts(pool@)[i as int] == r@);
    r
}

impl TweetTemplates {
    /// AI-focused posts
    pub fn ai_templates() -> (r: Vec<&'static str>)
        ensures
            r@.len() == 5,
            str_texts(r@) == ai_texts(),
    {
        let r = vec![
            "AI agents are evolving faster than most realize. The future is autonomous systems working together.\n\n#AI #Agents #MachineLearning",
            "The real revolution isn't chatbots — it's multi-agent systems. Agents coordinating decisions and action. Pure alpha.\n\n#AI #MultiAgent",
            "Neural networks were just the beginning. Agent swarms are the endgame.\n\n#AI #SwarmIntelligence",
            "AGI won't be one model. It'll be thousands of specialized agents in perfect coordination.\n\n#AGI #Agents",
            "While everyone's playing with prompts, smart money is building autonomous agent systems.\n\n#AI #Automation",
        ];
        assert(str_texts(r@) =~= ai_texts());
        r
    }

    /// Agentropic-specific posts
    pub fn agentropic_templates() -> (r: Vec<&'static str>)
        ensures
            r@.len() == 5,
            str_texts(r@) == agentropic_texts(),
    {
        let r = vec![
            "Production-ready multi-agent systems in Rust. BDI architecture, swarm coordination, fault tolerance — batteries included.\n\n#Rust #Agentropic",
            "Your agents deserve Rust's safety and performance. No GC pauses. No Python spaghetti. Just speed.\n\n#Rust #Agentropic",
            "8 org patterns for multi-agent systems: Hierarchy, Swarm, Market, Coalition, Team, Holarchy, Federation, Blackboard. All in Rust.\n\n#Agentropic",
            "FIPA messaging. BDI cognition. Fault-tolerant runtime. Swarm intelligence. All open source.\n\n#Rust #Agentropic #Agents",
            "While others figure out agent basics, Agentropic devs are deploying production swarms. Different game.\n\n#Agentropic #MultiAgent",
        ];
        assert(str_texts(r@) =~= agentropic_texts());
        r
    }

    /// Crypto + AI hybrid posts
    pub fn crypto_ai_templates() -> (r: Vec<&'static str>)
        ensures
            r@.len() == 5,
            str_texts(r@) == crypto_ai_texts(),
    {
        let r = vec![
            "Blockchain + AI agents: on-chain coordination, autonomous execution, trustless cooperation. The future of DeFi is agentic.\n\n#DeFi #AIAgents",
            "Smart contracts are cool. AI agents executing them autonomously? That's next level.\n\n#AI #Blockchain #DeFi",
            "MEV but it's AI agents competing in milliseconds. That's the meta.\n\n#MEV #AIAgents #Crypto",
            "Every major protocol will have AI agents soon. The ones sleeping on this will regret it.\n\n#DeFi #AI #Agents",
            "Algo trading → AI trading agents → Agent swarms coordinating trades. We're entering the swarm era.\n\n#Crypto #AIAgents",
        ];
        assert(str_texts(r@) =~= crypto_ai_texts());
        r
    }

    /// Meme coin + AI posts
    pub fn meme_ai_templates() -> (r: Vec<&'static str>)
        ensures
            r@.len() == 5,
            str_texts(r@) == meme_ai_texts(),
    {
        let r = vec![
            "AI agent tokens are the new meta. Utility + memes = unstoppable force.\n\n#AI #MemeCoins #Crypto",
            "Imagine: AI agents shitposting their own meme coins into existence. Bullish.\n\n#AIAgents #Memes",
            "Doge had a dog. We have autonomous agents. Different era, same energy.\n\n#AI #MemeCoins",
            "AI tokens aren't just memes. They're infrastructure for autonomous economies. (Also they're memes.)\n\n#AI #Crypto",
            "The best performing asset next year will be an AI agent token nobody's heard of yet. Screenshot this.\n\n#Crypto #AI",
        ];
        assert(str_texts(r@) =~= meme_ai_texts());
        r
    }

    /// General posts
    pub fn general_bull_templates() -> (r: Vec<&'static str>)
        ensures
            r@.len() == 5,
            str_texts(r@) == general_bull_texts(),
    {
        let r = vec![
            "Agent economies are coming. Agents trading, coordinating value, building wealth. Humans? Optional.\n\n#AI #Agents #Future",
            "Going from single AI models to multi-agent systems is like going from single-player to MMO. We're going multiplayer.\n\n#AI #Agents",
            "Your next coworker won't be human. It'll be a swarm of specialized AI agents. Get ready.\n\n#AI #FutureOfWork",
            "AI agents don't sleep, don't take breaks, and scale infinitely. The workforce shift is already here.\n\n#AI #Automation",
            "Building AI agents right now is like building websites in 1995. Early. Weird. Massively underpriced.\n\n#AI #Agents #Tech",
        ];
        assert(str_texts(r@) =~= general_bull_texts());
        r
    }

    /// A text of `ai_templates`, chosen at random.
    pub fn random_ai_tweet() -> (r: String)
        ensures
            ai_texts().contains(r@),
    {
        pick(Self::ai_templates())
    }

    /// A text of `agentropic_templates`, chosen at random.
    pub fn random_agentropic_tweet() -> (r: String)
        ensures
            agentropic_texts().contains(r@),
    {
        pick(Self::agentropic_templates())
    }

    /// A text of `crypto_ai_templates`, chosen at random.
    pub fn random_crypto_tweet() -> (r: String)
        ensures
            crypto_ai_texts().contains(r@),
    {
        pick(Self::crypto_ai_templates())
    }

    /// A text of `meme_ai_templates`, chosen at random.
    pub fn random_meme_tweet() -> (r: String)
        ensures
            meme_ai_texts().contains(r@),
    {
        pick(Self::meme_ai_templates())
    }

    /// A text of `general_bull_templates`, chosen at random.
    pub fn random_bull_tweet() -> (r: String)
        ensures
            general_bull_texts().contains(r@),
    {
        pick(Self::general_bull_templates())
    }
}

} // verus!
