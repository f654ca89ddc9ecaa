//! The decisions of the posting and reply cycles.
//!
//! The caller performs what these functions decide (sending, sleeping) and
//! hands back what happened; the functions hold no I/O of their own.

use vstd::prelude::*;
use crate::api::{ApiError, MentionData, MentionsResponse, TweetResponse};
use crate::config::BotConfig;
use crate::cursor::{cursor_after, MentionTracker};
use crate::filter::{spec_is_safe, ContentFilter};
use crate::generator::{may_generate, signed, TweetGenerator};
use crate::knowledge::KnowledgeBase;
use crate::quota::PostTracker;
use crate::reasoning::ReasoningEngine;
use crate::responder::{generate_response, reply_for};
use crate::text::owned;

verus! {

/// Attempts at sending one post, the first included.
pub const MAX_SEND_ATTEMPTS: u32 = 3;

/// Seconds to wait after each reply before the next.
pub const REPLY_PAUSE_SECS: u64 = 5;

/// How a post cycle begins.
pub enum PostStart {
    /// Today's quota is used up: skip, nothing is sent.
    QuotaExhausted,
    /// The generated text failed the content filter: skip.
    ContentRejected,
    /// Send this text, starting with attempt 1.
    Send { text: String },
}

/// Starts a post cycle on `today` with a generated `tweet`: the quota is
/// asked first, then the filter.
pub fn begin_post_cycle_on(tracker: &mut PostTracker, today: i32, tweet: String) -> (r: PostStart)
    ensures
        *final(tracker) == old(tracker).after_try(today).0,
        !old(tracker).after_try(today).1 ==> r is QuotaExhausted,
        old(tracker).after_try(today).1 && !spec_is_safe(tweet@) ==> r is ContentRejected,
        old(tracker).after_try(today).1 && spec_is_safe(tweet@) ==> r == (PostStart::Send { text: tweet }),
{
    if !tracker.try_post_on(today) {
        return PostStart::QuotaExhausted;
    }
    match ContentFilter::validate(tweet) {
        Some(text) => PostStart::Send { text },
        None => PostStart::ContentRejected,
    }
}

/// Starts a post cycle now: asks the quota by today's UTC date, and only
/// when it grants a post generates and filters one.
pub fn begin_post_cycle(tracker: &mut PostTracker, config: &BotConfig) -> (r: PostStart)
    ensures
        exists|today: i32| *final(tracker) == #[trigger] old(tracker).after_try(today).0 && (
        old(tracker).after_try(today).1 <==> !(r is QuotaExhausted)),
        r matches PostStart::Send { text } ==> spec_is_safe(text@) && exists|t: Seq<char>|
            #[trigger] may_generate(*config, t) && text@ == signed(t, config.bot_username@),
        r is ContentRejected ==> exists|t: Seq<char>|
            #[trigger] may_generate(*config, t) && !spec_is_safe(signed(t, config.bot_username@)),
{
    let ghost t0 = *tracker;
    let today = crate::clock::utc_day_now();
    if !tracker.try_post_on(today) {
        assert(*tracker == t0.after_try(today).0 && !t0.after_try(today).1);
        return PostStart::QuotaExhausted;
    }
    assert(*tracker == t0.after_try(today).0 && t0.after_try(today).1);
    let tweet = TweetGenerator::create_tweet(config);
    match ContentFilter::validate(tweet) {
        Some(text) => PostStart::Send { text },
        None => PostStart::ContentRejected,
    }
}

/// What to do after one attempt at sending a post.
pub enum SendStep {
    /// The post was created with this id.
    Posted { post_id: String },
    /// Wait, then make attempt `next_attempt`.
    Retry { wait_secs: u64, next_attempt: u32 },
    /// Stop; the cycle fails with this error.
    GiveUp { error: ApiError },
}

/// `2^n`.
pub open spec fn pow2(n: nat) -> nat
    decreases n,
{
    if n == 0 {
        1
    } else {
        2 * pow2((n - 1) as nat)
    }
}

/// The step after attempt `attempt` had `outcome`: retryable failures are
/// tried again, up to the attempt limit, after `2^attempt` seconds.
pub open spec fn send_step(attempt: u32, outcome: Result<TweetResponse, ApiError>) -> SendStep {
    match outcome {
        Ok(resp) => SendStep::Posted { post_id: resp.data.id },
        Err(e) => if e.spec_is_retryable() && attempt < MAX_SEND_ATTEMPTS {
            SendStep::Retry { wait_secs: pow2(attempt as nat) as u64, next_attempt: (attempt + 1) as u32 }
        } else {
            SendStep::GiveUp { error: e }
        },
    }
}

/// Seconds to wait before the attempt after `attempt`.
fn backoff_secs(attempt: u32) -> (r: u64)
    requires
        attempt < MAX_SEND_ATTEMPTS,
    ensures
        r == pow2(attempt as nat),
{
    let mut r: u64 = 1;
    let mut k: u32 = 0;
    proof {
        reveal_with_fuel(pow2, 3);
    }
    while k < attempt
        invariant
            k <= attempt < MAX_SEND_ATTEMPTS,
            r == pow2(k as nat),
            r <= 4,
            k == 0 ==> r == 1,
            k == 1 ==> r == 2,
        decreases attempt - k,
    {
        proof {
            reveal_with_fuel(pow2, 3);
        }
        r = r * 2;
        k = k + 1;
    }
    r
}

/// Decides what follows attempt `attempt` of sending a post.
pub fn after_send(attempt: u32, outcome: Result<TweetResponse, ApiError>) -> (r: SendStep)
    requires
        1 <= attempt <= MAX_SEND_ATTEMPTS,
    ensures
        r == send_step(attempt, outcome),
{
    match outcome {
        Ok(resp) => SendStep::Posted { post_id: resp.data.id },
        Err(e) => if e.is_retryable() && attempt < MAX_SEND_ATTEMPTS {
            SendStep::Retry { wait_secs: backoff_secs(attempt), next_attempt: attempt + 1 }
        } else {
            SendStep::GiveUp { error: e }
        },
    }
}

/// The steps that a run of attempts with these outcomes goes through,
/// starting at attempt `attempt`; it ends at the first step that is not a
/// retry.
pub open spec fn send_trace(attempt: u32, outcomes: Seq<Result<TweetResponse, ApiError>>) -> Seq<SendStep>
    decreases outcomes.len(),
{
    if outcomes.len() == 0 {
        seq![]
    } else {
        let step = send_step(attempt, outcomes[0]);
        match step {
            SendStep::Retry { wait_secs, next_attempt } => seq![step] + send_trace(next_attempt, outcomes.drop_first()),
            _ => seq![step],
        }
    }
}

/// Sends that fail with retryable errors and then succeed, all within the
/// attempt limit, end in success, after one wait of `2^a` seconds for each
/// failed attempt `a`: with two failures from attempt 1, waits of 2 and 4
/// seconds.
pub proof fn lemma_retries_then_success(attempt: u32, errors: Seq<ApiError>, resp: TweetResponse)
    requires
        1 <= attempt,
        attempt + errors.len() <= MAX_SEND_ATTEMPTS,
        forall|i: int| 0 <= i < errors.len() ==> (#[trigger] errors[i]).spec_is_retryable(),
    ensures
        send_trace(attempt, errors.map_values(|e: ApiError| Err::<TweetResponse, ApiError>(e)) + seq![Ok(resp)])
            == Seq::new(
            errors.len(),
            |i: int| SendStep::Retry { wait_secs: pow2((attempt + i) as nat) as u64, next_attempt: (attempt + i + 1) as u32 },
        ) + seq![SendStep::Posted { post_id: resp.data.id }],
    decreases errors.len(),
{
    let outcomes = errors.map_values(|e: ApiError| Err::<TweetResponse, ApiError>(e)) + seq![Ok(resp)];
    if errors.len() == 0 {
        assert(outcomes =~= seq![Ok(resp)]);
        assert(Seq::new(
            errors.len(),
            |i: int| SendStep::Retry { wait_secs: pow2((attempt + i) as nat) as u64, next_attempt: (attempt + i + 1) as u32 },
        ) + seq![SendStep::Posted { post_id: resp.data.id }] =~= seq![SendStep::Posted { post_id: resp.data.id }]);
    } else {
        let rest = errors.drop_first();
        let next = (attempt + 1) as u32;
        assert(errors[0].spec_is_retryable());
        assert forall|i: int| 0 <= i < rest.len() implies (#[trigger] rest[i]).spec_is_retryable() by {
            assert(rest[i] == errors[i + 1]);
        }
        lemma_retries_then_success(next, rest, resp);
        assert(outcomes.drop_first() =~= rest.map_values(|e: ApiError| Err::<TweetResponse, ApiError>(e)) + seq![Ok(resp)]);
        assert(outcomes[0] == Err::<TweetResponse, ApiError>(errors[0]));
        let tail = Seq::new(
            rest.len(),
            |i: int| SendStep::Retry { wait_secs: pow2((next + i) as nat) as u64, next_attempt: (next + i + 1) as u32 },
        ) + seq![SendStep::Posted { post_id: resp.data.id }];
        let first = SendStep::Retry { wait_secs: pow2(attempt as nat) as u64, next_attempt: next };
        assert(seq![first] + tail =~= Seq::new(
            errors.len(),
            |i: int| SendStep::Retry { wait_secs: pow2((attempt + i) as nat) as u64, next_attempt: (attempt + i + 1) as u32 },
        ) + seq![SendStep::Posted { post_id: resp.data.id }]);
    }
}

/// With a daily limit of one, the first post cycle of a day is granted and
/// a second one the same day finds the quota used up, so it sends nothing.
pub proof fn lemma_one_post_per_day(t: PostTracker, today: i32)
    requires
        t.max_per_day == 1,
        today != t.day || t.count == 0,
    ensures
        t.after_try(today).1,
        !t.after_try(today).0.after_try(today).1,
{
}

/// A reply that the mention cycle will send.
pub struct PlannedReply {
    pub mention_id: String,
    pub text: String,
}

/// The views of planned replies: mention id and text.
pub open spec fn planned_view(v: Seq<PlannedReply>) -> Seq<(Seq<char>, Seq<char>)> {
    v.map_values(|p: PlannedReply| (p.mention_id@, p.text@))
}

/// The replies for a page of mentions (newest first), oldest mention
/// first: each mention with a reply that passes the filter.
pub open spec fn reply_plan(data: Seq<MentionData>, kb: Seq<(Seq<char>, Seq<char>)>, rules: Seq<crate::reasoning::Rule>) -> Seq<(Seq<char>, Seq<char>)>
    decreases data.len(),
{
    if data.len() == 0 {
        seq![]
    } else {
        let rest = reply_plan(data.drop_first(), kb, rules);
        match reply_for(data[0].text@, kb, rules) {
            Some(t) => if spec_is_safe(t) {
                rest.push((data[0].id@, t))
            } else {
                rest
            },
            None => rest,
        }
    }
}

/// Handles a fetched page of mentions: moves the cursor past it first, then
/// plans the replies, oldest mention first. A crash while replying then
/// skips the rest of the page; to move the cursor only after the replies,
/// call `plan_replies` and, afterwards, `MentionTracker::record_page`.
pub fn begin_mention_cycle(
    tracker: &mut MentionTracker,
    page: &MentionsResponse,
    beliefs: &KnowledgeBase,
    engine: &ReasoningEngine,
) -> (r: Vec<PlannedReply>)
    ensures
        final(tracker).last_seen_id == cursor_after(old(tracker).last_seen_id, *page),
        planned_view(r@) == reply_plan(page.data@, beliefs.view(), engine.rules@),
{
    tracker.record_page(page);
    plan_replies(page, beliefs, engine)
}

/// The replies for a page of mentions, oldest mention first; the cursor is
/// left to the caller.
pub fn plan_replies(page: &MentionsResponse, beliefs: &KnowledgeBase, engine: &ReasoningEngine) -> (r: Vec<
    PlannedReply,
>)
    ensures
        planned_view(r@) == reply_plan(page.data@, beliefs.view(), engine.rules@),
{
    let ghost data = page.data@;
    let ghost kb = beliefs.view();
    let ghost rules = engine.rules@;
    let mut plan: Vec<PlannedReply> = Vec::new();
    let mut i: usize = page.data.len();
    assert(data.subrange(i as int, data.len() as int) =~= Seq::<MentionData>::empty());
    while i > 0
        invariant
            data == page.data@,
            kb == beliefs.view(),
            rules == engine.rules@,
            i <= data.len(),
            planned_view(plan@) == reply_plan(data.subrange(i as int, data.len() as int), kb, rules),
        decreases i,
    {
        let mention = &page.data[i - 1];
        let ghost sub = data.subrange(i - 1, data.len() as int);
        assert(sub.drop_first() =~= data.subrange(i as int, data.len() as int));
        assert(sub[0] == *mention);
        let ghost prev = plan@;
        match generate_response(mention.text.as_str(), beliefs, engine) {
            Some(reply_text) => {
                match ContentFilter::validate(reply_text) {
                    Some(text) => {
                        plan.push(PlannedReply { mention_id: owned(mention.id.as_str()), text });
                        assert(planned_view(plan@) =~= planned_view(prev).push((mention.id@, plan@.last().text@)));
                    },
                    None => {},
                }
            },
            None => {},
        }
        i = i - 1;
    }
    assert(data.subrange(0, data.len() as int) =~= data);
    plan
}

} // verus!
