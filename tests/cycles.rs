use agentropic_bot::api::{check_status, ApiError, MentionData, MentionsMeta, MentionsResponse, TweetData, TweetResponse};
use agentropic_bot::config::{BotConfig, ConfigError, ContentCategory};
use agentropic_bot::cursor::MentionTracker;
use agentropic_bot::cycle::{after_send, begin_mention_cycle, plan_replies, begin_post_cycle, begin_post_cycle_on, PostStart, SendStep};
use agentropic_bot::knowledge::build_knowledge_base;
use agentropic_bot::quota::PostTracker;
use agentropic_bot::responder::build_reasoning_engine;

fn posted(id: &str) -> Result<TweetResponse, ApiError> {
    Ok(TweetResponse { data: TweetData { id: id.to_string(), text: "t".to_string() } })
}

fn transport() -> Result<TweetResponse, ApiError> {
    Err(ApiError::Transport { message: "timeout".to_string() })
}

fn mention(id: &str, text: &str) -> MentionData {
    MentionData { id: id.to_string(), text: text.to_string(), author_id: "7".to_string() }
}

fn config(max: u32) -> BotConfig {
    BotConfig {
        bot_username: "bot".to_string(),
        post_interval_hours: 6,
        max_posts_per_day: max,
        enable_crypto: true,
        enable_meme: true,
        enable_ai: true,
        enable_agentropic: true,
    }
}

#[test]
fn quota_allows_max_posts_per_day() {
    let mut t = PostTracker::starting_on(2, 738000);
    assert!(t.try_post_on(738000));
    assert!(t.try_post_on(738000));
    assert!(!t.try_post_on(738000));
    assert!(!t.try_post_on(738000));
    assert_eq!(t.count, 2);
}

#[test]
fn quota_resets_on_a_new_day() {
    let mut t = PostTracker::starting_on(1, 738000);
    assert!(t.try_post_on(738000));
    assert!(!t.try_post_on(738000));
    assert!(t.try_post_on(738001));
    assert_eq!((t.count, t.day), (1, 738001));
}

#[test]
fn quota_of_zero_grants_nothing() {
    let mut t = PostTracker::starting_on(0, 5);
    assert!(!t.try_post_on(5));
    assert!(!t.try_post_on(6));
}

#[test]
fn quota_against_the_clock() {
    let mut t = PostTracker::new(1);
    assert_eq!(t.count, 0);
    assert!(t.try_post());
    assert_eq!(t.count, 1);
}

#[test]
fn one_post_per_day_scenario() {
    let mut t = PostTracker::starting_on(1, 738000);
    let first = begin_post_cycle_on(&mut t, 738000, "Agents are coming.".to_string());
    assert!(matches!(first, PostStart::Send { ref text } if text == "Agents are coming."));
    let step = after_send(1, posted("1001"));
    assert!(matches!(step, SendStep::Posted { ref post_id } if post_id == "1001"));
    let second = begin_post_cycle_on(&mut t, 738000, "Agents are coming.".to_string());
    assert!(matches!(second, PostStart::QuotaExhausted));
}

#[test]
fn rejected_content_is_skipped_but_counted() {
    let mut t = PostTracker::starting_on(3, 10);
    let start = begin_post_cycle_on(&mut t, 10, "free money for all".to_string());
    assert!(matches!(start, PostStart::ContentRejected));
    assert_eq!(t.count, 1);
}

#[test]
fn post_cycle_with_a_real_config() {
    let mut t = PostTracker::new(1);
    let start = begin_post_cycle(&mut t, &config(1));
    assert!(matches!(start, PostStart::Send { .. }));
    assert!(matches!(begin_post_cycle(&mut t, &config(1)), PostStart::QuotaExhausted));
}

#[test]
fn two_failures_then_success_waits_two_then_four_seconds() {
    let mut waits = Vec::new();
    let outcomes = vec![transport(), Err(ApiError::Remote { status: 503, body: "busy".to_string() }), posted("77")];
    let mut attempt = 1;
    let mut result = None;
    for outcome in outcomes {
        match after_send(attempt, outcome) {
            SendStep::Retry { wait_secs, next_attempt } => {
                waits.push(wait_secs);
                attempt = next_attempt;
            }
            SendStep::Posted { post_id } => {
                result = Some(post_id);
                break;
            }
            SendStep::GiveUp { .. } => panic!("gave up early"),
        }
    }
    assert_eq!(waits, vec![2, 4]);
    assert_eq!(result, Some("77".to_string()));
}

#[test]
fn third_failure_gives_up_with_its_error() {
    let step = after_send(3, Err(ApiError::Remote { status: 500, body: "oops".to_string() }));
    assert!(matches!(step, SendStep::GiveUp { error: ApiError::Remote { status: 500, .. } }));
}

#[test]
fn decode_failures_are_not_retried() {
    let step = after_send(1, Err(ApiError::Decode { message: "bad json".to_string() }));
    assert!(matches!(step, SendStep::GiveUp { error: ApiError::Decode { .. } }));
    assert!(!ApiError::Decode { message: String::new() }.is_retryable());
    assert!(ApiError::Transport { message: String::new() }.is_retryable());
}

#[test]
fn status_codes_map_to_remote_errors() {
    assert!(check_status(200, String::new()).is_ok());
    assert!(check_status(299, String::new()).is_ok());
    assert!(matches!(
        check_status(429, "slow down".to_string()),
        Err(ApiError::Remote { status: 429, ref body }) if body == "slow down"
    ));
    assert!(check_status(199, String::new()).is_err());
    assert!(check_status(300, String::new()).is_err());
}

#[test]
fn mention_cycle_moves_the_cursor_and_replies_oldest_first() {
    let beliefs = build_knowledge_base();
    let engine = build_reasoning_engine();
    let mut tracker = MentionTracker::new();
    assert_eq!(tracker.since_id(), None);
    let page = MentionsResponse {
        data: vec![mention("30", "@agentropic what about BDI?"), mention("20", "@agentropic swarm behavior?")],
        meta: Some(MentionsMeta { newest_id: Some("30".to_string()), result_count: 2 }),
    };
    let plan = begin_mention_cycle(&mut tracker, &page, &beliefs, &engine);
    assert_eq!(tracker.since_id(), Some("30".to_string()));
    let ids: Vec<&str> = plan.iter().map(|p| p.mention_id.as_str()).collect();
    assert_eq!(ids, vec!["20", "30"]);
    assert!(plan[0].text.starts_with("Swarm pattern"));
    assert!(plan.iter().all(|p| p.text.len() <= 280));
}

#[test]
fn empty_page_keeps_the_cursor() {
    let beliefs = build_knowledge_base();
    let engine = build_reasoning_engine();
    let mut tracker = MentionTracker { last_seen_id: Some("5".to_string()) };
    let page = MentionsResponse {
        data: vec![],
        meta: Some(MentionsMeta { newest_id: Some("9".to_string()), result_count: 0 }),
    };
    let plan = begin_mention_cycle(&mut tracker, &page, &beliefs, &engine);
    assert!(plan.is_empty());
    assert_eq!(tracker.last_seen_id, Some("5".to_string()));
}

#[test]
fn flags_turn_on_with_true_in_any_case() {
    assert!(agentropic_bot::config::parse_flag("TrUe"));
    assert!(!agentropic_bot::config::parse_flag("yes"));
    assert!(!agentropic_bot::config::parse_flag(" true"));
}

#[test]
fn config_validation_errors() {
    let mut c = config(4);
    assert_eq!(c.validate(), Ok(()));
    c.post_interval_hours = 0;
    assert_eq!(c.validate(), Err(ConfigError::ZeroPostInterval));
    c.post_interval_hours = 6;
    c.max_posts_per_day = 0;
    assert_eq!(c.validate(), Err(ConfigError::ZeroMaxPosts));
    c.max_posts_per_day = 4;
    c.enable_ai = false;
    c.enable_agentropic = false;
    c.enable_crypto = false;
    c.enable_meme = false;
    assert_eq!(c.validate(), Err(ConfigError::NoContentEnabled));
}

#[test]
fn cron_expression_and_categories() {
    let mut c = config(4);
    assert_eq!(c.get_cron_expression(), "0 0 */6 * * *");
    assert_eq!(
        c.get_enabled_categories(),
        vec![ContentCategory::AI, ContentCategory::Agentropic, ContentCategory::Crypto, ContentCategory::Meme]
    );
    c.enable_agentropic = false;
    c.enable_meme = false;
    assert_eq!(c.get_enabled_categories(), vec![ContentCategory::AI, ContentCategory::Crypto]);
}

#[test]
fn settings_defaults_and_parsing() {
    let c = BotConfig::from_settings(None, None, None, None, None, None, None).unwrap();
    assert_eq!(c.bot_username, "agentropic");
    assert_eq!((c.post_interval_hours, c.max_posts_per_day), (6, 4));
    assert!(c.enable_crypto && c.enable_meme && c.enable_ai && c.enable_agentropic);

    let c = BotConfig::from_settings(
        Some("mybot".to_string()),
        Some("+12".to_string()),
        Some("4294967295".to_string()),
        Some("TRUE".to_string()),
        Some("no".to_string()),
        Some("True".to_string()),
        Some("".to_string()),
    )
    .unwrap();
    assert_eq!(c.bot_username, "mybot");
    assert_eq!((c.post_interval_hours, c.max_posts_per_day), (12, u32::MAX));
    assert!(c.enable_crypto && !c.enable_meme && c.enable_ai && !c.enable_agentropic);
}

#[test]
fn settings_with_bad_numbers_are_refused() {
    let bad = |interval: &str, max: &str| {
        BotConfig::from_settings(None, Some(interval.to_string()), Some(max.to_string()), None, None, None, None)
    };
    assert_eq!(
        bad("six", "4").err(),
        Some(ConfigError::InvalidNumber { setting: "POST_INTERVAL_HOURS".to_string() })
    );
    assert_eq!(
        bad("6", "4294967296").err(),
        Some(ConfigError::InvalidNumber { setting: "MAX_POSTS_PER_DAY".to_string() })
    );
    assert!(bad("", "4").is_err());
    assert!(bad("+", "4").is_err());
    assert!(bad("-1", "4").is_err());
    assert!(bad("18446744073709551616", "4").is_err());
    assert_eq!(bad("18446744073709551615", "0").unwrap().post_interval_hours, u64::MAX);
}

#[test]
fn planning_alone_leaves_the_cursor_for_later() {
    let beliefs = build_knowledge_base();
    let engine = build_reasoning_engine();
    let mut tracker = MentionTracker::new();
    let page = MentionsResponse {
        data: vec![mention("41", "@agentropic why Rust?"), mention("40", "@agentropic show examples")],
        meta: Some(MentionsMeta { newest_id: Some("41".to_string()), result_count: 2 }),
    };
    let plan = plan_replies(&page, &beliefs, &engine);
    assert_eq!(tracker.since_id(), None);
    let ids: Vec<&str> = plan.iter().map(|p| p.mention_id.as_str()).collect();
    assert_eq!(ids, vec!["40", "41"]);
    tracker.record_page(&page);
    assert_eq!(tracker.since_id(), Some("41".to_string()));
}
