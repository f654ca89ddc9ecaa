use agentropic_bot::config::BotConfig;
use agentropic_bot::generator::TweetGenerator;
use agentropic_bot::templates::TweetTemplates;

fn test_config() -> BotConfig {
    BotConfig {
        bot_username: "test".to_string(),
        post_interval_hours: 6,
        max_posts_per_day: 4,
        enable_crypto: true,
        enable_meme: true,
        enable_ai: true,
        enable_agentropic: true,
    }
}

#[test]
fn test_generate_produces_content() {
    let config = test_config();
    let tweet = TweetGenerator::generate(&config);
    assert!(!tweet.is_empty());
}

#[test]
fn test_signature_respects_length() {
    let long_tweet = "a".repeat(270);
    let result = TweetGenerator::add_signature(long_tweet.clone(), "testbot");
    // Should skip signature since 270 + signature > 280
    assert_eq!(result, long_tweet);
}

#[test]
fn test_create_tweet_within_limit() {
    let config = test_config();
    let tweet = TweetGenerator::create_tweet(&config);
    assert!(tweet.len() <= 280);
}

#[test]
fn signature_is_added_when_it_fits() {
    let result = TweetGenerator::add_signature("gm".to_string(), "testbot");
    assert_eq!(result, "gm\n\n-- Auto-posted by testbot");
}

#[test]
fn generate_uses_only_enabled_categories() {
    let mut config = test_config();
    config.enable_ai = false;
    config.enable_agentropic = false;
    config.enable_crypto = false;
    let memes = TweetTemplates::meme_ai_templates();
    for _ in 0..20 {
        let tweet = TweetGenerator::generate(&config);
        assert!(memes.contains(&tweet.as_str()));
    }
}

#[test]
fn generate_falls_back_to_general_posts() {
    let mut config = test_config();
    config.enable_ai = false;
    config.enable_agentropic = false;
    config.enable_crypto = false;
    config.enable_meme = false;
    let general = TweetTemplates::general_bull_templates();
    let tweet = TweetGenerator::generate(&config);
    assert!(general.contains(&tweet.as_str()));
}

#[test]
fn create_tweet_is_a_signed_template() {
    let config = test_config();
    let tweet = TweetGenerator::create_tweet(&config);
    assert!(tweet.ends_with("\n\n-- Auto-posted by test"));
}
