use agentropic_bot::templates::TweetTemplates;

/// Verify every template fits within 250 chars (leaves room for signature)
#[test]
fn test_all_templates_under_limit() {
    let max_len = 250;
    let all_templates: Vec<(&str, Vec<&str>)> = vec![
        ("ai", TweetTemplates::ai_templates()),
        ("agentropic", TweetTemplates::agentropic_templates()),
        ("crypto", TweetTemplates::crypto_ai_templates()),
        ("meme", TweetTemplates::meme_ai_templates()),
        ("general", TweetTemplates::general_bull_templates()),
    ];

    for (category, templates) in all_templates {
        for (i, template) in templates.iter().enumerate() {
            assert!(
                template.len() <= max_len,
                "Template {}[{}] is {} chars (max {}): {:?}",
                category,
                i,
                template.len(),
                max_len,
                &template[..50.min(template.len())]
            );
        }
    }
}

#[test]
fn random_picks_come_from_their_pools() {
    assert!(TweetTemplates::ai_templates().contains(&TweetTemplates::random_ai_tweet().as_str()));
    assert!(TweetTemplates::agentropic_templates().contains(&TweetTemplates::random_agentropic_tweet().as_str()));
    assert!(TweetTemplates::crypto_ai_templates().contains(&TweetTemplates::random_crypto_tweet().as_str()));
    assert!(TweetTemplates::meme_ai_templates().contains(&TweetTemplates::random_meme_tweet().as_str()));
    assert!(TweetTemplates::general_bull_templates().contains(&TweetTemplates::random_bull_tweet().as_str()));
}
