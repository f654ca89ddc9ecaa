use agentropic_bot::filter::ContentFilter;

#[test]
fn test_safe_tweet() {
    let tweet = "AI agents are the future!";
    assert!(ContentFilter::is_safe(tweet));
}

#[test]
fn test_too_long() {
    let tweet = "a".repeat(300);
    assert!(!ContentFilter::is_safe(&tweet));
}

#[test]
fn test_empty() {
    assert!(!ContentFilter::is_safe(""));
    assert!(!ContentFilter::is_safe("   "));
}

#[test]
fn test_blocked_scam_terms() {
    assert!(!ContentFilter::is_safe("This is guaranteed returns on your investment"));
    assert!(!ContentFilter::is_safe("FREE MONEY just send me crypto"));
    assert!(!ContentFilter::is_safe("100x guaranteed gains"));
}

#[test]
fn test_blocked_regulatory_terms() {
    assert!(!ContentFilter::is_safe("Here's my investment advice"));
    assert!(!ContentFilter::is_safe("Guaranteed profit if you buy now"));
}

#[test]
fn test_exactly_280_chars() {
    let tweet = "a".repeat(280);
    assert!(ContentFilter::is_safe(&tweet));
}

#[test]
fn filter_counts_bytes_not_characters() {
    // 140 two-byte characters are 280 bytes; one more is too long.
    assert!(ContentFilter::is_safe(&"é".repeat(140)));
    assert!(!ContentFilter::is_safe(&"é".repeat(141)));
}

#[test]
fn filter_rejects_other_whitespace_only_text() {
    assert!(!ContentFilter::is_safe("\t\n \u{3000}"));
}

#[test]
fn validate_passes_safe_text_and_refuses_blocked_text() {
    assert_eq!(ContentFilter::validate("hello".to_string()), Some("hello".to_string()));
    assert_eq!(ContentFilter::validate("Pump and Dump now".to_string()), None);
}

#[test]
fn blocked_terms_are_lower_case() {
    let terms = ContentFilter::blocked_terms();
    assert_eq!(terms.len(), 11);
    for t in terms {
        assert_eq!(t, t.to_lowercase());
    }
}

#[test]
fn blank_means_unicode_white_space_only() {
    assert!(!ContentFilter::is_safe("\u{a0}\u{2009}\u{85}"));
    assert!(ContentFilter::is_safe("\u{200b}"));
}
