//! Post generation: a template from an enabled category, signed when the
//! signature still fits.

use vstd::prelude::*;
use crate::config::{enabled_categories, BotConfig, ContentCategory};
use crate::filter::MAX_TWEET_LENGTH;
use crate::templates::{
    agentropic_texts, ai_texts, crypto_ai_texts, general_bull_texts, meme_ai_texts, random_below, TweetTemplates,
};
use crate::text::{byte_len, push_str_chars, string_of, utf8_len};

verus! {

/// The template pool of a category.
pub open spec fn pool_of(c: ContentCategory) -> Seq<Seq<char>> {
    match c {
        ContentCategory::AI => ai_texts(),
        ContentCategory::Agentropic => agentropic_texts(),
        ContentCategory::Crypto => crypto_ai_texts(),
        ContentCategory::Meme => meme_ai_texts(),
    }
}

/// Whether `t` is a text that generation may give for `config`: a template
/// of an enabled category, or a general one when none is enabled.
pub open spec fn may_generate(config: BotConfig, t: Seq<char>) -> bool {
    let cats = enabled_categories(config);
    if cats.len() == 0 {
        general_bull_texts().contains(t)
    } else {
        exists|i: int| 0 <= i < cats.len() && #[trigger] pool_of(cats[i]).contains(t)
    }
}

/// `tweet` followed by the signature line, when that fits in a post;
/// otherwise `tweet` alone.
pub open spec fn signed(tweet: Seq<char>, username: Seq<char>) -> Seq<char> {
    let with_sig = tweet + "\n\n-- Auto-posted by "@ + username;
    if byte_len(with_sig) <= MAX_TWEET_LENGTH {
        with_sig
    } else {
        tweet
    }
}

/// Post generation.
pub struct TweetGenerator;

impl TweetGenerator {
    /// A random template of a randomly chosen enabled category.
    pub fn generate(config: &BotConfig) -> (r: String)
        ensures
            may_generate(*config, r@),
    {
        let enabled_categories = config.get_enabled_categories();
        if enabled_categories.len() == 0 {
            return TweetTemplates::random_bull_tweet();
        }
        let i = random_below(enabled_categories.len());
        let category = enabled_categories[i];
        let r = match category {
            ContentCategory::AI => TweetTemplates::random_ai_tweet(),
            ContentCategory::Agentropic => TweetTemplates::random_agentropic_tweet(),
            ContentCategory::Crypto => TweetTemplates::random_crypto_tweet(),
            ContentCategory::Meme => TweetTemplates::random_meme_tweet(),
        };
        assert(pool_of(enabled_categories@[i as int]).contains(r@));
        r
    }

    /// Appends the signature naming `username`, but only if the result
    /// fits within the post limit.
    pub fn add_signature(tweet: String, username: &str) -> (r: String)
        ensures
            r@ == signed(tweet@, username@),
    {
        let mut out: Vec<char> = Vec::new();
        push_str_chars(&mut out, tweet.as_str());
        push_str_chars(&mut out, "\n\n-- Auto-posted by ");
        push_str_chars(&mut out, username);
        let with_sig = string_of(out.as_slice());
        if utf8_len(with_sig.as_str()) <= MAX_TWEET_LENGTH {
            with_sig
        } else {
            tweet
        }
    }

    /// A generated post, signed as `add_signature` signs.
    pub fn create_tweet(config: &BotConfig) -> (r: String)
        ensures
            exists|t: Seq<char>| #[trigger] may_generate(*config, t) && r@ == signed(t, config.bot_username@),
    {
        let base_tweet = Self::generate(config);
        let ghost t = base_tweet@;
        let r = Self::add_signature(base_tweet, config.bot_username.as_str());
        assert(may_generate(*config, t));
        r
    }
}

} // verus!
