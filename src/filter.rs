//! The content filter: every post and reply passes it before it is sent.

use vstd::prelude::*;
use crate::text::{byte_len, chars_of, contains_chars, is_white_space, is_whitespace, lower_of, occurs_in, to_lower, utf8_len};

verus! {

/// Longest post the network accepts, in bytes.
pub const MAX_TWEET_LENGTH: usize = 280;

/// Phrases that must not appear in a post, compared in lower case.
pub open spec fn blocked_phrases() -> Seq<Seq<char>> {
    seq![
        "guaranteed returns"@,
        "get rich quick"@,
        "send me crypto"@,
        "free money"@,
        "100x guaranteed"@,
        "not financial advice but buy"@,
        "pump and dump"@,
        "investment advice"@,
        "guaranteed profit"@,
        "securities"@,
        "insider info"@,
    ]
}

/// Whether a text may be posted: it holds no blocked phrase (ignoring
/// case), fits the length limit, and is not blank.
pub open spec fn spec_is_safe(t: Seq<char>) -> bool {
    &&& forall|i: int| 0 <= i < blocked_phrases().len() ==> !occurs_in(lower_of(t), #[trigger] blocked_phrases()[i])
    &&& byte_len(t) <= MAX_TWEET_LENGTH
    &&& exists|i: int| 0 <= i < t.len() && !is_white_space(#[trigger] t[i])
}

/// The filter's operations.
pub struct ContentFilter;

impl ContentFilter {
    /// The blocked phrases, in lower case.
    pub fn blocked_terms() -> (r: Vec<&'static str>)
        ensures
            r@.len() == blocked_phrases().len(),
            forall|i: int| 0 <= i < r@.len() ==> (#[trigger] r@[i])@ == blocked_phrases()[i],
    {
        vec![
            "guaranteed returns",
            "get rich quick",
            "send me crypto",
            "free money",
            "100x guaranteed",
            "not financial advice but buy",
            "pump and dump",
            "investment advice",
            "guaranteed profit",
            "securities",
            "insider info",
        ]
    }

    /// Whether `tweet` may be posted.
    pub fn is_safe(tweet: &str) -> (r: bool)
        ensures
            r == spec_is_safe(tweet@),
    {
        let lowercase = to_lower(tweet);
        let hay = chars_of(lowercase.as_str());
        let terms = Self::blocked_terms();
        let mut i: usize = 0;
        while i < terms.len()
            invariant
                hay@ == lower_of(tweet@),
                terms@.len() == blocked_phrases().len(),
                forall|k: int| 0 <= k < terms@.len() ==> (#[trigger] terms@[k])@ == blocked_phrases()[k],
                i <= terms@.len(),
                forall|k: int| 0 <= k < i ==> !occurs_in(lower_of(tweet@), #[trigger] blocked_phrases()[k]),
            decreases terms@.len() - i,
        {
            let needle = chars_of(terms[i]);
            if contains_chars(&hay, &needle) {
                return false;
            }
            i = i + 1;
        }
        if utf8_len(tweet) > MAX_TWEET_LENGTH {
            return false;
        }
        let cs = chars_of(tweet);
        let mut j: usize = 0;
        while j < cs.len()
            invariant
                cs@ == tweet@,
                j <= cs@.len(),
                byte_len(tweet@) <= MAX_TWEET_LENGTH,
                forall|k: int| 0 <= k < blocked_phrases().len() ==> !occurs_in(lower_of(tweet@), #[trigger] blocked_phrases()[k]),
                forall|k: int| 0 <= k < j ==> is_white_space(#[trigger] cs@[k]),
            decreases cs@.len() - j,
        {
            if !is_whitespace(cs[j]) {
                assert(!is_white_space(tweet@[j as int]));
                return true;
            }
            j = j + 1;
        }
        false
    }

    /// Passes a safe tweet through, and refuses any other.
    pub fn validate(tweet: String) -> (r: Option<String>)
        ensures
            spec_is_safe(tweet@) ==> r == Some(tweet),
            !spec_is_safe(tweet@) ==> r is None,
    {
        if Self::is_safe(tweet.as_str()) {
            Some(tweet)
        } else {
            None
        }
    }
}

} // verus!
