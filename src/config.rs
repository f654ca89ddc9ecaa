//! Bot settings: defaults, parsing, validation and what they imply.

use vstd::prelude::*;
use crate::oauth::{decimal, push_decimal};
use crate::text::{chars_of, lower_of, owned, push_str_chars, str_eq, string_of, to_lower};

verus! {

/// The bot's settings.
pub struct BotConfig {
    pub bot_username: String,
    pub post_interval_hours: u64,
    pub max_posts_per_day: u32,
    pub enable_crypto: bool,
    pub enable_meme: bool,
    pub enable_ai: bool,
    pub enable_agentropic: bool,
}

/// A kind of post content.
#[derive(Clone, Copy, Debug, PartialEq, Eq, Structural)]
pub enum ContentCategory {
    AI,
    Agentropic,
    Crypto,
    Meme,
}

/// Why settings were refused.
#[derive(Debug, PartialEq, Eq)]
pub enum ConfigError {
    /// A numeric setting is not an unsigned decimal number in range.
    InvalidNumber { setting: String },
    /// The post interval is zero hours.
    ZeroPostInterval,
    /// The daily post limit is zero.
    ZeroMaxPosts,
    /// Every content category is disabled.
    NoContentEnabled,
}

/// Whether `c` is an ASCII decimal digit.
pub open spec fn is_digit(c: char) -> bool {
    '0' <= c && c <= '9'
}

/// Whether every character of `s` is a decimal digit.
pub open spec fn all_digits(s: Seq<char>) -> bool {
    forall|i: int| 0 <= i < s.len() ==> is_digit(#[trigger] s[i])
}

/// The value of a string of decimal digits.
pub open spec fn digits_value(s: Seq<char>) -> nat
    decreases s.len(),
{
    if s.len() == 0 {
        0
    } else {
        digits_value(s.drop_last()) * 10 + (s.last() as nat - '0' as nat) as nat
    }
}

/// `s` without one leading `+`.
pub open spec fn sign_dropped(s: Seq<char>) -> Seq<char> {
    if s.len() > 0 && s[0] == '+' {
        s.drop_first()
    } else {
        s
    }
}

/// The number an unsigned decimal text denotes: an optional `+`, then one
/// or more digits.
pub open spec fn unsigned_value(s: Seq<char>) -> Option<nat> {
    let d = sign_dropped(s);
    if d.len() > 0 && all_digits(d) {
        Some(digits_value(d))
    } else {
        None
    }
}

/// `unsigned_value`, when it fits below `max`.
pub open spec fn parsed_within(s: Seq<char>, max: nat) -> Option<nat> {
    match unsigned_value(s) {
        Some(v) => if v <= max {
            Some(v)
        } else {
            None
        },
        None => None,
    }
}

proof fn lemma_digits_value_grows(s: Seq<char>, i: int)
    requires
        0 <= i <= s.len(),
        forall|k: int| 0 <= k < s.len() ==> is_digit(#[trigger] s[k]),
    ensures
        digits_value(s.take(i)) <= digits_value(s),
    decreases s.len() - i,
{
    if i < s.len() {
        lemma_digits_value_grows(s, i + 1);
        assert(s.take(i + 1).drop_last() =~= s.take(i));
    } else {
        assert(s.take(i) =~= s);
    }
}

/// Parses an unsigned decimal number no greater than `max`.
pub fn parse_unsigned(s: &str, max: u64) -> (r: Option<u64>)
    ensures
        r matches Some(v) ==> parsed_within(s@, max as nat) == Some(v as nat),
        r is None ==> parsed_within(s@, max as nat) is None,
{
    let cs = chars_of(s);
    let start: usize = if cs.len() > 0 && cs[0] == '+' {
        1
    } else {
        0
    };
    let ghost d = sign_dropped(s@);
    assert(d =~= s@.skip(start as int));
    if start >= cs.len() {
        return None;
    }
    let mut value: u64 = 0;
    let mut i: usize = start;
    assert(d.take(0) =~= Seq::<char>::empty());
    while i < cs.len()
        invariant
            cs@ == s@,
            start <= i <= cs@.len(),
            d == s@.skip(start as int),
            d == sign_dropped(s@),
            value == digits_value(d.take(i - start)),
            value <= max,
            forall|k: int| 0 <= k < i - start ==> is_digit(#[trigger] d[k]),
        decreases cs@.len() - i,
    {
        let c = cs[i];
        let ghost k: int = i - start;
        assert(d[k] == c);
        assert(d.len() > 0);
        if !('0' <= c && c <= '9') {
            assert(!is_digit(d[k]));
            assert(!all_digits(d));
            return None;
        }
        let digit = (c as u32 - '0' as u32) as u64;
        assert(d.take(k + 1).drop_last() =~= d.take(k));
        assert(d.take(k + 1).last() == c);
        assert(digits_value(d.take(k + 1)) == value * 10 + digit);
        if digit > max || value > (max - digit) / 10 {
            proof {
                if digit <= max {
                    let q = (max - digit) / 10;
                    assert(max - digit < 10 * q + 10);
                    assert(value * 10 >= 10 * q + 10) by (nonlinear_arith)
                        requires value >= q + 1;
                }
                assert(digits_value(d.take(k + 1)) > max);
                if all_digits(d) {
                    lemma_digits_value_grows(d, k + 1);
                }
            }
            return None;
        }
        proof {
            let q = (max - digit) / 10;
            assert(10 * q <= max - digit);
            assert(value * 10 <= 10 * q) by (nonlinear_arith)
                requires value <= q;
        }
        value = value * 10 + digit;
        i = i + 1;
    }
    assert(d.take(i - start) =~= d);
    Some(value)
}

/// Whether a flag's text turns it on: `true`, in any case.
pub open spec fn flag_on(s: Seq<char>) -> bool {
    lower_of(s) == "true"@
}

/// Whether a flag's text turns it on (see `flag_on`).
pub fn parse_flag(s: &str) -> (r: bool)
    ensures
        r == flag_on(s@),
{
    let lower = to_lower(s);
    str_eq(lower.as_str(), "true")
}

/// The categories switched on, in the order AI, Agentropic, Crypto, Meme.
pub open spec fn enabled_categories(c: BotConfig) -> Seq<ContentCategory> {
    (if c.enable_ai {
        seq![ContentCategory::AI]
    } else {
        seq![]
    }) + (if c.enable_agentropic {
        seq![ContentCategory::Agentropic]
    } else {
        seq![]
    }) + (if c.enable_crypto {
        seq![ContentCategory::Crypto]
    } else {
        seq![]
    }) + (if c.enable_meme {
        seq![ContentCategory::Meme]
    } else {
        seq![]
    })
}

impl BotConfig {
    /// Settings from their texts, each absent one taking its default: user
    /// name `agentropic`, every 6 hours, 4 posts a day, every category on.
    pub fn from_settings(
        bot_username: Option<String>,
        post_interval_hours: Option<String>,
        max_posts_per_day: Option<String>,
        enable_crypto: Option<String>,
        enable_meme: Option<String>,
        enable_ai: Option<String>,
        enable_agentropic: Option<String>,
    ) -> (r: Result<BotConfig, ConfigError>)
        ensures
            ({
                let interval = match post_interval_hours {
                    Some(t) => parsed_within(t@, u64::MAX as nat),
                    None => Some(6nat),
                };
                let max = match max_posts_per_day {
                    Some(t) => parsed_within(t@, u32::MAX as nat),
                    None => Some(4nat),
                };
                &&& (interval is Some && max is Some) <==> r is Ok
                &&& r matches Ok(c) ==> {
                    &&& c.bot_username@ == (match bot_username {
                        Some(u) => u@,
                        None => "agentropic"@,
                    })
                    &&& c.post_interval_hours == interval->Some_0
                    &&& c.max_posts_per_day == max->Some_0
                    &&& c.enable_crypto == (enable_crypto matches Some(t) ==> flag_on(t@))
                    &&& c.enable_meme == (enable_meme matches Some(t) ==> flag_on(t@))
                    &&& c.enable_ai == (enable_ai matches Some(t) ==> flag_on(t@))
                    &&& c.enable_agentropic == (enable_agentropic matches Some(t) ==> flag_on(t@))
                }
            }),
    {
        let interval = match &post_interval_hours {
            Some(t) => match parse_unsigned(t.as_str(), u64::MAX) {
                Some(v) => v,
                None => {
                    return Err(ConfigError::InvalidNumber { setting: owned("POST_INTERVAL_HOURS") });
                },
            },
            None => 6,
        };
        let max = match &max_posts_per_day {
            Some(t) => match parse_unsigned(t.as_str(), 0xFFFF_FFFF) {
                Some(v) => v as u32,
                None => {
                    return Err(ConfigError::InvalidNumber { setting: owned("MAX_POSTS_PER_DAY") });
                },
            },
            None => 4,
        };
        let username = match bot_username {
            Some(u) => u,
            None => owned("agentropic"),
        };
        let crypto = match &enable_crypto {
            Some(t) => parse_flag(t.as_str()),
            None => true,
        };
        let meme = match &enable_meme {
            Some(t) => parse_flag(t.as_str()),
            None => true,
        };
        let ai = match &enable_ai {
            Some(t) => parse_flag(t.as_str()),
            None => true,
        };
        let agentropic = match &enable_agentropic {
            Some(t) => parse_flag(t.as_str()),
            None => true,
        };
        Ok(
            BotConfig {
                bot_username: username,
                post_interval_hours: interval,
                max_posts_per_day: max,
                enable_crypto: crypto,
                enable_meme: meme,
                enable_ai: ai,
                enable_agentropic: agentropic,
            },
        )
    }

    /// The posting schedule as a cron expression: at the top of every
    /// `post_interval_hours`-th hour.
    pub fn get_cron_expression(&self) -> (r: String)
        ensures
            r@ == "0 0 */"@ + decimal(self.post_interval_hours as nat) + " * * *"@,
    {
        let mut out: Vec<char> = Vec::new();
        push_str_chars(&mut out, "0 0 */");
        push_decimal(&mut out, self.post_interval_hours);
        push_str_chars(&mut out, " * * *");
        string_of(out.as_slice())
    }

    /// Accepts settings with a positive interval, a positive daily limit
    /// and at least one content category.
    pub fn validate(&self) -> (r: Result<(), ConfigError>)
        ensures
            self.post_interval_hours == 0 ==> r == Err::<(), ConfigError>(ConfigError::ZeroPostInterval),
            self.post_interval_hours > 0 && self.max_posts_per_day == 0 ==> r == Err::<(), ConfigError>(
                ConfigError::ZeroMaxPosts,
            ),
            self.post_interval_hours > 0 && self.max_posts_per_day > 0 && !self.enable_crypto
                && !self.enable_meme && !self.enable_ai && !self.enable_agentropic ==> r == Err::<
                (),
                ConfigError,
            >(ConfigError::NoContentEnabled),
            r is Ok <==> (self.post_interval_hours > 0 && self.max_posts_per_day > 0 && (
            self.enable_crypto || self.enable_meme || self.enable_ai || self.enable_agentropic)),
    {
        if self.post_interval_hours == 0 {
            return Err(ConfigError::ZeroPostInterval);
        }
        if self.max_posts_per_day == 0 {
            return Err(ConfigError::ZeroMaxPosts);
        }
        if !self.enable_crypto && !self.enable_meme && !self.enable_ai && !self.enable_agentropic {
            return Err(ConfigError::NoContentEnabled);
        }
        Ok(())
    }

    /// The enabled categories, in the order AI, Agentropic, Crypto, Meme.
    pub fn get_enabled_categories(&self) -> (r: Vec<ContentCategory>)
        ensures
            r@ == enabled_categories(*self),
    {
        let mut categories: Vec<ContentCategory> = Vec::new();
        if self.enable_ai {
            categories.push(ContentCategory::AI);
        }
        if self.enable_agentropic {
            categories.push(ContentCategory::Agentropic);
        }
        if self.enable_crypto {
            categories.push(ContentCategory::Crypto);
        }
        if self.enable_meme {
            categories.push(ContentCategory::Meme);
        }
        assert(categories@ =~= enabled_categories(*self));
        categories
    }
}

} // verus!
