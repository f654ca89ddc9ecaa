//! The social network's REST API: endpoints, query parameters, the shapes
//! of its answers and its failures.

use vstd::prelude::*;
use crate::params::QueryParams;
use crate::text::{owned, push_str_chars, string_of};

verus! {

/// A created post, as the API returns it.
pub struct TweetResponse {
    pub data: TweetData,
}

/// Id and text of a post.
pub struct TweetData {
    pub id: String,
    pub text: String,
}

/// A page of mentions, newest first.
pub struct MentionsResponse {
    pub data: Vec<MentionData>,
    pub meta: Option<MentionsMeta>,
}

/// One mention of the account.
pub struct MentionData {
    pub id: String,
    pub text: String,
    pub author_id: String,
}

/// Paging facts of a page of mentions.
pub struct MentionsMeta {
    pub newest_id: Option<String>,
    pub result_count: u64,
}

/// Why a call to the API failed.
pub enum ApiError {
    /// The API answered with a status outside 200..=299.
    Remote { status: u16, body: String },
    /// The request did not complete (DNS, TLS, connection, timeout).
    Transport { message: String },
    /// The answer was not the JSON that was expected.
    Decode { message: String },
}

impl ApiError {
    /// Remote and transport failures may succeed when tried again.
    pub open spec fn spec_is_retryable(&self) -> bool {
        !(self is Decode)
    }

    /// Whether trying the call again may help.
    pub fn is_retryable(&self) -> (r: bool)
        ensures
            r == self.spec_is_retryable(),
    {
        !matches!(self, ApiError::Decode { .. })
    }
}

/// Maps an HTTP status to success, or to a remote failure with its body.
pub fn check_status(status: u16, body: String) -> (r: Result<(), ApiError>)
    ensures
        200 <= status <= 299 <==> r is Ok,
        !(200 <= status <= 299) ==> r == Err::<(), ApiError>(ApiError::Remote { status, body }),
{
    if 200 <= status && status <= 299 {
        Ok(())
    } else {
        Err(ApiError::Remote { status, body })
    }
}

/// Where posts and replies are created.
pub fn tweets_url() -> (r: String)
    ensures
        r@ == "https://api.x.com/2/tweets"@,
{
    owned("https://api.x.com/2/tweets")
}

/// Where the mentions of an account are listed.
pub fn mentions_url(user_id: &str) -> (r: String)
    ensures
        r@ == "https://api.x.com/2/users/"@ + user_id@ + "/mentions"@,
{
    let mut out: Vec<char> = Vec::new();
    push_str_chars(&mut out, "https://api.x.com/2/users/");
    push_str_chars(&mut out, user_id);
    push_str_chars(&mut out, "/mentions");
    string_of(out.as_slice())
}

/// Where an account is looked up by user name.
pub fn user_lookup_url(username: &str) -> (r: String)
    ensures
        r@ == "https://api.x.com/2/users/by/username/"@ + username@,
{
    let mut out: Vec<char> = Vec::new();
    push_str_chars(&mut out, "https://api.x.com/2/users/by/username/");
    push_str_chars(&mut out, username);
    string_of(out.as_slice())
}

/// The query of a mentions request: ten results, id, author and text, and
/// only mentions newer than `since_id` when one is given.
pub fn mentions_query(since_id: Option<&str>) -> (r: QueryParams)
    ensures
        r.wf(),
        r.map() == (match since_id {
            Some(id) => map!["max_results"@ => "10"@, "tweet.fields"@ => "author_id,text"@, "since_id"@ => id@],
            None => map!["max_results"@ => "10"@, "tweet.fields"@ => "author_id,text"@],
        }),
{
    let mut q = QueryParams::new();
    q.insert(owned("max_results"), owned("10"));
    q.insert(owned("tweet.fields"), owned("author_id,text"));
    match since_id {
        Some(id) => {
            q.insert(owned("since_id"), owned(id));
        },
        None => {},
    }
    proof {
        match since_id {
            Some(id) => {
                assert(q.map() =~= map!["max_results"@ => "10"@, "tweet.fields"@ => "author_id,text"@, "since_id"@ => id@]);
            },
            None => {
                assert(q.map() =~= map!["max_results"@ => "10"@, "tweet.fields"@ => "author_id,text"@]);
            },
        }
    }
    q
}

/// `base?query`, the query being the parameter string of `params`.
pub fn url_with_query(base: &str, params: &QueryParams) -> (r: String)
    requires
        params.wf(),
    ensures
        r@ == base@ + seq!['?'] + crate::params::param_string(params@),
{
    let query = params.param_string();
    let mut out: Vec<char> = Vec::new();
    push_str_chars(&mut out, base);
    out.push('?');
    push_str_chars(&mut out, query.as_str());
    string_of(out.as_slice())
}

} // verus!
