//! The mention cursor: the newest mention id seen, so that a poll asks only
//! for newer mentions.

use vstd::prelude::*;
use crate::api::MentionsResponse;

verus! {

/// The id of the newest mention seen, if any.
pub struct MentionTracker {
    pub last_seen_id: Option<String>,
}

/// The cursor after a fetched page: a non-empty page that names its newest
/// id moves the cursor there; otherwise it stays.
pub open spec fn cursor_after(old_id: Option<String>, page: MentionsResponse) -> Option<String> {
    if page.data@.len() > 0 && page.meta is Some && page.meta->Some_0.newest_id is Some {
        page.meta->Some_0.newest_id
    } else {
        old_id
    }
}

impl MentionTracker {
    /// No mention seen yet.
    pub fn new() -> (r: Self)
        ensures
            r.last_seen_id is None,
    {
        MentionTracker { last_seen_id: None }
    }

    /// The id to ask for newer mentions than.
    pub fn since_id(&self) -> (r: Option<String>)
        ensures
            r == self.last_seen_id,
    {
        self.last_seen_id.clone()
    }

    /// Moves the cursor past a fetched page, before its mentions are handled.
    pub fn record_page(&mut self, page: &MentionsResponse)
        ensures
            final(self).last_seen_id == cursor_after(old(self).last_seen_id, *page),
    {
        if page.data.len() == 0 {
            return;
        }
        match &page.meta {
            Some(meta) => match &meta.newest_id {
                Some(newest) => {
                    self.last_seen_id = Some(newest.clone());
                },
                None => {},
            },
            None => {},
        }
    }
}

} // verus!
