//! The daily post quota.
//!
//! Days are calendar dates in UTC, held as day numbers. A call on a day
//! other than the stored one starts a new day with a count of zero.

use vstd::prelude::*;

verus! {

/// Posts made on `day`, out of at most `max_per_day`.
pub struct PostTracker {
    pub count: u32,
    pub day: i32,
    pub max_per_day: u32,
}

impl PostTracker {
    /// The count never exceeds the quota.
    pub open spec fn wf(&self) -> bool {
        self.count <= self.max_per_day
    }

    /// What one `try_post` on `today` leaves, and whether it granted a post.
    pub open spec fn after_try(self, today: i32) -> (PostTracker, bool) {
        let count = if today != self.day {
            0u32
        } else {
            self.count
        };
        if count >= self.max_per_day {
            (PostTracker { count, day: today, max_per_day: self.max_per_day }, false)
        } else {
            (PostTracker { count: (count + 1) as u32, day: today, max_per_day: self.max_per_day }, true)
        }
    }

    /// A tracker for `day` with nothing posted yet.
    pub fn starting_on(max_per_day: u32, day: i32) -> (r: Self)
        ensures
            r == (PostTracker { count: 0, day, max_per_day }),
            r.wf(),
    {
        PostTracker { count: 0, day, max_per_day }
    }

    /// A tracker for today's UTC date with nothing posted yet.
    pub fn new(max_per_day: u32) -> (r: Self)
        ensures
            r.count == 0,
            r.max_per_day == max_per_day,
            r.wf(),
    {
        Self::starting_on(max_per_day, crate::clock::utc_day_now())
    }

    /// Asks for one post on `today`: grants it and counts it when the
    /// day's quota has room, after starting a new day if the date changed.
    pub fn try_post_on(&mut self, today: i32) -> (r: bool)
        ensures
            (*final(self), r) == old(self).after_try(today),
            old(self).wf() ==> final(self).wf(),
    {
        if today != self.day {
            self.count = 0;
            self.day = today;
        }
        if self.count >= self.max_per_day {
            return false;
        }
        self.count = self.count + 1;
        true
    }

    /// Asks for one post now, by today's UTC date.
    pub fn try_post(&mut self) -> (r: bool)
        ensures
            exists|today: i32| (*final(self), r) == #[trigger] old(self).after_try(today),
            old(self).wf() ==> final(self).wf(),
    {
        let today = crate::clock::utc_day_now();
        self.try_post_on(today)
    }
}

/// How many posts a run of `try_post` calls, on the given days in turn, grants.
pub open spec fn granted(t: PostTracker, days: Seq<i32>) -> nat
    decreases days.len(),
{
    if days.len() == 0 {
        0
    } else {
        let (next, ok) = t.after_try(days[0]);
        (if ok {
            1nat
        } else {
            0nat
        }) + granted(next, days.drop_first())
    }
}

/// Within one calendar day, however many times `try_post` is called, at
/// most `max_per_day` calls succeed, counting those already made that day:
/// of `k` calls, exactly `min(k, room)` succeed, where `room` is what the
/// day's quota has left.
pub proof fn lemma_quota_within_day(t: PostTracker, day: i32, days: Seq<i32>)
    requires
        t.wf(),
        forall|i: int| 0 <= i < days.len() ==> days[i] == day,
    ensures
        ({
            let room = t.max_per_day - (if day == t.day {
                t.count
            } else {
                0
            });
            granted(t, days) == if days.len() <= room {
                days.len() as int
            } else {
                room
            }
        }),
        granted(t, days) <= t.max_per_day - (if day == t.day {
            t.count
        } else {
            0
        }),
        granted(t, days) <= t.max_per_day,
    decreases days.len(),
{
    if days.len() > 0 {
        let (next, ok) = t.after_try(days[0]);
        assert forall|i: int| 0 <= i < days.drop_first().len() implies days.drop_first()[i] == day by {
            assert(days.drop_first()[i] == days[i + 1]);
        }
        lemma_quota_within_day(next, day, days.drop_first());
    }
}

/// On a new calendar day the first call succeeds, even when the quota of
/// the previous day was used up.
pub proof fn lemma_new_day_grants(t: PostTracker, today: i32)
    requires
        t.max_per_day > 0,
        today != t.day,
    ensures
        t.after_try(today).1,
        t.after_try(today).0.count == 1,
{
}

} // verus!
