//! The records that the membership store hands out.

use vstd::prelude::*;

verus! {

/// One stay of a member in a guild.
#[derive(Debug, Clone)]
pub struct MembershipRow {
    pub joined_at: String,
    pub left_at: Option<String>,
    pub banned: bool,
    pub account_username: Option<String>,
    pub server_username: Option<String>,
}

/// A member with the names last known of them.
#[derive(Debug, Clone)]
pub struct UserSummary {
    pub user_id: String,
    pub last_row_id: i64,
    pub account_username: Option<String>,
    pub server_username: Option<String>,
}

/// A member who came back, with how often.
#[derive(Debug, Clone)]
pub struct RejoinerRow {
    pub user_id: String,
    pub rejoin_count: i64,
    pub times_left: i64,
    pub account_username: Option<String>,
    pub server_username: Option<String>,
}

/// One exit of a member; `left_at` is an RFC 2822 date.
#[derive(Debug, Clone)]
pub struct ExitRow {
    pub user_id: String,
    pub left_at: String,
    pub banned: bool,
    pub account_username: Option<String>,
    pub server_username: Option<String>,
}

/// The counters of a guild at one point in time.
#[derive(Debug, Clone, Copy, PartialEq, Eq, Structural)]
pub struct StatsCurrent {
    /// Members who are in the guild now.
    pub current_members: i64,
    /// Members who were ever seen.
    pub unique_ever: i64,
    /// Stays on record.
    pub total_rejoins: i64,
    /// Stays that have ended.
    pub total_exits: i64,
    /// Stays that have ended by a ban.
    pub total_banned: i64,
}

/// The dates of one stay, as RFC 2822 dates.
#[derive(Debug, Clone)]
pub struct RejoinTimes {
    pub user_id: String,
    pub joined_at: String,
    pub left_at: Option<String>,
    pub banned: bool,
}

impl StatsCurrent {
    /// The exits that were no bans, held within the range of the counter.
    pub open spec fn left_count(self) -> int {
        let left = self.total_exits - self.total_banned;
        if left > i64::MAX {
            i64::MAX as int
        } else if left < i64::MIN {
            i64::MIN as int
        } else {
            left
        }
    }

    /// The exits that were no bans: the difference of the two counters,
    /// saturating at the ends of their range.
    pub fn left_without_ban(&self) -> (left: i64)
        ensures
            left == self.left_count(),
    {
        if self.total_banned >= 0 {
            if self.total_exits < i64::MIN + self.total_banned {
                i64::MIN
            } else {
                self.total_exits - self.total_banned
            }
        } else {
            if self.total_exits > i64::MAX + self.total_banned {
                i64::MAX
            } else {
                self.total_exits - self.total_banned
            }
        }
    }
}

} // verus!
