//! The short-lived record of recent bans, by which a leave is told from a ban.

use dashmap::DashMap;
use std::collections::hash_map::RandomState;
use std::time::{SystemTime, UNIX_EPOCH};
use vstd::prelude::*;

verus! {

/// The concurrent map of the `dashmap` crate, carried as an opaque value.
#[verifier::external_type_specification]
#[verifier::external_body]
#[verifier::reject_recursive_types(K)]
#[verifier::reject_recursive_types(V)]
#[verifier::reject_recursive_types(S)]
pub struct ExDashMap<K, V, S>(DashMap<K, V, S>);

/// The map of bans: from a guild and a user to a second.
pub type BanMap = DashMap<(u64, u64), i64, RandomState>;

/// What a map of bans holds: for a guild and a user, the second at which the
/// user was last banned there.
pub uninterp spec fn ban_times(map: DashMap<(u64, u64), i64, RandomState>) -> Map<(u64, u64), i64>;

/// The record without a ban.
pub open spec fn no_bans() -> Map<(u64, u64), i64> {
    Map::empty()
}

/// `DashMap::new`: the map that it makes holds nothing.
#[verifier::external_body]
fn new_map() -> (made: BanMap)
    ensures
        ban_times(made) == no_bans(),
{
    DashMap::new()
}

/// `DashMap::insert`: afterwards the key holds the value, whether or not it
/// held one before, and every other key holds what it held.
#[verifier::external_body]
fn map_insert(map: &mut BanMap, key: (u64, u64), at: i64)
    ensures
        ban_times(*final(map)) == ban_times(*old(map)).insert(key, at),
{
    map.insert(key, at);
}

/// `DashMap::get`: the value that the key holds, if it holds one.
#[verifier::external_body]
fn map_get(map: &BanMap, key: (u64, u64)) -> (at: Option<i64>)
    ensures
        at == if ban_times(*map).contains_key(key) {
            Some(ban_times(*map)[key])
        } else {
            None
        },
{
    map.get(&key).map(|entry| *entry.value())
}

/// `DashMap::remove`: afterwards the key holds nothing, and every other key
/// holds what it held.
#[verifier::external_body]
fn map_remove(map: &mut BanMap, key: (u64, u64))
    ensures
        ban_times(*final(map)) == ban_times(*old(map)).remove(key),
{
    map.remove(&key);
}

/// `DashMap::iter`: every entry that is handed out is in the map, and every
/// key of the map is handed out. The order is left open.
#[verifier::external_body]
fn map_entries(map: &BanMap) -> (entries: Vec<((u64, u64), i64)>)
    ensures
        forall|i: int|
            0 <= i < entries@.len() ==> ban_times(*map).contains_pair(
                (#[trigger] entries@[i]).0,
                entries@[i].1,
            ),
        forall|key: (u64, u64)| #[trigger]
            ban_times(*map).contains_key(key) ==> exists|i: int|
                0 <= i < entries@.len() && (#[trigger] entries@[i]).0 == key,
{
    map.iter().map(|entry| (*entry.key(), *entry.value())).collect()
}

/// A reading of the system clock, carried as an opaque value.
#[verifier::external_type_specification]
#[verifier::external_body]
pub struct ExSystemTime(SystemTime);

/// `SystemTime::now`: a reading of the system clock. Nothing is claimed of it.
#[verifier::external_body]
fn system_now() -> (now: SystemTime) {
    SystemTime::now()
}

/// `SystemTime::duration_since` from `UNIX_EPOCH`, read off by
/// `Duration::as_secs`: the whole seconds from the epoch to the reading, or
/// nothing where the reading lies before the epoch. Nothing is claimed of the
/// value.
#[verifier::external_body]
fn seconds_since_epoch(at: &SystemTime) -> (seconds: Option<u64>) {
    at.duration_since(UNIX_EPOCH).ok().map(|since| since.as_secs())
}

/// The second that a reading of the clock stands for: its whole seconds
/// from the Unix epoch, held within the range of the result, and 0 where the
/// clock stands before the epoch.
pub open spec fn second_of(reading: Option<u64>) -> i64 {
    match reading {
        Some(seconds) => if seconds <= i64::MAX {
            seconds as i64
        } else {
            i64::MAX
        },
        None => 0,
    }
}

/// The second that a reading of the clock stands for.
pub fn clock_second(reading: Option<u64>) -> (second: i64)
    ensures
        second == second_of(reading),
{
    match reading {
        Some(seconds) => if seconds <= 0x7fff_ffff_ffff_ffff {
            seconds as i64
        } else {
            i64::MAX
        },
        None => 0,
    }
}

/// The second of now, counted from the Unix epoch: what the system clock
/// reads, held within the range of the result, and 0 where the clock stands
/// before the epoch.
pub fn unix_now() -> (now: i64)
    ensures
        now >= 0,
{
    let reading = system_now();
    clock_second(seconds_since_epoch(&reading))
}

/// A ban at second `at` lies no more than `window` seconds before `now`.
pub open spec fn within(now: i64, at: i64, window: i64) -> bool {
    now - at <= window
}

/// Among `times` there is a ban for the key that lies no more than `window`
/// seconds before `now`.
pub open spec fn banned_within(
    times: Map<(u64, u64), i64>,
    key: (u64, u64),
    now: i64,
    window: i64,
) -> bool {
    times.contains_key(key) && within(now, times[key], window)
}

/// The bans among `times` that lie no more than `max_age` seconds before `now`.
pub open spec fn fresh_bans(times: Map<(u64, u64), i64>, now: i64, max_age: i64) -> Map<
    (u64, u64),
    i64,
> {
    Map::new(
        |key: (u64, u64)| times.contains_key(key) && within(now, times[key], max_age),
        |key: (u64, u64)| times[key],
    )
}

/// Whether a ban at second `at` lies no more than `window` seconds before `now`.
pub fn is_within(now: i64, at: i64, window: i64) -> (yes: bool)
    ensures
        yes == within(now, at, window),
{
    (now as i128) - (at as i128) <= (window as i128)
}

/// The recent bans of all guilds.
pub struct RecentBans {
    map: BanMap,
}

impl View for RecentBans {
    type V = Map<(u64, u64), i64>;

    closed spec fn view(&self) -> Map<(u64, u64), i64> {
        ban_times(self.map)
    }
}

impl RecentBans {
    /// A record without bans.
    pub fn new() -> (bans: RecentBans)
        ensures
            bans@ == no_bans(),
    {
        RecentBans { map: new_map() }
    }

    /// Records that the user was banned in the guild at second `now`.
    pub fn mark_at(&mut self, guild_id: u64, user_id: u64, now: i64)
        ensures
            final(self)@ == old(self)@.insert((guild_id, user_id), now),
    {
        map_insert(&mut self.map, (guild_id, user_id), now);
    }

    /// Records that the user was banned in the guild just now. The second
    /// that is recorded is the clock's; every other ban stays as it was.
    pub fn mark_recent_ban(&mut self, guild_id: u64, user_id: u64)
        ensures
            final(self)@.contains_key((guild_id, user_id)),
            final(self)@.remove((guild_id, user_id)) == old(self)@.remove((guild_id, user_id)),
    {
        let now = unix_now();
        self.mark_at(guild_id, user_id, now);
        assert(self@.remove((guild_id, user_id)) =~= old(self)@.remove((guild_id, user_id)));
    }

    /// Whether the user was banned in the guild no more than `window_secs`
    /// seconds before second `now`.
    pub fn was_banned_within(&self, guild_id: u64, user_id: u64, now: i64, window_secs: i64) -> (yes:
        bool)
        ensures
            yes == (self@.contains_key((guild_id, user_id)) && within(
                now,
                self@[(guild_id, user_id)],
                window_secs,
            )),
    {
        match map_get(&self.map, (guild_id, user_id)) {
            Some(at) => is_within(now, at, window_secs),
            None => false,
        }
    }

    /// Whether the user was banned in the guild within the last `window_secs`
    /// seconds by the clock: the answer is that of `was_banned_within` for the
    /// second that the clock reads, a second not before the epoch. A user of
    /// whom no ban is recorded never was.
    pub fn was_recently_banned(&self, guild_id: u64, user_id: u64, window_secs: i64) -> (yes: bool)
        ensures
            yes ==> self@.contains_key((guild_id, user_id)),
            exists|now: i64|
                now >= 0 && yes == #[trigger] banned_within(
                    self@,
                    (guild_id, user_id),
                    now,
                    window_secs,
                ),
    {
        let now = unix_now();
        let yes = self.was_banned_within(guild_id, user_id, now, window_secs);
        assert(now >= 0 && yes == banned_within(self@, (guild_id, user_id), now, window_secs));
        yes
    }

    /// Drops every ban that lies more than `max_age_secs` seconds before
    /// second `now`, and keeps every other.
    pub fn prune_at(&mut self, now: i64, max_age_secs: i64)
        ensures
            final(self)@ == fresh_bans(old(self)@, now, max_age_secs),
    {
        let entries = map_entries(&self.map);
        let ghost before = self@;
        let mut i: usize = 0;
        while i < entries.len()
            invariant
                0 <= i <= entries.len(),
                forall|j: int|
                    0 <= j < entries@.len() ==> before.contains_pair(
                        (#[trigger] entries@[j]).0,
                        entries@[j].1,
                    ),
                forall|key: (u64, u64)| #[trigger]
                    self@.contains_key(key) ==> before.contains_key(key) && self@[key]
                        == before[key],
                forall|key: (u64, u64)|
                    before.contains_key(key) && !(#[trigger] self@.contains_key(key)) ==> !within(
                        now,
                        before[key],
                        max_age_secs,
                    ),
                forall|j: int|
                    0 <= j < i && !within(now, (#[trigger] entries@[j]).1, max_age_secs)
                        ==> !self@.contains_key(entries@[j].0),
            decreases entries.len() - i,
        {
            let (key, at) = entries[i];
            let ghost held = self@;
            assert(before.contains_pair(entries@[i as int].0, entries@[i as int].1));
            if !is_within(now, at, max_age_secs) {
                map_remove(&mut self.map, key);
                assert(self@ == held.remove(key));
                assert forall|other: (u64, u64)| #[trigger]
                    self@.contains_key(other) implies before.contains_key(other) && self@[other]
                    == before[other] by {
                    assert(held.contains_key(other));
                }
                assert forall|other: (u64, u64)|
                    before.contains_key(other) && !(#[trigger] self@.contains_key(
                        other,
                    )) implies !within(now, before[other], max_age_secs) by {
                    if other != key {
                        assert(!held.contains_key(other));
                    }
                }
            }
            i = i + 1;
        }
        proof {
            let after = self@;
            let goal = fresh_bans(before, now, max_age_secs);
            assert forall|key: (u64, u64)| #[trigger] goal.contains_key(key) implies after.contains_key(
                key,
            ) by {}
            assert forall|key: (u64, u64)| #[trigger] after.contains_key(key) implies goal.contains_key(
                key,
            ) by {
                assert(before.contains_key(key));
                let j = choose|j: int| 0 <= j < entries@.len() && (#[trigger] entries@[j]).0 == key;
                assert(before.contains_pair(entries@[j].0, entries@[j].1));
            }
            assert(after =~= goal);
        }
    }

    /// Drops every ban that is older than `max_age_secs` seconds by the
    /// clock and keeps every other: what is left is what `prune_at` leaves
    /// for the second that the clock reads, a second not before the epoch.
    /// No ban is added and none is changed.
    pub fn prune_recent_bans(&mut self, max_age_secs: i64)
        ensures
            final(self)@.submap_of(old(self)@),
            exists|now: i64|
                now >= 0 && final(self)@ == #[trigger] fresh_bans(old(self)@, now, max_age_secs),
    {
        let now = unix_now();
        self.prune_at(now, max_age_secs);
        assert(now >= 0 && self@ == fresh_bans(old(self)@, now, max_age_secs));
    }
}

} // verus!
