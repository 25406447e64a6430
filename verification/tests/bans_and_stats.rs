use guildlog::bans::{is_within, unix_now, RecentBans};
use guildlog::rows::{ExitRow, MembershipRow};
use guildlog::stats::{
    bounded_option, count_banned, exit_line, exit_report, exit_report_lines, exit_totals_line,
    format_when, history_lines, min_rejoins, parse_exit_times, row_limit, scan_cap, select_since,
    sort_newest_first, status_line, timestamp_token, window_days, DatedRow, Instant,
};

const FEB_18: &str = "Wed, 18 Feb 2015 23:16:09 GMT";
const FEB_18_SECONDS: i64 = 1424301369;
const FEB_19: &str = "Thu, 19 Feb 2015 01:00:00 +0100";
const FEB_19_SECONDS: i64 = 1424304000;

#[test]
fn a_marked_ban_is_found_within_its_window() {
    let mut bans = RecentBans::new();
    assert!(!bans.was_banned_within(1, 2, 100, 15));
    bans.mark_at(1, 2, 100);
    assert!(bans.was_banned_within(1, 2, 100, 15));
    assert!(bans.was_banned_within(1, 2, 115, 15));
    assert!(!bans.was_banned_within(1, 2, 116, 15));
    assert!(!bans.was_banned_within(2, 1, 100, 15));
    assert!(!bans.was_banned_within(1, 3, 100, 15));
}

#[test]
fn a_later_ban_replaces_the_earlier_one() {
    let mut bans = RecentBans::new();
    bans.mark_at(1, 2, 100);
    bans.mark_at(1, 2, 200);
    assert!(bans.was_banned_within(1, 2, 210, 15));
    assert!(!bans.was_banned_within(1, 2, 216, 15));
}

#[test]
fn pruning_drops_old_bans_only() {
    let mut bans = RecentBans::new();
    bans.mark_at(1, 2, 100);
    bans.mark_at(1, 3, 150);
    bans.mark_at(2, 2, 139);
    bans.mark_at(2, 9, 140);
    bans.prune_at(200, 60);
    assert!(!bans.was_banned_within(1, 2, 200, 1000));
    assert!(bans.was_banned_within(1, 3, 200, 1000));
    assert!(!bans.was_banned_within(2, 2, 200, 1000));
    assert!(bans.was_banned_within(2, 9, 200, 1000));
    bans.prune_at(i64::MAX, 60);
    assert!(!bans.was_banned_within(1, 3, 200, 1000));
    assert!(!bans.was_banned_within(2, 9, 200, 1000));
}

#[test]
fn bans_by_the_clock() {
    let mut bans = RecentBans::new();
    assert!(unix_now() > 1_600_000_000);
    bans.mark_recent_ban(5, 6);
    assert!(bans.was_recently_banned(5, 6, 15));
    assert!(!bans.was_recently_banned(5, 7, 15));
    bans.prune_recent_bans(60);
    assert!(bans.was_recently_banned(5, 6, 15));
    bans.mark_at(5, 8, 10);
    bans.prune_recent_bans(60);
    assert!(!bans.was_banned_within(5, 8, 10, 15));
}

#[test]
fn windows_do_not_overflow() {
    assert!(is_within(i64::MAX, i64::MIN, i64::MAX) == false);
    assert!(is_within(i64::MIN, i64::MAX, 0));
    assert!(is_within(10, 10, 0));
    assert!(!is_within(11, 10, 0));
}

#[test]
fn options_are_held_in_their_bounds() {
    assert_eq!(bounded_option(None, 15, 1, 100), 15);
    assert_eq!(bounded_option(Some(0), 15, 1, 100), 1);
    assert_eq!(bounded_option(Some(101), 15, 1, 100), 100);
    assert_eq!(min_rejoins(None), 2);
    assert_eq!(min_rejoins(Some(-4)), 2);
    assert_eq!(min_rejoins(Some(7)), 7);
    assert_eq!(row_limit(None, 15), 15);
    assert_eq!(row_limit(Some(1000), 20), 100);
    assert_eq!(window_days(None), 30);
    assert_eq!(window_days(Some(0)), 1);
    assert_eq!(window_days(Some(366)), 365);
    assert_eq!(scan_cap(None), 2000);
    assert_eq!(scan_cap(Some(5)), 100);
    assert_eq!(scan_cap(Some(1_000_000)), 100_000);
}

#[test]
fn dates_become_timestamp_tokens() {
    assert_eq!(format_when(FEB_18, "f"), "<t:1424301369:f>");
    assert_eq!(format_when(FEB_19, "R"), "<t:1424304000:R>");
    assert_eq!(format_when("yesterday", "f"), "yesterday");
    assert_eq!(timestamp_token(Some((-5, 0)), "x", "f"), "<t:-5:f>");
    assert_eq!(timestamp_token(None, "x", "f"), "x");
}

fn stay(joined: &str, left: Option<&str>, banned: bool) -> MembershipRow {
    MembershipRow {
        joined_at: joined.to_string(),
        left_at: left.map(|s| s.to_string()),
        banned,
        account_username: None,
        server_username: None,
    }
}

#[test]
fn history_tells_each_stay() {
    let rows = vec![
        stay(FEB_18, Some(FEB_19), false),
        stay(FEB_19, Some("later"), true),
        stay("now", None, false),
    ];
    assert_eq!(
        history_lines(&rows),
        vec![
            "joined — <t:1424301369:f>",
            "left — <t:1424304000:f>",
            "joined — <t:1424304000:f>",
            "banned — later",
            "joined — now",
        ]
    );
    assert_eq!(history_lines(&Vec::new()), Vec::<String>::new());
    assert_eq!(status_line(&rows[0]), "Last seen in server: <t:1424304000:f>.");
    assert_eq!(
        status_line(&rows[2]),
        "Currently **in** the server (last joined: now)."
    );
}

#[test]
fn instants_compare_by_seconds_then_nanos() {
    let a = Instant { seconds: 10, nanos: 5 };
    assert!(a.is_not_before(&Instant { seconds: 10, nanos: 5 }));
    assert!(a.is_not_before(&Instant { seconds: 9, nanos: 900 }));
    assert!(!a.is_not_before(&Instant { seconds: 10, nanos: 6 }));
    assert!(!a.is_not_before(&Instant { seconds: 11, nanos: 0 }));
    assert_eq!(a.earlier_by_days(1), Some(Instant { seconds: 10 - 86400, nanos: 5 }));
    assert_eq!(
        Instant { seconds: FEB_18_SECONDS, nanos: 0 }.earlier_by_days(365),
        Some(Instant { seconds: FEB_18_SECONDS - 31_536_000, nanos: 0 })
    );
    assert_eq!(Instant { seconds: i64::MIN + 5, nanos: 0 }.earlier_by_days(1), None);
    assert_eq!(a.earlier_by_days(-1), Some(Instant { seconds: 10 + 86400, nanos: 5 }));
    assert_eq!(a.earlier_by_days(0), Some(a));
    assert_eq!(a.earlier_by_days(i64::MAX), None);
    assert_eq!(Instant { seconds: i64::MAX, nanos: 0 }.earlier_by_days(-1), None);
}

fn exit(user: &str, left_at: &str, banned: bool, account: Option<&str>) -> ExitRow {
    ExitRow {
        user_id: user.to_string(),
        left_at: left_at.to_string(),
        banned,
        account_username: account.map(|s| s.to_string()),
        server_username: None,
    }
}

fn at(seconds: i64) -> Instant {
    Instant { seconds, nanos: 0 }
}

#[test]
fn exits_are_chosen_by_the_cutoff() {
    let times = vec![Some(at(5)), None, Some(at(10)), Some(at(9)), Some(Instant { seconds: 10, nanos: 1 })];
    let kept = select_since(&times, Instant { seconds: 10, nanos: 0 });
    assert_eq!(
        kept,
        vec![
            DatedRow { at: at(10), row: 2 },
            DatedRow { at: Instant { seconds: 10, nanos: 1 }, row: 4 },
        ]
    );
    assert_eq!(select_since(&times, Instant { seconds: 10, nanos: 1 }).len(), 1);
    assert_eq!(select_since(&Vec::new(), at(0)), Vec::new());
}

#[test]
fn exits_are_ordered_latest_first() {
    let exits = vec![
        DatedRow { at: at(5), row: 0 },
        DatedRow { at: at(9), row: 1 },
        DatedRow { at: at(5), row: 2 },
        DatedRow { at: at(7), row: 3 },
        DatedRow { at: at(9), row: 4 },
    ];
    assert_eq!(
        sort_newest_first(&exits),
        vec![
            DatedRow { at: at(9), row: 4 },
            DatedRow { at: at(9), row: 1 },
            DatedRow { at: at(7), row: 3 },
            DatedRow { at: at(5), row: 2 },
            DatedRow { at: at(5), row: 0 },
        ]
    );
}

#[test]
fn exit_dates_are_read_from_the_rows() {
    let rows = vec![exit("1", FEB_18, false, None), exit("2", "???", true, None)];
    assert_eq!(parse_exit_times(&rows), vec![Some(at(FEB_18_SECONDS)), None]);
}

#[test]
fn exit_lines_name_the_member_and_the_kind() {
    assert_eq!(
        exit_line(&exit("1", FEB_18, false, Some("alice"))),
        "• alice — left — <t:1424301369:R>"
    );
    assert_eq!(
        exit_line(&exit("77", "???", true, None)),
        "• <@77> — **banned** — ???"
    );
    assert_eq!(exit_totals_line(3, 1), "**Total:** 4 (left: 3, banned: 1)");
}

#[test]
fn exit_report_counts_orders_and_limits() {
    let rows = vec![
        exit("1", FEB_18, false, Some("alice")),
        exit("2", "???", true, Some("bob")),
        exit("3", FEB_19, true, Some("carol")),
        exit("4", "Tue, 17 Feb 2015 00:00:00 GMT", false, Some("dave")),
    ];
    let cutoff = at(FEB_18_SECONDS);
    let report = exit_report(&rows, cutoff, 20).unwrap();
    assert_eq!(
        report,
        vec![
            "**Total:** 2 (left: 1, banned: 1)",
            "",
            "• carol — **banned** — <t:1424304000:R>",
            "• alice — left — <t:1424301369:R>",
        ]
    );
    let short = exit_report(&rows, cutoff, 1).unwrap();
    assert_eq!(short.len(), 3);
    assert_eq!(short[2], "• carol — **banned** — <t:1424304000:R>");
    assert_eq!(exit_report(&rows, at(FEB_19_SECONDS + 1), 20), None);
    let ordered = vec![DatedRow { at: at(FEB_19_SECONDS), row: 2 }];
    assert_eq!(count_banned(&rows, &ordered), 1);
    assert_eq!(exit_report_lines(&rows, &ordered, 5).len(), 3);
    assert_eq!(exit_report_lines(&rows, &ordered, 0).len(), 2);
}

#[test]
fn rejoiner_lines_count_stays_and_exits() {
    let row = guildlog::rows::RejoinerRow {
        user_id: "9".to_string(),
        rejoin_count: 4,
        times_left: 3,
        account_username: Some("erin".to_string()),
        server_username: Some("E".to_string()),
    };
    assert_eq!(guildlog::stats::rejoiner_line(&row), "• E (aka erin) — 4 rejoins (3 exits)");
}

#[test]
fn readings_of_the_clock_become_seconds() {
    assert_eq!(guildlog::bans::clock_second(None), 0);
    assert_eq!(guildlog::bans::clock_second(Some(0)), 0);
    assert_eq!(guildlog::bans::clock_second(Some(1_700_000_000)), 1_700_000_000);
    assert_eq!(guildlog::bans::clock_second(Some(i64::MAX as u64)), i64::MAX);
    assert_eq!(guildlog::bans::clock_second(Some(i64::MAX as u64 + 1)), i64::MAX);
    assert_eq!(guildlog::bans::clock_second(Some(u64::MAX)), i64::MAX);
}

#[test]
fn the_clock_decides_only_within_its_range() {
    let mut bans = RecentBans::new();
    bans.mark_at(1, 2, 0);
    bans.mark_at(1, 3, -5);
    assert!(bans.was_recently_banned(1, 2, i64::MAX));
    assert!(!bans.was_recently_banned(1, 2, -1));
    assert!(!bans.was_recently_banned(1, 4, i64::MAX));
    bans.prune_recent_bans(i64::MAX);
    assert!(bans.was_banned_within(1, 2, 0, 0));
    assert!(bans.was_banned_within(1, 3, 0, 5));
    bans.prune_recent_bans(-1);
    assert!(!bans.was_banned_within(1, 2, 0, 0));
    assert!(!bans.was_banned_within(1, 3, 0, 5));
}
