use guildlog::balance::{
    add_days, balance_lines, balance_report, count_moves, count_users, day_label, day_line,
    day_number, format_day, parse_join_times, parse_leave_times, tally, window_line, Tally,
};
use guildlog::rows::RejoinTimes;
use guildlog::stats::{DatedRow, Instant};

const DAY: i64 = 86400;

fn at(seconds: i64) -> Instant {
    Instant { seconds, nanos: 0 }
}

fn stay(user: &str, joined: &str, left: Option<&str>) -> RejoinTimes {
    RejoinTimes {
        user_id: user.to_string(),
        joined_at: joined.to_string(),
        left_at: left.map(|s| s.to_string()),
        banned: false,
    }
}

#[test]
fn days_are_counted_from_the_epoch() {
    assert_eq!(day_number(&at(0)), 0);
    assert_eq!(day_number(&at(DAY - 1)), 0);
    assert_eq!(day_number(&at(DAY)), 1);
    assert_eq!(day_number(&at(-1)), -1);
    assert_eq!(day_number(&at(-DAY)), -1);
    assert_eq!(day_number(&at(-DAY - 1)), -2);
    assert_eq!(day_number(&at(1424301369)), 16484);
    assert_eq!(day_number(&at(i64::MIN)), -106751991167301);
    assert_eq!(day_number(&at(i64::MAX)), 106751991167300);
}

#[test]
fn days_are_written_as_dates() {
    assert_eq!(format_day(0), "1970-01-01");
    assert_eq!(format_day(16484), "2015-02-18");
    assert_eq!(format_day(-1), "1969-12-31");
    assert_eq!(format_day(100_000_000), "100000000");
    assert_eq!(format_day(-5_000_000_000), "-5000000000");
    assert_eq!(day_label(Some("2015-02-18".to_string()), 3), "2015-02-18");
    assert_eq!(day_label(None, -3), "-3");
}

#[test]
fn days_are_taken_in_once_and_in_order() {
    let moves = vec![
        DatedRow { at: at(5 * DAY + 3), row: 0 },
        DatedRow { at: at(2 * DAY), row: 1 },
        DatedRow { at: at(5 * DAY), row: 2 },
        DatedRow { at: at(-1), row: 3 },
    ];
    let mut days = vec![2, 4];
    add_days(&mut days, &moves);
    assert_eq!(days, vec![-1, 2, 4, 5]);
    let mut none = Vec::new();
    add_days(&mut none, &Vec::new());
    assert!(none.is_empty());
}

#[test]
fn movements_and_users_are_counted_by_day() {
    let rows = vec![
        stay("a", "", None),
        stay("b", "", None),
        stay("a", "", None),
        stay("c", "", None),
    ];
    let moves = vec![
        DatedRow { at: at(DAY), row: 0 },
        DatedRow { at: at(DAY + 5), row: 2 },
        DatedRow { at: at(2 * DAY), row: 0 },
        DatedRow { at: at(DAY + 9), row: 1 },
        DatedRow { at: at(2 * DAY + 1), row: 3 },
        DatedRow { at: at(2 * DAY + 2), row: 2 },
    ];
    assert_eq!(count_moves(&moves, Some(1)), 3);
    assert_eq!(count_moves(&moves, Some(2)), 3);
    assert_eq!(count_moves(&moves, Some(3)), 0);
    assert_eq!(count_moves(&moves, None), 6);
    assert_eq!(count_users(&rows, &moves, Some(1)), 2);
    assert_eq!(count_users(&rows, &moves, Some(2)), 2);
    assert_eq!(count_users(&rows, &moves, Some(3)), 0);
    assert_eq!(count_users(&rows, &moves, None), 3);
    let t = tally(&rows, &moves, &Vec::new(), Some(1));
    assert_eq!((t.joins, t.join_users, t.leaves, t.leave_users), (3, 2, 0, 0));
}

#[test]
fn lines_show_net_change_and_counts() {
    let t = Tally { joins: 3, join_users: 2, leaves: 15, leave_users: 14 };
    assert_eq!(
        window_line(30, &t),
        "**Window totals (30 days):**  net -12  |  joins: 3 (2 unique)  |  leaves: 15 (14 unique)"
    );
    assert_eq!(
        day_line(16484, &t),
        "2015-02-18  −12  (joins: 3 / 2 unique,  leaves: 15 / 14 unique)"
    );
    let even = Tally { joins: 2, join_users: 2, leaves: 2, leave_users: 1 };
    assert_eq!(
        window_line(7, &even),
        "**Window totals (7 days):**  net +0  |  joins: 2 (2 unique)  |  leaves: 2 (1 unique)"
    );
    assert_eq!(
        day_line(0, &even),
        "1970-01-01    0  (joins: 2 / 2 unique,  leaves: 2 / 1 unique)"
    );
    let up = Tally { joins: 9, join_users: 9, leaves: 2, leave_users: 2 };
    assert_eq!(
        day_line(1, &up),
        "1970-01-02  + 7  (joins: 9 / 9 unique,  leaves: 2 / 2 unique)"
    );
}

#[test]
fn stay_dates_are_read_from_the_rows() {
    let rows = vec![
        stay("a", "Wed, 18 Feb 2015 23:16:09 GMT", Some("Thu, 19 Feb 2015 01:00:00 +0100")),
        stay("b", "soon", None),
        stay("c", "Wed, 18 Feb 2015 23:16:09 GMT", Some("never")),
    ];
    assert_eq!(parse_join_times(&rows), vec![Some(at(1424301369)), None, Some(at(1424301369))]);
    assert_eq!(parse_leave_times(&rows), vec![Some(at(1424304000)), None, None]);
}

#[test]
fn balance_of_a_window() {
    let rows = vec![
        stay("a", "Wed, 18 Feb 2015 23:16:09 GMT", Some("Thu, 19 Feb 2015 01:00:00 +0100")),
        stay("b", "Thu, 19 Feb 2015 10:00:00 GMT", None),
        stay("a", "Thu, 19 Feb 2015 11:00:00 GMT", Some("Fri, 20 Feb 2015 11:00:00 GMT")),
        stay("c", "Tue, 17 Feb 2015 11:00:00 GMT", Some("Fri, 20 Feb 2015 12:00:00 GMT")),
        stay("d", "what", Some("Fri, 20 Feb 2015 13:00:00 GMT")),
    ];
    let cutoff = at(1424301369);
    let lines = balance_report(&rows, cutoff, 30).unwrap();
    assert_eq!(
        lines,
        vec![
            "**Window totals (30 days):**  net -1  |  joins: 3 (2 unique)  |  leaves: 4 (3 unique)",
            "",
            "2015-02-18  + 1  (joins: 1 / 1 unique,  leaves: 0 / 0 unique)",
            "2015-02-19  + 1  (joins: 2 / 2 unique,  leaves: 1 / 1 unique)",
            "2015-02-20  − 3  (joins: 0 / 0 unique,  leaves: 3 / 3 unique)",
        ]
    );
    assert_eq!(balance_report(&rows, at(1424500000), 30), None);
    assert_eq!(balance_report(&Vec::new(), at(0), 30), None);
    let joins = vec![DatedRow { at: at(0), row: 1 }];
    assert_eq!(balance_lines(&rows, &joins, &Vec::new(), &vec![0], 1).len(), 3);
}
