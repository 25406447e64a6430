use guildlog::labels::{format_index_label, format_member_label, format_suggestion_label};
use guildlog::rows::StatsCurrent;
use guildlog::settings::{Column, GuildSettings};
use guildlog::text::{chunk_lines, decimal_string, push_decimal, push_signed};

fn lines(items: &[&str]) -> Vec<String> {
    items.iter().map(|s| s.to_string()).collect()
}

#[test]
fn decimal_of_small_and_large_numbers() {
    assert_eq!(decimal_string(0), "0");
    assert_eq!(decimal_string(7), "7");
    assert_eq!(decimal_string(10), "10");
    assert_eq!(decimal_string(1002), "1002");
    assert_eq!(decimal_string(u64::MAX), "18446744073709551615");
}

#[test]
fn push_decimal_appends() {
    let mut out = String::from("<#");
    push_decimal(&mut out, 4096);
    assert_eq!(out, "<#4096");
}

#[test]
fn signed_numbers_carry_their_sign() {
    let mut out = String::new();
    push_signed(&mut out, -15);
    out.push(' ');
    push_signed(&mut out, 0);
    out.push(' ');
    push_signed(&mut out, 1424301369);
    out.push(' ');
    push_signed(&mut out, i64::MIN);
    assert_eq!(out, "-15 0 1424301369 -9223372036854775808");
}

#[test]
fn chunking_nothing_gives_nothing() {
    assert_eq!(chunk_lines(&lines(&[]), 10), Vec::<String>::new());
}

#[test]
fn lines_that_fit_share_a_chunk() {
    assert_eq!(chunk_lines(&lines(&["a", "b", "c"]), 10), lines(&["a\nb\nc"]));
}

#[test]
fn the_line_break_counts_towards_the_limit() {
    assert_eq!(chunk_lines(&lines(&["aaaa", "bbbb"]), 9), lines(&["aaaa\nbbbb"]));
    assert_eq!(chunk_lines(&lines(&["aaaa", "bbbb"]), 8), lines(&["aaaa", "bbbb"]));
}

#[test]
fn a_line_over_the_limit_stands_alone() {
    assert_eq!(
        chunk_lines(&lines(&["ab", "abcdefghijkl", "cd"]), 5),
        lines(&["ab", "abcdefghijkl", "cd"])
    );
    assert_eq!(chunk_lines(&lines(&["a", "b"]), 0), lines(&["a", "b"]));
}

#[test]
fn an_empty_line_opens_no_chunk_but_is_kept_inside_one() {
    assert_eq!(chunk_lines(&lines(&["", "a"]), 10), lines(&["a"]));
    assert_eq!(chunk_lines(&lines(&["a", "", "b"]), 10), lines(&["a\n\nb"]));
    assert_eq!(chunk_lines(&lines(&["", ""]), 10), Vec::<String>::new());
}

#[test]
fn characters_are_counted_not_bytes() {
    assert_eq!(chunk_lines(&lines(&["éé", "éé"]), 5), lines(&["éé\néé"]));
    assert_eq!(chunk_lines(&lines(&["éé", "éé"]), 4), lines(&["éé", "éé"]));
}

#[test]
fn chunks_break_where_the_next_line_no_longer_fits() {
    let input = lines(&["one", "two", "three", "four", "five"]);
    assert_eq!(chunk_lines(&input, 9), lines(&["one\ntwo", "three", "four\nfive"]));
}

#[test]
fn member_label_prefers_both_names() {
    let acc = Some("alice".to_string());
    let nick = Some("Al".to_string());
    let empty = Some(String::new());
    assert_eq!(format_member_label("5", &acc, &nick), "Al (aka alice)");
    assert_eq!(format_member_label("5", &acc, &empty), "alice");
    assert_eq!(format_member_label("5", &acc, &None), "alice");
    assert_eq!(format_member_label("5", &None, &nick), "Al");
    assert_eq!(format_member_label("5", &None, &empty), "");
    assert_eq!(format_member_label("5", &None, &None), "<@5>");
}

#[test]
fn suggestion_label_falls_back_to_the_identifier() {
    let acc = Some("alice".to_string());
    let nick = Some("Al".to_string());
    assert_eq!(format_suggestion_label("5", &acc, &nick), "Al (aka alice)");
    assert_eq!(format_suggestion_label("5", &None, &None), "User 5");
}

#[test]
fn index_label_skips_an_empty_server_name() {
    let acc = Some("alice".to_string());
    let nick = Some("Al".to_string());
    let empty = Some(String::new());
    assert_eq!(format_index_label("5", &acc, &nick), "Al");
    assert_eq!(format_index_label("5", &acc, &empty), "alice");
    assert_eq!(format_index_label("5", &None, &empty), "User 5");
    assert_eq!(format_index_label("5", &None, &nick), "Al");
    assert_eq!(format_index_label("5", &acc, &None), "alice");
    assert_eq!(format_index_label("5", &None, &None), "User 5");
}

#[test]
fn exits_without_ban_saturate() {
    let mut stats = StatsCurrent {
        current_members: 3,
        unique_ever: 9,
        total_rejoins: 12,
        total_exits: 9,
        total_banned: 2,
    };
    assert_eq!(stats.left_without_ban(), 7);
    stats.total_exits = i64::MIN;
    assert_eq!(stats.left_without_ban(), i64::MIN);
    stats.total_exits = i64::MAX;
    stats.total_banned = -1;
    assert_eq!(stats.left_without_ban(), i64::MAX);
}

#[test]
fn columns_are_written_one_by_one() {
    let mut settings = GuildSettings::default();
    assert_eq!(settings, GuildSettings { join_log: None, leave_log: None, mod_log: None });
    settings.set(Column::LeaveLog, Some(4));
    settings.set(Column::ModLog, Some(5));
    settings.set(Column::LeaveLog, None);
    assert_eq!(settings.get(Column::JoinLog), None);
    assert_eq!(settings.get(Column::LeaveLog), None);
    assert_eq!(settings.get(Column::ModLog), Some(5));
    assert_eq!(Column::JoinLog.name(), "join_log_channel_id");
    assert_eq!(Column::LeaveLog.name(), "leave_log_channel_id");
    assert_eq!(Column::ModLog.name(), "mod_log_channel_id");
}

#[test]
fn exits_are_announced_in_the_right_channel() {
    let both = GuildSettings { join_log: Some(1), leave_log: Some(2), mod_log: Some(3) };
    let no_mod = GuildSettings { join_log: Some(1), leave_log: Some(2), mod_log: None };
    let none = GuildSettings::default();
    assert_eq!(both.exit_channel(true), Some(3));
    assert_eq!(both.exit_channel(false), Some(2));
    assert_eq!(no_mod.exit_channel(true), Some(2));
    assert_eq!(no_mod.exit_channel(false), Some(2));
    assert_eq!(none.exit_channel(true), None);
    assert_eq!(guildlog::labels::join_notice(12), "<@12> joined.");
    assert_eq!(guildlog::labels::leave_notice(12, true), "<@12> was **banned**.");
    assert_eq!(guildlog::labels::leave_notice(12, false), "<@12> left.");
}
