//! The daily balance of joins and leaves over a window of time.

use crate::rows::RejoinTimes;
use crate::stats::{
    dated_since, parse_rfc2822, rfc2822_instant, select_since, to_instant, DatedRow, Instant,
};
use crate::text::{decimal, push_decimal, push_signed, signed_decimal, texts};
use chrono::NaiveDate;
use vstd::prelude::*;
use vstd::string::*;

verus! {

/// How `chrono` writes the date of a day, counted from the first of January
/// 1970 as day 0. Nothing where `chrono` has no date for the day.
pub uninterp spec fn epoch_day_text(day: i32) -> Option<Seq<char>>;

/// `NaiveDate::from_epoch_days`, written out by the date's `Display`: the
/// result is the named one for the day.
#[verifier::external_body]
fn date_of_epoch_day(day: i32) -> (text: Option<String>)
    ensures
        match text {
            Some(t) => epoch_day_text(day) == Some(t@),
            None => epoch_day_text(day) is None,
        },
{
    NaiveDate::from_epoch_days(day).map(|date| date.to_string())
}

/// The day of a point in time, counted from the first of January 1970 as day 0.
pub open spec fn day_of(at: Instant) -> int {
    at.seconds as int / 86400
}

/// The day of a point in time.
pub fn day_number(at: &Instant) -> (day: i64)
    ensures
        day == day_of(*at),
{
    let s = at.seconds;
    if s >= 0 {
        s / 86400
    } else {
        -((-(s + 1)) / 86400) - 1
    }
}

/// How a day is written: as its date, or as its number where there is no date for it.
pub open spec fn day_text(day: i64) -> Seq<char> {
    if -2147483648 <= day <= 2147483647 && epoch_day_text(day as i32) is Some {
        epoch_day_text(day as i32)->0
    } else {
        signed_decimal(day as int)
    }
}

/// How a day is written, given the date that was found for it.
pub open spec fn day_label_text(date: Option<Seq<char>>, day: i64) -> Seq<char> {
    match date {
        Some(text) => text,
        None => signed_decimal(day as int),
    }
}

/// How a day is written, given the date that was found for it.
pub fn day_label(date: Option<String>, day: i64) -> (label: String)
    ensures
        label@ == day_label_text(crate::labels::opt_text(date), day),
{
    match date {
        Some(text) => text,
        None => {
            let mut label = String::new();
            push_signed(&mut label, day);
            assert(label@ =~= signed_decimal(day as int));
            label
        },
    }
}

/// How a day is written.
pub fn format_day(day: i64) -> (label: String)
    ensures
        label@ == day_text(day),
{
    if -2147483648 <= day && day <= 2147483647 {
        day_label(date_of_epoch_day(day as i32), day)
    } else {
        day_label(None, day)
    }
}

/// The movement counts towards `day`; towards the whole window where no day is given.
pub open spec fn on_day(m: DatedRow, day: Option<i64>) -> bool {
    match day {
        Some(d) => day_of(m.at) == d,
        None => true,
    }
}

/// How many of the movements count towards the day.
pub open spec fn moves_on(moves: Seq<DatedRow>, day: Option<i64>) -> nat
    decreases moves.len(),
{
    if moves.len() == 0 {
        0
    } else {
        moves_on(moves.drop_last(), day) + if on_day(moves.last(), day) {
            1nat
        } else {
            0nat
        }
    }
}

/// The users of the rows.
pub open spec fn user_texts(rows: Seq<RejoinTimes>) -> Seq<Seq<char>> {
    rows.map_values(|row: RejoinTimes| row.user_id@)
}

/// An earlier movement that counts towards the day is by the same user as movement `k`.
pub open spec fn seen_before(
    users: Seq<Seq<char>>,
    moves: Seq<DatedRow>,
    k: int,
    day: Option<i64>,
    before: int,
) -> bool {
    exists|j: int|
        0 <= j < before && on_day(#[trigger] moves[j], day) && users[moves[j].row as int]
            == users[moves[k].row as int]
}

/// How many different users are behind the first `upto` movements that count
/// towards the day: each user is counted at their first such movement.
pub open spec fn users_on(
    users: Seq<Seq<char>>,
    moves: Seq<DatedRow>,
    day: Option<i64>,
    upto: int,
) -> nat
    decreases upto,
{
    if upto <= 0 {
        0
    } else {
        users_on(users, moves, day, upto - 1) + if on_day(moves[upto - 1], day) && !seen_before(
            users,
            moves,
            upto - 1,
            day,
            upto - 1,
        ) {
            1nat
        } else {
            0nat
        }
    }
}

/// Every movement points at a row.
pub open spec fn in_rows(moves: Seq<DatedRow>, rows: int) -> bool {
    forall|k: int| 0 <= k < moves.len() ==> (#[trigger] moves[k]).row < rows
}

fn counts_on(m: &DatedRow, day: Option<i64>) -> (yes: bool)
    ensures
        yes == on_day(*m, day),
{
    match day {
        Some(d) => day_number(&m.at) == d,
        None => true,
    }
}

/// Counts the movements that count towards the day.
pub fn count_moves(moves: &Vec<DatedRow>, day: Option<i64>) -> (count: usize)
    ensures
        count == moves_on(moves@, day),
{
    let mut count: usize = 0;
    let mut i: usize = 0;
    proof {
        assert(moves@.take(0) =~= Seq::<DatedRow>::empty());
    }
    while i < moves.len()
        invariant
            0 <= i <= moves.len(),
            count <= i,
            count == moves_on(moves@.take(i as int), day),
        decreases moves.len() - i,
    {
        proof {
            assert(moves@.take(i + 1).drop_last() =~= moves@.take(i as int));
            assert(moves@.take(i + 1).last() == moves@[i as int]);
        }
        if counts_on(&moves[i], day) {
            count = count + 1;
        }
        i = i + 1;
    }
    proof {
        assert(moves@.take(i as int) =~= moves@);
    }
    count
}

/// Counts the different users behind the movements that count towards the day.
pub fn count_users(rows: &Vec<RejoinTimes>, moves: &Vec<DatedRow>, day: Option<i64>) -> (count:
    usize)
    requires
        in_rows(moves@, rows@.len() as int),
    ensures
        count == users_on(user_texts(rows@), moves@, day, moves@.len() as int),
{
    let ghost users = user_texts(rows@);
    let mut count: usize = 0;
    let mut k: usize = 0;
    while k < moves.len()
        invariant
            0 <= k <= moves.len(),
            count <= k,
            users == user_texts(rows@),
            in_rows(moves@, rows@.len() as int),
            count == users_on(users, moves@, day, k as int),
        decreases moves.len() - k,
    {
        if counts_on(&moves[k], day) {
            let mut seen = false;
            let mut j: usize = 0;
            while j < k
                invariant
                    0 <= j <= k < moves.len(),
                    users == user_texts(rows@),
                    in_rows(moves@, rows@.len() as int),
                    seen == seen_before(users, moves@, k as int, day, j as int),
                decreases k - j,
            {
                let same = counts_on(&moves[j], day) && rows[moves[j].row].user_id
                    == rows[moves[k].row].user_id;
                proof {
                    assert(users[moves@[j as int].row as int] == rows@[moves@[j as int].row as int].user_id@);
                    assert(users[moves@[k as int].row as int] == rows@[moves@[k as int].row as int].user_id@);
                    if same {
                        assert(on_day(moves@[j as int], day));
                    }
                }
                if same {
                    seen = true;
                }
                j = j + 1;
            }
            if !seen {
                count = count + 1;
            }
        }
        k = k + 1;
    }
    count
}

/// Each day is later than the one before it.
pub open spec fn increasing(days: Seq<i64>) -> bool {
    forall|i: int, j: int| 0 <= i < j < days.len() ==> days[i] < days[j]
}

/// One of the movements happened on the day.
pub open spec fn has_move_on(moves: Seq<DatedRow>, day: i64) -> bool {
    exists|k: int| 0 <= k < moves.len() && day_of((#[trigger] moves[k]).at) == day
}

/// Takes the days of the movements in among `days`, each once and in order.
pub fn add_days(days: &mut Vec<i64>, moves: &Vec<DatedRow>)
    requires
        increasing(old(days)@),
    ensures
        increasing(final(days)@),
        forall|d: i64| #[trigger]
            final(days)@.contains(d) <==> old(days)@.contains(d) || has_move_on(moves@, d),
{
    let ghost start = days@;
    let mut k: usize = 0;
    while k < moves.len()
        invariant
            0 <= k <= moves.len(),
            increasing(days@),
            forall|d: i64| #[trigger]
                days@.contains(d) <==> start.contains(d) || has_move_on(moves@.take(k as int), d),
        decreases moves.len() - k,
    {
        let day = day_number(&moves[k].at);
        let mut p: usize = 0;
        while p < days.len() && days[p] < day
            invariant
                0 <= p <= days.len(),
                forall|i: int| 0 <= i < p ==> days@[i] < day,
            decreases days.len() - p,
        {
            p = p + 1;
        }
        let ghost held = days@;
        let ghost seen = moves@.take(k as int);
        let ghost more = moves@.take(k + 1);
        proof {
            assert(forall|j: int| 0 <= j < k ==> more[j] == seen[j]);
            assert(more[k as int] == moves@[k as int]);
            assert forall|d: i64| has_move_on(more, d) <==> has_move_on(seen, d) || d == day by {
                if has_move_on(more, d) {
                    let j = choose|j: int| 0 <= j < more.len() && day_of((#[trigger] more[j]).at) == d;
                    if j < k {
                        assert(day_of(seen[j].at) == d);
                    }
                }
                if has_move_on(seen, d) {
                    let j = choose|j: int| 0 <= j < seen.len() && day_of((#[trigger] seen[j]).at) == d;
                    assert(day_of(more[j].at) == d);
                }
                if d == day {
                    assert(day_of(more[k as int].at) == d);
                }
            }
        }
        if p < days.len() && days[p] == day {
            proof {
                assert(held.contains(day));
            }
        } else {
            days.insert(p, day);
            proof {
                let grown = days@;
                assert(grown == held.insert(p as int, day));
                assert forall|i: int, j: int| 0 <= i < j < grown.len() implies grown[i]
                    < grown[j] by {
                    let i0 = if i < p { i } else { i - 1 };
                    let j0 = if j < p { j } else { j - 1 };
                    if i == p {
                        assert(grown[j] == held[j - 1]);
                        if p < held.len() {
                            assert(held[p as int] > day);
                            if j - 1 > p {
                                assert(held[p as int] < held[j - 1]);
                            }
                        }
                    } else if j == p {
                        assert(grown[i] == held[i]);
                    } else {
                        assert(grown[i] == held[i0]);
                        assert(grown[j] == held[j0]);
                    }
                }
                assert forall|d: i64| #[trigger] grown.contains(d) <==> held.contains(d) || d
                    == day by {
                    if grown.contains(d) {
                        let i = choose|i: int| 0 <= i < grown.len() && grown[i] == d;
                        if i < p {
                            assert(held[i] == d);
                        } else if i > p {
                            assert(held[i - 1] == d);
                        }
                    }
                    if held.contains(d) {
                        let i = choose|i: int| 0 <= i < held.len() && held[i] == d;
                        if i < p {
                            assert(grown[i] == d);
                        } else {
                            assert(grown[i + 1] == d);
                        }
                    }
                    if d == day {
                        assert(grown[p as int] == d);
                    }
                }
            }
        }
        k = k + 1;
    }
    proof {
        assert(moves@.take(k as int) =~= moves@);
    }
}

/// The net change of a window, always with its sign.
pub open spec fn net_text(joins: nat, leaves: nat) -> Seq<char> {
    if joins >= leaves {
        "+"@ + decimal((joins - leaves) as nat)
    } else {
        "-"@ + decimal((leaves - joins) as nat)
    }
}

/// The net change of a day: a sign or a blank, then the amount in two columns.
pub open spec fn day_net_text(joins: nat, leaves: nat) -> Seq<char> {
    let amount = if joins >= leaves {
        (joins - leaves) as nat
    } else {
        (leaves - joins) as nat
    };
    (if joins > leaves {
        "+"@
    } else if joins < leaves {
        "−"@
    } else {
        " "@
    }) + (if amount < 10 {
        " "@ + decimal(amount)
    } else {
        decimal(amount)
    })
}

/// The counts of joins and of leaves, each with its different users.
pub struct Tally {
    pub joins: usize,
    pub join_users: usize,
    pub leaves: usize,
    pub leave_users: usize,
}

/// The head line of a balance.
pub open spec fn window_text(days: i64, t: Tally) -> Seq<char> {
    "**Window totals ("@ + signed_decimal(days as int) + " days):**  net "@ + net_text(
        t.joins as nat,
        t.leaves as nat,
    ) + "  |  joins: "@ + decimal(t.joins as nat) + " ("@ + decimal(t.join_users as nat)
        + " unique)  |  leaves: "@ + decimal(t.leaves as nat) + " ("@ + decimal(
        t.leave_users as nat,
    ) + " unique)"@
}

/// The line of one day of a balance.
pub open spec fn day_line_text(day: i64, t: Tally) -> Seq<char> {
    day_text(day) + "  "@ + day_net_text(t.joins as nat, t.leaves as nat) + "  (joins: "@
        + decimal(t.joins as nat) + " / "@ + decimal(t.join_users as nat)
        + " unique,  leaves: "@ + decimal(t.leaves as nat) + " / "@ + decimal(
        t.leave_users as nat,
    ) + " unique)"@
}

/// The head line of a balance: the net change of the window and its totals.
pub fn window_line(days: i64, t: &Tally) -> (line: String)
    ensures
        line@ == window_text(days, *t),
{
    let mut line = String::from_str("**Window totals (");
    push_signed(&mut line, days);
    line.append(" days):**  net ");
    if t.joins >= t.leaves {
        line.append("+");
        push_decimal(&mut line, (t.joins - t.leaves) as u64);
    } else {
        line.append("-");
        push_decimal(&mut line, (t.leaves - t.joins) as u64);
    }
    line.append("  |  joins: ");
    push_decimal(&mut line, t.joins as u64);
    line.append(" (");
    push_decimal(&mut line, t.join_users as u64);
    line.append(" unique)  |  leaves: ");
    push_decimal(&mut line, t.leaves as u64);
    line.append(" (");
    push_decimal(&mut line, t.leave_users as u64);
    line.append(" unique)");
    assert(line@ =~= window_text(days, *t));
    line
}

/// The line of one day of a balance: the day, its net change and its counts.
pub fn day_line(day: i64, t: &Tally) -> (line: String)
    ensures
        line@ == day_line_text(day, *t),
{
    let mut line = format_day(day);
    line.append("  ");
    let amount: usize = if t.joins >= t.leaves {
        t.joins - t.leaves
    } else {
        t.leaves - t.joins
    };
    if t.joins > t.leaves {
        line.append("+");
    } else if t.joins < t.leaves {
        line.append("−");
    } else {
        line.append(" ");
    }
    if amount < 10 {
        line.append(" ");
    }
    push_decimal(&mut line, amount as u64);
    line.append("  (joins: ");
    push_decimal(&mut line, t.joins as u64);
    line.append(" / ");
    push_decimal(&mut line, t.join_users as u64);
    line.append(" unique,  leaves: ");
    push_decimal(&mut line, t.leaves as u64);
    line.append(" / ");
    push_decimal(&mut line, t.leave_users as u64);
    line.append(" unique)");
    assert(line@ =~= day_line_text(day, *t));
    line
}

/// The counts of a day, or of the whole window where no day is given.
pub open spec fn tally_on(
    users: Seq<Seq<char>>,
    joins: Seq<DatedRow>,
    leaves: Seq<DatedRow>,
    day: Option<i64>,
) -> Tally {
    Tally {
        joins: moves_on(joins, day) as usize,
        join_users: users_on(users, joins, day, joins.len() as int) as usize,
        leaves: moves_on(leaves, day) as usize,
        leave_users: users_on(users, leaves, day, leaves.len() as int) as usize,
    }
}

/// Counts the joins and leaves of a day, or of the whole window.
pub fn tally(
    rows: &Vec<RejoinTimes>,
    joins: &Vec<DatedRow>,
    leaves: &Vec<DatedRow>,
    day: Option<i64>,
) -> (t: Tally)
    requires
        in_rows(joins@, rows@.len() as int),
        in_rows(leaves@, rows@.len() as int),
    ensures
        t == tally_on(user_texts(rows@), joins@, leaves@, day),
{
    Tally {
        joins: count_moves(joins, day),
        join_users: count_users(rows, joins, day),
        leaves: count_moves(leaves, day),
        leave_users: count_users(rows, leaves, day),
    }
}

/// The lines of a balance over the given days: the totals of the window, an
/// empty line, then one line for each day.
pub open spec fn balance_text(
    users: Seq<Seq<char>>,
    joins: Seq<DatedRow>,
    leaves: Seq<DatedRow>,
    days: Seq<i64>,
    window: i64,
) -> Seq<Seq<char>> {
    seq![window_text(window, tally_on(users, joins, leaves, None)), Seq::empty()] + Seq::new(
        days.len(),
        |k: int| day_line_text(days[k], tally_on(users, joins, leaves, Some(days[k]))),
    )
}

/// The lines of a balance, once the joins and leaves of the window and its
/// days are known.
pub fn balance_lines(
    rows: &Vec<RejoinTimes>,
    joins: &Vec<DatedRow>,
    leaves: &Vec<DatedRow>,
    days: &Vec<i64>,
    window: i64,
) -> (lines: Vec<String>)
    requires
        in_rows(joins@, rows@.len() as int),
        in_rows(leaves@, rows@.len() as int),
    ensures
        texts(lines@) == balance_text(user_texts(rows@), joins@, leaves@, days@, window),
{
    let ghost users = user_texts(rows@);
    let mut lines: Vec<String> = Vec::new();
    let total = tally(rows, joins, leaves, None);
    lines.push(window_line(window, &total));
    lines.push(String::new());
    let ghost head = seq![
        window_text(window, tally_on(users, joins@, leaves@, None)),
        Seq::<char>::empty(),
    ];
    assert(texts(lines@) =~= head);
    let mut k: usize = 0;
    while k < days.len()
        invariant
            0 <= k <= days.len(),
            head.len() == 2,
            users == user_texts(rows@),
            in_rows(joins@, rows@.len() as int),
            in_rows(leaves@, rows@.len() as int),
            texts(lines@) == head + Seq::new(
                k as nat,
                |j: int| day_line_text(days@[j], tally_on(users, joins@, leaves@, Some(days@[j]))),
            ),
        decreases days.len() - k,
    {
        let ghost before = texts(lines@);
        let day = days[k];
        let t = tally(rows, joins, leaves, Some(day));
        lines.push(day_line(day, &t));
        assert(texts(lines@) =~= before.push(
            day_line_text(day, tally_on(users, joins@, leaves@, Some(day))),
        ));
        assert(texts(lines@) =~= head + Seq::new(
            (k + 1) as nat,
            |j: int| day_line_text(days@[j], tally_on(users, joins@, leaves@, Some(days@[j]))),
        ));
        k = k + 1;
    }
    assert(texts(lines@) =~= balance_text(users, joins@, leaves@, days@, window));
    lines
}

/// When each stay began, where its date can be read.
pub open spec fn join_times(rows: Seq<RejoinTimes>) -> Seq<Option<Instant>> {
    rows.map_values(|row: RejoinTimes| to_instant(rfc2822_instant(row.joined_at@)))
}

/// When each stay ended, where it has ended and its date can be read.
pub open spec fn leave_times(rows: Seq<RejoinTimes>) -> Seq<Option<Instant>> {
    rows.map_values(
        |row: RejoinTimes|
            match row.left_at {
                Some(at) => to_instant(rfc2822_instant(at@)),
                None => None,
            },
    )
}

fn read_instant(text: &str) -> (at: Option<Instant>)
    ensures
        at == to_instant(rfc2822_instant(text@)),
{
    match parse_rfc2822(text) {
        Some((seconds, nanos)) => Some(Instant { seconds, nanos }),
        None => None,
    }
}

/// Reads the date at which each stay began.
pub fn parse_join_times(rows: &Vec<RejoinTimes>) -> (times: Vec<Option<Instant>>)
    ensures
        times@ == join_times(rows@),
{
    let mut times: Vec<Option<Instant>> = Vec::new();
    let mut i: usize = 0;
    while i < rows.len()
        invariant
            0 <= i <= rows.len(),
            times@ == join_times(rows@).take(i as int),
        decreases rows.len() - i,
    {
        times.push(read_instant(rows[i].joined_at.as_str()));
        assert(times@ =~= join_times(rows@).take(i + 1));
        i = i + 1;
    }
    assert(times@ =~= join_times(rows@));
    times
}

/// Reads the date at which each stay ended.
pub fn parse_leave_times(rows: &Vec<RejoinTimes>) -> (times: Vec<Option<Instant>>)
    ensures
        times@ == leave_times(rows@),
{
    let mut times: Vec<Option<Instant>> = Vec::new();
    let mut i: usize = 0;
    while i < rows.len()
        invariant
            0 <= i <= rows.len(),
            times@ == leave_times(rows@).take(i as int),
        decreases rows.len() - i,
    {
        let at = match &rows[i].left_at {
            Some(text) => read_instant(text.as_str()),
            None => None,
        };
        times.push(at);
        assert(times@ =~= leave_times(rows@).take(i + 1));
        i = i + 1;
    }
    assert(times@ =~= leave_times(rows@));
    times
}

/// The balance of the joins and leaves that did not happen before `cutoff`:
/// the totals of the window, then day by day in the order of the days, or
/// nothing where the window holds no join and no leave.
pub fn balance_report(rows: &Vec<RejoinTimes>, cutoff: Instant, window: i64) -> (lines: Option<
    Vec<String>,
>)
    ensures
        lines is None <==> dated_since(join_times(rows@), cutoff).len() == 0 && dated_since(
            leave_times(rows@),
            cutoff,
        ).len() == 0,
        lines is Some ==> exists|days: Seq<i64>|
            {
                &&& increasing(days)
                &&& forall|d: i64| #[trigger]
                    days.contains(d) <==> has_move_on(dated_since(join_times(rows@), cutoff), d)
                        || has_move_on(dated_since(leave_times(rows@), cutoff), d)
                &&& #[trigger] balance_text(
                    user_texts(rows@),
                    dated_since(join_times(rows@), cutoff),
                    dated_since(leave_times(rows@), cutoff),
                    days,
                    window,
                ) == texts(lines->0@)
            },
{
    let joined = parse_join_times(rows);
    let left = parse_leave_times(rows);
    let joins = select_since(&joined, cutoff);
    let leaves = select_since(&left, cutoff);
    if joins.len() == 0 && leaves.len() == 0 {
        return None;
    }
    let mut days: Vec<i64> = Vec::new();
    add_days(&mut days, &joins);
    let ghost first = days@;
    add_days(&mut days, &leaves);
    proof {
        assert forall|d: i64| #[trigger] days@.contains(d) <==> has_move_on(joins@, d)
            || has_move_on(leaves@, d) by {
            assert(first.contains(d) <==> has_move_on(joins@, d));
        }
    }
    let lines = balance_lines(rows, &joins, &leaves, &days, window);
    Some(lines)
}

} // verus!
