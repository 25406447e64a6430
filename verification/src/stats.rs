//! What the reporting commands work out: the bounds of their options, the
//! lines of a member's history, and the exits of a window of time.

use crate::rows::{ExitRow, MembershipRow, RejoinerRow};
use crate::labels::{format_member_label, member_label, opt_text};
use crate::text::{decimal, push_decimal, push_signed, signed_decimal, texts};
use chrono::DateTime;
use vstd::prelude::*;
use vstd::string::*;

verus! {

/// A point in time: whole seconds from the Unix epoch and the nanoseconds
/// beyond them. Points are ordered by their seconds, then by their nanoseconds.
#[derive(Debug, Clone, Copy, PartialEq, Eq, Structural)]
pub struct Instant {
    pub seconds: i64,
    pub nanos: u32,
}

/// The point in time that an RFC 2822 date names, as `chrono` reads it: its
/// Unix timestamp and the nanoseconds beyond it. Nothing where `chrono` does
/// not take the text for such a date.
pub uninterp spec fn rfc2822_instant(text: Seq<char>) -> Option<(i64, u32)>;

/// `DateTime::parse_from_rfc2822`, read off by `DateTime::timestamp` and
/// `DateTime::timestamp_subsec_nanos`: the result is the named one for the text.
#[verifier::external_body]
pub(crate) fn parse_rfc2822(text: &str) -> (at: Option<(i64, u32)>)
    ensures
        at == rfc2822_instant(text@),
{
    DateTime::parse_from_rfc2822(text).ok().map(|at| (at.timestamp(), at.timestamp_subsec_nanos()))
}

/// The value of an option of a command: what was given, or `default`, held
/// between `low` and `high`.
pub open spec fn bounded(given: Option<i64>, default: i64, low: i64, high: i64) -> i64 {
    let value = match given {
        Some(v) => v,
        None => default,
    };
    if value < low {
        low
    } else if value > high {
        high
    } else {
        value
    }
}

/// The value of an option of a command, held between `low` and `high`.
pub fn bounded_option(given: Option<i64>, default: i64, low: i64, high: i64) -> (value: i64)
    requires
        low <= high,
    ensures
        value == bounded(given, default, low, high),
{
    let value = match given {
        Some(v) => v,
        None => default,
    };
    if value < low {
        low
    } else if value > high {
        high
    } else {
        value
    }
}

/// The least number of joins that makes a rejoiner: two unless more is asked for.
pub fn min_rejoins(min_joins: Option<i64>) -> (value: i64)
    ensures
        value == bounded(min_joins, 2, 2, i64::MAX),
{
    bounded_option(min_joins, 2, 2, i64::MAX)
}

/// How many rows a list shows: between 1 and 100, `default` unless asked otherwise.
pub fn row_limit(limit: Option<i64>, default: i64) -> (value: i64)
    ensures
        value == bounded(limit, default, 1, 100),
{
    bounded_option(limit, default, 1, 100)
}

/// How many days a report looks back: between 1 and 365, 30 unless asked otherwise.
pub fn window_days(days: Option<i64>) -> (value: i64)
    ensures
        value == bounded(days, 30, 1, 365),
{
    bounded_option(days, 30, 1, 365)
}

/// How many rows a report scans: between 100 and 100000, 2000 unless asked otherwise.
pub fn scan_cap(cap: Option<i64>) -> (value: i64)
    ensures
        value == bounded(cap, 2000, 100, 100000),
{
    bounded_option(cap, 2000, 100, 100000)
}

impl Instant {
    /// This point is not before `other`.
    pub open spec fn not_before(self, other: Instant) -> bool {
        self.seconds > other.seconds || (self.seconds == other.seconds && self.nanos
            >= other.nanos)
    }

    /// The point `days` days before this one, where its seconds can be held.
    pub open spec fn days_earlier(self, days: i64) -> Option<Instant> {
        let seconds = self.seconds - days * 86400;
        if i64::MIN <= seconds <= i64::MAX {
            Some(Instant { seconds: seconds as i64, nanos: self.nanos })
        } else {
            None
        }
    }

    /// Whether this point is not before `other`.
    pub fn is_not_before(&self, other: &Instant) -> (yes: bool)
        ensures
            yes == self.not_before(*other),
    {
        self.seconds > other.seconds || (self.seconds == other.seconds && self.nanos
            >= other.nanos)
    }

    /// The point `days` days before this one, or nothing where the seconds of
    /// that point cannot be held.
    pub fn earlier_by_days(&self, days: i64) -> (cutoff: Option<Instant>)
        ensures
            cutoff == self.days_earlier(days),
    {
        let seconds: i128 = (self.seconds as i128) - (days as i128) * 86400;
        if seconds < -9223372036854775808 || seconds > 9223372036854775807 {
            None
        } else {
            Some(Instant { seconds: seconds as i64, nanos: self.nanos })
        }
    }
}

/// How a parsed date is shown: as a timestamp token in the given style, which
/// the reader's client renders, or as the raw text where it did not parse.
pub open spec fn token_text(parsed: Option<(i64, u32)>, raw: Seq<char>, style: Seq<char>) -> Seq<
    char,
> {
    match parsed {
        Some((seconds, _)) => "<t:"@ + signed_decimal(seconds as int) + ":"@ + style + ">"@,
        None => raw,
    }
}

/// How a date of the store is shown in the given style.
pub open spec fn when_text(raw: Seq<char>, style: Seq<char>) -> Seq<char> {
    token_text(rfc2822_instant(raw), raw, style)
}

/// How a parsed date is shown in the given style.
pub fn timestamp_token(parsed: Option<(i64, u32)>, raw: &str, style: &str) -> (text: String)
    ensures
        text@ == token_text(parsed, raw@, style@),
{
    match parsed {
        Some((seconds, _)) => {
            let mut text = String::from_str("<t:");
            push_signed(&mut text, seconds);
            text.append(":");
            text.append(style);
            text.append(">");
            assert(text@ =~= token_text(parsed, raw@, style@));
            text
        },
        None => String::from_str(raw),
    }
}

/// How a date of the store is shown in the given style.
pub fn format_when(raw: &str, style: &str) -> (text: String)
    ensures
        text@ == when_text(raw@, style@),
{
    timestamp_token(parse_rfc2822(raw), raw, style)
}

/// The lines of one stay: when the member joined and, where the stay has
/// ended, when and how.
pub open spec fn stay_lines(joined: Seq<char>, left: Option<Seq<char>>, banned: bool) -> Seq<
    Seq<char>,
> {
    let first = "joined — "@ + when_text(joined, "f"@);
    match left {
        Some(at) => seq![
            first,
            (if banned {
                "banned"@
            } else {
                "left"@
            }) + " — "@ + when_text(at, "f"@),
        ],
        None => seq![first],
    }
}

/// The lines of the stays in `rows`, in order.
pub open spec fn history_text(rows: Seq<MembershipRow>) -> Seq<Seq<char>>
    decreases rows.len(),
{
    if rows.len() == 0 {
        Seq::empty()
    } else {
        let row = rows.last();
        history_text(rows.drop_last()) + stay_lines(
            row.joined_at@,
            crate::labels::opt_text(row.left_at),
            row.banned,
        )
    }
}

/// The lines of a member's history: for each stay the join and, where the
/// stay has ended, the leave or the ban.
pub fn history_lines(rows: &Vec<MembershipRow>) -> (lines: Vec<String>)
    ensures
        crate::text::texts(lines@) == history_text(rows@),
{
    let mut lines: Vec<String> = Vec::new();
    let mut i: usize = 0;
    proof {
        assert(rows@.take(0) =~= Seq::<MembershipRow>::empty());
        assert(crate::text::texts(lines@) =~= Seq::<Seq<char>>::empty());
    }
    while i < rows.len()
        invariant
            0 <= i <= rows.len(),
            crate::text::texts(lines@) == history_text(rows@.take(i as int)),
        decreases rows.len() - i,
    {
        let row = &rows[i];
        let ghost before = crate::text::texts(lines@);
        proof {
            assert(rows@.take(i + 1).drop_last() =~= rows@.take(i as int));
            assert(rows@.take(i + 1).last() == rows@[i as int]);
        }
        let mut joined = String::from_str("joined — ");
        let when = format_when(row.joined_at.as_str(), "f");
        joined.append(when.as_str());
        lines.push(joined);
        match &row.left_at {
            Some(at) => {
                let mut left = if row.banned {
                    String::from_str("banned")
                } else {
                    String::from_str("left")
                };
                left.append(" — ");
                let when = format_when(at.as_str(), "f");
                left.append(when.as_str());
                lines.push(left);
            },
            None => {},
        }
        assert(crate::text::texts(lines@) =~= before + stay_lines(
            row.joined_at@,
            crate::labels::opt_text(row.left_at),
            row.banned,
        ));
        i = i + 1;
    }
    proof {
        assert(rows@.take(i as int) =~= rows@);
    }
    lines
}

/// Where a member stands by their last stay.
pub open spec fn status_text(joined: Seq<char>, left: Option<Seq<char>>) -> Seq<char> {
    match left {
        None => "Currently **in** the server (last joined: "@ + when_text(joined, "f"@) + ")."@,
        Some(at) => "Last seen in server: "@ + when_text(at, "f"@) + "."@,
    }
}

/// Where a member stands by their last stay: in the server since they last
/// joined, or last seen when they left.
pub fn status_line(last: &MembershipRow) -> (line: String)
    ensures
        line@ == status_text(last.joined_at@, crate::labels::opt_text(last.left_at)),
{
    match &last.left_at {
        None => {
            let mut line = String::from_str("Currently **in** the server (last joined: ");
            let when = format_when(last.joined_at.as_str(), "f");
            line.append(when.as_str());
            line.append(").");
            line
        },
        Some(at) => {
            let mut line = String::from_str("Last seen in server: ");
            let when = format_when(at.as_str(), "f");
            line.append(when.as_str());
            line.append(".");
            line
        },
    }
}

/// A join or an exit that falls into a window: when it happened, and which row
/// tells it.
#[derive(Debug, Clone, Copy, PartialEq, Eq, Structural)]
pub struct DatedRow {
    pub at: Instant,
    pub row: usize,
}

impl DatedRow {
    /// This exit comes before `other` in a report: it happened later, or at
    /// the same point and stands later among the rows.
    pub open spec fn newer_than(self, other: DatedRow) -> bool {
        ||| self.at.seconds > other.at.seconds
        ||| (self.at.seconds == other.at.seconds && self.at.nanos > other.at.nanos)
        ||| (self.at == other.at && self.row > other.row)
    }

    /// Whether this exit comes before `other` in a report.
    pub fn is_newer_than(&self, other: &DatedRow) -> (yes: bool)
        ensures
            yes == self.newer_than(*other),
    {
        self.at.seconds > other.at.seconds || (self.at.seconds == other.at.seconds
            && self.at.nanos > other.at.nanos) || (self.at.seconds == other.at.seconds
            && self.at.nanos == other.at.nanos && self.row > other.row)
    }
}

/// A parsed date as a point in time.
pub open spec fn to_instant(parsed: Option<(i64, u32)>) -> Option<Instant> {
    match parsed {
        Some((seconds, nanos)) => Some(Instant { seconds, nanos }),
        None => None,
    }
}

/// When each exit happened, where its date can be read.
pub open spec fn exit_times(rows: Seq<ExitRow>) -> Seq<Option<Instant>> {
    rows.map_values(|row: ExitRow| to_instant(rfc2822_instant(row.left_at@)))
}

/// Reads the date of each exit.
pub fn parse_exit_times(rows: &Vec<ExitRow>) -> (times: Vec<Option<Instant>>)
    ensures
        times@ == exit_times(rows@),
{
    let mut times: Vec<Option<Instant>> = Vec::new();
    let mut i: usize = 0;
    while i < rows.len()
        invariant
            0 <= i <= rows.len(),
            times@ == exit_times(rows@).take(i as int),
        decreases rows.len() - i,
    {
        let at = match parse_rfc2822(rows[i].left_at.as_str()) {
            Some((seconds, nanos)) => Some(Instant { seconds, nanos }),
            None => None,
        };
        times.push(at);
        assert(times@ =~= exit_times(rows@).take(i + 1));
        i = i + 1;
    }
    assert(times@ =~= exit_times(rows@));
    times
}

/// The exits that have a date and did not happen before `cutoff`, in the
/// order of their rows.
pub open spec fn dated_since(times: Seq<Option<Instant>>, cutoff: Instant) -> Seq<DatedRow>
    decreases times.len(),
{
    if times.len() == 0 {
        Seq::empty()
    } else {
        let before = dated_since(times.drop_last(), cutoff);
        match times.last() {
            Some(at) => if at.not_before(cutoff) {
                before.push(DatedRow { at, row: (times.len() - 1) as usize })
            } else {
                before
            },
            None => before,
        }
    }
}

/// Keeps the exits that have a date and did not happen before `cutoff`.
pub fn select_since(times: &Vec<Option<Instant>>, cutoff: Instant) -> (kept: Vec<DatedRow>)
    ensures
        kept@ == dated_since(times@, cutoff),
        forall|k: int| 0 <= k < kept@.len() ==> (#[trigger] kept@[k]).row < times@.len(),
{
    let mut kept: Vec<DatedRow> = Vec::new();
    let mut i: usize = 0;
    proof {
        assert(times@.take(0) =~= Seq::<Option<Instant>>::empty());
    }
    while i < times.len()
        invariant
            0 <= i <= times.len(),
            kept@ == dated_since(times@.take(i as int), cutoff),
            forall|k: int| 0 <= k < kept@.len() ==> (#[trigger] kept@[k]).row < i,
        decreases times.len() - i,
    {
        proof {
            assert(times@.take(i + 1).drop_last() =~= times@.take(i as int));
            assert(times@.take(i + 1).last() == times@[i as int]);
        }
        match times[i] {
            Some(at) => {
                if at.is_not_before(&cutoff) {
                    kept.push(DatedRow { at, row: i });
                }
            },
            None => {},
        }
        i = i + 1;
    }
    proof {
        assert(times@.take(i as int) =~= times@);
    }
    kept
}

/// No exit stands before one that comes before it in a report.
pub open spec fn newest_first(exits: Seq<DatedRow>) -> bool {
    forall|i: int, j: int|
        0 <= i < j < exits.len() ==> !(#[trigger] exits[j]).newer_than(#[trigger] exits[i])
}

proof fn lemma_insert_keeps_members(exits: Seq<DatedRow>, at: int, exit: DatedRow)
    requires
        0 <= at <= exits.len(),
    ensures
        exits.insert(at, exit).to_multiset() == exits.to_multiset().insert(exit),
{
    let left = exits.subrange(0, at);
    let right = exits.subrange(at, exits.len() as int);
    assert(exits.insert(at, exit) =~= left.push(exit) + right);
    assert(exits =~= left + right);
    vstd::seq_lib::lemma_multiset_commutative(left.push(exit), right);
    vstd::seq_lib::lemma_multiset_commutative(left, right);
    left.to_multiset_ensures();
    assert(exits.insert(at, exit).to_multiset() =~= exits.to_multiset().insert(exit));
}

/// Orders exits for a report: the latest first, and of two at the same point
/// the one that stands later among the rows.
pub fn sort_newest_first(exits: &Vec<DatedRow>) -> (sorted: Vec<DatedRow>)
    ensures
        newest_first(sorted@),
        sorted@.to_multiset() == exits@.to_multiset(),
        sorted@.len() == exits@.len(),
{
    let mut sorted: Vec<DatedRow> = Vec::new();
    let mut i: usize = 0;
    proof {
        assert(exits@.take(0) =~= Seq::<DatedRow>::empty());
    }
    while i < exits.len()
        invariant
            0 <= i <= exits.len(),
            newest_first(sorted@),
            sorted@.len() == i,
            sorted@.to_multiset() == exits@.take(i as int).to_multiset(),
        decreases exits.len() - i,
    {
        let exit = exits[i];
        let mut at: usize = 0;
        while at < sorted.len() && sorted[at].is_newer_than(&exit)
            invariant
                0 <= at <= sorted.len(),
                forall|k: int| 0 <= k < at ==> (#[trigger] sorted@[k]).newer_than(exit),
            decreases sorted.len() - at,
        {
            at = at + 1;
        }
        let ghost before = sorted@;
        proof {
            lemma_insert_keeps_members(before, at as int, exit);
            assert(exits@.take(i + 1) =~= exits@.take(i as int).push(exit));
            exits@.take(i as int).to_multiset_ensures();
            assert forall|a: int, b: int| 0 <= a < b < before.insert(at as int, exit).len() implies !(
            #[trigger] before.insert(at as int, exit)[b]).newer_than(
                #[trigger] before.insert(at as int, exit)[a],
            ) by {
                let after = before.insert(at as int, exit);
                if b == at {
                    assert(after[a] == before[a]);
                } else if a == at {
                    assert(after[b] == before[b - 1]);
                    if at < before.len() {
                        assert(!before[at as int].newer_than(exit));
                        if b - 1 > at {
                            assert(!before[b - 1].newer_than(before[at as int]));
                        }
                    }
                } else {
                    let a0 = if a < at { a } else { a - 1 };
                    let b0 = if b < at { b } else { b - 1 };
                    assert(after[a] == before[a0]);
                    assert(after[b] == before[b0]);
                    assert(!before[b0].newer_than(before[a0]));
                }
            }
        }
        sorted.insert(at, exit);
        i = i + 1;
    }
    proof {
        assert(exits@.take(i as int) =~= exits@);
    }
    sorted
}

/// How many of the exits were bans.
pub open spec fn banned_among(rows: Seq<ExitRow>, exits: Seq<DatedRow>) -> nat
    decreases exits.len(),
{
    if exits.len() == 0 {
        0
    } else {
        let rest = banned_among(rows, exits.drop_last());
        if rows[exits.last().row as int].banned {
            rest + 1
        } else {
            rest
        }
    }
}

/// Counts the bans among the exits.
pub fn count_banned(rows: &Vec<ExitRow>, exits: &Vec<DatedRow>) -> (banned: usize)
    requires
        forall|k: int| 0 <= k < exits@.len() ==> (#[trigger] exits@[k]).row < rows@.len(),
    ensures
        banned == banned_among(rows@, exits@),
        banned <= exits@.len(),
{
    let mut banned: usize = 0;
    let mut i: usize = 0;
    proof {
        assert(exits@.take(0) =~= Seq::<DatedRow>::empty());
    }
    while i < exits.len()
        invariant
            0 <= i <= exits.len(),
            banned <= i,
            banned == banned_among(rows@, exits@.take(i as int)),
            forall|k: int| 0 <= k < exits@.len() ==> (#[trigger] exits@[k]).row < rows@.len(),
        decreases exits.len() - i,
    {
        proof {
            assert(exits@.take(i + 1).drop_last() =~= exits@.take(i as int));
            assert(exits@.take(i + 1).last() == exits@[i as int]);
        }
        if rows[exits[i].row].banned {
            banned = banned + 1;
        }
        i = i + 1;
    }
    proof {
        assert(exits@.take(i as int) =~= exits@);
    }
    banned
}

/// The head line of a report of exits.
pub open spec fn exit_totals_text(left: nat, banned: nat) -> Seq<char> {
    "**Total:** "@ + decimal(left + banned) + " (left: "@ + decimal(left) + ", banned: "@
        + decimal(banned) + ")"@
}

/// The head line of a report of exits: how many there were, and how many of
/// them by leaving and by ban.
pub fn exit_totals_line(left: usize, banned: usize) -> (line: String)
    requires
        left + banned <= usize::MAX,
    ensures
        line@ == exit_totals_text(left as nat, banned as nat),
{
    let mut line = String::from_str("**Total:** ");
    push_decimal(&mut line, (left + banned) as u64);
    line.append(" (left: ");
    push_decimal(&mut line, left as u64);
    line.append(", banned: ");
    push_decimal(&mut line, banned as u64);
    line.append(")");
    assert(line@ =~= exit_totals_text(left as nat, banned as nat));
    line
}

/// The line of one exit in a report.
pub open spec fn exit_text(row: ExitRow) -> Seq<char> {
    "• "@ + member_label(
        row.user_id@,
        opt_text(row.account_username),
        opt_text(row.server_username),
    ) + " — "@ + (if row.banned {
        "**banned**"@
    } else {
        "left"@
    }) + " — "@ + when_text(row.left_at@, "R"@)
}

/// The line of one exit in a report: who, how, and how long ago.
pub fn exit_line(row: &ExitRow) -> (line: String)
    ensures
        line@ == exit_text(*row),
{
    let mut line = String::from_str("• ");
    let label = format_member_label(
        row.user_id.as_str(),
        &row.account_username,
        &row.server_username,
    );
    line.append(label.as_str());
    line.append(" — ");
    if row.banned {
        line.append("**banned**");
    } else {
        line.append("left");
    }
    line.append(" — ");
    let when = format_when(row.left_at.as_str(), "R");
    line.append(when.as_str());
    assert(line@ =~= exit_text(*row));
    line
}

/// The lines of a report of exits in the given order: the totals, an empty
/// line, then the first `show` exits, or all where there are fewer.
pub open spec fn exit_report_text(rows: Seq<ExitRow>, ordered: Seq<DatedRow>, show: nat) -> Seq<
    Seq<char>,
> {
    let banned = banned_among(rows, ordered);
    let shown = if show < ordered.len() {
        show
    } else {
        ordered.len()
    };
    seq![exit_totals_text((ordered.len() - banned) as nat, banned), Seq::empty()] + Seq::new(
        shown,
        |k: int| exit_text(rows[ordered[k].row as int]),
    )
}

/// The lines of a report of exits, once the exits of the window are chosen
/// and ordered.
pub fn exit_report_lines(rows: &Vec<ExitRow>, ordered: &Vec<DatedRow>, show: usize) -> (lines:
    Vec<String>)
    requires
        forall|k: int| 0 <= k < ordered@.len() ==> (#[trigger] ordered@[k]).row < rows@.len(),
    ensures
        texts(lines@) == exit_report_text(rows@, ordered@, show as nat),
{
    let banned = count_banned(rows, ordered);
    let left = ordered.len() - banned;
    let mut lines: Vec<String> = Vec::new();
    lines.push(exit_totals_line(left, banned));
    lines.push(String::new());
    let shown: usize = if show < ordered.len() {
        show
    } else {
        ordered.len()
    };
    let ghost head = seq![exit_totals_text(left as nat, banned as nat), Seq::<char>::empty()];
    assert(texts(lines@) =~= head);
    let mut k: usize = 0;
    while k < shown
        invariant
            0 <= k <= shown <= ordered.len(),
            head.len() == 2,
            forall|j: int| 0 <= j < ordered@.len() ==> (#[trigger] ordered@[j]).row < rows@.len(),
            texts(lines@) == head + Seq::new(
                k as nat,
                |j: int| exit_text(rows@[ordered@[j].row as int]),
            ),
        decreases shown - k,
    {
        let ghost before = texts(lines@);
        let line = exit_line(&rows[ordered[k].row]);
        lines.push(line);
        assert(texts(lines@) =~= before.push(exit_text(rows@[ordered@[k as int].row as int])));
        assert(texts(lines@) =~= head + Seq::new(
            (k + 1) as nat,
            |j: int| exit_text(rows@[ordered@[j].row as int]),
        ));
        k = k + 1;
    }
    assert(texts(lines@) =~= exit_report_text(rows@, ordered@, show as nat));
    lines
}

/// The report of the exits that did not happen before `cutoff`, latest
/// first, or nothing where no exit falls into the window.
pub fn exit_report(rows: &Vec<ExitRow>, cutoff: Instant, show: usize) -> (lines: Option<
    Vec<String>,
>)
    ensures
        lines is None <==> dated_since(exit_times(rows@), cutoff).len() == 0,
        lines is Some ==> exists|ordered: Seq<DatedRow>|
            {
                &&& newest_first(ordered)
                &&& ordered.to_multiset() == dated_since(exit_times(rows@), cutoff).to_multiset()
                &&& #[trigger] exit_report_text(rows@, ordered, show as nat) == texts(lines->0@)
            },
{
    let times = parse_exit_times(rows);
    let kept = select_since(&times, cutoff);
    if kept.len() == 0 {
        return None;
    }
    let ordered = sort_newest_first(&kept);
    proof {
        assert forall|k: int| 0 <= k < ordered@.len() implies (#[trigger] ordered@[k]).row
            < rows@.len() by {
            ordered@.to_multiset_ensures();
            kept@.to_multiset_ensures();
            assert(ordered@.contains(ordered@[k]));
            assert(kept@.to_multiset().count(ordered@[k]) > 0);
            assert(kept@.contains(ordered@[k]));
            let j = choose|j: int| 0 <= j < kept@.len() && kept@[j] == ordered@[k];
            assert(kept@[j].row < times@.len());
        }
    }
    let lines = exit_report_lines(rows, &ordered, show);
    Some(lines)
}

/// The line of one rejoiner in a report.
pub open spec fn rejoiner_text(row: RejoinerRow) -> Seq<char> {
    "• "@ + member_label(
        row.user_id@,
        opt_text(row.account_username),
        opt_text(row.server_username),
    ) + " — "@ + signed_decimal(row.rejoin_count as int) + " rejoins ("@ + signed_decimal(
        row.times_left as int,
    ) + " exits)"@
}

/// The line of one rejoiner in a report: who, how many stays, how many exits.
pub fn rejoiner_line(row: &RejoinerRow) -> (line: String)
    ensures
        line@ == rejoiner_text(*row),
{
    let mut line = String::from_str("• ");
    let label = format_member_label(
        row.user_id.as_str(),
        &row.account_username,
        &row.server_username,
    );
    line.append(label.as_str());
    line.append(" — ");
    push_signed(&mut line, row.rejoin_count);
    line.append(" rejoins (");
    push_signed(&mut line, row.times_left);
    line.append(" exits)");
    assert(line@ =~= rejoiner_text(*row));
    line
}

} // verus!
