//! Text helpers: decimal numerals and splitting of long reports into chunks.

use vstd::prelude::*;
use vstd::string::*;

verus! {

/// The character that stands for one decimal digit.
pub open spec fn digit_char(d: nat) -> char {
    if d == 0 {
        '0'
    } else if d == 1 {
        '1'
    } else if d == 2 {
        '2'
    } else if d == 3 {
        '3'
    } else if d == 4 {
        '4'
    } else if d == 5 {
        '5'
    } else if d == 6 {
        '6'
    } else if d == 7 {
        '7'
    } else if d == 8 {
        '8'
    } else {
        '9'
    }
}

/// The decimal numeral of `n`, most significant digit first, without leading zeros.
pub open spec fn decimal(n: nat) -> Seq<char>
    decreases n,
{
    if n < 10 {
        seq![digit_char(n)]
    } else {
        decimal(n / 10).push(digit_char(n % 10))
    }
}

/// The views of a sequence of strings.
pub open spec fn texts(lines: Seq<String>) -> Seq<Seq<char>> {
    lines.map_values(|line: String| line@)
}

fn digit_str(d: u64) -> (s: &'static str)
    requires
        d < 10,
    ensures
        s@ == seq![digit_char(d as nat)],
{
    proof {
        reveal_strlit("0");
        reveal_strlit("1");
        reveal_strlit("2");
        reveal_strlit("3");
        reveal_strlit("4");
        reveal_strlit("5");
        reveal_strlit("6");
        reveal_strlit("7");
        reveal_strlit("8");
        reveal_strlit("9");
    }
    let s = if d == 0 {
        "0"
    } else if d == 1 {
        "1"
    } else if d == 2 {
        "2"
    } else if d == 3 {
        "3"
    } else if d == 4 {
        "4"
    } else if d == 5 {
        "5"
    } else if d == 6 {
        "6"
    } else if d == 7 {
        "7"
    } else if d == 8 {
        "8"
    } else {
        "9"
    };
    assert(s@ =~= seq![digit_char(d as nat)]);
    s
}

/// Appends the decimal numeral of `n` to `out`.
pub fn push_decimal(out: &mut String, n: u64)
    ensures
        final(out)@ == old(out)@ + decimal(n as nat),
    decreases n,
{
    if n < 10 {
        out.append(digit_str(n));
    } else {
        let high: u64 = n / 10;
        let low: u64 = n % 10;
        push_decimal(out, high);
        out.append(digit_str(low));
        assert(out@ =~= old(out)@ + decimal(n as nat));
    }
}

/// The decimal numeral of `n` as a string.
pub fn decimal_string(n: u64) -> (out: String)
    ensures
        out@ == decimal(n as nat),
{
    let mut out = String::new();
    push_decimal(&mut out, n);
    assert(out@ =~= decimal(n as nat));
    out
}

/// The decimal numeral of a signed number: a minus sign before the numeral of
/// its magnitude where it is negative.
pub open spec fn signed_decimal(n: int) -> Seq<char> {
    if n < 0 {
        seq!['-'] + decimal((-n) as nat)
    } else {
        decimal(n as nat)
    }
}

/// Appends the decimal numeral of the signed number `n` to `out`.
pub fn push_signed(out: &mut String, n: i64)
    ensures
        final(out)@ == old(out)@ + signed_decimal(n as int),
{
    if n < 0 {
        let magnitude: u64 = if n == i64::MIN {
            9223372036854775808
        } else {
            (-n) as u64
        };
        proof {
            reveal_strlit("-");
        }
        out.append("-");
        push_decimal(out, magnitude);
        assert(out@ =~= old(out)@ + signed_decimal(n as int));
    } else {
        push_decimal(out, n as u64);
    }
}

/// One step of chunking: the closed chunks and the open chunk after `line` has
/// been taken in. An empty open chunk counts as no chunk at all; a line joins
/// the open chunk, after a line break, while the two still fit in `max`
/// characters, and otherwise closes it and opens the next.
pub open spec fn chunk_step(
    closed: Seq<Seq<char>>,
    open: Seq<char>,
    line: Seq<char>,
    max: nat,
) -> (Seq<Seq<char>>, Seq<char>) {
    if open.len() == 0 {
        (closed, line)
    } else if open.len() + line.len() + 1 > max {
        (closed.push(open), line)
    } else {
        (closed, open + seq!['\n'] + line)
    }
}

/// The closed chunks and the open chunk after all of `lines`.
pub open spec fn chunk_fold(lines: Seq<Seq<char>>, max: nat) -> (Seq<Seq<char>>, Seq<char>)
    decreases lines.len(),
{
    if lines.len() == 0 {
        (Seq::empty(), Seq::empty())
    } else {
        let before = chunk_fold(lines.drop_last(), max);
        chunk_step(before.0, before.1, lines.last(), max)
    }
}

/// The chunks that `lines` are split into: the closed ones, then the open one
/// if it holds anything.
pub open spec fn chunked(lines: Seq<Seq<char>>, max: nat) -> Seq<Seq<char>> {
    let end = chunk_fold(lines, max);
    if end.1.len() == 0 {
        end.0
    } else {
        end.0.push(end.1)
    }
}

/// The chunk is within `max` characters, or it is one of the lines: a line
/// that is over the limit by itself stands alone.
pub open spec fn fits_or_stands_alone(chunk: Seq<char>, lines: Seq<Seq<char>>, max: nat) -> bool {
    chunk.len() <= max || exists|j: int| 0 <= j < lines.len() && #[trigger] lines[j] == chunk
}

proof fn lemma_fold_chunks(lines: Seq<Seq<char>>, max: nat)
    ensures
        forall|i: int|
            0 <= i < chunk_fold(lines, max).0.len() ==> (#[trigger] chunk_fold(lines, max).0[i]).len()
                > 0 && fits_or_stands_alone(chunk_fold(lines, max).0[i], lines, max),
        chunk_fold(lines, max).1.len() == 0 || fits_or_stands_alone(
            chunk_fold(lines, max).1,
            lines,
            max,
        ),
    decreases lines.len(),
{
    if lines.len() > 0 {
        let before = lines.drop_last();
        let line = lines.last();
        lemma_fold_chunks(before, max);
        let held = chunk_fold(before, max);
        let now = chunk_fold(lines, max);
        assert(lines[lines.len() - 1] == line);
        assert forall|c: Seq<char>| fits_or_stands_alone(c, before, max) implies fits_or_stands_alone(
            c,
            lines,
            max,
        ) by {
            if c.len() > max {
                let j = choose|j: int| 0 <= j < before.len() && #[trigger] before[j] == c;
                assert(lines[j] == c);
            }
        }
        assert forall|i: int| 0 <= i < now.0.len() implies (#[trigger] now.0[i]).len() > 0
            && fits_or_stands_alone(now.0[i], lines, max) by {
            if i < held.0.len() {
                assert(now.0[i] == held.0[i]);
            }
        }
    }
}

/// No chunk is empty, and every chunk is within the limit unless it is a
/// single line that is over the limit by itself.
pub proof fn law_chunks_fit_or_stand_alone(lines: Seq<Seq<char>>, max: nat, i: int)
    requires
        0 <= i < chunked(lines, max).len(),
    ensures
        chunked(lines, max)[i].len() > 0,
        fits_or_stands_alone(chunked(lines, max)[i], lines, max),
{
    lemma_fold_chunks(lines, max);
}

/// The parts in a row, with a line break between each two.
pub open spec fn joined(parts: Seq<Seq<char>>) -> Seq<char>
    decreases parts.len(),
{
    if parts.len() == 0 {
        Seq::empty()
    } else if parts.len() == 1 {
        parts[0]
    } else {
        joined(parts.drop_last()) + seq!['\n'] + parts.last()
    }
}

proof fn lemma_fold_keeps_text(lines: Seq<Seq<char>>, max: nat)
    requires
        forall|i: int| 0 <= i < lines.len() ==> (#[trigger] lines[i]).len() > 0,
    ensures
        lines.len() == 0 ==> chunk_fold(lines, max).1.len() == 0 && chunk_fold(lines, max).0.len()
            == 0,
        lines.len() > 0 ==> chunk_fold(lines, max).1.len() > 0 && joined(
            chunk_fold(lines, max).0.push(chunk_fold(lines, max).1),
        ) == joined(lines),
    decreases lines.len(),
{
    if lines.len() > 0 {
        let before = lines.drop_last();
        let line = lines.last();
        assert(forall|i: int| 0 <= i < before.len() ==> before[i] == lines[i]);
        lemma_fold_keeps_text(before, max);
        let held = chunk_fold(before, max);
        let now = chunk_fold(lines, max);
        assert(line == lines[lines.len() - 1]);
        if before.len() == 0 {
            assert(now.0.push(now.1) =~= seq![line]);
            assert(lines =~= seq![line]);
        } else {
            let whole = held.0.push(held.1);
            assert(whole.drop_last() =~= held.0);
            if held.1.len() + line.len() + 1 > max {
                assert(now.0.push(now.1).drop_last() =~= whole);
            } else {
                assert(now.0.push(now.1).drop_last() =~= held.0);
                if held.0.len() > 0 {
                    assert(joined(now.0.push(now.1)) =~= joined(whole) + seq!['\n'] + line);
                }
            }
        }
    }
}

/// Where no line is empty, chunking loses and reorders nothing: the chunks in
/// a row, with line breaks between them, are the lines in a row.
pub proof fn law_chunks_keep_the_text(lines: Seq<Seq<char>>, max: nat)
    requires
        forall|i: int| 0 <= i < lines.len() ==> (#[trigger] lines[i]).len() > 0,
    ensures
        joined(chunked(lines, max)) == joined(lines),
{
    lemma_fold_keeps_text(lines, max);
}

/// Splits `lines` into chunks of whole lines joined by line breaks, each of at
/// most `max_chars` characters where its first line allows it.
pub fn chunk_lines(lines: &[String], max_chars: usize) -> (chunks: Vec<String>)
    ensures
        texts(chunks@) == chunked(texts(lines@), max_chars as nat),
{
    let mut chunks: Vec<String> = Vec::new();
    let mut current = String::new();
    let mut current_len: usize = 0;
    let mut i: usize = 0;
    proof {
        reveal_strlit("\n");
        assert(texts(chunks@) =~= Seq::<Seq<char>>::empty());
        assert(texts(lines@).take(0) =~= Seq::<Seq<char>>::empty());
    }
    while i < lines.len()
        invariant
            0 <= i <= lines.len(),
            current_len == current@.len(),
            "\n"@ == seq!['\n'],
            chunk_fold(texts(lines@).take(i as int), max_chars as nat) == (
                texts(chunks@),
                current@,
            ),
        decreases lines.len() - i,
    {
        let line = &lines[i];
        let line_len: usize = line.as_str().unicode_len();
        let ghost seen = texts(lines@).take(i as int);
        let ghost closed = texts(chunks@);
        let ghost open = current@;
        proof {
            let next = texts(lines@).take(i + 1);
            assert(next.drop_last() =~= seen);
            assert(next.last() == line@);
        }
        if current_len == 0 {
            current = line.clone();
            current_len = line_len;
        } else if current_len >= max_chars || line_len >= max_chars - current_len {
            chunks.push(current);
            current = line.clone();
            current_len = line_len;
            assert(texts(chunks@) =~= closed.push(open));
        } else {
            current.append("\n");
            current.append(line.as_str());
            current_len = current_len + line_len + 1;
            assert(current@ =~= open + seq!['\n'] + line@);
        }
        i = i + 1;
    }
    proof {
        assert(texts(lines@).take(i as int) =~= texts(lines@));
    }
    if current_len != 0 {
        let ghost closed = texts(chunks@);
        chunks.push(current);
        assert(texts(chunks@) =~= closed.push(current@));
    }
    chunks
}

} // verus!
