//! The time played that a save records: a log of sessions, each a line
//! with the times of its start and its end.

use vstd::prelude::*;
use chrono::DateTime;
use crate::text::{lines_of, text_lines, text_words, trim, trimmed, views, words_of};

verus! {

/// The whole seconds from one RFC 3339 time to another, as
/// `DateTime::parse_from_rfc3339` reads the two and
/// `signed_duration_since` with `num_seconds` measures the time between
/// them; nothing where either is not such a time.
pub uninterp spec fn rfc3339_seconds_between(start: Seq<char>, end: Seq<char>) -> Option<i64>;

/// Reads both texts with `DateTime::parse_from_rfc3339`, subtracts the
/// first time from the second with `signed_duration_since` and takes the
/// whole seconds with `num_seconds`. The result is named
/// [`rfc3339_seconds_between`].
#[verifier::external_body]
fn seconds_between(start: &str, end: &str) -> (r: Option<i64>)
    ensures
        r == rfc3339_seconds_between(start@, end@),
{
    let from = DateTime::parse_from_rfc3339(start).ok()?;
    let to = DateTime::parse_from_rfc3339(end).ok()?;
    Some(to.signed_duration_since(from).num_seconds())
}

/// The seconds that one line of the log records: a line of two words,
/// both of them times, records the seconds between them; any other line
/// none.
pub open spec fn line_seconds(line: Seq<char>) -> int {
    let words = text_words(line);
    if words.len() == 2 {
        match rfc3339_seconds_between(words[0], words[1]) {
            Some(s) => s as int,
            None => 0,
        }
    } else {
        0
    }
}

/// The seconds that the lines record together.
pub open spec fn lines_seconds(lines: Seq<Seq<char>>) -> int
    decreases lines.len(),
{
    if lines.len() == 0 {
        0
    } else {
        lines_seconds(lines.drop_last()) + line_seconds(lines.last())
    }
}

/// The seconds that one line of the log records, given its words and the
/// seconds between the first two of them.
pub fn seconds_of_line(word_count: usize, between: Option<i64>) -> (r: i64)
    ensures
        r == if word_count == 2 {
            match between {
                Some(s) => s,
                None => 0,
            }
        } else {
            0
        },
{
    if word_count == 2 {
        match between {
            Some(s) => s,
            None => 0,
        }
    } else {
        0
    }
}

/// The sum stays within what a count of lines allows.
proof fn lemma_lines_seconds_bound(lines: Seq<Seq<char>>)
    ensures
        -lines.len() * 0x8000_0000_0000_0000 <= lines_seconds(lines) <= lines.len() * 0x8000_0000_0000_0000,
    decreases lines.len(),
{
    if lines.len() > 0 {
        lemma_lines_seconds_bound(lines.drop_last());
    }
}

/// The seconds that a playtime log records.
pub fn parse_playtime_content(content: &str) -> (r: i128)
    ensures
        r == lines_seconds(text_lines(content@)),
{
    let lines = lines_of(content);
    let ghost all = views(lines@);
    let mut total: i128 = 0;
    let mut i: usize = 0;
    while i < lines.len()
        invariant
            i <= lines.len(),
            all == views(lines@),
            total == lines_seconds(all.take(i as int)),
        decreases lines.len() - i,
    {
        proof {
            let next = all.take(i as int + 1);
            assert(next.drop_last() == all.take(i as int));
            assert(next.last() == lines@[i as int]@);
            lemma_lines_seconds_bound(all.take(i as int));
        }
        let words = words_of(lines[i].as_str());
        let between = if words.len() == 2 {
            assert(views(words@)[0] == words@[0]@);
            assert(views(words@)[1] == words@[1]@);
            seconds_between(words[0].as_str(), words[1].as_str())
        } else {
            None
        };
        let seconds = seconds_of_line(words.len(), between);
        total = total + seconds as i128;
        i = i + 1;
    }
    proof {
        assert(all.take(lines.len() as int) == all);
    }
    total
}

/// The text that is read as a playtime log: the log of the sessions that
/// ended, then a line with the start and the end of the last session.
pub open spec fn joined_log(log: Seq<char>, start: Seq<char>, end: Seq<char>) -> Seq<char> {
    trimmed(log) + "\n"@ + trimmed(start) + " "@ + trimmed(end)
}

/// The seconds that a save records, from the contents of its three
/// playtime files.
pub fn calculate_playtime(log: &str, start: &str, end: &str) -> (r: i128)
    ensures
        r == lines_seconds(text_lines(joined_log(log@, start@, end@))),
{
    let mut text = trim(log);
    text.append("\n");
    text.append(trim(start).as_str());
    text.append(" ");
    text.append(trim(end).as_str());
    parse_playtime_content(text.as_str())
}

/// Hours with one decimal, as tenths: the seconds divided by three
/// hundred and sixty and rounded to the nearest whole, halves away from
/// zero.
pub open spec fn tenths_of_hours(seconds: int) -> int {
    if seconds >= 0 {
        (seconds + 180) / 360
    } else {
        -((-seconds + 180) / 360)
    }
}

/// The hours that a number of seconds makes, in tenths.
pub fn playtime_tenths_of_hours(seconds: i64) -> (r: i64)
    ensures
        r == tenths_of_hours(seconds as int),
{
    let wide: i128 = seconds as i128;
    if wide >= 0 {
        let tenths: i128 = (wide + 180) / 360;
        tenths as i64
    } else {
        let tenths: i128 = (180 - wide) / 360;
        (-tenths) as i64
    }
}

} // verus!
