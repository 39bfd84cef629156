//! Kick-off texts as the source pages print them, resolved to instants: the
//! date and time are read as civil time in London and mapped to seconds
//! since the Unix epoch.

use crate::calendar::{CivilDate, CivilTime};
use crate::error::TimeError;
use crate::text::{signed_decimal, signed_decimal_text, texts};
use chrono::offset::LocalResult;
use chrono::{Datelike, NaiveDate, NaiveTime, TimeZone, Timelike};
use chrono_tz::Europe::London;
use vstd::prelude::*;
use vstd::string::*;

verus! {

/// What a civil date and time amount to on London's clock.
#[derive(Clone, Copy, Debug, PartialEq, Eq, Structural)]
pub enum LocalResolution {
    /// No instant: the clock skipped this time, or the instant lies beyond
    /// what chrono can express.
    Gap,
    /// The one instant, in seconds since the Unix epoch.
    Unique(i64),
    /// The clock showed this time twice: the earlier and the later instant.
    Overlap(i64, i64),
}

/// What chrono reads from `text` as a date under the format `pattern`;
/// `None` where it reports an error.
pub uninterp spec fn chrono_date(text: Seq<char>, pattern: Seq<char>) -> Option<CivilDate>;

/// What chrono reads from `text` as a time of day under the format
/// `pattern`; `None` where it reports an error.
pub uninterp spec fn chrono_time(text: Seq<char>, pattern: Seq<char>) -> Option<CivilTime>;

/// How the time zone data for Europe/London maps a civil date and time to
/// instants.
pub uninterp spec fn london_resolution(date: CivilDate, time: CivilTime) -> LocalResolution;

/// The date format: day of the month, month name, year.
pub open spec fn date_pattern() -> Seq<char> {
    "%d %B %Y"@
}

/// The time format: hour and minute of a 24-hour clock.
pub open spec fn time_pattern() -> Seq<char> {
    "%H:%M"@
}

/// The character is one of `0` to `9`.
pub open spec fn is_ascii_digit(c: char) -> bool {
    '0' as u32 <= c as u32 <= '9' as u32
}

/// The two letters are one of the endings `st`, `nd`, `rd`, `th`.
pub open spec fn is_ordinal_pair(a: char, b: char) -> bool {
    ||| a == 's' && b == 't'
    ||| a == 'n' && b == 'd'
    ||| a == 'r' && b == 'd'
    ||| a == 't' && b == 'h'
}

/// An ordinal ending starts at `i`: two such letters directly behind a digit.
pub open spec fn ordinal_at(s: Seq<char>, i: int) -> bool {
    &&& 1 <= i
    &&& i + 1 < s.len()
    &&& is_ascii_digit(s[i - 1])
    &&& is_ordinal_pair(s[i], s[i + 1])
}

/// The character at `i` belongs to an ordinal ending.
pub open spec fn in_ordinal(s: Seq<char>, i: int) -> bool {
    ordinal_at(s, i) || ordinal_at(s, i - 1)
}

/// The first `n` characters of `s` without those that belong to an ordinal
/// ending.
pub open spec fn without_ordinals_upto(s: Seq<char>, n: int) -> Seq<char>
    decreases n,
{
    if n <= 0 {
        Seq::empty()
    } else if in_ordinal(s, n - 1) {
        without_ordinals_upto(s, n - 1)
    } else {
        without_ordinals_upto(s, n - 1).push(s[n - 1])
    }
}

/// `s` without its ordinal endings: "14th September" becomes "14 September".
pub open spec fn without_ordinals(s: Seq<char>) -> Seq<char> {
    without_ordinals_upto(s, s.len() as int)
}

/// What follows the first space of `s`: the text behind the weekday.
pub open spec fn after_weekday(s: Seq<char>) -> Option<Seq<char>> {
    match s.index_of_first(' ') {
        Some(i) => Some(s.skip(i + 1)),
        None => None,
    }
}

/// The text handed to the date parser for a date as the page prints it:
/// weekday and ordinal endings removed, the year added behind a space.
pub open spec fn dated_text(date_text: Seq<char>, year: int) -> Option<Seq<char>> {
    match after_weekday(date_text) {
        Some(rest) => Some(without_ordinals(rest) + " "@ + signed_decimal(year)),
        None => None,
    }
}

/// The instant a resolution stands for, if it is a single one.
pub open spec fn instant_of_spec(resolution: LocalResolution) -> Result<i64, TimeError> {
    match resolution {
        LocalResolution::Unique(instant) => Ok(instant),
        _ => Err(TimeError::AmbiguousOrInvalidLocalTime),
    }
}

/// The instant of a parsed date and time on London's clock; a parse that
/// failed on either side is a parse error.
pub open spec fn instant_of_civil(date: Option<CivilDate>, time: Option<CivilTime>) -> Result<
    i64,
    TimeError,
> {
    match (date, time) {
        (Some(d), Some(t)) => instant_of_spec(london_resolution(d, t)),
        _ => Err(TimeError::ParseError),
    }
}

/// The instant that a time and a date text of the year `year` name.
pub open spec fn resolve_spec(time_text: Seq<char>, date_text: Seq<char>, year: int) -> Result<
    i64,
    TimeError,
> {
    match dated_text(date_text, year) {
        Some(full) => instant_of_civil(
            chrono_date(full, date_pattern()),
            chrono_time(time_text, time_pattern()),
        ),
        None => Err(TimeError::ParseError),
    }
}

/// The instant of the `i`-th pair of a batch.
pub open spec fn resolved_at(
    times: Seq<Seq<char>>,
    dates: Seq<Seq<char>>,
    year: int,
    i: int,
) -> Result<i64, TimeError> {
    resolve_spec(times[i], dates[i], year)
}

/// Calls `chrono::NaiveDate::parse_from_str`. Trusted: the outcome depends
/// on the two texts alone, and a date that chrono hands back is a day of the
/// calendar within the years chrono supports.
#[verifier::external_body]
fn parse_date(text: &str, pattern: &str) -> (date: Option<CivilDate>)
    ensures
        date == chrono_date(text@, pattern@),
        date matches Some(d) ==> d.is_valid(),
{
    match NaiveDate::parse_from_str(text, pattern) {
        Ok(d) => Some(CivilDate { year: d.year(), month: d.month(), day: d.day() }),
        Err(_) => None,
    }
}

/// Calls `chrono::NaiveTime::parse_from_str`. Trusted: the outcome depends
/// on the two texts alone, and a time that chrono hands back has an hour
/// below 24 and minute and second below 60.
#[verifier::external_body]
fn parse_time(text: &str, pattern: &str) -> (time: Option<CivilTime>)
    ensures
        time == chrono_time(text@, pattern@),
        time matches Some(t) ==> t.is_valid(),
{
    match NaiveTime::parse_from_str(text, pattern) {
        Ok(t) => Some(CivilTime { hour: t.hour(), minute: t.minute(), second: t.second() }),
        Err(_) => None,
    }
}

/// Builds the civil date and time with `chrono::NaiveDate::from_ymd_opt` and
/// `and_hms_opt`, which take every valid date and time, calls
/// `chrono::TimeZone::from_local_datetime` on `chrono_tz::Europe::London` and
/// takes the Unix timestamp of each instant it gives. Trusted: the outcome
/// depends on the date and time alone.
#[verifier::external_body]
fn resolve_in_london(date: CivilDate, time: CivilTime) -> (resolution: LocalResolution)
    requires
        date.is_valid(),
        time.is_valid(),
    ensures
        resolution == london_resolution(date, time),
{
    let civil = NaiveDate::from_ymd_opt(date.year, date.month, date.day).unwrap().and_hms_opt(
        time.hour,
        time.minute,
        time.second,
    ).unwrap();
    match London.from_local_datetime(&civil) {
        LocalResult::None => LocalResolution::Gap,
        LocalResult::Single(t) => LocalResolution::Unique(t.timestamp()),
        LocalResult::Ambiguous(a, b) => LocalResolution::Overlap(a.timestamp(), b.timestamp()),
    }
}

/// The text behind the first space of `text`, or `None` if `text` has no
/// space.
pub fn strip_weekday(text: &str) -> (rest: Option<String>)
    ensures
        rest is Some <==> after_weekday(text@) is Some,
        rest matches Some(r) ==> Some(r@) == after_weekday(text@),
{
    let n = text.unicode_len();
    let mut i: usize = 0;
    while i < n
        invariant
            n == text@.len(),
            i <= n,
            forall|j: int| 0 <= j < i ==> text@[j] != ' ',
        decreases n - i,
    {
        if text.get_char(i) == ' ' {
            let rest = String::from_str(text.substring_char(i + 1, n));
            proof {
                text@.index_of_first_ensures(' ');
                assert(text@.contains(' '));
                let first = text@.index_of_first(' ')->0;
                assert(first == i);
                assert(rest@ =~= text@.skip(i + 1));
            }
            return Some(rest);
        }
        i += 1;
    }
    proof {
        text@.index_of_first_ensures(' ');
        if text@.contains(' ') {
            let k = choose|k: int| 0 <= k < text@.len() && text@[k] == ' ';
            assert(text@[k] != ' ');
        }
    }
    None
}

fn is_digit(c: char) -> (digit: bool)
    ensures
        digit == is_ascii_digit(c),
{
    let code = c as u32;
    48 <= code && code <= 57
}

fn is_ordinal(a: char, b: char) -> (ordinal: bool)
    ensures
        ordinal == is_ordinal_pair(a, b),
{
    (a == 's' && b == 't') || (a == 'n' && b == 'd') || (a == 'r' && b == 'd') || (a == 't' && b
        == 'h')
}

/// Whether an ordinal ending starts at `i`.
fn starts_ordinal(text: &str, n: usize, i: usize) -> (starts: bool)
    requires
        n == text@.len(),
        i < n,
    ensures
        starts == ordinal_at(text@, i as int),
{
    if 1 <= i && i < n - 1 {
        is_digit(text.get_char(i - 1)) && is_ordinal(text.get_char(i), text.get_char(i + 1))
    } else {
        false
    }
}

/// Removes the ordinal endings from `text`.
pub fn strip_ordinals(text: &str) -> (stripped: String)
    ensures
        stripped@ == without_ordinals(text@),
{
    let n = text.unicode_len();
    let mut stripped = String::new();
    let mut i: usize = 0;
    while i < n
        invariant
            n == text@.len(),
            i <= n,
            stripped@ == without_ordinals_upto(text@, i as int),
        decreases n - i,
    {
        let dropped = starts_ordinal(text, n, i) || (i >= 1 && starts_ordinal(text, n, i - 1));
        if !dropped {
            stripped.append(text.substring_char(i, i + 1));
        }
        i += 1;
    }
    stripped
}

/// The text to hand to the date parser for `date_text` in the year `year`,
/// or `None` if `date_text` has no weekday in front.
pub fn date_for_parsing(date_text: &str, year: i32) -> (full: Option<String>)
    ensures
        full is Some <==> dated_text(date_text@, year as int) is Some,
        full matches Some(f) ==> Some(f@) == dated_text(date_text@, year as int),
{
    match strip_weekday(date_text) {
        Some(rest) => {
            let mut full = strip_ordinals(rest.as_str());
            full.append(" ");
            let digits = signed_decimal_text(year);
            full.append(digits.as_str());
            Some(full)
        },
        None => None,
    }
}

/// Reads `text` as day, month name and year.
pub fn civil_date_of(text: &str) -> (date: Option<CivilDate>)
    ensures
        date == chrono_date(text@, date_pattern()),
        date matches Some(d) ==> d.is_valid(),
{
    parse_date(text, "%d %B %Y")
}

/// Reads `text` as hour and minute.
pub fn civil_time_of(text: &str) -> (time: Option<CivilTime>)
    ensures
        time == chrono_time(text@, time_pattern()),
        time matches Some(t) ==> t.is_valid(),
{
    parse_time(text, "%H:%M")
}

/// Accepts a resolution that names one instant and refuses a gap or an
/// overlap.
pub fn instant_of(resolution: LocalResolution) -> (instant: Result<i64, TimeError>)
    ensures
        instant == instant_of_spec(resolution),
{
    match resolution {
        LocalResolution::Unique(instant) => Ok(instant),
        _ => Err(TimeError::AmbiguousOrInvalidLocalTime),
    }
}

/// The instant of a civil date and time in London.
pub fn resolve_civil(date: CivilDate, time: CivilTime) -> (instant: Result<i64, TimeError>)
    requires
        date.is_valid(),
        time.is_valid(),
    ensures
        instant == instant_of_spec(london_resolution(date, time)),
{
    instant_of(resolve_in_london(date, time))
}

/// The instant of what the parsers made of a date and a time text: a parse
/// error if either of them failed, else the instant of the two in London.
pub fn resolve_parsed(date: Option<CivilDate>, time: Option<CivilTime>) -> (instant: Result<
    i64,
    TimeError,
>)
    requires
        date matches Some(d) ==> d.is_valid(),
        time matches Some(t) ==> t.is_valid(),
    ensures
        instant == instant_of_civil(date, time),
{
    match (date, time) {
        (Some(d), Some(t)) => resolve_civil(d, t),
        _ => Err(TimeError::ParseError),
    }
}

/// The instant that `time_text` ("15:30") on `date_text` ("Saturday 14th
/// September") of the year `year` names in London.
pub fn resolve(time_text: &str, date_text: &str, year: i32) -> (instant: Result<i64, TimeError>)
    ensures
        instant == resolve_spec(time_text@, date_text@, year as int),
{
    match date_for_parsing(date_text, year) {
        Some(full) => resolve_parsed(civil_date_of(full.as_str()), civil_time_of(time_text)),
        None => Err(TimeError::ParseError),
    }
}

/// Resolves a batch of kick-offs, `times[i]` on `dates[i]`, in input order.
/// The batch stands or falls as a whole: the first pair that does not
/// resolve gives its error and no instant is handed out.
pub fn format_datetimes(times: Vec<String>, dates: Vec<String>, year: i32) -> (instants: Result<
    Vec<i64>,
    TimeError,
>)
    requires
        times@.len() == dates@.len(),
    ensures
        instants is Ok <==> forall|i: int|
            0 <= i < times@.len() ==> (#[trigger] resolved_at(
                texts(times@),
                texts(dates@),
                year as int,
                i,
            )) is Ok,
        instants matches Ok(v) ==> {
            &&& v@.len() == times@.len()
            &&& forall|i: int|
                0 <= i < times@.len() ==> #[trigger] resolved_at(
                    texts(times@),
                    texts(dates@),
                    year as int,
                    i,
                ) == Ok::<i64, TimeError>(v@[i])
        },
        instants matches Err(e) ==> exists|k: int|
            {
                &&& 0 <= k < times@.len()
                &&& #[trigger] resolved_at(texts(times@), texts(dates@), year as int, k) == Err::<
                    i64,
                    TimeError,
                >(e)
                &&& forall|j: int|
                    0 <= j < k ==> (#[trigger] resolved_at(
                        texts(times@),
                        texts(dates@),
                        year as int,
                        j,
                    )) is Ok
            },
{
    let ghost time_texts = texts(times@);
    let ghost date_texts = texts(dates@);
    let mut resolved: Vec<i64> = Vec::new();
    let mut i: usize = 0;
    while i < times.len()
        invariant
            times@.len() == dates@.len(),
            time_texts == texts(times@),
            date_texts == texts(dates@),
            i <= times@.len(),
            resolved@.len() == i,
            forall|j: int|
                0 <= j < i ==> #[trigger] resolved_at(time_texts, date_texts, year as int, j)
                    == Ok::<i64, TimeError>(resolved@[j]),
        decreases times@.len() - i,
    {
        match resolve(times[i].as_str(), dates[i].as_str(), year) {
            Ok(instant) => {
                resolved.push(instant);
            },
            Err(e) => {
                assert(resolved_at(time_texts, date_texts, year as int, i as int) == Err::<
                    i64,
                    TimeError,
                >(e));
                return Err(e);
            },
        }
        i += 1;
    }
    Ok(resolved)
}

/// A text in which no ordinal ending stands comes out of the stripping as
/// it went in: a date that is already plain is read as it is.
pub proof fn lemma_plain_text_is_unchanged(s: Seq<char>)
    requires
        forall|i: int| 0 <= i < s.len() ==> !ordinal_at(s, i),
    ensures
        without_ordinals(s) == s,
{
    lemma_plain_prefix_is_unchanged(s, s.len() as int);
}

/// The first `n` characters of a text without ordinal endings are kept.
proof fn lemma_plain_prefix_is_unchanged(s: Seq<char>, n: int)
    requires
        0 <= n <= s.len(),
        forall|i: int| 0 <= i < s.len() ==> !ordinal_at(s, i),
    ensures
        without_ordinals_upto(s, n) == s.take(n),
    decreases n,
{
    if n > 0 {
        lemma_plain_prefix_is_unchanged(s, n - 1);
    } else {
    }
}

} // verus!
