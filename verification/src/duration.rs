//! Time spans written for people: `5s`, `10ms`, `1h 30min`.

use humantime::DurationError;
use std::time::Duration;
use vstd::prelude::*;
use vstd::slice::*;

use crate::text::{chars_of, decimal_text, digit_value, is_digit};

verus! {

/// The nanoseconds of a second.
pub const SECOND: u64 = 1_000_000_000;

/// Why a text is no span. The places are byte offsets into the text.
#[derive(Debug, Clone, Copy, PartialEq, Eq)]
pub enum SpanError {
    /// The character at this place is neither a digit, a letter nor a blank.
    InvalidCharacter(usize),
    /// A number has to start at this place, and none does.
    NumberExpected(usize),
    /// The letters from the first place up to the second are no unit.
    UnknownUnit(usize, usize),
    /// A number or the sum is too large.
    NumberOverflow,
    /// The text holds nothing but blanks.
    Empty,
}

impl SpanError {
    /// The text of [`SpanError::message`]: fixed words and the places as
    /// decimal numbers for the errors that hold places, and for the other
    /// two what the span parser's own rendering gives.
    pub open spec fn message_text(self) -> Seq<char> {
        match self {
            SpanError::InvalidCharacter(at) => "invalid character at "@ + decimal_text(at as nat),
            SpanError::NumberExpected(at) => "expected number at "@ + decimal_text(at as nat),
            SpanError::UnknownUnit(start, end) => "unknown unit at "@ + decimal_text(start as nat)
                + "-"@ + decimal_text(end as nat),
            SpanError::NumberOverflow => span_error_text(self),
            SpanError::Empty => span_error_text(self),
        }
    }

    /// The error in words.
    pub fn message(&self) -> (text: String)
        ensures
            text@ == self.message_text(),
    {
        span_error_to_string(self)
    }
}

/// What reading a span from a text gives: nothing for a text that cannot be
/// read, else the span or the reason for refusing the text.
pub open spec fn span_of_text(text: Seq<char>) -> Option<Result<Duration, SpanError>> {
    if is_readable(text) {
        Some(duration_of_text(text))
    } else {
        None
    }
}

/// Whether a span text can be read: what it counts up to is not `u64::MAX`
/// seconds and one second more in nanoseconds, or one of its numbers is
/// beyond `u64::MAX`.
pub open spec fn is_readable(text: Seq<char>) -> bool {
    span_count(text) != (u64::MAX as nat, SECOND as nat) || largest_number(text) > u64::MAX
}

/// What a text counts up to, in seconds and nanoseconds: each of its numbers
/// is counted by the unit that follows it. A number without a unit counts
/// for nothing.
pub open spec fn span_count(text: Seq<char>) -> (nat, nat) {
    counted(finished_count(text), number_at_end(text), unit_at_end(text))
}

/// What the numbers of a text count up to whose units have ended: all but
/// the one whose unit the text ends in.
pub open spec fn finished_count(text: Seq<char>) -> (nat, nat)
    decreases text.len(),
{
    if text.len() == 0 {
        (0, 0)
    } else if is_letter(text.last()) {
        finished_count(text.drop_last())
    } else {
        counted(
            finished_count(text.drop_last()),
            number_at_end(text.drop_last()),
            unit_at_end(text.drop_last()),
        )
    }
}

/// A count of seconds and nanoseconds with a number of units more, and the
/// count as it is where no letter follows the number. The nanoseconds are
/// carried over to the seconds once they are more than a second; at one
/// second exactly they stay.
pub open spec fn counted(count: (nat, nat), number: nat, unit: Seq<char>) -> (nat, nat) {
    let seconds = count.0 + number * unit_parts(unit).0;
    let nanos = count.1 + number * unit_parts(unit).1;
    if unit.len() == 0 {
        count
    } else if nanos > SECOND {
        (seconds + nanos / (SECOND as nat), nanos % (SECOND as nat))
    } else {
        (seconds, nanos)
    }
}

/// The last number of a text: its digits after the last unit that has ended,
/// taken as one decimal number whatever stands between them.
pub open spec fn number_at_end(text: Seq<char>) -> nat
    decreases text.len(),
{
    if text.len() == 0 {
        0
    } else if is_letter(text.last()) {
        number_at_end(text.drop_last())
    } else {
        let before: nat = if unit_at_end(text.drop_last()).len() > 0 {
            0
        } else {
            number_at_end(text.drop_last())
        };
        if is_digit(text.last()) {
            10 * before + digit_value(text.last())
        } else {
            before
        }
    }
}

/// The letters that a text ends in.
pub open spec fn unit_at_end(text: Seq<char>) -> Seq<char>
    decreases text.len(),
{
    if text.len() == 0 || !is_letter(text.last()) {
        Seq::empty()
    } else {
        unit_at_end(text.drop_last()).push(text.last())
    }
}

/// The largest of the numbers of a text.
pub open spec fn largest_number(text: Seq<char>) -> nat
    decreases text.len(),
{
    if text.len() == 0 {
        0
    } else if number_at_end(text) > largest_number(text.drop_last()) {
        number_at_end(text)
    } else {
        largest_number(text.drop_last())
    }
}

/// Whether `c` is one of the ASCII letters, in either case.
pub open spec fn is_letter(c: char) -> bool {
    ('a' <= c && c <= 'z') || ('A' <= c && c <= 'Z')
}

/// The seconds and the nanoseconds of a unit: one of the two is 0, and both
/// are for letters that are no unit.
pub open spec fn unit_parts(unit: Seq<char>) -> (nat, nat) {
    if unit == "nanos"@ || unit == "nsec"@ || unit == "ns"@ {
        (0, 1)
    } else if unit == "usec"@ || unit == "us"@ {
        (0, 1_000)
    } else if unit == "millis"@ || unit == "msec"@ || unit == "ms"@ {
        (0, 1_000_000)
    } else if unit == "seconds"@ || unit == "second"@ || unit == "secs"@ || unit == "sec"@ || unit
        == "s"@ {
        (1, 0)
    } else if unit == "minutes"@ || unit == "minute"@ || unit == "min"@ || unit == "mins"@ || unit
        == "m"@ {
        (60, 0)
    } else if unit == "hours"@ || unit == "hour"@ || unit == "hr"@ || unit == "hrs"@ || unit
        == "h"@ {
        (3_600, 0)
    } else if unit == "days"@ || unit == "day"@ || unit == "d"@ {
        (86_400, 0)
    } else if unit == "weeks"@ || unit == "week"@ || unit == "w"@ {
        (604_800, 0)
    } else if unit == "months"@ || unit == "month"@ || unit == "M"@ {
        (2_630_016, 0)
    } else if unit == "years"@ || unit == "year"@ || unit == "y"@ {
        (31_557_600, 0)
    } else {
        (0, 0)
    }
}

/// A count of seconds, exact up to `u64::MAX` and one more than that for
/// every count beyond.
pub open spec fn capped(seconds: nat) -> nat {
    if seconds > u64::MAX {
        (u64::MAX + 1) as nat
    } else {
        seconds
    }
}

/// The largest number of a text is at least the largest number of each of
/// its beginnings.
pub proof fn lemma_largest_number_grows(text: Seq<char>, n: int)
    requires
        0 <= n <= text.len(),
    ensures
        largest_number(text.take(n)) <= largest_number(text),
    decreases text.len() - n,
{
    if n == text.len() {
        assert(text.take(n) =~= text);
    } else {
        lemma_largest_number_grows(text, n + 1);
        assert(text.take(n + 1).drop_last() =~= text.take(n));
    }
}

/// Reads a span, unless the text cannot be read.
pub fn parse_span(text: &str) -> (parsed: Option<Result<Duration, SpanError>>)
    ensures
        parsed == span_of_text(text@),
{
    if can_read(text) {
        Some(parse_duration(text))
    } else {
        None
    }
}

/// Tells whether a span text can be read.
pub fn can_read(text: &str) -> (readable: bool)
    ensures
        readable == is_readable(text@),
{
    let chars = chars_of(text);
    let all = chars.as_slice();
    let mut seconds: u128 = 0;
    let mut nanos: u64 = 0;
    let mut number: u64 = 0;
    let mut unit_start: usize = 0;
    let mut i: usize = 0;
    while i < all.len()
        invariant
            unit_start <= i <= all.len(),
            all@ == text@,
            unit_at_end(all@.take(i as int)) == all@.subrange(unit_start as int, i as int),
            number == number_at_end(all@.take(i as int)),
            largest_number(all@.take(i as int)) <= u64::MAX,
            seconds == capped(finished_count(all@.take(i as int)).0),
            nanos == finished_count(all@.take(i as int)).1,
            nanos <= SECOND,
        decreases all.len() - i,
    {
        let c = all[i];
        let letter = ('a' <= c && c <= 'z') || ('A' <= c && c <= 'Z');
        proof {
            assert(all@.take(i + 1).drop_last() =~= all@.take(i as int));
            if letter {
                assert(all@.subrange(unit_start as int, i + 1) =~= all@.subrange(
                    unit_start as int,
                    i as int,
                ).push(c));
            } else {
                assert(all@.subrange(i + 1, i + 1) =~= Seq::<char>::empty());
            }
        }
        if !letter {
            if unit_start < i {
                let unit = unit_factors(slice_subrange(all, unit_start, i));
                let count = count_on(seconds, nanos, number, unit.0, unit.1);
                seconds = count.0;
                nanos = count.1;
                number = 0;
            }
            if '0' <= c && c <= '9' {
                let grown = match number.checked_mul(10) {
                    Some(tens) => tens.checked_add(c as u64 - '0' as u64),
                    None => None,
                };
                match grown {
                    Some(more) => {
                        number = more;
                    },
                    None => {
                        proof {
                            lemma_largest_number_grows(all@, i + 1);
                        }
                        return true;
                    },
                }
            }
            unit_start = i + 1;
        }
        i = i + 1;
    }
    proof {
        assert(all@.take(i as int) =~= all@);
    }
    if unit_start < i {
        let unit = unit_factors(slice_subrange(all, unit_start, i));
        let count = count_on(seconds, nanos, number, unit.0, unit.1);
        seconds = count.0;
        nanos = count.1;
    }
    !(seconds == u64::MAX as u128 && nanos == SECOND)
}

/// Adds a number of units to a count of capped seconds and nanoseconds.
fn count_on(seconds: u128, nanos: u64, number: u64, unit_seconds: u64, unit_nanos: u64) -> (count:
    (u128, u64))
    requires
        seconds <= u64::MAX + 1,
        nanos <= SECOND,
        unit_seconds <= 31_557_600,
        unit_nanos <= 1_000_000,
    ensures
        count.0 <= u64::MAX + 1,
        count.1 <= SECOND,
        forall|exact: nat, unit: Seq<char>|
            seconds == capped(exact) && unit.len() > 0 && #[trigger] unit_parts(unit) == (
                unit_seconds as nat,
                unit_nanos as nat,
            ) ==> (count.0 as nat, count.1 as nat) == ({
                let more = #[trigger] counted((exact, nanos as nat), number as nat, unit);
                (capped(more.0), more.1)
            }),
{
    assert(number * unit_seconds <= u64::MAX * 31_557_600) by (nonlinear_arith)
        requires
            number <= u64::MAX,
            unit_seconds <= 31_557_600,
    ;
    assert(number * unit_nanos <= u64::MAX * 1_000_000) by (nonlinear_arith)
        requires
            number <= u64::MAX,
            unit_nanos <= 1_000_000,
    ;
    let mut more_seconds: u128 = seconds + (number as u128) * (unit_seconds as u128);
    let mut more_nanos: u128 = (nanos as u128) + (number as u128) * (unit_nanos as u128);
    if more_nanos > SECOND as u128 {
        more_seconds = more_seconds + more_nanos / (SECOND as u128);
        more_nanos = more_nanos % (SECOND as u128);
    }
    if more_seconds > u64::MAX as u128 {
        more_seconds = u64::MAX as u128 + 1;
    }
    (more_seconds, more_nanos as u64)
}

/// The seconds and the nanoseconds of a unit, and 0 and 0 for letters that
/// are no unit.
pub fn unit_factors(unit: &[char]) -> (parts: (u64, u64))
    ensures
        (parts.0 as nat, parts.1 as nat) == unit_parts(unit@),
        parts.0 <= 31_557_600,
        parts.1 <= 1_000_000,
{
    if same(unit, "nanos") || same(unit, "nsec") || same(unit, "ns") {
        (0, 1)
    } else if same(unit, "usec") || same(unit, "us") {
        (0, 1_000)
    } else if same(unit, "millis") || same(unit, "msec") || same(unit, "ms") {
        (0, 1_000_000)
    } else if same(unit, "seconds") || same(unit, "second") || same(unit, "secs") || same(
        unit,
        "sec",
    ) || same(unit, "s") {
        (1, 0)
    } else if same(unit, "minutes") || same(unit, "minute") || same(unit, "min") || same(
        unit,
        "mins",
    ) || same(unit, "m") {
        (60, 0)
    } else if same(unit, "hours") || same(unit, "hour") || same(unit, "hr") || same(unit, "hrs")
        || same(unit, "h") {
        (3_600, 0)
    } else if same(unit, "days") || same(unit, "day") || same(unit, "d") {
        (86_400, 0)
    } else if same(unit, "weeks") || same(unit, "week") || same(unit, "w") {
        (604_800, 0)
    } else if same(unit, "months") || same(unit, "month") || same(unit, "M") {
        (2_630_016, 0)
    } else if same(unit, "years") || same(unit, "year") || same(unit, "y") {
        (31_557_600, 0)
    } else {
        (0, 0)
    }
}

/// Tells whether the characters are those of the word.
pub fn same(text: &[char], word: &str) -> (equal: bool)
    ensures
        equal == (text@ == word@),
{
    let letters = chars_of(word);
    if text.len() != letters.len() {
        return false;
    }
    let mut i: usize = 0;
    while i < text.len()
        invariant
            i <= text.len(),
            text.len() == letters.len(),
            letters@ == word@,
            forall|j: int| 0 <= j < i ==> text@[j] == letters@[j],
        decreases text.len() - i,
    {
        if text[i] != letters[i] {
            return false;
        }
        i = i + 1;
    }
    assert(text@ =~= letters@);
    true
}

/// What humantime's `parse_duration` gives for a text.
pub uninterp spec fn duration_of_text(text: Seq<char>) -> Result<Duration, SpanError>;

/// The message that humantime's `Display` writes for an error. For the two
/// errors without a place, humantime takes it from `Error::description`, for
/// which quick-error writes nothing of its own: the words are then those of
/// the standard library, which its documentation does not give.
pub uninterp spec fn span_error_text(error: SpanError) -> Seq<char>;

/// `humantime::parse_duration`. It reads numbers with units and counts them
/// up in `u64` with checked arithmetic, so one text always gives the same
/// span or the same error. Its last step, `Duration::new`, panics where the
/// seconds stand at `u64::MAX` and the nanoseconds at one second. A text that
/// can be read never gets there. The parser takes digits, skipping blanks,
/// until a letter starts the unit, takes letters as the unit, and refuses
/// every character that is none of these. So the numbers that it reads are
/// those of [`number_at_end`], and at one beyond `u64::MAX` it stops with an
/// error, if it has not stopped before. Its table of units is that of
/// [`unit_parts`], and it carries nanoseconds over as [`counted`] does. So
/// where it comes to the end of a text, its seconds and nanoseconds stand at
/// [`span_count`] of the text.
#[verifier::external_body]
fn parse_duration(text: &str) -> (parsed: Result<Duration, SpanError>)
    requires
        is_readable(text@),
    ensures
        parsed == duration_of_text(text@),
{
    match humantime::parse_duration(text) {
        Ok(span) => Ok(span),
        Err(DurationError::InvalidCharacter(at)) => Err(SpanError::InvalidCharacter(at)),
        Err(DurationError::NumberExpected(at)) => Err(SpanError::NumberExpected(at)),
        Err(DurationError::UnknownUnit(start, end)) => Err(SpanError::UnknownUnit(start, end)),
        Err(DurationError::NumberOverflow) => Err(SpanError::NumberOverflow),
        Err(DurationError::Empty) => Err(SpanError::Empty),
    }
}

/// `ToString::to_string` on humantime's `DurationError`: the text of its
/// `Display`. For the three errors that hold places, humantime writes fixed
/// words and the places as decimal numbers.
#[verifier::external_body]
fn span_error_to_string(error: &SpanError) -> (text: String)
    ensures
        text@ == span_error_text(*error),
        error matches SpanError::InvalidCharacter(at) ==> text@ == "invalid character at "@
            + decimal_text(at as nat),
        error matches SpanError::NumberExpected(at) ==> text@ == "expected number at "@
            + decimal_text(at as nat),
        error matches SpanError::UnknownUnit(start, end) ==> text@ == "unknown unit at "@
            + decimal_text(start as nat) + "-"@ + decimal_text(end as nat),
{
    let outside = match *error {
        SpanError::InvalidCharacter(at) => DurationError::InvalidCharacter(at),
        SpanError::NumberExpected(at) => DurationError::NumberExpected(at),
        SpanError::UnknownUnit(start, end) => DurationError::UnknownUnit(start, end),
        SpanError::NumberOverflow => DurationError::NumberOverflow,
        SpanError::Empty => DurationError::Empty,
    };
    outside.to_string()
}

} // verus!
