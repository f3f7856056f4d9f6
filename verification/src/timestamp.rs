//! Decoding of millisecond-resolution epoch counters into RFC 3339 text.
//!
//! A counter is split into whole seconds and a nanosecond remainder. The
//! `time` crate renders the calendar instant of the whole seconds; the
//! remainder is spliced in as a nine-digit fraction, so that every decoded
//! text has the shape `YYYY-MM-DDTHH:MM:SS.nnnnnnnnnZ`.

use time::format_description::well_known::Rfc3339;
use time::OffsetDateTime;
use vstd::prelude::*;

verus! {

/// Nanoseconds in one millisecond.
pub const NANOS_PER_MILLI: u32 = 1_000_000;

/// Milliseconds in one second.
pub const MILLIS_PER_SECOND: u64 = 1_000;

/// Nanoseconds in one second.
pub const NANOS_PER_SECOND: u32 = 1_000_000_000;

/// The Unix timestamp of 9999-12-31T23:59:59Z, the last second whose
/// calendar year has four digits.
pub const MAX_UNIX_SECONDS: i64 = 253_402_300_799;

/// The last millisecond counter that falls into a representable second.
pub const MAX_EPOCH_MILLIS: u64 = 253_402_300_799_999;

/// Why a millisecond counter could not be decoded.
#[derive(Clone, Copy, Debug, PartialEq, Eq, Structural)]
pub enum TimestampError {
    /// The counter does not fit a signed 64-bit number of milliseconds.
    OutOfRange,
    /// The counter fits, but its whole seconds lie after the last
    /// representable calendar instant.
    Unrepresentable,
}

impl TimestampError {
    /// What went wrong, in words.
    pub open spec fn description(self) -> Seq<char> {
        match self {
            TimestampError::OutOfRange => "timestamp does not fit signed 64-bit milliseconds"@,
            TimestampError::Unrepresentable =>
                "timestamp lies beyond the last representable instant"@,
        }
    }

    /// What went wrong, in words.
    pub fn describe(&self) -> (text: &'static str)
        ensures
            text@ == self.description(),
    {
        match self {
            TimestampError::OutOfRange => "timestamp does not fit signed 64-bit milliseconds",
            TimestampError::Unrepresentable => {
                "timestamp lies beyond the last representable instant"
            },
        }
    }
}

/// A counter split into whole seconds and the nanoseconds of its remainder.
pub open spec fn split_millis(ts: int) -> (int, int) {
    (ts / 1000, (ts % 1000) * 1_000_000)
}

/// The decimal digit `d` as a character.
pub open spec fn digit_char(d: int) -> char {
    if d == 0 {
        '0'
    } else if d == 1 {
        '1'
    } else if d == 2 {
        '2'
    } else if d == 3 {
        '3'
    } else if d == 4 {
        '4'
    } else if d == 5 {
        '5'
    } else if d == 6 {
        '6'
    } else if d == 7 {
        '7'
    } else if d == 8 {
        '8'
    } else {
        '9'
    }
}

/// The last `width` decimal digits of `n`, most significant first, with
/// leading zeros.
pub open spec fn padded_digits(n: nat, width: nat) -> Seq<char>
    decreases width,
{
    if width == 0 {
        Seq::empty()
    } else {
        padded_digits(n / 10, (width - 1) as nat).push(digit_char((n % 10) as int))
    }
}

/// The value of a decimal digit character.
pub open spec fn digit_value(c: char) -> int {
    c as int - '0' as int
}

/// The number that a sequence of decimal digits denotes.
pub open spec fn decimal_value(digits: Seq<char>) -> int
    decreases digits.len(),
{
    if digits.len() == 0 {
        0
    } else {
        decimal_value(digits.drop_last()) * 10 + digit_value(digits.last())
    }
}

/// Ten to the power `width`.
pub open spec fn pow10(width: nat) -> nat
    decreases width,
{
    if width == 0 {
        1
    } else {
        10 * pow10((width - 1) as nat)
    }
}

/// The RFC 3339 text that the `time` crate gives for the UTC instant `secs`
/// whole seconds after the Unix epoch.
pub uninterp spec fn rfc3339_seconds(secs: int) -> Seq<char>;

/// A whole-second text with its final designator moved behind a fraction of
/// nine digits.
pub open spec fn with_fraction(seconds_text: Seq<char>, nanos: nat) -> Seq<char> {
    seconds_text.drop_last() + seq!['.'] + padded_digits(nanos, 9) + seq!['Z']
}

/// The text that stands for the counter `ts`.
pub open spec fn decoded_text(ts: int) -> Seq<char> {
    with_fraction(rfc3339_seconds(split_millis(ts).0), split_millis(ts).1 as nat)
}

/// What decoding makes of the counter `ts`: its text, up to the last
/// millisecond of the year 9999, and beyond it the reason for which there is
/// none.
pub open spec fn decoded(ts: u64) -> Result<Seq<char>, TimestampError> {
    if ts > i64::MAX {
        Err(TimestampError::OutOfRange)
    } else if ts > MAX_EPOCH_MILLIS {
        Err(TimestampError::Unrepresentable)
    } else {
        Ok(decoded_text(ts as int))
    }
}

/// Renders the UTC instant `secs` seconds after the Unix epoch by
/// `time::OffsetDateTime::from_unix_timestamp` and
/// `time::OffsetDateTime::format` with the well-known `Rfc3339` description.
///
/// Trusted, not proved: the call succeeds exactly up to the last second of
/// the year 9999; the text is a function of `secs` alone; for an instant
/// without sub-second part it is `YYYY-MM-DDTHH:MM:SS` followed by `Z`,
/// twenty characters in all.
#[verifier::external_body]
fn render_utc_seconds(secs: i64) -> (r: Option<String>)
    requires
        0 <= secs,
    ensures
        r is Some <==> secs <= MAX_UNIX_SECONDS,
        r matches Some(text) ==> text@ == rfc3339_seconds(secs as int) && text@.len() == 20
            && text@.last() == 'Z',
{
    match OffsetDateTime::from_unix_timestamp(secs) {
        Ok(instant) => instant.format(&Rfc3339).ok(),
        Err(_) => None,
    }
}

/// Splits a millisecond counter into whole seconds and a nanosecond
/// remainder, or reports that it does not fit a signed 64-bit counter.
pub fn split_epoch_milliseconds(ts: u64) -> (r: Option<(i64, u32)>)
    ensures
        r is Some <==> ts <= i64::MAX,
        r matches Some((secs, nanos)) ==> (secs as int, nanos as int) == split_millis(ts as int),
{
    if ts > i64::MAX as u64 {
        return None;
    }
    let secs: i64 = (ts / MILLIS_PER_SECOND) as i64;
    let nanos: u32 = (ts % MILLIS_PER_SECOND) as u32 * NANOS_PER_MILLI;
    Some((secs, nanos))
}

fn digit_str(d: u32) -> (r: &'static str)
    requires
        d < 10,
    ensures
        r@ == seq![digit_char(d as int)],
{
    proof {
        reveal_strlit("0");
        reveal_strlit("1");
        reveal_strlit("2");
        reveal_strlit("3");
        reveal_strlit("4");
        reveal_strlit("5");
        reveal_strlit("6");
        reveal_strlit("7");
        reveal_strlit("8");
        reveal_strlit("9");
    }
    let r = match d {
        0 => "0",
        1 => "1",
        2 => "2",
        3 => "3",
        4 => "4",
        5 => "5",
        6 => "6",
        7 => "7",
        8 => "8",
        _ => "9",
    };
    assert(r@ =~= seq![digit_char(d as int)]);
    r
}

fn push_padded(out: &mut String, n: u32, width: u32)
    ensures
        final(out)@ == old(out)@ + padded_digits(n as nat, width as nat),
    decreases width,
{
    if width > 0 {
        push_padded(out, n / 10, width - 1);
        out.append(digit_str(n % 10));
        assert(out@ =~= old(out)@ + padded_digits(n as nat, width as nat));
    } else {
        assert(out@ =~= old(out)@ + padded_digits(n as nat, width as nat));
    }
}

/// Moves the final `Z` of a whole-second text behind a nine-digit rendering
/// of `nanos`.
pub fn with_nanoseconds(seconds_text: &str, nanos: u32) -> (text: String)
    requires
        seconds_text@.len() > 0,
        seconds_text@.last() == 'Z',
        nanos < NANOS_PER_SECOND,
    ensures
        text@ == with_fraction(seconds_text@, nanos as nat),
{
    let len: usize = seconds_text.unicode_len();
    let mut text = String::from_str(seconds_text.substring_char(0, len - 1));
    text.append(".");
    push_padded(&mut text, nanos, 9);
    text.append("Z");
    proof {
        reveal_strlit(".");
        reveal_strlit("Z");
        assert("."@ =~= seq!['.']);
        assert("Z"@ =~= seq!['Z']);
        assert(seconds_text@.subrange(0, len - 1) =~= seconds_text@.drop_last());
    }
    text
}

/// Decodes a millisecond-resolution epoch counter into RFC 3339 text in UTC
/// with nine fractional digits.
pub fn decode_epoch_milliseconds(ts: u64) -> (r: Result<String, TimestampError>)
    ensures
        match r {
            Ok(text) => {
                &&& decoded(ts) == Ok::<Seq<char>, TimestampError>(text@)
                &&& text@.len() == 30
                &&& text@[19] == '.'
                &&& text@.subrange(20, 29) == padded_digits(split_millis(ts as int).1 as nat, 9)
                &&& text@[29] == 'Z'
            },
            Err(e) => decoded(ts) == Err::<Seq<char>, TimestampError>(e),
        },
{
    match split_epoch_milliseconds(ts) {
        None => Err(TimestampError::OutOfRange),
        Some((secs, nanos)) => match render_utc_seconds(secs) {
            None => Err(TimestampError::Unrepresentable),
            Some(seconds_text) => {
                let text = with_nanoseconds(seconds_text.as_str(), nanos);
                proof {
                    lemma_padded_digits_len(nanos as nat, 9);
                    assert(text@.subrange(20, 29) =~= padded_digits(nanos as nat, 9));
                }
                Ok(text)
            },
        },
    }
}

/// A padded rendering has exactly the asked width.
pub proof fn lemma_padded_digits_len(n: nat, width: nat)
    ensures
        padded_digits(n, width).len() == width,
    decreases width,
{
    if width > 0 {
        lemma_padded_digits_len(n / 10, (width - 1) as nat);
    }
}

/// Reading a padded rendering back gives the number, when the number has
/// no more digits than the width.
pub proof fn lemma_padded_digits_value(n: nat, width: nat)
    requires
        n < pow10(width),
    ensures
        decimal_value(padded_digits(n, width)) == n,
    decreases width,
{
    if width > 0 {
        let shorter = padded_digits(n / 10, (width - 1) as nat);
        lemma_padded_digits_value(n / 10, (width - 1) as nat);
        assert(padded_digits(n, width).drop_last() =~= shorter);
    }
}

/// The milliseconds that a decoded text shows: its nine fractional digits,
/// read as a number of nanoseconds and cut to milliseconds.
pub open spec fn shown_millis(text: Seq<char>) -> int {
    decimal_value(text.subrange(text.len() - 10, text.len() - 1)) / 1_000_000
}

/// What a decoded text shows before its fraction.
pub open spec fn shown_seconds(text: Seq<char>) -> Seq<char> {
    text.subrange(0, text.len() - 11)
}

/// Decoding succeeds on every counter up to the last millisecond of the
/// year 9999 and loses nothing of it: the text ends in a point, nine digits
/// and `Z`; the milliseconds that it shows are the counter's remainder modulo
/// 1000; and what it shows before the fraction is the whole-second text of
/// the counter's seconds, without that text's final character.
pub proof fn lemma_decoding_keeps_the_counter(ts: u64)
    requires
        ts <= MAX_EPOCH_MILLIS,
    ensures
        decoded(ts) == Ok::<Seq<char>, TimestampError>(decoded_text(ts as int)),
        decoded_text(ts as int).len() >= 11,
        decoded_text(ts as int).last() == 'Z',
        decoded_text(ts as int)[decoded_text(ts as int).len() - 11] == '.',
        shown_millis(decoded_text(ts as int)) == ts % 1000,
        shown_seconds(decoded_text(ts as int)) == rfc3339_seconds(ts as int / 1000).drop_last(),
        (ts as int / 1000) * 1000 + shown_millis(decoded_text(ts as int)) == ts,
{
    let nanos = ((ts % 1000) * 1_000_000) as nat;
    let head = rfc3339_seconds(ts as int / 1000).drop_last();
    let digits = padded_digits(nanos, 9);
    let text = decoded_text(ts as int);
    lemma_padded_digits_len(nanos, 9);
    assert(pow10(9) == 1_000_000_000) by {
        reveal_with_fuel(pow10, 10);
    }
    lemma_padded_digits_value(nanos, 9);
    let n = text.len() as int;
    assert(text.subrange(n - 10, n - 1) =~= digits);
    assert(text.subrange(0, n - 11) =~= head);
}

} // verus!
