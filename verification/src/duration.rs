//! Spans of session time, counted in whole milliseconds, and the textual
//! `minutes` / `minutes:seconds` format they are read from.

use vstd::prelude::*;
use vstd::string::StringSliceAdditionalSpecFns;

verus! {

/// A non-negative span of time, counted in whole milliseconds.
#[derive(Clone, Copy, PartialEq, Eq, Structural, Debug)]
pub struct SessionDuration {
    pub millis: u64,
}

impl SessionDuration {
    /// The zero-length span.
    pub fn zero() -> (r: SessionDuration)
        ensures
            r.millis == 0,
    {
        SessionDuration { millis: 0 }
    }

    pub fn from_millis(millis: u64) -> (r: SessionDuration)
        ensures
            r.millis == millis,
    {
        SessionDuration { millis }
    }

    pub fn from_secs(secs: u64) -> (r: SessionDuration)
        requires
            secs * 1000 <= u64::MAX,
        ensures
            r.millis == secs * 1000,
    {
        SessionDuration { millis: secs * 1000 }
    }
}

/// Why a duration string was rejected.
#[derive(Clone, Copy, PartialEq, Eq, Structural, Debug)]
pub enum ParseSessionDurationError {
    /// More than one `:` separator.
    InvalidFormat,
    /// The seconds field is sixty or more.
    TooManySeconds,
    /// The seconds field is not exactly two digits.
    NotTwoDigitsForSeconds,
    /// A field is empty, holds a non-digit, or names a number too large to
    /// represent.
    ParseIntError,
}

pub open spec fn spec_is_digit(b: u8) -> bool {
    48 <= b <= 57
}

/// The numeric value of one digit byte; non-digits count as zero so that
/// the accumulated value is monotone in the prefix length.
pub open spec fn spec_digit_val(b: u8) -> nat {
    if spec_is_digit(b) {
        (b - 48) as nat
    } else {
        0
    }
}

/// A nonempty run of ASCII digits.
pub open spec fn spec_all_digits(s: Seq<u8>) -> bool {
    s.len() > 0 && forall|i: int| 0 <= i < s.len() ==> spec_is_digit(#[trigger] s[i])
}

/// The base-ten value of a digit run.
pub open spec fn spec_digits_val(s: Seq<u8>) -> nat
    decreases s.len(),
{
    if s.len() == 0 {
        0
    } else {
        spec_digits_val(s.drop_last()) * 10 + spec_digit_val(s.last())
    }
}

/// The index of the first `:` in `s`, or `s.len()` if there is none.
pub open spec fn spec_first_colon(s: Seq<u8>) -> int
    decreases s.len(),
{
    if s.len() == 0 {
        0
    } else if s[0] == 58 {
        0
    } else {
        1 + spec_first_colon(s.skip(1))
    }
}

/// What a duration string means. One field is a minute count; two fields
/// separated by `:` are minutes and a two-digit second count below sixty;
/// anything else is rejected, with the minute field examined first as the
/// error reported shows.
pub open spec fn spec_parse_session_duration(s: Seq<u8>) -> Result<
    SessionDuration,
    ParseSessionDurationError,
> {
    let c1 = spec_first_colon(s);
    if c1 == s.len() {
        if !spec_all_digits(s) || spec_digits_val(s) > u64::MAX {
            Err(ParseSessionDurationError::ParseIntError)
        } else if spec_digits_val(s) * 60000 > u64::MAX {
            Err(ParseSessionDurationError::ParseIntError)
        } else {
            Ok(SessionDuration { millis: (spec_digits_val(s) * 60000) as u64 })
        }
    } else {
        let minutes_part = s.subrange(0, c1);
        let seconds_part = s.subrange(c1 + 1, s.len() as int);
        if !spec_all_digits(minutes_part) || spec_digits_val(minutes_part) > u64::MAX {
            Err(ParseSessionDurationError::ParseIntError)
        } else if spec_first_colon(seconds_part) != seconds_part.len() {
            Err(ParseSessionDurationError::InvalidFormat)
        } else if !spec_all_digits(seconds_part) || spec_digits_val(seconds_part) > u64::MAX {
            Err(ParseSessionDurationError::ParseIntError)
        } else if spec_digits_val(seconds_part) > 59 {
            Err(ParseSessionDurationError::TooManySeconds)
        } else if seconds_part.len() != 2 {
            Err(ParseSessionDurationError::NotTwoDigitsForSeconds)
        } else if spec_digits_val(minutes_part) * 60000 + spec_digits_val(seconds_part) * 1000
            > u64::MAX {
            Err(ParseSessionDurationError::ParseIntError)
        } else {
            Ok(
                SessionDuration {
                    millis: (spec_digits_val(minutes_part) * 60000 + spec_digits_val(seconds_part)
                        * 1000) as u64,
                },
            )
        }
    }
}

/// The value of a digit run never shrinks as the run grows to the right.
proof fn lemma_digits_val_monotone(s: Seq<u8>, i: int, j: int)
    requires
        0 <= i <= j <= s.len(),
    ensures
        spec_digits_val(s.subrange(0, i)) <= spec_digits_val(s.subrange(0, j)),
    decreases j - i,
{
    if i < j {
        lemma_digits_val_monotone(s, i, j - 1);
        let prev = s.subrange(0, j - 1);
        let cur = s.subrange(0, j);
        assert(cur.drop_last() =~= prev);
        assert(spec_digits_val(prev) * 10 >= spec_digits_val(prev));
    }
}

/// Locates `spec_first_colon` from what a left-to-right scan established.
proof fn lemma_first_colon_at(s: Seq<u8>, i: int)
    requires
        0 <= i <= s.len(),
        forall|j: int| 0 <= j < i ==> s[j] != 58,
        i < s.len() ==> s[i] == 58,
    ensures
        spec_first_colon(s) == i,
    decreases i,
{
    if s.len() == 0 {
    } else if i == 0 {
    } else {
        assert(s[0] != 58);
        let rest = s.skip(1);
        assert forall|j: int| 0 <= j < i - 1 implies rest[j] != 58 by {
            assert(rest[j] == s[j + 1]);
        }
        assert(i - 1 < rest.len() ==> rest[i - 1] == s[i]);
        lemma_first_colon_at(rest, i - 1);
    }
}

/// Reads a nonempty all-digit byte run as a number; rejects empty input,
/// non-digits, and values that exceed the range of the result type.
fn parse_u64_digits(bytes: &[u8]) -> (r: Result<u64, ParseSessionDurationError>)
    ensures
        match r {
            Ok(v) => spec_all_digits(bytes@) && v == spec_digits_val(bytes@),
            Err(e) => {
                &&& !spec_all_digits(bytes@) || spec_digits_val(bytes@) > u64::MAX
                &&& e == ParseSessionDurationError::ParseIntError
            },
        },
{
    if bytes.len() == 0 {
        return Err(ParseSessionDurationError::ParseIntError);
    }
    let mut acc: u64 = 0;
    let mut i: usize = 0;
    proof {
        assert(bytes@.subrange(0, 0) =~= Seq::<u8>::empty());
    }
    while i < bytes.len()
        invariant
            i <= bytes@.len(),
            forall|j: int| 0 <= j < i ==> spec_is_digit(#[trigger] bytes@[j]),
            acc == spec_digits_val(bytes@.subrange(0, i as int)),
        decreases bytes@.len() - i,
    {
        let b = *vstd::slice::slice_index_get(bytes, i);
        if b < 48 || b > 57 {
            return Err(ParseSessionDurationError::ParseIntError);
        }
        let d = (b - 48) as u64;
        proof {
            assert(bytes@.subrange(0, (i + 1) as int).drop_last() =~= bytes@.subrange(
                0,
                i as int,
            ));
            assert(bytes@.subrange(0, (i + 1) as int).last() == bytes@[i as int]);
        }
        let scaled = match acc.checked_mul(10) {
            Some(v) => v,
            None => {
                proof {
                    lemma_digits_val_monotone(bytes@, i + 1, bytes@.len() as int);
                    assert(bytes@.subrange(0, bytes@.len() as int) =~= bytes@);
                }
                return Err(ParseSessionDurationError::ParseIntError);
            },
        };
        acc = match scaled.checked_add(d) {
            Some(v) => v,
            None => {
                proof {
                    lemma_digits_val_monotone(bytes@, i + 1, bytes@.len() as int);
                    assert(bytes@.subrange(0, bytes@.len() as int) =~= bytes@);
                }
                return Err(ParseSessionDurationError::ParseIntError);
            },
        };
        i = i + 1;
    }
    proof {
        assert(bytes@.subrange(0, bytes@.len() as int) =~= bytes@);
    }
    Ok(acc)
}

impl SessionDuration {
    /// Reads a duration written as `minutes` or `minutes:seconds`, the
    /// seconds two digits below sixty; the result is exact in
    /// milliseconds.
    pub fn parse(s: &str) -> (r: Result<SessionDuration, ParseSessionDurationError>)
        ensures
            r == spec_parse_session_duration(s.spec_bytes()),
    {
        let bytes = s.as_bytes();
        let n = bytes.len();
        let mut c1: usize = 0;
        while c1 < n && *vstd::slice::slice_index_get(bytes, c1) != 58
            invariant
                c1 <= n == bytes@.len(),
                forall|j: int| 0 <= j < c1 ==> bytes@[j] != 58,
            decreases n - c1,
        {
            c1 = c1 + 1;
        }
        proof {
            lemma_first_colon_at(bytes@, c1 as int);
        }

        if c1 == n {
            let minutes = match parse_u64_digits(bytes) {
                Ok(v) => v,
                Err(e) => {
                    return Err(e);
                },
            };
            match minutes.checked_mul(60000) {
                Some(millis) => Ok(SessionDuration { millis }),
                None => Err(ParseSessionDurationError::ParseIntError),
            }
        } else {
            let minutes_part = vstd::slice::slice_subrange(bytes, 0, c1);
            let seconds_part = vstd::slice::slice_subrange(bytes, c1 + 1, n);
            let minutes = match parse_u64_digits(minutes_part) {
                Ok(v) => v,
                Err(e) => {
                    return Err(e);
                },
            };

            let mut c2: usize = 0;
            while c2 < seconds_part.len() && *vstd::slice::slice_index_get(seconds_part, c2) != 58
                invariant
                    c2 <= seconds_part@.len(),
                    forall|j: int| 0 <= j < c2 ==> seconds_part@[j] != 58,
                decreases seconds_part@.len() - c2,
            {
                c2 = c2 + 1;
            }
            proof {
                lemma_first_colon_at(seconds_part@, c2 as int);
            }
            if c2 != seconds_part.len() {
                return Err(ParseSessionDurationError::InvalidFormat);
            }

            let seconds = match parse_u64_digits(seconds_part) {
                Ok(v) => v,
                Err(e) => {
                    return Err(e);
                },
            };
            if seconds > 59 {
                return Err(ParseSessionDurationError::TooManySeconds);
            }
            if seconds_part.len() != 2 {
                return Err(ParseSessionDurationError::NotTwoDigitsForSeconds);
            }
            let minute_millis = match minutes.checked_mul(60000) {
                Some(v) => v,
                None => {
                    return Err(ParseSessionDurationError::ParseIntError);
                },
            };
            match minute_millis.checked_add(seconds * 1000) {
                Some(millis) => Ok(SessionDuration { millis }),
                None => Err(ParseSessionDurationError::ParseIntError),
            }
        }
    }
}

} // verus!
