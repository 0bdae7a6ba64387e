//! Points in time as the marketplace writes them, and the outcome of work
//! that ran on another thread.

use vstd::prelude::*;
use crate::result::NeweggError;
use crate::result::NeweggResult;
use crate::text::concat_strs;

verus! {

/// How the marketplace writes a date and a time: month, day and year
/// between slashes, then hours, minutes and seconds between colons.
pub const FORMAT: &'static str = "%m/%d/%Y %H:%M:%S";

/// The Pacific wall-clock time of an instant, written after `format`; `None`
/// where the seconds and nanoseconds are no instant.
pub uninterp spec fn pacific_text_of(seconds: i64, nanoseconds: u32, format: Seq<char>) -> Option<
    Seq<char>,
>;

/// Turns the instant into a `chrono::DateTime` with `DateTime::from_timestamp`,
/// moves it to `chrono_tz::US::Pacific` with `with_timezone` and writes it
/// with `format`. The rules of Pacific time are those of the time zone
/// database that `chrono_tz` was built with: the contract only names the
/// result. Every format but the marketplace's, which is known to be well
/// formed, is kept out.
#[verifier::external_body]
fn format_pacific(seconds: i64, nanoseconds: u32, format: &str) -> (text: Option<String>)
    requires
        format@ == FORMAT@,
    ensures
        text.deep_view() == pacific_text_of(seconds, nanoseconds, format@),
{
    chrono::DateTime::from_timestamp(seconds, nanoseconds).map(
        |utc| utc.with_timezone(&chrono_tz::US::Pacific).format(format).to_string(),
    )
}

/// The instant that a text names when it is read after `format` as Pacific
/// wall-clock time, in seconds since the Unix epoch; or why the text names
/// none.
pub uninterp spec fn pacific_instant_of(text: Seq<char>, format: Seq<char>) -> Result<
    i64,
    Seq<char>,
>;

/// Reads the text with `chrono::TimeZone::datetime_from_str` for
/// `chrono_tz::US::Pacific` and takes the `timestamp` of what comes out, or
/// the message of the error. A wall-clock time that Pacific time skips or
/// repeats is an error too. The contract only names the result.
#[verifier::external_body]
#[allow(deprecated)]
fn parse_pacific(text: &str, format: &str) -> (parsed: Result<i64, String>)
    ensures
        match parsed {
            Ok(seconds) => pacific_instant_of(text@, format@) == Ok::<i64, Seq<char>>(seconds),
            Err(message) => pacific_instant_of(text@, format@) == Err::<i64, Seq<char>>(message@),
        },
{
    chrono::TimeZone::datetime_from_str(&chrono_tz::US::Pacific, text, format).map(
        |datetime| datetime.timestamp(),
    ).map_err(|error| error.to_string())
}

/// A point in time. The marketplace writes every date and time as Pacific
/// wall-clock time; this type keeps the instant itself, as seconds and
/// nanoseconds since the Unix epoch in UTC.
#[derive(Debug, Clone, Copy, PartialEq, Eq, Structural)]
pub struct NeweggDateTime {
    pub seconds: i64,
    pub nanoseconds: u32,
}

impl NeweggDateTime {
    /// The instant as seconds since the Unix epoch and nanoseconds into that
    /// second.
    pub fn as_utc(&self) -> (utc: (i64, u32))
        ensures
            utc == (self.seconds, self.nanoseconds),
    {
        (self.seconds, self.nanoseconds)
    }

    /// The instant that lies `nanoseconds` after the second `seconds` of the
    /// Unix epoch.
    pub fn from_utc(seconds: i64, nanoseconds: u32) -> (datetime: NeweggDateTime)
        ensures
            datetime == (NeweggDateTime { seconds, nanoseconds }),
    {
        NeweggDateTime { seconds, nanoseconds }
    }

    /// The instant as the marketplace writes it: its Pacific wall-clock time
    /// in the marketplace's format.
    pub open spec fn spec_pacific_string(&self) -> Option<Seq<char>> {
        pacific_text_of(self.seconds, self.nanoseconds, FORMAT@)
    }

    /// The instant as the marketplace writes it: Pacific wall-clock time in
    /// the form `02/12/2018 12:16:43`. Seconds and nanoseconds that are no
    /// instant cannot be written.
    pub fn to_pacific_string(&self) -> (text: Option<String>)
        ensures
            text.deep_view() == self.spec_pacific_string(),
    {
        format_pacific(self.seconds, self.nanoseconds, FORMAT)
    }

    /// How the outcome of reading a date follows from what the parser made
    /// of the text: the instant at the full second, or the parser's reason
    /// behind the words `parse date error: `.
    pub open spec fn reads_as(
        parsed: Result<i64, Seq<char>>,
        outcome: Result<NeweggDateTime, String>,
    ) -> bool {
        match parsed {
            Ok(seconds) => outcome == Ok::<NeweggDateTime, String>(
                NeweggDateTime { seconds, nanoseconds: 0 },
            ),
            Err(reason) => outcome matches Err(message) && message@ == "parse date error: "@
                + reason,
        }
    }

    /// What becomes of a parsed date: see [`NeweggDateTime::reads_as`].
    pub fn from_parsed(parsed: Result<i64, String>) -> (outcome: Result<NeweggDateTime, String>)
        ensures
            NeweggDateTime::reads_as(
                match parsed {
                    Ok(seconds) => Ok(seconds),
                    Err(reason) => Err(reason@),
                },
                outcome,
            ),
    {
        match parsed {
            Ok(seconds) => Ok(NeweggDateTime { seconds, nanoseconds: 0 }),
            Err(reason) => Err(concat_strs("parse date error: ", reason.as_str())),
        }
    }

    /// Reads a date and time that the marketplace wrote, such as
    /// `02/12/2018 12:16:43`, as Pacific wall-clock time.
    pub fn from_pacific_str(text: &str) -> (outcome: Result<NeweggDateTime, String>)
        ensures
            NeweggDateTime::reads_as(pacific_instant_of(text@, FORMAT@), outcome),
    {
        NeweggDateTime::from_parsed(parse_pacific(text, FORMAT))
    }
}

/// What a caller gets from work that ran on a worker thread: the work's own
/// outcome where the worker ran to its end, and `NeweggError::Runtime` with
/// the reason where it did not.
pub fn block_outcome<R>(joined: Result<NeweggResult<R>, String>) -> (outcome: NeweggResult<R>)
    ensures
        match joined {
            Ok(inner) => outcome == inner,
            Err(reason) => outcome matches Err(error) && error.is_runtime(reason@),
        },
{
    match joined {
        Ok(inner) => inner,
        Err(reason) => Err(NeweggError::Runtime(reason)),
    }
}

} // verus!
