//! The JSON output envelope: every response carries a `metadata` block with
//! the tool, version, command and a UTC timestamp, and the `data` itself.

use vstd::prelude::*;

use crate::cli::error::{error_v, AppError, ErrorCode, ErrorV};
use crate::cli::{MAINTAINER, TOOL, VERSION, WEBSITE};

verus! {

/// The earliest second since the Unix epoch that a timestamp can hold.
pub const MIN_UNIX_SECOND: i64 = -377705023201i64;

/// The latest second since the Unix epoch that a timestamp can hold.
pub const MAX_UNIX_SECOND: i64 = 253402207200i64;

/// The first second of the year 0 (`0000-01-01T00:00:00Z`); from here on
/// years have four digits.
pub const YEAR_ZERO_SECOND: i64 = -62167219200i64;

/// The text `jiff` renders for the instant `second` seconds after the Unix
/// epoch with the format `%Y-%m-%dT%H:%M:%SZ` (UTC).
pub uninterp spec fn utc_stamp(second: int) -> Seq<char>;

/// Whether `c` is an ASCII decimal digit.
pub open spec fn is_digit(c: char) -> bool {
    '0' <= c && c <= '9'
}

/// The shape `YYYY-MM-DDTHH:MM:SSZ`: twenty characters, digits except for
/// the separators.
pub open spec fn iso_seconds_shape(t: Seq<char>) -> bool {
    &&& t.len() == 20
    &&& t[4] == '-'
    &&& t[7] == '-'
    &&& t[10] == 'T'
    &&& t[13] == ':'
    &&& t[16] == ':'
    &&& t[19] == 'Z'
    &&& forall|i: int| 0 <= i < 19 && i != 4 && i != 7 && i != 10 && i != 13 && i != 16 ==> is_digit(#[trigger] t[i])
}

/// Reads the system clock (`std::time::SystemTime::now`), converts it with
/// `jiff::Timestamp::try_from`, and returns the whole seconds since the Unix
/// epoch (`Timestamp::as_second`); `None` when the clock is outside the
/// range a timestamp can hold. The value depends on the clock; only the
/// timestamp range `jiff` guarantees is claimed.
#[verifier::external_body]
fn current_unix_second() -> (s: Option<i64>)
    ensures
        s matches Some(s) ==> MIN_UNIX_SECOND <= s <= MAX_UNIX_SECOND,
{
    jiff::Timestamp::try_from(std::time::SystemTime::now()).ok().map(|t| t.as_second())
}

/// Renders the instant `second` with `jiff::Timestamp::from_second` and
/// `strftime("%Y-%m-%dT%H:%M:%SZ")`. The text is named by `utc_stamp`; for
/// instants from the year 0 on, whose years have four digits, `jiff`
/// documents zero padding of every field, which gives the ISO 8601 shape.
#[verifier::external_body]
fn utc_text(second: i64) -> (r: String)
    requires
        MIN_UNIX_SECOND <= second <= MAX_UNIX_SECOND,
    ensures
        r@ == utc_stamp(second as int),
        YEAR_ZERO_SECOND <= second ==> iso_seconds_shape(r@),
{
    jiff::Timestamp::from_second(second).unwrap().strftime("%Y-%m-%dT%H:%M:%SZ").to_string()
}

/// A stamp of some instant a timestamp can hold, in the ISO shape from the
/// year 0 on.
pub open spec fn is_stamp(t: Seq<char>) -> bool {
    exists|s: int| MIN_UNIX_SECOND <= s <= MAX_UNIX_SECOND && t == utc_stamp(s) && (YEAR_ZERO_SECOND <= s ==> iso_seconds_shape(t))
}

/// The error when the system clock cannot be read as a timestamp.
pub open spec fn clock_error_v() -> ErrorV {
    error_v(ErrorCode::Internal, "the system clock is outside the supported range"@, Some("date -u"@))
}

/// The error when the system clock cannot be read as a timestamp; the hint
/// shows the clock.
pub fn clock_error() -> (r: AppError)
    ensures
        r@ == clock_error_v(),
{
    AppError::new(ErrorCode::Internal, "the system clock is outside the supported range").with_hint("date -u")
}

/// Current UTC time as an ISO 8601 string with a `Z` suffix and second
/// precision, or the clock error when the clock is outside the range a
/// timestamp can hold.
pub fn now() -> (r: Result<String, AppError>)
    ensures
        match r {
            Ok(t) => is_stamp(t@),
            Err(e) => e@ == clock_error_v(),
        },
{
    match current_unix_second() {
        Some(second) => Ok(utc_text(second)),
        None => Err(clock_error()),
    }
}

/// The `metadata` block carried by every response.
#[derive(Debug)]
pub struct Metadata {
    pub tool: &'static str,
    pub version: &'static str,
    pub command: String,
    pub timestamp: String,
    pub maintainer: Option<&'static str>,
    pub website: Option<&'static str>,
}

/// A complete response: `{ "metadata": {...}, "data": ... }`.
#[derive(Debug)]
pub struct Response<T> {
    pub metadata: Metadata,
    pub data: T,
}

/// The view of an optional static text.
pub open spec fn static_view(o: Option<&'static str>) -> Option<Seq<char>> {
    match o {
        Some(s) => Some(s@),
        None => None,
    }
}

impl<T> Response<T> {
    /// A response for `command`, stamped with the tool, its version and the
    /// current time, without attribution; the clock error when the clock
    /// cannot be read.
    pub fn new(command: &str, data: T) -> (r: Result<Self, AppError>)
        ensures
            match r {
                Ok(r) => {
                    &&& r.metadata.tool@ == TOOL@
                    &&& r.metadata.version@ == VERSION@
                    &&& r.metadata.command@ == command@
                    &&& is_stamp(r.metadata.timestamp@)
                    &&& r.metadata.maintainer is None
                    &&& r.metadata.website is None
                    &&& r.data == data
                },
                Err(e) => e@ == clock_error_v(),
            },
    {
        let timestamp = match now() {
            Ok(t) => t,
            Err(e) => {
                return Err(e);
            },
        };
        Ok(
            Response {
                metadata: Metadata {
                    tool: TOOL,
                    version: VERSION,
                    command: command.to_string(),
                    timestamp,
                    maintainer: None,
                    website: None,
                },
                data,
            },
        )
    }

    /// Add the maintainer and website to the metadata.
    pub fn with_attribution(self) -> (r: Self)
        ensures
            r.metadata.tool@ == self.metadata.tool@,
            r.metadata.version@ == self.metadata.version@,
            r.metadata.command@ == self.metadata.command@,
            r.metadata.timestamp@ == self.metadata.timestamp@,
            static_view(r.metadata.maintainer) == Some(MAINTAINER@),
            static_view(r.metadata.website) == Some(WEBSITE@),
            r.data == self.data,
    {
        let mut r = self;
        r.metadata.maintainer = Some(MAINTAINER);
        r.metadata.website = Some(WEBSITE);
        r
    }
}

} // verus!
