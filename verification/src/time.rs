//! Timestamp handling: every feed delivers times as RFC 3339 text, and the
//! store keeps them as microseconds since the Unix epoch, UTC.
//!
//! The parse itself is done by an outside library behind one trusted
//! wrapper; which rows are accepted and which error names which malformed
//! field is decided by verified code.

use vstd::prelude::*;

verus! {

/// What an RFC 3339 date-and-time string denotes: the instant as
/// microseconds since the Unix epoch (UTC), or nothing when the text is
/// not a valid RFC 3339 date-and-time. A function of the text alone.
pub uninterp spec fn rfc3339_utc_micros(s: Seq<char>) -> Option<i64>;

/// Relies on chrono's `DateTime::parse_from_rfc3339` (the parse depends on
/// the text alone) and `DateTime::timestamp_micros` (the instant as
/// microseconds, UTC; RFC 3339 years have four digits, so the value stays
/// in range and the conversion cannot overflow).
#[verifier::external_body]
fn parse_rfc3339_micros(s: &str) -> (r: Option<i64>)
    ensures
        r == rfc3339_utc_micros(s@),
{
    match chrono::DateTime::parse_from_rfc3339(s) {
        Ok(dt) => Some(dt.timestamp_micros()),
        Err(_) => None,
    }
}

/// A timestamp that could not be read.
#[derive(Clone, Copy, Debug, PartialEq, Eq, Structural)]
pub struct TimestampError {}

/// Reads a required RFC 3339 timestamp: the denoted instant, or an error
/// exactly when the text denotes none.
pub fn parse_timestamp(value: &str) -> (r: Result<i64, TimestampError>)
    ensures
        r == match rfc3339_utc_micros(value@) {
            Some(t) => Ok::<i64, TimestampError>(t),
            None => Err::<i64, TimestampError>(TimestampError {}),
        },
{
    match parse_rfc3339_micros(value) {
        Some(t) => Ok(t),
        None => Err(TimestampError {}),
    }
}

/// Reads an optional RFC 3339 timestamp: absent or malformed text becomes
/// no timestamp, never an error.
pub fn parse_timestamp_opt(value: Option<&str>) -> (r: Option<i64>)
    ensures
        r == match value {
            Some(s) => rfc3339_utc_micros(s@),
            None => None::<i64>,
        },
{
    match value {
        Some(s) => parse_rfc3339_micros(s),
        None => None,
    }
}

/// The date fields a market row carries as text.
pub struct GammaMarketDates {
    pub end_date: String,
    pub start_date: String,
    pub created_at: String,
    pub updated_at: String,
    pub accepting_orders_timestamp: Option<String>,
}

/// The same dates resolved to instants, ready for the store.
#[derive(Clone, Copy, Debug, PartialEq, Eq, Structural)]
pub struct GammaTimestamps {
    pub end_date: i64,
    pub start_date: i64,
    pub created_at: i64,
    pub updated_at: i64,
    pub accepting_orders_timestamp: Option<i64>,
}

/// Which required date field of a market row was malformed.
#[derive(Clone, Copy, Debug, PartialEq, Eq, Structural)]
pub enum GammaDateError {
    InvalidEndDate,
    InvalidStartDate,
    InvalidCreatedAt,
    InvalidUpdatedAt,
}

impl GammaMarketDates {
    /// Resolves a market row's dates, in the order the store checks them:
    /// the four required dates must each be valid RFC 3339 — the first
    /// malformed one names the error and the row is skipped — while the
    /// optional order-acceptance time is kept only when it parses.
    pub fn resolve(&self) -> (r: Result<GammaTimestamps, GammaDateError>)
        ensures
            rfc3339_utc_micros(self.end_date@) is None ==> r == Err::<GammaTimestamps, _>(
                GammaDateError::InvalidEndDate,
            ),
            rfc3339_utc_micros(self.end_date@) is Some && rfc3339_utc_micros(self.start_date@)
                is None ==> r == Err::<GammaTimestamps, _>(GammaDateError::InvalidStartDate),
            rfc3339_utc_micros(self.end_date@) is Some && rfc3339_utc_micros(self.start_date@)
                is Some && rfc3339_utc_micros(self.created_at@) is None ==> r == Err::<
                GammaTimestamps,
                _,
            >(GammaDateError::InvalidCreatedAt),
            rfc3339_utc_micros(self.end_date@) is Some && rfc3339_utc_micros(self.start_date@)
                is Some && rfc3339_utc_micros(self.created_at@) is Some && rfc3339_utc_micros(
                self.updated_at@,
            ) is None ==> r == Err::<GammaTimestamps, _>(GammaDateError::InvalidUpdatedAt),
            rfc3339_utc_micros(self.end_date@) is Some && rfc3339_utc_micros(self.start_date@)
                is Some && rfc3339_utc_micros(self.created_at@) is Some && rfc3339_utc_micros(
                self.updated_at@,
            ) is Some ==> {
                &&& r matches Ok(t)
                &&& t.end_date == rfc3339_utc_micros(self.end_date@)->0
                &&& t.start_date == rfc3339_utc_micros(self.start_date@)->0
                &&& t.created_at == rfc3339_utc_micros(self.created_at@)->0
                &&& t.updated_at == rfc3339_utc_micros(self.updated_at@)->0
                &&& t.accepting_orders_timestamp == match self.accepting_orders_timestamp {
                    Some(s) => rfc3339_utc_micros(s@),
                    None => None::<i64>,
                }
            },
    {
        let end_date = match parse_rfc3339_micros(self.end_date.as_str()) {
            Some(t) => t,
            None => {
                return Err(GammaDateError::InvalidEndDate);
            },
        };
        let start_date = match parse_rfc3339_micros(self.start_date.as_str()) {
            Some(t) => t,
            None => {
                return Err(GammaDateError::InvalidStartDate);
            },
        };
        let created_at = match parse_rfc3339_micros(self.created_at.as_str()) {
            Some(t) => t,
            None => {
                return Err(GammaDateError::InvalidCreatedAt);
            },
        };
        let updated_at = match parse_rfc3339_micros(self.updated_at.as_str()) {
            Some(t) => t,
            None => {
                return Err(GammaDateError::InvalidUpdatedAt);
            },
        };
        let accepting_orders_timestamp = match &self.accepting_orders_timestamp {
            Some(s) => parse_rfc3339_micros(s.as_str()),
            None => None,
        };
        Ok(
            GammaTimestamps {
                end_date,
                start_date,
                created_at,
                updated_at,
                accepting_orders_timestamp,
            },
        )
    }
}

} // verus!
