use vstd::prelude::*;
use crate::error::{ApiError, Invalid};

verus! {

/// The instant, in milliseconds since the epoch, that
/// `chrono::DateTime::parse_from_rfc3339` reads from `s`.
pub uninterp spec fn rfc3339_millis(s: Seq<char>) -> Option<i64>;

/// Midnight UTC, in milliseconds since the epoch, of the day that
/// `chrono::NaiveDate::parse_from_str` reads from `s` in the form `YYYY-MM-DD`.
pub uninterp spec fn calendar_day_millis(s: Seq<char>) -> Option<i64>;

/// Relies on `chrono::DateTime::parse_from_rfc3339`: the instant `s` names,
/// if it is an RFC 3339 timestamp.
#[verifier::external_body]
fn parse_rfc3339_millis(s: &str) -> (r: Option<i64>)
    ensures
        r == rfc3339_millis(s@),
{
    match chrono::DateTime::parse_from_rfc3339(s) {
        Ok(d) => Some(d.timestamp_millis()),
        Err(_) => None,
    }
}

/// Relies on `chrono::NaiveDate::parse_from_str` with `%Y-%m-%d`: the start
/// of the day `s` names, taken as UTC.
#[verifier::external_body]
fn parse_calendar_day_millis(s: &str) -> (r: Option<i64>)
    ensures
        r == calendar_day_millis(s@),
{
    match chrono::NaiveDate::parse_from_str(s, "%Y-%m-%d") {
        Ok(d) => Some(d.and_time(chrono::NaiveTime::MIN).and_utc().timestamp_millis()),
        Err(_) => None,
    }
}

/// The due date a task payload asks for: absent stays absent; otherwise an
/// RFC 3339 timestamp, else a calendar day, else a validation error.
pub open spec fn due_date_outcome(d: Option<Seq<char>>) -> Result<Option<i64>, ApiError> {
    match d {
        None => Ok(None),
        Some(s) => match rfc3339_millis(s) {
            Some(m) => Ok(Some(m)),
            None => match calendar_day_millis(s) {
                Some(m) => Ok(Some(m)),
                None => Err(ApiError::Validation(Invalid::DueDate)),
            },
        },
    }
}

/// Reads the due date of a task payload.
pub fn parse_due_date(due_date: &Option<String>) -> (r: Result<Option<i64>, ApiError>)
    ensures
        r == due_date_outcome(
            match due_date {
                Some(s) => Some(s@),
                None => None,
            },
        ),
{
    match due_date {
        None => Ok(None),
        Some(s) => match parse_rfc3339_millis(s.as_str()) {
            Some(m) => Ok(Some(m)),
            None => match parse_calendar_day_millis(s.as_str()) {
                Some(m) => Ok(Some(m)),
                None => Err(ApiError::Validation(Invalid::DueDate)),
            },
        },
    }
}

} // verus!
