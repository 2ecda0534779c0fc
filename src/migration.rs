use vstd::prelude::*;

use crate::model::{Channel, Timestamp};

verus! {

/// How the creation time of a channel is written in an export.
pub const EXPORT_TIME_FORMAT: &'static str = "%Y-%m-%d %H:%M:%S.%f";

/// Why an exported channel could not be carried over.
#[derive(Clone, Copy, PartialEq, Eq, Debug)]
pub enum MigrateError {
    /// The creation time does not follow the export's time format.
    BadCreatedTime,
}

/// The instant, as seconds since the epoch and nanoseconds, that a text names
/// when read in the given strftime-like format as a UTC date and time; `None`
/// where the text does not follow the format.
pub uninterp spec fn utc_time_of(text: Seq<char>, format: Seq<char>) -> Option<(i64, u32)>;

/// Relies on `chrono::NaiveDateTime::parse_from_str`, read as UTC through
/// `and_utc`, with `timestamp` and `timestamp_subsec_nanos`: the instant
/// depends on the text and the format alone.
#[verifier::external_body]
fn parse_utc_time(text: &str, format: &str) -> (r: Option<Timestamp>)
    ensures
        match r {
            Some(t) => utc_time_of(text@, format@) == Some((t.seconds, t.nanos)),
            None => utc_time_of(text@, format@) is None,
        },
{
    match chrono::NaiveDateTime::parse_from_str(text, format) {
        Ok(naive) => {
            let utc = naive.and_utc();
            Some(Timestamp { seconds: utc.timestamp(), nanos: utc.timestamp_subsec_nanos() })
        },
        Err(_) => None,
    }
}

/// The record of a channel carried over from an export, where its creation
/// time reads in the export's format.
pub fn migrated_channel(created: &str, created_agent: &str, created_ip: &str) -> (r: Result<Channel, MigrateError>)
    ensures
        match utc_time_of(created@, EXPORT_TIME_FORMAT@) {
            Some((seconds, nanos)) => r matches Ok(c) && c.created == (Timestamp { seconds, nanos })
                && c.created_agent@ == created_agent@ && c.created_ip@ == created_ip@,
            None => r == Err::<Channel, MigrateError>(MigrateError::BadCreatedTime),
        },
{
    match parse_utc_time(created, EXPORT_TIME_FORMAT) {
        Some(time) => Ok(
            Channel {
                created: time,
                created_agent: String::from_str(created_agent),
                created_ip: String::from_str(created_ip),
            },
        ),
        None => Err(MigrateError::BadCreatedTime),
    }
}

} // verus!
