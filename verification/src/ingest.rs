//! The ingestion service's answers: the liveness answer, the entry that a
//! create request is written as, and the answer that tells how the write
//! went. Taking requests and writing to the time-series store are the
//! caller's.

use vstd::prelude::*;

verus! {

/// The status of an answer that reports success.
pub const STATUS_OK: u16 = 200;

/// The status of an answer that reports a failed write.
pub const STATUS_WRITE_FAILED: u16 = 500;

/// The body of a create request: a temperature in whole degrees.
#[derive(Clone, Copy, Debug, PartialEq, Eq, Structural)]
pub struct CreateEntry {
    pub temp: i32,
}

/// One row of the time-series store: a temperature in whole degrees and the
/// service's own time for it, in milliseconds since the Unix epoch.
#[derive(Clone, Copy, Debug, PartialEq, Eq, Structural)]
pub struct TempReading {
    pub time_millis: i64,
    pub temp: i32,
}

/// The write to the time-series store failed.
#[derive(Clone, Copy, Debug, PartialEq, Eq, Structural)]
pub struct ServerPersistError;

/// An answer of the service: a status and a message.
#[derive(Debug, PartialEq, Eq)]
pub struct StatusResponse {
    pub status: u16,
    pub message: String,
}

/// The message of the liveness answer.
pub open spec fn pong_text() -> Seq<char> {
    seq!['P', 'o', 'n', 'g', '!']
}

/// The message of the answer to a create request whose write failed.
pub open spec fn write_failed_text() -> Seq<char> {
    seq![
        'f',
        'a',
        'i',
        'l',
        'e',
        'd',
        ' ',
        't',
        'o',
        ' ',
        'w',
        'r',
        'i',
        't',
        'e',
        ' ',
        'e',
        'n',
        't',
        'r',
        'y',
    ]
}

/// The service's clock: calls `chrono::Utc::now` and hands back what
/// `DateTime::timestamp_millis` makes of the result, milliseconds since the
/// Unix epoch. Nothing is claimed of the value: it is whatever the system
/// clock says, and two calls may differ. `Utc::now` panics where the system
/// clock stands before the Unix epoch; no argument decides that, so no
/// precondition can leave it out.
#[verifier::external_body]
fn server_time_millis() -> (millis: i64) {
    chrono::Utc::now().timestamp_millis()
}

/// The liveness answer.
pub fn pingpong() -> (response: StatusResponse)
    ensures
        response.status == STATUS_OK,
        response.message@ == pong_text(),
{
    proof {
        reveal_strlit("Pong!");
    }
    let message = String::from_str("Pong!");
    assert(message@ =~= pong_text());
    StatusResponse { status: STATUS_OK, message }
}

/// The row that a create request is written as when the service's clock
/// shows `time_millis`: the request's temperature, unchanged, at that time.
pub fn entry_at(payload: CreateEntry, time_millis: i64) -> (entry: TempReading)
    ensures
        entry == (TempReading { time_millis, temp: payload.temp }),
{
    TempReading { time_millis, temp: payload.temp }
}

/// The row that a create request is written as now: the request's
/// temperature, unchanged, at the time that the service's clock shows.
pub fn create_entry(payload: CreateEntry) -> (entry: TempReading)
    ensures
        entry.temp == payload.temp,
{
    entry_at(payload, server_time_millis())
}

/// The answer to a create request, given how the write went: success with the
/// store's own message, or the failure answer. A failed write is not retried.
pub fn create_entry_response(
    written: Result<String, ServerPersistError>,
) -> (response: StatusResponse)
    ensures
        match written {
            Ok(text) => response.status == STATUS_OK && response.message@ == text@,
            Err(_) => response.status == STATUS_WRITE_FAILED && response.message@
                == write_failed_text(),
        },
{
    match written {
        Ok(text) => StatusResponse { status: STATUS_OK, message: text },
        Err(_) => {
            proof {
                reveal_strlit("failed to write entry");
            }
            let message = String::from_str("failed to write entry");
            assert(message@ =~= write_failed_text());
            StatusResponse { status: STATUS_WRITE_FAILED, message }
        },
    }
}

} // verus!
