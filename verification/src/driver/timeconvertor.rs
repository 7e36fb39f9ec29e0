use vstd::prelude::*;

verus! {

/// A point in time as stored: milliseconds since the Unix epoch.
#[derive(Debug, Clone, Copy, PartialEq, Eq)]
pub struct BsonDateTime {
    pub millis: i64,
}

impl BsonDateTime {
    pub fn from_millis(millis: i64) -> (r: Self)
        ensures
            r.millis == millis,
    {
        BsonDateTime { millis }
    }

    pub fn timestamp_millis(&self) -> (r: i64)
        ensures
            r == self.millis,
    {
        self.millis
    }
}

/// A conversion failure with its message.
#[derive(Debug, Clone)]
pub struct TimeError {
    pub message: String,
}

/// The earliest instant `chrono` can represent, in milliseconds since the
/// epoch: -262143-01-01T00:00:00.000.
pub open spec fn naive_millis_min() -> int {
    -8334601228800000
}

/// The latest instant `chrono` can represent, in milliseconds since the
/// epoch: +262142-12-31T23:59:59.999.
pub open spec fn naive_millis_max() -> int {
    8210266876799999
}

/// Whether `chrono` can represent the instant `millis` milliseconds after the
/// epoch as a `NaiveDateTime` (its years run from -262143 to 262142).
pub open spec fn naive_millis_representable(millis: i64) -> bool {
    naive_millis_min() <= millis <= naive_millis_max()
}

/// `chrono::NaiveDateTime::from_timestamp_millis`, with the date it gives
/// read back in milliseconds by `timestamp_millis`. `Some` exactly when the
/// year lies in chrono's range, and then the same number of milliseconds
/// (chrono documents that the two round-trip).
#[verifier::external_body]
#[allow(deprecated)]
fn naive_millis_roundtrip(millis: i64) -> (r: Option<i64>)
    ensures
        r is Some <==> naive_millis_representable(millis),
        r is Some ==> r->0 == millis,
{
    match chrono::NaiveDateTime::from_timestamp_millis(millis) {
        Some(time) => Some(time.timestamp_millis()),
        None => None,
    }
}

/// Converts a stored time to milliseconds, failing when the calendar cannot
/// represent it.
pub fn to_timestamp(input: BsonDateTime) -> (r: Result<i64, TimeError>)
    ensures
        r is Ok <==> naive_millis_representable(input.millis),
        r matches Ok(v) ==> v == input.millis,
        r matches Err(e) ==> e.message@ == "Failed to convert BsonDateTime to DateTime"@,
{
    match naive_millis_roundtrip(input.timestamp_millis()) {
        Some(millis) => Ok(millis),
        None => Err(
            TimeError { message: String::from_str("Failed to convert BsonDateTime to DateTime") },
        ),
    }
}

/// Converts milliseconds to a stored time.
pub fn to_bson_date_time(input: i64) -> (r: Result<BsonDateTime, TimeError>)
    ensures
        r matches Ok(t) && t.millis == input,
{
    Ok(BsonDateTime::from_millis(input))
}

} // verus!
