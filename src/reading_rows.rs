//! Stored readings read back from SQLite rows.
use vstd::prelude::*;
use crate::readings::{
    BloodPressureReadingEntity, RetrieveError, Timestamp, reading_from_columns,
};

verus! {

#[verifier::external_type_specification]
#[verifier::external_body]
pub struct ExSqliteRow(sqlx::sqlite::SqliteRow);

/// The instant that an RFC 3339 text denotes, as (seconds since the Unix
/// epoch, nanoseconds past that second); `None` for a text that is not RFC
/// 3339.
pub uninterp spec fn rfc3339_instant(text: Seq<char>) -> Option<(i64, u32)>;

/// Relies on sqlx's `Row::try_get` for a text column: the column's text (a
/// NULL reads as empty text), or `None` when the row has no such column or it
/// holds a value of another type.
#[verifier::external_body]
fn column_text(row: &sqlx::sqlite::SqliteRow, column: &str) -> (r: Option<String>) {
    sqlx::Row::try_get::<String, &str>(row, column).ok()
}

/// Relies on sqlx's `Row::try_get` for an integer column: the column's value
/// (a NULL reads as 0), or `None` when the row has no such column, it holds a
/// value of another type, or the integer does not fit in an `i32`.
#[verifier::external_body]
fn column_i32(row: &sqlx::sqlite::SqliteRow, column: &str) -> (r: Option<i32>) {
    sqlx::Row::try_get::<i32, &str>(row, column).ok()
}

/// Relies on chrono's `DateTime::parse_from_rfc3339`, whose result is taken
/// apart with `timestamp` and `timestamp_subsec_nanos`: the instant depends on
/// the text alone.
#[verifier::external_body]
fn parse_rfc3339(text: &str) -> (r: Option<Timestamp>)
    ensures
        r is Some <==> rfc3339_instant(text@) is Some,
        r is Some ==> r->Some_0.seconds == rfc3339_instant(text@)->Some_0.0,
        r is Some ==> r->Some_0.nanos == rfc3339_instant(text@)->Some_0.1,
{
    match chrono::DateTime::parse_from_rfc3339(text) {
        Ok(d) => Some(Timestamp { seconds: d.timestamp(), nanos: d.timestamp_subsec_nanos() }),
        Err(_) => None,
    }
}

/// The instant in a stored `taken` column, if the column was read and holds
/// an RFC 3339 text.
pub fn taken_from_column(raw: Option<String>) -> (r: Option<Timestamp>)
    ensures
        r is Some <==> (raw is Some && rfc3339_instant(raw->Some_0@) is Some),
        r is Some ==> r->Some_0.seconds == rfc3339_instant(raw->Some_0@)->Some_0.0
            && r->Some_0.nanos == rfc3339_instant(raw->Some_0@)->Some_0.1,
{
    match raw {
        Some(text) => parse_rfc3339(text.as_str()),
        None => None,
    }
}

/// A stored reading from one row of the `reading` table. A column that cannot
/// be read is named in the error.
pub fn deserialize_row(row: &sqlx::sqlite::SqliteRow) -> (r: Result<BloodPressureReadingEntity, RetrieveError>)
    ensures
        r is Err ==> r->Err_0 is DeserializationError,
{
    let reading_id = column_text(row, "reading_id");
    let user_id = column_text(row, "user_id");
    let systolic = column_i32(row, "systolic");
    let diastolic = column_i32(row, "diastolic");
    let pulse = column_i32(row, "pulse");
    let taken = taken_from_column(column_text(row, "taken"));
    reading_from_columns(reading_id, user_id, systolic, diastolic, pulse, taken)
}

/// The readings stored in `rows`, in the same order; the first row that
/// cannot be read ends the listing with its error.
pub fn deserialize_rows(rows: &Vec<sqlx::sqlite::SqliteRow>) -> (r: Result<
    Vec<BloodPressureReadingEntity>,
    RetrieveError,
>)
    ensures
        r is Ok ==> r->Ok_0.len() == rows.len(),
        r is Err ==> r->Err_0 is DeserializationError,
{
    let mut readings: Vec<BloodPressureReadingEntity> = Vec::new();
    let mut i: usize = 0;
    while i < rows.len()
        invariant
            i <= rows.len(),
            readings.len() == i,
        decreases rows.len() - i,
    {
        match deserialize_row(&rows[i]) {
            Ok(reading) => readings.push(reading),
            Err(e) => {
                return Err(e);
            },
        }
        i = i + 1;
    }
    Ok(readings)
}

} // verus!
