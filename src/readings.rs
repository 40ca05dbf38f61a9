//! Blood-pressure readings: what an OCR result becomes in a response, and the
//! errors of the readings' storage.
use vstd::prelude::*;
use vstd::string::StringExecFns;

verus! {

/// The three values read off a blood-pressure monitor's display.
#[derive(Clone, Copy, Debug, PartialEq, Eq, Structural)]
pub struct MonitorReading {
    pub systolic: i32,
    pub diastolic: i32,
    pub pulse: i32,
}

/// What the OCR endpoint answers.
pub enum BloodPressureReadingResponse {
    Reading { systolic: i32, diastolic: i32, pulse: i32 },
    ReadingError { description: String },
    UnlikelyReading { systolic: i32, diastolic: i32, pulse: i32 },
}

/// A reading that a living person can hardly have: a digit was probably
/// missed (glare, tilt), so the reading is flagged rather than trusted.
pub open spec fn unlikely(reading: MonitorReading) -> bool {
    reading.systolic < 50 || reading.diastolic < 40 || reading.pulse < 40
}

/// Whether a reading should be flagged as unlikely.
pub fn is_unlikely_reading(reading: &MonitorReading) -> (r: bool)
    ensures
        r == unlikely(*reading),
{
    if reading.systolic < 50 {
        true
    } else if reading.diastolic < 40 {
        true
    } else {
        reading.pulse < 40
    }
}

/// The answer to an OCR attempt: `None` when no reading could be detected.
pub fn map_ocr_result(reading: Option<MonitorReading>) -> (r: BloodPressureReadingResponse)
    ensures
        reading is None ==> (r matches BloodPressureReadingResponse::ReadingError { description }
            && description@ == "Could not detect reading."@),
        reading is Some && unlikely(reading->Some_0) ==> r == (BloodPressureReadingResponse::UnlikelyReading {
            systolic: reading->Some_0.systolic,
            diastolic: reading->Some_0.diastolic,
            pulse: reading->Some_0.pulse,
        }),
        reading is Some && !unlikely(reading->Some_0) ==> r == (BloodPressureReadingResponse::Reading {
            systolic: reading->Some_0.systolic,
            diastolic: reading->Some_0.diastolic,
            pulse: reading->Some_0.pulse,
        }),
{
    match reading {
        None => BloodPressureReadingResponse::ReadingError {
            description: String::from_str("Could not detect reading."),
        },
        Some(m) => if is_unlikely_reading(&m) {
            BloodPressureReadingResponse::UnlikelyReading {
                systolic: m.systolic,
                diastolic: m.diastolic,
                pulse: m.pulse,
            }
        } else {
            BloodPressureReadingResponse::Reading { systolic: m.systolic, diastolic: m.diastolic, pulse: m.pulse }
        },
    }
}

/// A failure to store a reading.
#[derive(Debug)]
pub enum SaveError {
    LowLevelError { description: String },
}

/// A failure to fetch readings.
#[derive(Debug)]
pub enum RetrieveError {
    LowLevelError { description: String },
    DeserializationError { description: String },
}

/// The message for a stored column that could not be read back.
pub open spec fn column_error_text(column_name: Seq<char>) -> Seq<char> {
    "Could not deserialize "@ + column_name + " column"@
}

/// The error for a stored column that could not be read back.
pub fn to_column_parse_error(column_name: &str) -> (r: RetrieveError)
    ensures
        r matches RetrieveError::DeserializationError { description } && description@
            == column_error_text(column_name@),
{
    let mut description = String::from_str("Could not deserialize ");
    description.append(column_name);
    description.append(" column");
    RetrieveError::DeserializationError { description }
}

/// An instant as seconds since the Unix epoch (UTC) and the nanoseconds past
/// that second.
#[derive(Clone, Copy, Debug, PartialEq, Eq, Structural)]
pub struct Timestamp {
    pub seconds: i64,
    pub nanos: u32,
}

/// A reading as the readings' storage keeps it.
pub struct BloodPressureReadingEntity {
    pub reading_id: String,
    pub user_id: String,
    pub systolic: i32,
    pub diastolic: i32,
    pub pulse: i32,
    pub taken: Timestamp,
}

/// A reading as a user submits it.
#[derive(Clone, Copy, Debug, PartialEq, Eq, Structural)]
pub struct BloodPressureReadingSubmission {
    pub systolic: i32,
    pub diastolic: i32,
    pub pulse: i32,
    pub taken: Timestamp,
}

/// The entity to store for a submission made in a session whose subject is
/// `subject`, under the identifier `reading_id`. A session without a subject
/// stores nothing.
pub fn new_reading_entity(
    subject: Option<String>,
    reading_id: String,
    submission: &BloodPressureReadingSubmission,
) -> (r: Option<BloodPressureReadingEntity>)
    ensures
        r is Some <==> subject is Some,
        r is Some ==> r->Some_0.user_id@ == subject->Some_0@ && r->Some_0.reading_id@ == reading_id@
            && r->Some_0.systolic == submission.systolic && r->Some_0.diastolic == submission.diastolic
            && r->Some_0.pulse == submission.pulse && r->Some_0.taken == submission.taken,
{
    match subject {
        None => None,
        Some(user_id) => Some(
            BloodPressureReadingEntity {
                reading_id,
                user_id,
                systolic: submission.systolic,
                diastolic: submission.diastolic,
                pulse: submission.pulse,
                taken: submission.taken,
            },
        ),
    }
}

/// The shape of a version 7 UUID written out in hyphenated form: five groups
/// of 8, 4, 4, 4 and 12 characters, the third one starting with `7`.
pub open spec fn is_v7_hyphenated(id: Seq<char>) -> bool {
    &&& id.len() == 36
    &&& id[8] == '-' && id[13] == '-' && id[18] == '-' && id[23] == '-'
    &&& id[14] == '7'
}

/// Relies on uuid's `Uuid::now_v7`, written out by its `Display`: a fresh
/// time-ordered identifier in the 36-character hyphenated form, with the
/// version digit 7 opening its third group.
#[verifier::external_body]
fn new_reading_id() -> (r: String)
    ensures
        is_v7_hyphenated(r@),
{
    uuid::Uuid::now_v7().to_string()
}

/// The entity to store for a submission made in a session whose subject is
/// `subject`, under a freshly drawn identifier. A session without a subject
/// stores nothing, and no identifier is drawn for it.
pub fn reading_entity_for(subject: Option<String>, submission: &BloodPressureReadingSubmission) -> (r:
    Option<BloodPressureReadingEntity>)
    ensures
        r is Some <==> subject is Some,
        r is Some ==> r->Some_0.user_id@ == subject->Some_0@ && is_v7_hyphenated(r->Some_0.reading_id@)
            && r->Some_0.systolic == submission.systolic && r->Some_0.diastolic == submission.diastolic
            && r->Some_0.pulse == submission.pulse && r->Some_0.taken == submission.taken,
{
    if subject.is_none() {
        return None;
    }
    new_reading_entity(subject, new_reading_id(), submission)
}

/// The column that a stored reading is missing first, in the order in which
/// the columns are read; `None` when every column could be read.
pub open spec fn first_unreadable_column(
    reading_id: Option<String>,
    user_id: Option<String>,
    systolic: Option<i32>,
    diastolic: Option<i32>,
    pulse: Option<i32>,
    taken: Option<Timestamp>,
) -> Option<Seq<char>> {
    if reading_id is None {
        Some("reading_id"@)
    } else if user_id is None {
        Some("user_id"@)
    } else if systolic is None {
        Some("systolic"@)
    } else if diastolic is None {
        Some("diastolic"@)
    } else if pulse is None {
        Some("pulse"@)
    } else if taken is None {
        Some("taken"@)
    } else {
        None
    }
}

/// A stored reading from its columns as they were read back (`None` for a
/// column that could not be read). The error names the first such column.
pub fn reading_from_columns(
    reading_id: Option<String>,
    user_id: Option<String>,
    systolic: Option<i32>,
    diastolic: Option<i32>,
    pulse: Option<i32>,
    taken: Option<Timestamp>,
) -> (r: Result<BloodPressureReadingEntity, RetrieveError>)
    ensures
        first_unreadable_column(reading_id, user_id, systolic, diastolic, pulse, taken) is None ==> (r
            matches Ok(e) && Some(e.reading_id) == reading_id && Some(e.user_id) == user_id && Some(
            e.systolic,
        ) == systolic && Some(e.diastolic) == diastolic && Some(e.pulse) == pulse && Some(e.taken)
            == taken),
        first_unreadable_column(reading_id, user_id, systolic, diastolic, pulse, taken) matches Some(
            c,
        ) ==> (r matches Err(RetrieveError::DeserializationError { description }) && description@
            == column_error_text(c)),
{
    let reading_id = match reading_id {
        Some(v) => v,
        None => {
            return Err(to_column_parse_error("reading_id"));
        },
    };
    let user_id = match user_id {
        Some(v) => v,
        None => {
            return Err(to_column_parse_error("user_id"));
        },
    };
    let systolic = match systolic {
        Some(v) => v,
        None => {
            return Err(to_column_parse_error("systolic"));
        },
    };
    let diastolic = match diastolic {
        Some(v) => v,
        None => {
            return Err(to_column_parse_error("diastolic"));
        },
    };
    let pulse = match pulse {
        Some(v) => v,
        None => {
            return Err(to_column_parse_error("pulse"));
        },
    };
    let taken = match taken {
        Some(v) => v,
        None => {
            return Err(to_column_parse_error("taken"));
        },
    };
    Ok(BloodPressureReadingEntity { reading_id, user_id, systolic, diastolic, pulse, taken })
}

} // verus!
