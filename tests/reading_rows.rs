use bp_server::reading_rows::deserialize_rows;
use bp_server::readings::{RetrieveError, Timestamp};
use sqlx::sqlite::{SqlitePool, SqliteRow};

fn rows_of(query: &str) -> Vec<SqliteRow> {
    let runtime = tokio::runtime::Builder::new_current_thread().enable_all().build().unwrap();
    runtime.block_on(async {
        let pool = SqlitePool::connect("sqlite::memory:").await.unwrap();
        sqlx::query(query).fetch_all(&pool).await.unwrap()
    })
}

#[test]
fn stored_rows_become_readings() {
    let rows = rows_of(
        "select 'r1' as reading_id, 'u1' as user_id, 120 as systolic, 80 as diastolic, \
         60 as pulse, '2024-01-02T03:04:05.5+01:00' as taken \
         union all select 'r2', 'u1', 130, 85, 70, '1970-01-01T00:00:10Z'",
    );
    let readings = deserialize_rows(&rows).ok().unwrap();
    assert_eq!(readings.len(), 2);
    assert_eq!(readings[0].reading_id, "r1");
    assert_eq!(readings[0].user_id, "u1");
    assert_eq!((readings[0].systolic, readings[0].diastolic, readings[0].pulse), (120, 80, 60));
    assert_eq!(readings[0].taken, Timestamp { seconds: 1704161045, nanos: 500_000_000 });
    assert_eq!(readings[1].reading_id, "r2");
    assert_eq!(readings[1].taken, Timestamp { seconds: 10, nanos: 0 });
}

#[test]
fn unreadable_column_is_reported() {
    let rows = rows_of(
        "select 'r1' as reading_id, 'u1' as user_id, 120 as systolic, 80 as diastolic, \
         60 as pulse, 'not a date' as taken",
    );
    match deserialize_rows(&rows) {
        Err(RetrieveError::DeserializationError { description }) => {
            assert_eq!(description, "Could not deserialize taken column")
        }
        _ => panic!("expected a deserialization error"),
    }
    let rows = rows_of("select 'r1' as reading_id, 'u1' as user_id, 'high' as systolic");
    match deserialize_rows(&rows) {
        Err(RetrieveError::DeserializationError { description }) => {
            assert_eq!(description, "Could not deserialize systolic column")
        }
        _ => panic!("expected a deserialization error"),
    }
}

#[test]
fn no_rows_no_readings() {
    let rows = rows_of("select 'r1' as reading_id where 0");
    assert_eq!(deserialize_rows(&rows).ok().unwrap().len(), 0);
}

#[test]
fn null_columns_read_as_empty_values() {
    let rows = rows_of(
        "select NULL as reading_id, 'u1' as user_id, NULL as systolic, 80 as diastolic, \
         60 as pulse, '1970-01-01T00:00:10Z' as taken",
    );
    let readings = deserialize_rows(&rows).ok().unwrap();
    assert_eq!(readings[0].reading_id, "");
    assert_eq!(readings[0].systolic, 0);
}
