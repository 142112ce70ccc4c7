use jabroni::db::SqliteDatabase;
use jabroni::handler::{App, AppError};
use jabroni::requests::{
    ApiRequest, BatchInsertRowRequest, GetRowRequest, InsertRowRequest, UpdateRowRequest,
};
use jabroni::responses::ApiResponse;
use jabroni::values::{JsonValue, SqlValue};

fn measurements_app(uri: &str) -> (rusqlite::Connection, App) {
    let conn = rusqlite::Connection::open(uri).unwrap();
    conn.execute_batch(
        "CREATE TABLE measurements (id INTEGER PRIMARY KEY, value REAL, tag TEXT, payload BLOB)",
    )
    .unwrap();
    let db = SqliteDatabase::new(uri).unwrap();
    (conn, App::new(db))
}

#[test]
fn real_values_round_trip_through_their_decimal_rendering() {
    let (_conn, app) = measurements_app("file:roundtrip1?mode=memory&cache=shared");
    app.call(ApiRequest::InsertRow(InsertRowRequest {
        table: "measurements".to_string(),
        data: vec![
            ("id".to_string(), JsonValue::Int(1)),
            ("value".to_string(), JsonValue::Real("1.5".to_string())),
        ],
        request_id: "1".to_string(),
    }))
    .unwrap();
    let fetched = app
        .call(ApiRequest::GetRow(GetRowRequest {
            table: "measurements".to_string(),
            key: JsonValue::Int(1),
            select: vec!["value".to_string()],
            request_id: "2".to_string(),
        }))
        .unwrap();
    match fetched {
        ApiResponse::GetRow(p) => {
            assert_eq!(p.row, vec![("value".to_string(), SqlValue::Real("1.5".to_string()))]);
        },
        other => panic!("unexpected response: {:?}", other),
    }
}

#[test]
fn blob_columns_read_back_as_bytes() {
    let (conn, app) = measurements_app("file:roundtrip2?mode=memory&cache=shared");
    conn.execute(
        "INSERT INTO measurements (id, payload) VALUES (1, X'dead')",
        (),
    )
    .unwrap();
    let fetched = app
        .call(ApiRequest::GetRow(GetRowRequest {
            table: "measurements".to_string(),
            key: JsonValue::Int(1),
            select: vec!["payload".to_string()],
            request_id: "3".to_string(),
        }))
        .unwrap();
    match fetched {
        ApiResponse::GetRow(p) => {
            assert_eq!(p.row, vec![("payload".to_string(), SqlValue::Blob(vec![0xde, 0xad]))]);
        },
        other => panic!("unexpected response: {:?}", other),
    }
}

#[test]
fn negative_integers_round_trip() {
    let (_conn, app) = measurements_app("file:roundtrip3?mode=memory&cache=shared");
    app.call(ApiRequest::InsertRow(InsertRowRequest {
        table: "measurements".to_string(),
        data: vec![("id".to_string(), JsonValue::Int(4))],
        request_id: "4".to_string(),
    }))
    .unwrap();
    app.call(ApiRequest::UpdateRow(UpdateRowRequest {
        table: "measurements".to_string(),
        key: JsonValue::Int(4),
        data: vec![("value".to_string(), JsonValue::Int(-5))],
        request_id: "5".to_string(),
    }))
    .unwrap();
    let stored: f64 = _conn
        .query_row("SELECT value FROM measurements WHERE id = 4", (), |r| r.get(0))
        .unwrap();
    assert_eq!(stored, -5.0);
}

#[test]
fn insert_with_unknown_column_reports_exactly_that_column() {
    let (_conn, app) = measurements_app("file:roundtrip4?mode=memory&cache=shared");
    let err = app
        .call(ApiRequest::InsertRow(InsertRowRequest {
            table: "measurements".to_string(),
            data: vec![
                ("id".to_string(), JsonValue::Int(9)),
                ("bogus".to_string(), JsonValue::Int(1)),
            ],
            request_id: "6".to_string(),
        }))
        .unwrap_err();
    assert_eq!(err, AppError::ColumnsNotFound { columns: vec!["bogus".to_string()] });
}

#[test]
fn batch_with_unknown_column_in_later_row_reports_it() {
    let (_conn, app) = measurements_app("file:roundtrip5?mode=memory&cache=shared");
    let err = app
        .call(ApiRequest::BatchInsertRow(BatchInsertRowRequest {
            table: "measurements".to_string(),
            data: vec![
                vec![("id".to_string(), JsonValue::Int(1))],
                vec![("nope".to_string(), JsonValue::Int(2))],
            ],
            request_id: "7".to_string(),
        }))
        .unwrap_err();
    assert_eq!(err, AppError::ColumnsNotFound { columns: vec!["nope".to_string()] });
}

#[test]
fn unescaped_quote_in_text_fails_as_a_storage_error() {
    let (_conn, app) = measurements_app("file:roundtrip6?mode=memory&cache=shared");
    let err = app
        .call(ApiRequest::InsertRow(InsertRowRequest {
            table: "measurements".to_string(),
            data: vec![
                ("id".to_string(), JsonValue::Int(2)),
                ("tag".to_string(), JsonValue::Str("O'Brien".to_string())),
            ],
            request_id: "8".to_string(),
        }))
        .unwrap_err();
    assert!(matches!(err, AppError::DatabaseError(_)), "unexpected error: {:?}", err);
}
