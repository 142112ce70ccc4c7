use jabroni::db::{head_row, interpret_update_count, SqliteDatabase};
use jabroni::handler::{
    require_columns_found, require_row, require_sort_column, require_table, require_updated,
    validate_page, AppError,
};
use jabroni::requests::Pagination;
use jabroni::values::{Row, SqlValue};

#[test]
fn missing_table_maps_to_table_not_found_with_the_spelling() {
    let err = require_table(None, "Users".to_string()).unwrap_err();
    assert_eq!(err, AppError::TableNotFound { table: "Users".to_string() });
}

#[test]
fn resolved_table_passes_through() {
    let uri = "file:validators1?mode=memory&cache=shared";
    let conn = rusqlite::Connection::open(uri).unwrap();
    conn.execute_batch("CREATE TABLE users (id INTEGER PRIMARY KEY)").unwrap();
    let db = SqliteDatabase::new(uri).unwrap();
    let found = db.check_table_name("USERS").unwrap();
    let table = require_table(found, "USERS".to_string()).unwrap();
    assert_eq!(table.as_str(), "users");
}

#[test]
fn missing_sort_column_maps_to_sort_column_not_found_with_the_spelling() {
    let err = require_sort_column(None, "nope".to_string()).unwrap_err();
    assert_eq!(err, AppError::SortColumnNotFound { column: "nope".to_string() });
}

#[test]
fn absent_row_maps_to_row_not_found() {
    assert_eq!(require_row(None).unwrap_err(), AppError::RowNotFound);
    let row: Row = vec![("id".to_string(), SqlValue::Integer(1))];
    assert_eq!(require_row(Some(row.clone())).unwrap(), row);
}

#[test]
fn unmatched_update_maps_to_row_not_found() {
    assert_eq!(require_updated(None).unwrap_err(), AppError::RowNotFound);
    assert_eq!(require_updated(Some(3)).unwrap(), 3);
    assert_eq!(interpret_update_count(0), None);
    assert_eq!(interpret_update_count(2), Some(2));
}

#[test]
fn columns_found_iff_nothing_unresolved() {
    assert!(require_columns_found(Vec::new(), Vec::new()).is_ok());
    let err = require_columns_found(Vec::new(), vec!["a".to_string(), "b".to_string()])
        .unwrap_err();
    assert_eq!(err, AppError::ColumnsNotFound { columns: vec!["a".to_string(), "b".to_string()] });
}

#[test]
fn page_validity_is_exactly_a_nonzero_number() {
    assert!(validate_page(&None).is_ok());
    assert!(validate_page(&Some(Pagination { number: 1, size: 0 })).is_ok());
    for size in [0u32, 1, 7] {
        assert_eq!(
            validate_page(&Some(Pagination { number: 0, size })).unwrap_err(),
            AppError::PageNumberCanNotBeZero
        );
    }
}

#[test]
fn head_row_takes_the_first_row_or_none() {
    assert_eq!(head_row(Vec::new()), None);
    let first: Row = vec![("id".to_string(), SqlValue::Integer(1))];
    let second: Row = vec![("id".to_string(), SqlValue::Integer(2))];
    assert_eq!(head_row(vec![first.clone(), second]), Some(first));
}
