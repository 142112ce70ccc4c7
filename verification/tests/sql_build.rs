use jabroni::catalog::{ColumnName, TableName};
use jabroni::db::SqliteDatabase;
use jabroni::requests::{Pagination, SortOrder};
use jabroni::sql::{
    build_batch_insert_sql, build_delete_sql, build_get_row_sql, build_insert_sql,
    build_list_rows_sql, build_update_sql, render_literal,
};
use jabroni::values::{JsonValue, SqlValue};

fn users_db(uri: &str) -> (rusqlite::Connection, SqliteDatabase, TableName, Vec<ColumnName>) {
    let conn = rusqlite::Connection::open(uri).unwrap();
    conn.execute_batch("CREATE TABLE users (id INTEGER PRIMARY KEY, name TEXT)").unwrap();
    let db = SqliteDatabase::new(uri).unwrap();
    let table = db.check_table_name("users").unwrap().unwrap();
    let (cols, missing) = db
        .check_column_names(&table, &vec!["id".to_string(), "name".to_string()])
        .unwrap();
    assert!(missing.is_empty());
    (conn, db, table, cols)
}

#[test]
fn literals_render_exactly() {
    assert_eq!(render_literal(&SqlValue::Null).as_str(), "null");
    assert_eq!(render_literal(&SqlValue::Integer(-5)).as_str(), "-5");
    assert_eq!(render_literal(&SqlValue::Real("1.5".to_string())).as_str(), "1.5");
    assert_eq!(render_literal(&SqlValue::Text("alice".to_string())).as_str(), "'alice'");
    assert_eq!(render_literal(&SqlValue::Blob(vec![0xde, 0xad])).as_str(), "X'dead'");
}

#[test]
fn list_rows_sql_without_options() {
    let (_conn, _db, table, cols) = users_db("file:sqlbuild1?mode=memory&cache=shared");
    let sql = build_list_rows_sql(&table, &cols, &None, &None);
    assert_eq!(sql.as_str(), "SELECT id,name FROM users  ");
}

#[test]
fn list_rows_sql_with_empty_selection_projects_all() {
    let (_conn, _db, table, _cols) = users_db("file:sqlbuild2?mode=memory&cache=shared");
    let sql = build_list_rows_sql(&table, &Vec::new(), &None, &None);
    assert_eq!(sql.as_str(), "SELECT * FROM users  ");
}

#[test]
fn list_rows_sql_with_sort_and_page() {
    let (_conn, db, table, _cols) = users_db("file:sqlbuild3?mode=memory&cache=shared");
    let name = db.check_column_name(&table, "name").unwrap().unwrap();
    let sql = build_list_rows_sql(
        &table,
        &Vec::new(),
        &Some((name, SortOrder::Desc)),
        &Some(Pagination { number: 3, size: 10 }),
    );
    assert_eq!(sql.as_str(), "SELECT * FROM users ORDER BY name DESC LIMIT 10 OFFSET 20");
}

#[test]
fn get_row_sql_binds_key() {
    let (_conn, db, table, _cols) = users_db("file:sqlbuild4?mode=memory&cache=shared");
    let pk = db.get_primary_key(&table).unwrap();
    let sql = build_get_row_sql(&table, &Vec::new(), &pk);
    assert_eq!(sql.as_str(), "SELECT * FROM users WHERE id = ?");
}

#[test]
fn insert_sql_embeds_rendered_literals() {
    let (_conn, db, table, _cols) = users_db("file:sqlbuild5?mode=memory&cache=shared");
    let name = db.check_column_name(&table, "name").unwrap().unwrap();
    let data = vec![(name, JsonValue::Str("alice".to_string()))];
    let sql = build_insert_sql(&table, &data);
    assert_eq!(sql.as_str(), "INSERT INTO users (name) VALUES ('alice')");
}

#[test]
fn batch_insert_sql_groups_rows() {
    let (_conn, db, table, _cols) = users_db("file:sqlbuild6?mode=memory&cache=shared");
    let name = db.check_column_name(&table, "name").unwrap().unwrap();
    let rows = vec![
        vec![(name.duplicate(), JsonValue::Str("a".to_string()))],
        vec![(name, JsonValue::Str("b".to_string()))],
    ];
    let sql = build_batch_insert_sql(&table, &rows);
    assert_eq!(sql.as_str(), "INSERT INTO users (name) VALUES ('a'),('b')");
}

#[test]
fn update_sql_assigns_and_binds_key() {
    let (_conn, db, table, _cols) = users_db("file:sqlbuild7?mode=memory&cache=shared");
    let pk = db.get_primary_key(&table).unwrap();
    let name = db.check_column_name(&table, "name").unwrap().unwrap();
    let data = vec![(name, JsonValue::Str("bob".to_string()))];
    let sql = build_update_sql(&table, &data, &pk);
    assert_eq!(sql.as_str(), "UPDATE users SET name = 'bob' WHERE id = ?");
}

#[test]
fn delete_sql_binds_key() {
    let (_conn, db, table, _cols) = users_db("file:sqlbuild8?mode=memory&cache=shared");
    let pk = db.get_primary_key(&table).unwrap();
    let sql = build_delete_sql(&table, &pk);
    assert_eq!(sql.as_str(), "DELETE FROM users WHERE id = ?");
}
