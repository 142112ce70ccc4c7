//! The storage engine: a pooled SQLite database reached through a small set
//! of trusted wrappers. Every statement the engine runs is built by the
//! verified SQL builder from identifiers the catalog resolved; what comes
//! back from the store depends on what is on disk, so the wrappers promise
//! nothing about row contents and the verified code states what holds of
//! every outcome.

use vstd::prelude::*;

use rusqlite::types::Value as StoredValue;
use rusqlite::Row as SqliteRow;

use crate::catalog::{
    ci_eq, lemma_partition_exhaustive, lemma_partition_not_found_submitted,
    lemma_resolve_characterization, names_view, partition_spec, resolve_name, ColumnName, Columns,
    TableName,
};
use crate::requests::{Pagination, SortOrder};
use crate::sql::{
    build_batch_insert_sql, build_columns_probe_sql, build_delete_sql, build_get_row_sql,
    build_insert_sql, build_list_rows_sql, build_table_info_sql, build_update_sql, data_wf,
};
use crate::values::{coerce_to_sql, json_to_sql_value, sql_type_of, str_to_sql_value_type,
    JsonValue, Row, SqlValue, SqlValueType};

verus! {

#[verifier::external_type_specification]
#[verifier::external_body]
pub struct ExStoredValue(rusqlite::types::Value);

#[verifier::external_type_specification]
#[verifier::external_body]
pub struct ExRusqliteError(rusqlite::Error);

#[verifier::external_type_specification]
#[verifier::external_body]
pub struct ExRusqliteRow<'a>(SqliteRow<'a>);

/// Holds the r2d2 connection pool. The pool type's generic parameter is
/// bounded by an outside trait the verifier cannot be told about, so the
/// handle is opaque rather than the pool type being declared.
#[verifier::external_body]
struct PoolHandle {
    pool: r2d2::Pool<r2d2_sqlite::SqliteConnectionManager>,
}

/// A storage-layer failure, carrying the driver's message for local logging;
/// clients only ever see an opaque database error.
#[derive(Debug, Clone, PartialEq, Eq)]
pub enum DbError {
    /// The connection pool could not provide a connection.
    Pool(String),
    /// The store rejected or failed a statement.
    Sql(String),
    /// The table has no column flagged as primary key.
    MissingPrimaryKey,
}

/// Relies on rusqlite's `Value`: moves each library scalar into the store's
/// own value type; the decimal rendering of a real is parsed back into the
/// store's real, and a rendering that is not a number is bound as NULL
/// rather than failing the statement.
#[verifier::external_body]
fn to_param(v: &SqlValue) -> StoredValue {
    match v {
        SqlValue::Null => StoredValue::Null,
        SqlValue::Integer(i) => StoredValue::Integer(*i),
        SqlValue::Real(s) => s.parse().map(StoredValue::Real).unwrap_or(
            StoredValue::Null,
        ),
        SqlValue::Text(s) => StoredValue::Text(s.clone()),
        SqlValue::Blob(b) => StoredValue::Blob(b.clone()),
    }
}

/// Relies on rusqlite's `Value`: moves each store value into the library's
/// scalar, rendering a real as its decimal text.
#[verifier::external_body]
fn from_stored(v: StoredValue) -> SqlValue {
    match v {
        StoredValue::Null => SqlValue::Null,
        StoredValue::Integer(i) => SqlValue::Integer(i),
        StoredValue::Real(x) => SqlValue::Real(x.to_string()),
        StoredValue::Text(s) => SqlValue::Text(s),
        StoredValue::Blob(b) => SqlValue::Blob(b),
    }
}

/// Relies on r2d2's `Clone` for `Pool`: a clone is a new handle to the same
/// shared pool.
#[verifier::external_body]
fn pool_share(handle: &PoolHandle) -> PoolHandle {
    PoolHandle { pool: handle.pool.clone() }
}

/// Relies on `SqliteConnectionManager::file` and `r2d2::Pool::new`: opens a
/// connection pool over the database file at `path`.
#[verifier::external_body]
fn pool_open(path: &str) -> (r: Result<PoolHandle, DbError>) {
    let manager = r2d2_sqlite::SqliteConnectionManager::file(path);
    let pool = r2d2::Pool::new(manager).map_err(|e| DbError::Pool(e.to_string()))?;
    Ok(PoolHandle { pool })
}

/// Relies on `Connection::prepare` and `Statement::query_map`: runs `sql` and
/// returns the first column of each returned row as a string.
#[verifier::external_body]
fn query_names(
    handle: &PoolHandle,
    sql: &str,
) -> (r: Result<Vec<String>, DbError>) {
    let conn = handle.pool.get().map_err(|e| DbError::Pool(e.to_string()))?;
    let mut stmt = conn.prepare(sql).map_err(|e| DbError::Sql(e.to_string()))?;
    stmt.query_map((), |row| row.get::<_, String>(0)).and_then(|it| it.collect()).map_err(
        |e| DbError::Sql(e.to_string()),
    )
}

/// Relies on `Connection::prepare` and `Statement::column_names`: prepares
/// `sql` and returns the column names of its result set.
#[verifier::external_body]
fn query_statement_columns(
    handle: &PoolHandle,
    sql: &str,
) -> (r: Result<Vec<String>, DbError>) {
    let conn = handle.pool.get().map_err(|e| DbError::Pool(e.to_string()))?;
    let stmt = conn.prepare(sql).map_err(|e| DbError::Sql(e.to_string()))?;
    Ok(stmt.column_names().into_iter().map(|s| s.to_owned()).collect())
}

/// Relies on `Statement::query_map` over `PRAGMA table_info`: returns, for
/// each column, its name, its declared type and whether it is flagged as
/// primary key.
#[verifier::external_body]
fn query_table_info(
    handle: &PoolHandle,
    sql: &str,
) -> (r: Result<Vec<(String, String, bool)>, DbError>) {
    let conn = handle.pool.get().map_err(|e| DbError::Pool(e.to_string()))?;
    let mut stmt = conn.prepare(sql).map_err(|e| DbError::Sql(e.to_string()))?;
    stmt.query_map((), |row| {
        Ok((row.get::<_, String>(1)?, row.get::<_, String>(2)?, row.get::<_, bool>(5)?))
    }).and_then(|it| it.collect()).map_err(|e| DbError::Sql(e.to_string()))
}

/// Relies on `Row::get`: reads each named column of one returned row into
/// name/value pairs, in result-set order.
#[verifier::external_body]
fn read_row(names: &Vec<String>, row: &SqliteRow) -> (r: Result<Row, rusqlite::Error>) {
    names.iter().enumerate().map(|(i, name)| Ok((name.clone(), from_stored(row.get(i)?)))).collect()
}

/// Relies on `Statement::query_map`: runs `sql` with the optional bound key
/// and returns each row as column-name/value pairs in result-set order.
#[verifier::external_body]
fn query_rows(
    handle: &PoolHandle,
    sql: &str,
    key: Option<&SqlValue>,
) -> (r: Result<Vec<Row>, DbError>) {
    let conn = handle.pool.get().map_err(|e| DbError::Pool(e.to_string()))?;
    let mut stmt = conn.prepare(sql).map_err(|e| DbError::Sql(e.to_string()))?;
    let names: Vec<String> = stmt.column_names().into_iter().map(|s| s.to_owned()).collect();
    let params: Vec<StoredValue> = key.into_iter().map(to_param).collect();
    stmt.query_map(rusqlite::params_from_iter(params), |row| read_row(&names, row)).and_then(
        |it| it.collect(),
    ).map_err(|e| DbError::Sql(e.to_string()))
}

/// Relies on `Connection::execute`: runs the write statement `sql` with the
/// optional bound key and returns the affected-row count.
#[verifier::external_body]
fn execute_sql(
    handle: &PoolHandle,
    sql: &str,
    key: Option<&SqlValue>,
) -> (r: Result<usize, DbError>) {
    let conn = handle.pool.get().map_err(|e| DbError::Pool(e.to_string()))?;
    let params: Vec<StoredValue> = key.into_iter().map(to_param).collect();
    conn.execute(sql, rusqlite::params_from_iter(params)).map_err(|e| DbError::Sql(e.to_string()))
}

/// The index of the first column flagged as primary key, if any.
pub fn find_primary_key(info: &Vec<(String, String, bool)>) -> (r: Option<usize>)
    ensures
        match r {
            Some(i) => i < info@.len() && info@[i as int].2 && forall|j: int|
                0 <= j < i ==> !(#[trigger] info@[j].2),
            None => forall|j: int| 0 <= j < info@.len() ==> !(#[trigger] info@[j].2),
        },
{
    let mut i: usize = 0;
    while i < info.len()
        invariant
            i <= info.len(),
            forall|j: int| 0 <= j < i ==> !(#[trigger] info@[j].2),
        decreases info.len() - i,
    {
        if info[i].2 {
            return Some(i);
        }
        i = i + 1;
    }
    None
}

/// The catalog's view of schema metadata: each column's name with the store
/// type its declared type names.
pub fn column_types_of(info: &Vec<(String, String, bool)>) -> (r: Vec<(ColumnName, SqlValueType)>)
    ensures
        r@.len() == info@.len(),
        forall|j: int|
            0 <= j < info@.len() ==> (#[trigger] r@[j]).0@ == info@[j].0@ && r@[j].1 == sql_type_of(
                info@[j].1@,
            ),
{
    let mut out: Vec<(ColumnName, SqlValueType)> = Vec::new();
    let mut i: usize = 0;
    while i < info.len()
        invariant
            i <= info.len(),
            out@.len() == i,
            forall|j: int|
                0 <= j < i ==> (#[trigger] out@[j]).0@ == info@[j].0@ && out@[j].1 == sql_type_of(
                    info@[j].1@,
                ),
        decreases info.len() - i,
    {
        let name = ColumnName::from_catalog(info[i].0.clone());
        let ty = str_to_sql_value_type(info[i].1.as_str());
        out.push((name, ty));
        i = i + 1;
    }
    out
}

/// The single row a keyed lookup denotes: the first row of the result set,
/// or absence when the set is empty.
pub fn head_row(rows: Vec<Row>) -> (r: Option<Row>)
    ensures
        r is Some <==> rows@.len() > 0,
        rows@.len() > 0 ==> r == Some(rows@[0]),
{
    let mut rows = rows;
    if rows.len() == 0 {
        None
    } else {
        Some(rows.remove(0))
    }
}

/// If an update affected no row, there was no row at the key: surface that
/// as absence rather than a count.
pub fn interpret_update_count(n: usize) -> (r: Option<usize>)
    ensures
        r == if n == 0 {
            Option::<usize>::None
        } else {
            Some(n)
        },
{
    if n == 0 {
        None
    } else {
        Some(n)
    }
}

/// A SQLite-backed table store reached through a connection pool. Every
/// operation re-queries live schema metadata, resolves identifiers through
/// the catalog, and runs statements built by the verified SQL builder.
pub struct SqliteDatabase {
    pool: PoolHandle,
}

impl SqliteDatabase {
    /// Opens the store at `path` and verifies the connection by listing its
    /// tables once.
    pub fn new(path: &str) -> (r: Result<SqliteDatabase, DbError>) {
        let db = SqliteDatabase { pool: pool_open(path)? };
        let probe = db.get_tables();
        match probe {
            Ok(_) => Ok(db),
            Err(e) => Err(e),
        }
    }

    /// Another handle to the same store, sharing its connection pool; each
    /// connection of the transport gets one.
    pub fn share(&self) -> (r: SqliteDatabase) {
        SqliteDatabase { pool: pool_share(&self.pool) }
    }

    /// Lists the store's tables, spelled as the store spells them.
    pub fn get_tables(&self) -> (r: Result<Vec<TableName>, DbError>) {
        let names = query_names(
            &self.pool,
            "SELECT name FROM sqlite_master WHERE type = \"table\"",
        )?;
        let mut out: Vec<TableName> = Vec::new();
        let mut i: usize = 0;
        while i < names.len()
            decreases names.len() - i,
        {
            out.push(TableName::from_catalog(names[i].clone()));
            i = i + 1;
        }
        Ok(out)
    }

    fn table_strings(&self) -> (r: Result<Vec<String>, DbError>) {
        query_names(&self.pool, "SELECT name FROM sqlite_master WHERE type = \"table\"")
    }

    /// Lists the column names of `table`, spelled as the store spells them.
    pub fn get_columns(&self, table: &TableName) -> (r: Result<Vec<String>, DbError>) {
        let sql = build_columns_probe_sql(table);
        query_statement_columns(&self.pool, sql.as_str())
    }

    /// The sole column flagged as primary key in `table`'s schema metadata;
    /// a table without one is a configuration error, not a crash.
    pub fn get_primary_key(&self, table: &TableName) -> (r: Result<ColumnName, DbError>) {
        let sql = build_table_info_sql(table);
        let info = query_table_info(&self.pool, sql.as_str())?;
        match find_primary_key(&info) {
            Some(i) => Ok(ColumnName::from_catalog(info[i].0.clone())),
            None => Err(DbError::MissingPrimaryKey),
        }
    }

    /// The declared store type of `table`'s primary-key column.
    pub fn get_primary_key_type(&self, table: &TableName) -> (r: Result<SqlValueType, DbError>) {
        let sql = build_table_info_sql(table);
        let info = query_table_info(&self.pool, sql.as_str())?;
        match find_primary_key(&info) {
            Some(i) => Ok(str_to_sql_value_type(info[i].1.as_str())),
            None => Err(DbError::MissingPrimaryKey),
        }
    }

    /// Each column of `table` with the store type its declared type names.
    pub fn get_column_types(&self, table: &TableName) -> (r: Result<
        Vec<(ColumnName, SqlValueType)>,
        DbError,
    >) {
        let sql = build_table_info_sql(table);
        let info = query_table_info(&self.pool, sql.as_str())?;
        Ok(column_types_of(&info))
    }

    /// Resolves a submitted table spelling against the live table list; a
    /// returned name is canonical and matches the submission
    /// case-insensitively.
    pub fn check_table_name(&self, table_name: &str) -> (r: Result<Option<TableName>, DbError>)
        ensures
            r matches Ok(Some(t)) ==> ci_eq(t@, table_name@),
    {
        let names = self.table_strings()?;
        match resolve_name(&names, table_name) {
            Some(c) => {
                proof {
                    lemma_resolve_characterization(names.deep_view(), table_name@);
                }
                Ok(Some(TableName::from_catalog(c)))
            },
            None => Ok(None),
        }
    }

    /// Partitions submitted column spellings against `table`'s live column
    /// list, preserving submission order within each side; together the two
    /// sides account for every submission.
    pub fn check_column_names(&self, table: &TableName, column_names: &Vec<String>) -> (r: Result<
        (Columns, Vec<String>),
        DbError,
    >)
        ensures
            r matches Ok(p) ==> {
                &&& exists|all: Seq<Seq<char>>|
                    (names_view(p.0@), p.1.deep_view()) == partition_spec(
                        all,
                        column_names.deep_view(),
                    )
                &&& p.0@.len() + p.1@.len() == column_names@.len()
                &&& forall|i: int|
                    0 <= i < p.1@.len() ==> column_names.deep_view().contains(
                        #[trigger] p.1.deep_view()[i],
                    )
            },
    {
        let all = self.get_columns(table)?;
        let r = crate::catalog::partition_columns(&all, column_names);
        proof {
            let all_dv = all.deep_view();
            assert((names_view(r.0@), r.1.deep_view()) == partition_spec(
                all_dv,
                column_names.deep_view(),
            ));
            lemma_partition_exhaustive(all_dv, column_names.deep_view());
            lemma_partition_not_found_submitted(all_dv, column_names.deep_view());
        }
        Ok(r)
    }

    /// Resolves a single submitted column spelling against `table`'s live
    /// column list; a returned name is canonical and matches the submission
    /// case-insensitively.
    pub fn check_column_name(&self, table: &TableName, column_name: &str) -> (r: Result<
        Option<ColumnName>,
        DbError,
    >)
        ensures
            r matches Ok(Some(c)) ==> ci_eq(c@, column_name@),
    {
        let all = self.get_columns(table)?;
        match resolve_name(&all, column_name) {
            Some(c) => {
                proof {
                    lemma_resolve_characterization(all.deep_view(), column_name@);
                }
                Ok(Some(ColumnName::from_catalog(c)))
            },
            None => Ok(None),
        }
    }

    /// Projects, optionally orders and optionally pages the rows of `table`.
    pub fn list_rows(
        &self,
        table: TableName,
        column_names: Columns,
        sort_info: Option<(ColumnName, SortOrder)>,
        page: Option<Pagination>,
    ) -> (r: Result<Vec<Row>, DbError>)
        requires
            page matches Some(p) ==> p.number >= 1,
    {
        let sql = build_list_rows_sql(&table, &column_names, &sort_info, &page);
        query_rows(&self.pool, sql.as_str(), None)
    }

    /// Looks up the single row whose primary-key column equals `key`;
    /// absence is a normal outcome, not an error.
    pub fn get_row(&self, table: TableName, key: JsonValue, column_names: Columns) -> (r: Result<
        Option<Row>,
        DbError,
    >)
        requires
            coerce_to_sql(key) is Some,
    {
        let pk = self.get_primary_key(&table)?;
        let sql = build_get_row_sql(&table, &column_names, &pk);
        let bound = json_to_sql_value(&key).unwrap();
        let rows = query_rows(&self.pool, sql.as_str(), Some(&bound))?;
        Ok(head_row(rows))
    }

    /// Inserts one row.
    pub fn insert_row(&self, table: TableName, data: Vec<(ColumnName, JsonValue)>) -> (r: Result<
        usize,
        DbError,
    >)
        requires
            data_wf(data@),
    {
        let sql = build_insert_sql(&table, &data);
        execute_sql(&self.pool, sql.as_str(), None)
    }

    /// Inserts many rows in one statement; every row shares the first row's
    /// column set.
    pub fn batch_insert_row(&self, table: TableName, data: Vec<Vec<(ColumnName, JsonValue)>>) -> (r:
        Result<usize, DbError>)
        requires
            data@.len() > 0,
            forall|i: int| 0 <= i < data@.len() ==> data_wf(#[trigger] data@[i]@),
    {
        let sql = build_batch_insert_sql(&table, &data);
        execute_sql(&self.pool, sql.as_str(), None)
    }

    /// Deletes the row at `key`; deleting nothing is a normal outcome.
    pub fn delete_row(&self, table: TableName, key: JsonValue) -> (r: Result<usize, DbError>)
        requires
            coerce_to_sql(key) is Some,
    {
        let pk = self.get_primary_key(&table)?;
        let sql = build_delete_sql(&table, &pk);
        let bound = json_to_sql_value(&key).unwrap();
        execute_sql(&self.pool, sql.as_str(), Some(&bound))
    }

    /// Updates the row at `key`; "no row matched" is surfaced as absence.
    pub fn update_row(
        &self,
        table: TableName,
        key: JsonValue,
        data: Vec<(ColumnName, JsonValue)>,
    ) -> (r: Result<Option<usize>, DbError>)
        requires
            coerce_to_sql(key) is Some,
            data_wf(data@),
        ensures
            r matches Ok(Some(n)) ==> n > 0,
    {
        let pk = self.get_primary_key(&table)?;
        let sql = build_update_sql(&table, &data, &pk);
        let bound = json_to_sql_value(&key).unwrap();
        let n = execute_sql(&self.pool, sql.as_str(), Some(&bound))?;
        Ok(interpret_update_count(n))
    }
}

} // verus!
