//! The application handler: orchestrates one request, stateless across
//! requests. Each operation validates the table, then its columns, then any
//! operation-specific invariant, then invokes the engine and maps its
//! outcome to a response or a typed error. Validation is pure; only engine
//! operations touch persistent state.

use vstd::prelude::*;

use crate::catalog::{ColumnName, Columns, TableName};
use crate::db::{DbError, SqliteDatabase};
use crate::requests::{
    ApiRequest, BatchInsertRowRequest, DeleteRowRequest, GetRowRequest, InsertRowRequest,
    ListRowsRequest, Pagination, UpdateRowRequest,
};
use crate::responses::{
    ApiResponse, DeleteRowResponse, GetRowResponse, InsertRowResponse, ListRowsResponse,
    UpdateRowResponse,
};
use crate::sql::data_wf;
use crate::text::str_eq;
use crate::values::{clone_json, coerce_to_sql, JsonValue, Row};

verus! {

/// The application-level failure taxonomy: validation failures, a missing
/// row, and an opaque storage failure. Every variant is a normal response,
/// never fatal to the connection.
#[derive(Debug, Clone, PartialEq, Eq)]
pub enum AppError {
    DatabaseError(DbError),
    TableNotFound { table: String },
    ColumnsNotFound { columns: Vec<String> },
    SortColumnNotFound { column: String },
    PageNumberCanNotBeZero,
    RowNotFound,
    BatchInsertWithNoData,
    BatchInsertWithIrregularColumns,
}

/// Whether a pagination request is admissible: page numbers are 1-based.
pub open spec fn page_valid(page: Option<Pagination>) -> bool {
    match page {
        None => true,
        Some(p) => p.number != 0,
    }
}

/// Rejects a zero page number before any engine work; pagination is 1-based.
pub fn validate_page(page: &Option<Pagination>) -> (r: Result<(), AppError>)
    ensures
        r is Ok <==> page_valid(*page),
        r is Err ==> r == Err::<(), AppError>(AppError::PageNumberCanNotBeZero),
{
    match page {
        None => Ok(()),
        Some(p) => {
            if p.number == 0 {
                Err(AppError::PageNumberCanNotBeZero)
            } else {
                Ok(())
            }
        },
    }
}

/// A zero page number is never admissible, whatever the page size.
pub proof fn lemma_page_zero_never_valid(size: u32)
    ensures
        !page_valid(Some(Pagination { number: 0, size })),
{
}

/// `ColumnsNotFound` is raised exactly when the not-found side of the
/// partition is non-empty, and it carries the full list of unresolved
/// spellings.
pub fn require_columns_found(found: Columns, not_found: Vec<String>) -> (r: Result<
    Columns,
    AppError,
>)
    ensures
        r is Ok <==> not_found@.len() == 0,
        r matches Ok(f) ==> f == found,
        r matches Err(e) ==> e == (AppError::ColumnsNotFound { columns: not_found }),
{
    if not_found.len() > 0 {
        Err(AppError::ColumnsNotFound { columns: not_found })
    } else {
        Ok(found)
    }
}

/// An unresolved table name fails with `TableNotFound` carrying the
/// submitted spelling, before any column or engine work; a resolved one
/// passes through unchanged.
pub fn require_table(found: Option<TableName>, table: String) -> (r: Result<TableName, AppError>)
    ensures
        r is Ok <==> found is Some,
        r matches Ok(t) ==> found == Some(t),
        r matches Err(e) ==> e == (AppError::TableNotFound { table }),
{
    match found {
        Some(t) => Ok(t),
        None => Err(AppError::TableNotFound { table }),
    }
}

/// An unresolved sort column fails with `SortColumnNotFound` carrying the
/// submitted spelling; a resolved one passes through unchanged.
pub fn require_sort_column(found: Option<ColumnName>, column: String) -> (r: Result<
    ColumnName,
    AppError,
>)
    ensures
        r is Ok <==> found is Some,
        r matches Ok(c) ==> found == Some(c),
        r matches Err(e) ==> e == (AppError::SortColumnNotFound { column }),
{
    match found {
        Some(c) => Ok(c),
        None => Err(AppError::SortColumnNotFound { column }),
    }
}

/// Engine-level absence of the addressed row becomes the user-visible
/// `RowNotFound`; a present row passes through unchanged.
pub fn require_row(found: Option<Row>) -> (r: Result<Row, AppError>)
    ensures
        r is Ok <==> found is Some,
        r matches Ok(row) ==> found == Some(row),
        r is Err ==> r == Err::<Row, AppError>(AppError::RowNotFound),
{
    match found {
        Some(row) => Ok(row),
        None => Err(AppError::RowNotFound),
    }
}

/// An update that matched no row becomes the user-visible `RowNotFound`;
/// a reported count passes through unchanged.
pub fn require_updated(outcome: Option<usize>) -> (r: Result<usize, AppError>)
    ensures
        r is Ok <==> outcome is Some,
        r matches Ok(n) ==> outcome == Some(n),
        r is Err ==> r == Err::<usize, AppError>(AppError::RowNotFound),
{
    match outcome {
        Some(n) => Ok(n),
        None => Err(AppError::RowNotFound),
    }
}

/// Whether every value in a submitted column-to-value list is a scalar the
/// store can hold.
pub open spec fn data_values_wf(data: Seq<(String, JsonValue)>) -> bool {
    forall|i: int| 0 <= i < data.len() ==> coerce_to_sql((#[trigger] data[i]).1) is Some
}

/// Whether the submitted column spellings are pairwise distinct, as they are
/// when decoded from a JSON object.
pub open spec fn distinct_keys(data: Seq<(String, JsonValue)>) -> bool {
    forall|i: int, j: int|
        0 <= i < j < data.len() ==> (#[trigger] data[i]).0@ != (#[trigger] data[j]).0@
}

/// What the handler relies on of a submitted column-to-value list: scalar
/// values and distinct keys, both guaranteed by the wire format.
pub open spec fn submitted_data_wf(data: Seq<(String, JsonValue)>) -> bool {
    data_values_wf(data) && distinct_keys(data)
}

/// What the handler relies on of a decoded request. Values that the store
/// cannot hold (booleans, arrays, objects) are a contract violation of the
/// wire format and are screened out before the handler is invoked.
pub open spec fn request_wf(req: ApiRequest) -> bool {
    match req {
        ApiRequest::ListRows(_) => true,
        ApiRequest::GetRow(q) => coerce_to_sql(q.key) is Some,
        ApiRequest::InsertRow(q) => submitted_data_wf(q.data@),
        ApiRequest::BatchInsertRow(q) => forall|i: int|
            0 <= i < q.data@.len() ==> submitted_data_wf((#[trigger] q.data@[i])@),
        ApiRequest::DeleteRow(q) => coerce_to_sql(q.key) is Some,
        ApiRequest::UpdateRow(q) => coerce_to_sql(q.key) is Some && submitted_data_wf(q.data@),
    }
}

/// The first value stored under `key` in a column-to-value list.
pub open spec fn lookup_spec(row: Seq<(String, JsonValue)>, key: Seq<char>) -> Option<JsonValue>
    decreases row.len(),
{
    if row.len() == 0 {
        None
    } else if row[0].0@ == key {
        Some(row[0].1)
    } else {
        lookup_spec(row.drop_first(), key)
    }
}

/// Whatever a lookup returns was one of the row's values.
pub proof fn lemma_lookup_is_value(row: Seq<(String, JsonValue)>, key: Seq<char>)
    ensures
        lookup_spec(row, key) matches Some(v) ==> exists|j: int|
            0 <= j < row.len() && (#[trigger] row[j]).1 == v,
    decreases row.len(),
{
    if row.len() == 0 {
    } else if row[0].0@ == key {
        assert(lookup_spec(row, key) matches Some(v) ==> row[0].1 == v);
    } else {
        lemma_lookup_is_value(row.drop_first(), key);
        if lookup_spec(row, key) is Some {
            let v = lookup_spec(row, key).unwrap();
            let j = choose|j: int|
                0 <= j < row.drop_first().len() && (#[trigger] row.drop_first()[j]).1 == v;
            assert(row[j + 1] == row.drop_first()[j]);
        }
    }
}

fn lookup_value(row: &Vec<(String, JsonValue)>, key: &str) -> (r: Option<JsonValue>)
    ensures
        r == lookup_spec(row@, key@),
{
    proof {
        assert(row@.skip(0) =~= row@);
    }
    let mut j: usize = 0;
    while j < row.len()
        invariant
            j <= row.len(),
            lookup_spec(row@, key@) == lookup_spec(row@.skip(j as int), key@),
        decreases row.len() - j,
    {
        proof {
            assert(row@.skip(j as int)[0] == row@[j as int]);
        }
        if str_eq(row[j].0.as_str(), key) {
            return Some(clone_json(&row[j].1));
        }
        proof {
            assert(row@.skip(j as int).drop_first() =~= row@.skip(j + 1 as int));
        }
        j = j + 1;
    }
    proof {
        assert(row@.skip(row@.len() as int).len() == 0);
    }
    None
}

/// Whether `row` stores a value under every key of `reference` and has no
/// more entries than `reference`: with distinct keys on both sides, exactly
/// "the same column set".
pub open spec fn row_covers(
    reference: Seq<(String, JsonValue)>,
    row: Seq<(String, JsonValue)>,
) -> bool {
    &&& row.len() == reference.len()
    &&& forall|j: int|
        0 <= j < reference.len() ==> lookup_spec(row, (#[trigger] reference[j]).0@) is Some
}

/// The column spellings a submitted column-to-value list names, in order.
pub open spec fn submitted_keys(data: Seq<(String, JsonValue)>) -> Seq<Seq<char>> {
    data.map_values(|p: (String, JsonValue)| p.0@)
}

/// The set of column spellings a submitted row names.
pub open spec fn key_set(row: Seq<(String, JsonValue)>) -> Set<Seq<char>> {
    submitted_keys(row).to_set()
}

/// A lookup succeeds exactly on the spellings the row names.
pub proof fn lemma_lookup_names_keys(row: Seq<(String, JsonValue)>, key: Seq<char>)
    ensures
        (lookup_spec(row, key) is Some) <==> key_set(row).contains(key),
    decreases row.len(),
{
    let keys = row.map_values(|p: (String, JsonValue)| p.0@);
    if row.len() == 0 {
        assert(!keys.contains(key));
    } else if row[0].0@ == key {
        assert(keys[0] == key);
        assert(keys.contains(key));
    } else {
        let rest = row.drop_first();
        lemma_lookup_names_keys(rest, key);
        let rest_keys = rest.map_values(|p: (String, JsonValue)| p.0@);
        assert(rest_keys =~= keys.drop_first());
        if keys.contains(key) {
            let i = choose|i: int| 0 <= i < keys.len() && keys[i] == key;
            assert(i != 0);
            assert(rest_keys[i - 1] == keys[i]);
            assert(rest_keys.contains(key));
        }
        if rest_keys.contains(key) {
            let i = choose|i: int| 0 <= i < rest_keys.len() && rest_keys[i] == key;
            assert(keys[i + 1] == rest_keys[i]);
            assert(keys.contains(key));
        }
    }
}

/// With distinct spellings on both sides, as a JSON object guarantees,
/// covering the reference row is exactly naming the same column set.
pub proof fn lemma_row_covers_is_same_column_set(
    reference: Seq<(String, JsonValue)>,
    row: Seq<(String, JsonValue)>,
)
    requires
        distinct_keys(reference),
        distinct_keys(row),
    ensures
        row_covers(reference, row) <==> key_set(row) == key_set(reference),
{
    broadcast use vstd::seq_lib::seq_to_set_is_finite;

    let ref_keys = reference.map_values(|p: (String, JsonValue)| p.0@);
    let row_keys = row.map_values(|p: (String, JsonValue)| p.0@);
    assert(ref_keys.no_duplicates()) by {
        assert forall|i: int, j: int|
            0 <= i < ref_keys.len() && 0 <= j < ref_keys.len() && i != j implies ref_keys[i]
            != ref_keys[j] by {
            if i < j {
                assert(reference[i].0@ != reference[j].0@);
            } else {
                assert(reference[j].0@ != reference[i].0@);
            }
        }
    }
    assert(row_keys.no_duplicates()) by {
        assert forall|i: int, j: int|
            0 <= i < row_keys.len() && 0 <= j < row_keys.len() && i != j implies row_keys[i]
            != row_keys[j] by {
            if i < j {
                assert(row[i].0@ != row[j].0@);
            } else {
                assert(row[j].0@ != row[i].0@);
            }
        }
    }
    ref_keys.unique_seq_to_set();
    row_keys.unique_seq_to_set();
    if row_covers(reference, row) {
        assert forall|x: Seq<char>| key_set(reference).contains(x) implies key_set(
            row,
        ).contains(x) by {
            let i = choose|i: int| 0 <= i < ref_keys.len() && ref_keys[i] == x;
            assert(lookup_spec(row, (reference[i]).0@) is Some);
            lemma_lookup_names_keys(row, x);
        }
        vstd::set_lib::lemma_subset_equality(key_set(reference), key_set(row));
    }
    if key_set(row) == key_set(reference) {
        assert forall|j: int| 0 <= j < reference.len() implies lookup_spec(
            row,
            (#[trigger] reference[j]).0@,
        ) is Some by {
            assert(ref_keys[j] == reference[j].0@);
            assert(ref_keys.contains(ref_keys[j]));
            assert(key_set(reference).contains(reference[j].0@));
            lemma_lookup_names_keys(row, reference[j].0@);
        }
        assert(row_covers(reference, row));
    }
}

/// Whether every row of a batch has the first row's column set.
pub open spec fn batch_regular(rows: Seq<Seq<(String, JsonValue)>>) -> bool
    recommends
        rows.len() > 0,
{
    forall|i: int| 0 <= i < rows.len() ==> row_covers(rows[0], #[trigger] rows[i])
}

/// The batch rows, viewed at the spec level.
pub open spec fn batch_view(rows: Seq<Vec<(String, JsonValue)>>) -> Seq<
    Seq<(String, JsonValue)>,
> {
    rows.map_values(|v: Vec<(String, JsonValue)>| v@)
}

fn align_row(
    found: &Columns,
    reference: &Vec<(String, JsonValue)>,
    row: &Vec<(String, JsonValue)>,
) -> (r: Option<Vec<(ColumnName, JsonValue)>>)
    requires
        found@.len() == reference@.len(),
    ensures
        r is Some <==> row_covers(reference@, row@),
        r matches Some(a) ==> {
            &&& a@.len() == reference@.len()
            &&& forall|j: int|
                0 <= j < a@.len() ==> (#[trigger] a@[j]).0 == found@[j] && lookup_spec(
                    row@,
                    reference@[j].0@,
                ) == Some(a@[j].1)
        },
{
    if row.len() != reference.len() {
        return None;
    }
    let mut out: Vec<(ColumnName, JsonValue)> = Vec::new();
    let mut j: usize = 0;
    while j < reference.len()
        invariant
            j <= reference.len(),
            found@.len() == reference@.len(),
            out@.len() == j,
            forall|k: int|
                0 <= k < j ==> (#[trigger] out@[k]).0 == found@[k] && lookup_spec(
                    row@,
                    reference@[k].0@,
                ) == Some(out@[k].1),
        decreases reference.len() - j,
    {
        match lookup_value(row, reference[j].0.as_str()) {
            Some(v) => {
                out.push((found[j].duplicate(), v));
            },
            None => {
                proof {
                    assert(lookup_spec(row@, (reference@[j as int]).0@) is None);
                    assert(!row_covers(reference@, row@));
                }
                return None;
            },
        }
        j = j + 1;
    }
    proof {
        assert forall|t: int| 0 <= t < reference@.len() implies lookup_spec(
            row@,
            (#[trigger] reference@[t]).0@,
        ) is Some by {
            assert(lookup_spec(row@, reference@[t].0@) == Some(out@[t].1));
        }
        assert(row_covers(reference@, row@));
    }
    Some(out)
}

fn keys_of(data: &Vec<(String, JsonValue)>) -> (r: Vec<String>)
    ensures
        r@.len() == data@.len(),
        forall|i: int| 0 <= i < data@.len() ==> (#[trigger] r@[i])@ == data@[i].0@,
{
    let mut out: Vec<String> = Vec::new();
    let mut i: usize = 0;
    while i < data.len()
        invariant
            i <= data.len(),
            out@.len() == i,
            forall|j: int| 0 <= j < i ==> (#[trigger] out@[j])@ == data@[j].0@,
        decreases data.len() - i,
    {
        out.push(data[i].0.clone());
        i = i + 1;
    }
    out
}

fn zip_columns(found: Columns, data: &Vec<(String, JsonValue)>) -> (r: Vec<(
    ColumnName,
    JsonValue,
)>)
    requires
        found@.len() == data@.len(),
    ensures
        r@.len() == data@.len(),
        forall|i: int|
            0 <= i < data@.len() ==> (#[trigger] r@[i]).0 == found@[i] && r@[i].1 == data@[i].1,
{
    let mut out: Vec<(ColumnName, JsonValue)> = Vec::new();
    let mut i: usize = 0;
    while i < data.len()
        invariant
            i <= data.len(),
            found@.len() == data@.len(),
            out@.len() == i,
            forall|j: int|
                0 <= j < i ==> (#[trigger] out@[j]).0 == found@[j] && out@[j].1 == data@[j].1,
        decreases data.len() - i,
    {
        out.push((found[i].duplicate(), clone_json(&data[i].1)));
        i = i + 1;
    }
    out
}

/// Whether every spelling reported as not found was submitted by the
/// request: in its selection, in its data's keys, or, for a batch, in one
/// row's keys.
pub open spec fn columns_not_found_submitted(req: ApiRequest, cs: Seq<Seq<char>>) -> bool {
    match req {
        ApiRequest::ListRows(q) => forall|i: int|
            0 <= i < cs.len() ==> q.select.deep_view().contains(#[trigger] cs[i]),
        ApiRequest::GetRow(q) => forall|i: int|
            0 <= i < cs.len() ==> q.select.deep_view().contains(#[trigger] cs[i]),
        ApiRequest::InsertRow(q) => forall|i: int|
            0 <= i < cs.len() ==> submitted_keys(q.data@).contains(#[trigger] cs[i]),
        ApiRequest::UpdateRow(q) => forall|i: int|
            0 <= i < cs.len() ==> submitted_keys(q.data@).contains(#[trigger] cs[i]),
        ApiRequest::BatchInsertRow(q) => forall|i: int|
            0 <= i < cs.len() ==> exists|m: int|
                0 <= m < q.data@.len() && submitted_keys((#[trigger] q.data@[m])@).contains(
                    #[trigger] cs[i],
                ),
        ApiRequest::DeleteRow(_) => false,
    }
}

/// The errors each operation can produce; an empty batch is rejected before
/// any column resolution, so it narrows the batch taxonomy further.
pub open spec fn error_possible(req: ApiRequest, e: AppError) -> bool {
    match req {
        ApiRequest::ListRows(_) => e is DatabaseError || e is TableNotFound
            || e is ColumnsNotFound || e is SortColumnNotFound || e is PageNumberCanNotBeZero,
        ApiRequest::GetRow(_) => e is DatabaseError || e is TableNotFound || e is ColumnsNotFound
            || e is RowNotFound,
        ApiRequest::InsertRow(_) => e is DatabaseError || e is TableNotFound
            || e is ColumnsNotFound,
        ApiRequest::BatchInsertRow(q) => if q.data@.len() == 0 {
            e is DatabaseError || e is TableNotFound || e is BatchInsertWithNoData
        } else {
            e is DatabaseError || e is TableNotFound || e is ColumnsNotFound
                || e is BatchInsertWithIrregularColumns
        },
        ApiRequest::DeleteRow(_) => e is DatabaseError || e is TableNotFound,
        ApiRequest::UpdateRow(_) => e is DatabaseError || e is TableNotFound
            || e is ColumnsNotFound || e is RowNotFound,
    }
}

/// The table spelling a request names.
pub open spec fn request_table(req: ApiRequest) -> Seq<char> {
    match req {
        ApiRequest::ListRows(q) => q.table@,
        ApiRequest::GetRow(q) => q.table@,
        ApiRequest::InsertRow(q) => q.table@,
        ApiRequest::BatchInsertRow(q) => q.table@,
        ApiRequest::DeleteRow(q) => q.table@,
        ApiRequest::UpdateRow(q) => q.table@,
    }
}

/// Whether a successful response carries the request's own tag, table
/// spelling and correlation id.
pub open spec fn response_matches(req: ApiRequest, resp: ApiResponse) -> bool {
    match req {
        ApiRequest::ListRows(q) => resp matches ApiResponse::ListRows(p) && p.table@ == q.table@
            && p.request_id@ == q.request_id@,
        ApiRequest::GetRow(q) => resp matches ApiResponse::GetRow(p) && p.table@ == q.table@
            && p.request_id@ == q.request_id@,
        ApiRequest::InsertRow(q) => resp matches ApiResponse::InsertRow(p) && p.table@ == q.table@
            && p.request_id@ == q.request_id@,
        ApiRequest::BatchInsertRow(q) => resp matches ApiResponse::BatchInsertRow(p) && p.table@
            == q.table@ && p.request_id@ == q.request_id@,
        ApiRequest::DeleteRow(q) => resp matches ApiResponse::DeleteRow(p) && p.table@ == q.table@
            && p.request_id@ == q.request_id@,
        ApiRequest::UpdateRow(q) => resp matches ApiResponse::UpdateRow(p) && p.table@ == q.table@
            && p.request_id@ == q.request_id@,
    }
}

/// The application: owns the store handle and processes one request at a
/// time.
pub struct App {
    db: SqliteDatabase,
}

impl App {
    pub fn new(db: SqliteDatabase) -> (r: App) {
        App { db }
    }

    fn handle_list_rows(&self, req: ListRowsRequest) -> (r: Result<ApiResponse, AppError>)
        ensures
            r matches Ok(resp) ==> resp matches ApiResponse::ListRows(p) && p.table@ == req.table@
                && p.request_id@ == req.request_id@,
            r == Err::<ApiResponse, AppError>(AppError::PageNumberCanNotBeZero) ==> !page_valid(
                req.page,
            ),
            r matches Err(e) ==> (e is DatabaseError || e is TableNotFound || e is ColumnsNotFound
                || e is SortColumnNotFound || e is PageNumberCanNotBeZero),
            r matches Err(e) ==> (e matches AppError::TableNotFound { table: t } ==> t@
                == req.table@),
            r matches Err(e) ==> (e matches AppError::ColumnsNotFound { columns: cs }
                ==> columns_not_found_submitted(ApiRequest::ListRows(req), cs.deep_view())),
            r matches Err(e) ==> (e matches AppError::SortColumnNotFound { column: c } ==> (
            req.sort matches Some(s)
                && c@ == s.column@)),
            !page_valid(req.page) ==> r is Err,
    {
        let table = match self.db.check_table_name(req.table.as_str()) {
            Err(e) => { return Err(AppError::DatabaseError(e)) },
            Ok(found) => match require_table(found, req.table.clone()) {
                Err(e) => { return Err(e) },
                Ok(t) => t,
            },
        };
        let (resolved, not_found) = match self.db.check_column_names(&table, &req.select) {
            Err(e) => { return Err(AppError::DatabaseError(e)) },
            Ok(p) => p,
        };
        let found = match require_columns_found(resolved, not_found) {
            Err(e) => { return Err(e) },
            Ok(f) => f,
        };
        let sort_info = match req.sort {
            None => None,
            Some(s) => {
                let found = match self.db.check_column_name(&table, s.column.as_str()) {
                    Err(e) => { return Err(AppError::DatabaseError(e)) },
                    Ok(found) => found,
                };
                match require_sort_column(found, s.column) {
                    Err(e) => { return Err(e) },
                    Ok(c) => Some((c, s.order)),
                }
            },
        };
        match validate_page(&req.page) {
            Err(e) => { return Err(e) },
            Ok(()) => {},
        }
        let rows = match self.db.list_rows(table, found, sort_info, req.page) {
            Err(e) => { return Err(AppError::DatabaseError(e)) },
            Ok(rows) => rows,
        };
        Ok(
            ApiResponse::ListRows(
                ListRowsResponse { table: req.table, rows, request_id: req.request_id },
            ),
        )
    }

    fn handle_get_row(&self, req: GetRowRequest) -> (r: Result<ApiResponse, AppError>)
        requires
            coerce_to_sql(req.key) is Some,
        ensures
            r matches Ok(resp) ==> resp matches ApiResponse::GetRow(p) && p.table@ == req.table@
                && p.request_id@ == req.request_id@,
            r matches Err(e) ==> (e is DatabaseError || e is TableNotFound || e is ColumnsNotFound
                || e is RowNotFound),
            r matches Err(e) ==> (e matches AppError::TableNotFound { table: t } ==> t@
                == req.table@),
            r matches Err(e) ==> (e matches AppError::ColumnsNotFound { columns: cs }
                ==> columns_not_found_submitted(ApiRequest::GetRow(req), cs.deep_view())),
    {
        let table = match self.db.check_table_name(req.table.as_str()) {
            Err(e) => { return Err(AppError::DatabaseError(e)) },
            Ok(found) => match require_table(found, req.table.clone()) {
                Err(e) => { return Err(e) },
                Ok(t) => t,
            },
        };
        let (resolved, not_found) = match self.db.check_column_names(&table, &req.select) {
            Err(e) => { return Err(AppError::DatabaseError(e)) },
            Ok(p) => p,
        };
        let found = match require_columns_found(resolved, not_found) {
            Err(e) => { return Err(e) },
            Ok(f) => f,
        };
        let looked_up = match self.db.get_row(table, req.key, found) {
            Err(e) => { return Err(AppError::DatabaseError(e)) },
            Ok(o) => o,
        };
        let row = match require_row(looked_up) {
            Err(e) => { return Err(e) },
            Ok(row) => row,
        };
        Ok(
            ApiResponse::GetRow(
                GetRowResponse { table: req.table, row, request_id: req.request_id },
            ),
        )
    }

    fn handle_insert_row(&self, req: InsertRowRequest) -> (r: Result<ApiResponse, AppError>)
        requires
            submitted_data_wf(req.data@),
        ensures
            r matches Ok(resp) ==> resp matches ApiResponse::InsertRow(p) && p.table@ == req.table@
                && p.request_id@ == req.request_id@,
            r matches Err(e) ==> (e is DatabaseError || e is TableNotFound
                || e is ColumnsNotFound),
            r matches Err(e) ==> (e matches AppError::TableNotFound { table: t } ==> t@
                == req.table@),
            r matches Err(e) ==> (e matches AppError::ColumnsNotFound { columns: cs }
                ==> columns_not_found_submitted(ApiRequest::InsertRow(req), cs.deep_view())),
    {
        let table = match self.db.check_table_name(req.table.as_str()) {
            Err(e) => { return Err(AppError::DatabaseError(e)) },
            Ok(found) => match require_table(found, req.table.clone()) {
                Err(e) => { return Err(e) },
                Ok(t) => t,
            },
        };
        let keys = keys_of(&req.data);
        proof {
            assert(keys.deep_view() =~= submitted_keys(req.data@));
        }
        let (resolved, not_found) = match self.db.check_column_names(&table, &keys) {
            Err(e) => { return Err(AppError::DatabaseError(e)) },
            Ok(p) => p,
        };
        let found = match require_columns_found(resolved, not_found) {
            Err(e) => { return Err(e) },
            Ok(f) => f,
        };
        let row = zip_columns(found, &req.data);
        let inserted_rows = match self.db.insert_row(table, row) {
            Err(e) => { return Err(AppError::DatabaseError(e)) },
            Ok(n) => n,
        };
        Ok(
            ApiResponse::InsertRow(
                InsertRowResponse { table: req.table, inserted_rows, request_id: req.request_id },
            ),
        )
    }

    fn handle_delete_row(&self, req: DeleteRowRequest) -> (r: Result<ApiResponse, AppError>)
        requires
            coerce_to_sql(req.key) is Some,
        ensures
            r matches Ok(resp) ==> resp matches ApiResponse::DeleteRow(p) && p.table@ == req.table@
                && p.request_id@ == req.request_id@,
            r matches Err(e) ==> (e is DatabaseError || e is TableNotFound),
            r matches Err(e) ==> (e matches AppError::TableNotFound { table: t } ==> t@
                == req.table@),
    {
        let table = match self.db.check_table_name(req.table.as_str()) {
            Err(e) => { return Err(AppError::DatabaseError(e)) },
            Ok(found) => match require_table(found, req.table.clone()) {
                Err(e) => { return Err(e) },
                Ok(t) => t,
            },
        };
        let deleted_rows = match self.db.delete_row(table, req.key) {
            Err(e) => { return Err(AppError::DatabaseError(e)) },
            Ok(n) => n,
        };
        Ok(
            ApiResponse::DeleteRow(
                DeleteRowResponse { table: req.table, deleted_rows, request_id: req.request_id },
            ),
        )
    }

    fn handle_update_row(&self, req: UpdateRowRequest) -> (r: Result<ApiResponse, AppError>)
        requires
            coerce_to_sql(req.key) is Some,
            submitted_data_wf(req.data@),
        ensures
            r matches Ok(resp) ==> resp matches ApiResponse::UpdateRow(p) && p.table@ == req.table@
                && p.request_id@ == req.request_id@ && p.updated_rows > 0,
            r matches Err(e) ==> (e is DatabaseError || e is TableNotFound || e is ColumnsNotFound
                || e is RowNotFound),
            r matches Err(e) ==> (e matches AppError::TableNotFound { table: t } ==> t@
                == req.table@),
            r matches Err(e) ==> (e matches AppError::ColumnsNotFound { columns: cs }
                ==> columns_not_found_submitted(ApiRequest::UpdateRow(req), cs.deep_view())),
    {
        let table = match self.db.check_table_name(req.table.as_str()) {
            Err(e) => { return Err(AppError::DatabaseError(e)) },
            Ok(found) => match require_table(found, req.table.clone()) {
                Err(e) => { return Err(e) },
                Ok(t) => t,
            },
        };
        let keys = keys_of(&req.data);
        proof {
            assert(keys.deep_view() =~= submitted_keys(req.data@));
        }
        let (resolved, not_found) = match self.db.check_column_names(&table, &keys) {
            Err(e) => { return Err(AppError::DatabaseError(e)) },
            Ok(p) => p,
        };
        let found = match require_columns_found(resolved, not_found) {
            Err(e) => { return Err(e) },
            Ok(f) => f,
        };
        let row = zip_columns(found, &req.data);
        let outcome = match self.db.update_row(table, req.key, row) {
            Err(e) => { return Err(AppError::DatabaseError(e)) },
            Ok(o) => o,
        };
        let updated_rows = match require_updated(outcome) {
            Err(e) => { return Err(e) },
            Ok(n) => n,
        };
        Ok(
            ApiResponse::UpdateRow(
                UpdateRowResponse { table: req.table, updated_rows, request_id: req.request_id },
            ),
        )
    }

    fn handle_batch_insert(&self, req: BatchInsertRowRequest) -> (r: Result<ApiResponse, AppError>)
        requires
            forall|i: int|
                0 <= i < req.data@.len() ==> submitted_data_wf((#[trigger] req.data@[i])@),
        ensures
            r matches Ok(resp) ==> resp matches ApiResponse::BatchInsertRow(p) && p.table@
                == req.table@ && p.request_id@ == req.request_id@,
            r == Err::<ApiResponse, AppError>(AppError::BatchInsertWithNoData) ==> req.data@.len()
                == 0,
            req.data@.len() == 0 ==> r is Err && (r matches Err(e) ==> e is DatabaseError
                || e is TableNotFound || e is BatchInsertWithNoData),
            r == Err::<ApiResponse, AppError>(AppError::BatchInsertWithIrregularColumns)
                ==> !batch_regular(batch_view(req.data@)),
            r matches Err(e) ==> (e is DatabaseError || e is TableNotFound || e is ColumnsNotFound
                || e is BatchInsertWithNoData || e is BatchInsertWithIrregularColumns),
            r matches Err(e) ==> (e matches AppError::TableNotFound { table: t } ==> t@
                == req.table@),
            r matches Err(e) ==> (e matches AppError::ColumnsNotFound { columns: cs }
                ==> columns_not_found_submitted(
                    ApiRequest::BatchInsertRow(req),
                    cs.deep_view(),
                )),
            r is Ok ==> req.data@.len() > 0 && batch_regular(batch_view(req.data@)),
    {
        let table = match self.db.check_table_name(req.table.as_str()) {
            Err(e) => { return Err(AppError::DatabaseError(e)) },
            Ok(found) => match require_table(found, req.table.clone()) {
                Err(e) => { return Err(e) },
                Ok(t) => t,
            },
        };
        if req.data.len() == 0 {
            return Err(AppError::BatchInsertWithNoData);
        }
        // Resolve every row's columns first: an unknown column anywhere in
        // the batch is reported before irregularity is considered.
        let mut found_first: Columns = Vec::new();
        let mut i: usize = 0;
        while i < req.data.len()
            invariant
                req.data@.len() > 0,
                i <= req.data@.len(),
                i > 0 ==> found_first@.len() == req.data@[0]@.len(),
            decreases req.data@.len() - i,
        {
            let keys = keys_of(&req.data[i]);
            proof {
                assert(keys.deep_view() =~= submitted_keys((req.data@[i as int])@));
            }
            let (resolved, not_found) = match self.db.check_column_names(&table, &keys) {
                Err(e) => { return Err(AppError::DatabaseError(e)) },
                Ok(p) => p,
            };
            if not_found.len() > 0 {
                proof {
                    let cs = not_found.deep_view();
                    let m = i as int;
                    assert forall|t: int| 0 <= t < cs.len() implies exists|w: int|
                        0 <= w < req.data@.len() && submitted_keys(
                            (#[trigger] req.data@[w])@,
                        ).contains(#[trigger] cs[t]) by {
                        assert(keys.deep_view().contains(not_found.deep_view()[t]));
                        assert(0 <= m < req.data@.len() && submitted_keys(
                            (req.data@[m])@,
                        ).contains(cs[t]));
                    }
                    let breq = ApiRequest::BatchInsertRow(req);
                    assert(breq->BatchInsertRow_0 == req);
                    assert forall|t: int| 0 <= t < cs.len() implies exists|w: int|
                        0 <= w < breq->BatchInsertRow_0.data@.len() && submitted_keys(
                            (#[trigger] breq->BatchInsertRow_0.data@[w])@,
                        ).contains(#[trigger] cs[t]) by {
                        assert(keys.deep_view().contains(not_found.deep_view()[t]));
                        assert(0 <= m < breq->BatchInsertRow_0.data@.len() && submitted_keys(
                            (breq->BatchInsertRow_0.data@[m])@,
                        ).contains(cs[t]));
                    }
                    assert(columns_not_found_submitted(breq, cs));
                }
                return Err(AppError::ColumnsNotFound { columns: not_found });
            }
            let found = resolved;
            if i == 0 {
                found_first = found;
            }
            i = i + 1;
        }
        // Align every row to the first row's column order; a row that does
        // not cover the first row's column set makes the batch irregular.
        let ghost bv = batch_view(req.data@);
        let mut aligned: Vec<Vec<(ColumnName, JsonValue)>> = Vec::new();
        let mut k: usize = 0;
        while k < req.data.len()
            invariant
                req.data@.len() > 0,
                k <= req.data@.len(),
                bv == batch_view(req.data@),
                found_first@.len() == req.data@[0]@.len(),
                aligned@.len() == k,
                forall|m: int|
                    0 <= m < req.data@.len() ==> submitted_data_wf((#[trigger] req.data@[m])@),
                forall|m: int| 0 <= m < k ==> row_covers(bv[0], #[trigger] bv[m]),
                forall|m: int| 0 <= m < k ==> data_wf((#[trigger] aligned@[m])@),
                forall|m: int| 0 <= m < k ==> (#[trigger] aligned@[m])@.len() > 0 || bv[0].len()
                    == 0,
            decreases req.data@.len() - k,
        {
            match align_row(&found_first, &req.data[0], &req.data[k]) {
                None => {
                    proof {
                        assert(!row_covers(bv[0], bv[k as int]));
                    }
                    return Err(AppError::BatchInsertWithIrregularColumns);
                },
                Some(a) => {
                    proof {
                        assert forall|j: int| 0 <= j < a@.len() implies coerce_to_sql(
                            (#[trigger] a@[j]).1,
                        ) is Some by {
                            lemma_lookup_is_value(bv[k as int], req.data@[0]@[j].0@);
                            assert(lookup_spec(bv[k as int], req.data@[0]@[j].0@) == Some(
                                a@[j].1,
                            ));
                        }
                    }
                    aligned.push(a);
                },
            }
            k = k + 1;
        }
        proof {
            assert(batch_regular(bv));
        }
        let inserted_rows = match self.db.batch_insert_row(table, aligned) {
            Err(e) => { return Err(AppError::DatabaseError(e)) },
            Ok(n) => n,
        };
        Ok(
            ApiResponse::BatchInsertRow(
                InsertRowResponse { table: req.table, inserted_rows, request_id: req.request_id },
            ),
        )
    }

    /// Processes one request: validates identifiers and request invariants,
    /// invokes the engine, and maps the outcome to a typed response or
    /// error. A successful response echoes the request's table spelling and
    /// correlation id.
    pub fn call(&self, request: ApiRequest) -> (r: Result<ApiResponse, AppError>)
        requires
            request_wf(request),
        ensures
            r matches Ok(resp) ==> response_matches(request, resp),
            r == Err::<ApiResponse, AppError>(AppError::PageNumberCanNotBeZero) ==> (request
                matches ApiRequest::ListRows(q) && !page_valid(q.page)),
            (request matches ApiRequest::ListRows(q) && !page_valid(q.page)) ==> r is Err,
            r == Err::<ApiResponse, AppError>(AppError::BatchInsertWithNoData) ==> (request
                matches ApiRequest::BatchInsertRow(q) && q.data@.len() == 0),
            (request matches ApiRequest::BatchInsertRow(q) && q.data@.len() == 0) ==> r is Err,
            r == Err::<ApiResponse, AppError>(AppError::BatchInsertWithIrregularColumns)
                ==> (request matches ApiRequest::BatchInsertRow(q) && !batch_regular(
                batch_view(q.data@),
            )),
            r == Err::<ApiResponse, AppError>(AppError::RowNotFound) ==> (request
                matches ApiRequest::GetRow(_)) || (request matches ApiRequest::UpdateRow(_)),
            r is Ok ==> (request matches ApiRequest::BatchInsertRow(q) ==> q.data@.len() > 0
                && batch_regular(batch_view(q.data@))),
            r matches Err(e) ==> (e matches AppError::TableNotFound { table: t } ==> t@
                == request_table(request)),
            r matches Err(e) ==> (e matches AppError::ColumnsNotFound { columns: cs }
                ==> columns_not_found_submitted(request, cs.deep_view())),
            r matches Err(e) ==> (e matches AppError::SortColumnNotFound { column: c } ==> (
            request matches ApiRequest::ListRows(q)
                && (q.sort matches Some(s) && c@ == s.column@))),
            r matches Ok(resp) ==> (resp matches ApiResponse::UpdateRow(p) ==> p.updated_rows
                > 0),
            r matches Err(e) ==> error_possible(request, e),
    {
        match request {
            ApiRequest::ListRows(req) => self.handle_list_rows(req),
            ApiRequest::GetRow(req) => self.handle_get_row(req),
            ApiRequest::InsertRow(req) => self.handle_insert_row(req),
            ApiRequest::BatchInsertRow(req) => self.handle_batch_insert(req),
            ApiRequest::DeleteRow(req) => self.handle_delete_row(req),
            ApiRequest::UpdateRow(req) => self.handle_update_row(req),
        }
    }
}

} // verus!
