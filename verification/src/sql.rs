//! Construction of the six SQL statements. Table and column names cannot be
//! bound as statement parameters, so they are embedded directly into the
//! statement text; that is safe only because every `TableName` and
//! `ColumnName` was resolved against live schema metadata first. Keys are
//! bound as parameters; column values composed into multi-value INSERT and
//! UPDATE statements are embedded as rendered literals.

use vstd::prelude::*;

use crate::catalog::{names_view, ColumnName, Columns, TableName};
use crate::requests::{sort_keyword, Pagination, SortOrder};
use crate::text::{
    dec_int, dec_nat, hex_encode, hex_of, i64_to_dec, join_comma, join_comma_strs, push_dec_u64,
};
use crate::values::{coerce_to_sql, json_to_sql_value, JsonValue, SqlValue};

verus! {

/// The inline SQL literal a scalar value is embedded as: `null`, decimal
/// digits for numbers, single-quoted text, or a quoted hex literal for blobs.
pub open spec fn literal_spec(v: SqlValue) -> Seq<char> {
    match v {
        SqlValue::Null => "null"@,
        SqlValue::Integer(i) => dec_int(i as int),
        SqlValue::Real(s) => s@,
        SqlValue::Text(s) => "'"@ + s@ + "'"@,
        SqlValue::Blob(b) => "X'"@ + hex_of(b@) + "'"@,
    }
}

/// Renders a scalar value as an inline SQL literal.
pub fn render_literal(v: &SqlValue) -> (r: String)
    ensures
        r@ == literal_spec(*v),
{
    match v {
        SqlValue::Null => String::from_str("null"),
        SqlValue::Integer(i) => i64_to_dec(*i),
        SqlValue::Real(s) => s.clone(),
        SqlValue::Text(s) => {
            let r = String::from_str("'").concat(s.as_str()).concat("'");
            proof {
                assert(r@ =~= literal_spec(*v));
            }
            r
        },
        SqlValue::Blob(b) => {
            let h = hex_encode(b);
            let r = String::from_str("X'").concat(h.as_str()).concat("'");
            proof {
                assert(r@ =~= literal_spec(*v));
            }
            r
        },
    }
}

/// The projected column list: every column when none are selected, else the
/// comma-joined selection.
pub open spec fn select_list_spec(cols: Seq<Seq<char>>) -> Seq<char> {
    if cols.len() == 0 {
        "*"@
    } else {
        join_comma(cols)
    }
}

fn column_strings(cols: &Columns) -> (r: Vec<String>)
    ensures
        r.deep_view() == names_view(cols@),
{
    let mut out: Vec<String> = Vec::new();
    let mut i: usize = 0;
    while i < cols.len()
        invariant
            i <= cols.len(),
            out.len() == i,
            out.deep_view() == names_view(cols@.take(i as int)),
        decreases cols.len() - i,
    {
        out.push(cols[i].as_str().to_owned());
        proof {
            let ghost target = names_view(cols@.take(i + 1 as int));
            assert forall|j: int| 0 <= j < i + 1 implies out.deep_view()[j] == target[j] by {
                assert(target[j] == cols@.take(i + 1 as int)[j]@);
                assert(out.deep_view()[j] == out@[j]@);
                if j < i {
                    assert(out.deep_view()[j] == names_view(cols@.take(i as int))[j]);
                }
            }
            assert(out.deep_view() =~= target);
        }
        i = i + 1;
    }
    proof {
        assert(cols@.take(cols@.len() as int) =~= cols@);
    }
    out
}

/// Renders the projected column list of a read operation.
pub fn select_list(cols: &Columns) -> (r: String)
    ensures
        r@ == select_list_spec(names_view(cols@)),
{
    if cols.len() == 0 {
        String::from_str("*")
    } else {
        let parts = column_strings(cols);
        join_comma_strs(&parts)
    }
}

/// The sort column and direction, viewed at the spec level.
pub open spec fn sort_view(sort: Option<(ColumnName, SortOrder)>) -> Option<(Seq<char>, SortOrder)> {
    match sort {
        None => None,
        Some(s) => Some((s.0@, s.1)),
    }
}

/// The ORDER BY clause for an optional sort, empty when absent.
pub open spec fn order_clause_spec(sort: Option<(Seq<char>, SortOrder)>) -> Seq<char> {
    match sort {
        None => Seq::empty(),
        Some(s) => "ORDER BY "@ + s.0 + " "@ + sort_keyword(s.1),
    }
}

fn order_clause(sort: &Option<(ColumnName, SortOrder)>) -> (r: String)
    ensures
        r@ == order_clause_spec(sort_view(*sort)),
{
    match sort {
        None => String::new(),
        Some(s) => {
            let r = String::from_str("ORDER BY ").concat(s.0.as_str()).concat(" ").concat(
                s.1.sql_keyword(),
            );
            proof {
                assert(r@ =~= order_clause_spec(sort_view(*sort)));
            }
            r
        },
    }
}

/// The LIMIT/OFFSET clause for an optional page, empty when absent: limit
/// `size`, offset `(number - 1) * size`.
pub open spec fn limit_clause_spec(page: Option<Pagination>) -> Seq<char>
    recommends
        page matches Some(p) ==> p.number >= 1,
{
    match page {
        None => Seq::empty(),
        Some(p) => "LIMIT "@ + dec_nat(p.size as nat) + " OFFSET "@ + dec_nat(
            ((p.number - 1) * p.size) as nat,
        ),
    }
}

fn limit_clause(page: &Option<Pagination>) -> (r: String)
    requires
        *page matches Some(p) ==> p.number >= 1,
    ensures
        r@ == limit_clause_spec(*page),
{
    match page {
        None => String::new(),
        Some(p) => {
            let window = p.window();
            let mut r = String::from_str("LIMIT ");
            push_dec_u64(&mut r, window.1 as u64);
            r.append(" OFFSET ");
            push_dec_u64(&mut r, window.0);
            proof {
                assert(r@ =~= limit_clause_spec(*page));
            }
            r
        },
    }
}

/// The statement text of a list operation.
pub open spec fn list_rows_sql_spec(
    table: Seq<char>,
    cols: Seq<Seq<char>>,
    sort: Option<(Seq<char>, SortOrder)>,
    page: Option<Pagination>,
) -> Seq<char> {
    "SELECT "@ + select_list_spec(cols) + " FROM "@ + table + " "@ + order_clause_spec(sort) + " "@
        + limit_clause_spec(page)
}

/// Builds the SELECT statement of a list operation from validated
/// identifiers.
pub fn build_list_rows_sql(
    table: &TableName,
    cols: &Columns,
    sort: &Option<(ColumnName, SortOrder)>,
    page: &Option<Pagination>,
) -> (r: String)
    requires
        *page matches Some(p) ==> p.number >= 1,
    ensures
        r@ == list_rows_sql_spec(table@, names_view(cols@), sort_view(*sort), *page),
{
    let sel = select_list(cols);
    let ord = order_clause(sort);
    let lim = limit_clause(page);
    let r = String::from_str("SELECT ").concat(sel.as_str()).concat(" FROM ").concat(
        table.as_str(),
    ).concat(" ").concat(ord.as_str()).concat(" ").concat(lim.as_str());
    proof {
        assert(r@ =~= list_rows_sql_spec(table@, names_view(cols@), sort_view(*sort), *page));
    }
    r
}

/// The statement text of a single-row lookup by primary key.
pub open spec fn get_row_sql_spec(table: Seq<char>, cols: Seq<Seq<char>>, pk: Seq<char>) -> Seq<
    char,
> {
    "SELECT "@ + select_list_spec(cols) + " FROM "@ + table + " WHERE "@ + pk + " = ?"@
}

/// Builds the SELECT statement of a single-row lookup; the key itself is
/// bound as a parameter, never embedded.
pub fn build_get_row_sql(table: &TableName, cols: &Columns, pk: &ColumnName) -> (r: String)
    ensures
        r@ == get_row_sql_spec(table@, names_view(cols@), pk@),
{
    let sel = select_list(cols);
    let r = String::from_str("SELECT ").concat(sel.as_str()).concat(" FROM ").concat(
        table.as_str(),
    ).concat(" WHERE ").concat(pk.as_str()).concat(" = ?");
    proof {
        assert(r@ =~= get_row_sql_spec(table@, names_view(cols@), pk@));
    }
    r
}

/// Whether every value in a column-to-value list can be coerced to a store
/// scalar.
pub open spec fn data_wf(data: Seq<(ColumnName, JsonValue)>) -> bool {
    forall|i: int| 0 <= i < data.len() ==> coerce_to_sql(#[trigger] data[i].1) is Some
}

/// The column names of a column-to-value list, in order.
pub open spec fn column_part(data: Seq<(ColumnName, JsonValue)>) -> Seq<Seq<char>> {
    data.map_values(|p: (ColumnName, JsonValue)| p.0@)
}

/// The rendered literals of a column-to-value list, in order.
pub open spec fn literal_part(data: Seq<(ColumnName, JsonValue)>) -> Seq<Seq<char>> {
    data.map_values(|p: (ColumnName, JsonValue)| literal_spec(coerce_to_sql(p.1).unwrap()))
}

fn literal_strings(data: &Vec<(ColumnName, JsonValue)>) -> (r: Vec<String>)
    requires
        data_wf(data@),
    ensures
        r.deep_view() == literal_part(data@),
{
    let mut out: Vec<String> = Vec::new();
    let mut i: usize = 0;
    while i < data.len()
        invariant
            i <= data.len(),
            data_wf(data@),
            out.len() == i,
            out.deep_view() == literal_part(data@.take(i as int)),
        decreases data.len() - i,
    {
        let sv = json_to_sql_value(&data[i].1).unwrap();
        out.push(render_literal(&sv));
        proof {
            let ghost target = literal_part(data@.take(i + 1 as int));
            assert forall|j: int| 0 <= j < i + 1 implies out.deep_view()[j] == target[j] by {
                assert(target[j] == literal_spec(
                    coerce_to_sql(data@.take(i + 1 as int)[j].1).unwrap(),
                ));
                assert(out.deep_view()[j] == out@[j]@);
                if j < i {
                    assert(out.deep_view()[j] == literal_part(data@.take(i as int))[j]);
                }
            }
            assert(out.deep_view() =~= target);
        }
        i = i + 1;
    }
    proof {
        assert(data@.take(data@.len() as int) =~= data@);
    }
    out
}

fn data_column_strings(data: &Vec<(ColumnName, JsonValue)>) -> (r: Vec<String>)
    ensures
        r.deep_view() == column_part(data@),
{
    let mut out: Vec<String> = Vec::new();
    let mut i: usize = 0;
    while i < data.len()
        invariant
            i <= data.len(),
            out.len() == i,
            out.deep_view() == column_part(data@.take(i as int)),
        decreases data.len() - i,
    {
        out.push(data[i].0.as_str().to_owned());
        proof {
            let ghost target = column_part(data@.take(i + 1 as int));
            assert forall|j: int| 0 <= j < i + 1 implies out.deep_view()[j] == target[j] by {
                assert(target[j] == data@.take(i + 1 as int)[j].0@);
                assert(out.deep_view()[j] == out@[j]@);
                if j < i {
                    assert(out.deep_view()[j] == column_part(data@.take(i as int))[j]);
                }
            }
            assert(out.deep_view() =~= target);
        }
        i = i + 1;
    }
    proof {
        assert(data@.take(data@.len() as int) =~= data@);
    }
    out
}

/// The statement text of a single-row insert: embedded column list and
/// rendered value literals.
pub open spec fn insert_sql_spec(table: Seq<char>, data: Seq<(ColumnName, JsonValue)>) -> Seq<
    char,
> {
    "INSERT INTO "@ + table + " ("@ + join_comma(column_part(data)) + ") VALUES ("@ + join_comma(
        literal_part(data),
    ) + ")"@
}

/// Builds the INSERT statement of a single-row insert.
pub fn build_insert_sql(table: &TableName, data: &Vec<(ColumnName, JsonValue)>) -> (r: String)
    requires
        data_wf(data@),
    ensures
        r@ == insert_sql_spec(table@, data@),
{
    let cols = data_column_strings(data);
    let vals = literal_strings(data);
    let cols_s = join_comma_strs(&cols);
    let vals_s = join_comma_strs(&vals);
    let r = String::from_str("INSERT INTO ").concat(table.as_str()).concat(" (").concat(
        cols_s.as_str(),
    ).concat(") VALUES (").concat(vals_s.as_str()).concat(")");
    proof {
        assert(r@ =~= insert_sql_spec(table@, data@));
    }
    r
}

/// One parenthesised value group of a batch insert.
pub open spec fn value_group_spec(row: Seq<(ColumnName, JsonValue)>) -> Seq<char> {
    "("@ + join_comma(literal_part(row)) + ")"@
}

/// The comma-joined value groups of a batch insert, one per row.
pub open spec fn batch_values_spec(rows: Seq<Seq<(ColumnName, JsonValue)>>) -> Seq<char> {
    join_comma(rows.map_values(|row: Seq<(ColumnName, JsonValue)>| value_group_spec(row)))
}

/// The statement text of a batch insert: the first row names the columns,
/// every row contributes one value group.
pub open spec fn batch_insert_sql_spec(
    table: Seq<char>,
    rows: Seq<Seq<(ColumnName, JsonValue)>>,
) -> Seq<char>
    recommends
        rows.len() > 0,
{
    "INSERT INTO "@ + table + " ("@ + join_comma(column_part(rows[0])) + ") VALUES "@
        + batch_values_spec(rows)
}

/// The rows of a batch, viewed at the spec level.
pub open spec fn rows_view(rows: Seq<Vec<(ColumnName, JsonValue)>>) -> Seq<
    Seq<(ColumnName, JsonValue)>,
> {
    rows.map_values(|v: Vec<(ColumnName, JsonValue)>| v@)
}

/// Builds the INSERT statement of a batch insert; the caller has already
/// established that every row shares the first row's column set.
pub fn build_batch_insert_sql(table: &TableName, rows: &Vec<Vec<(ColumnName, JsonValue)>>) -> (r:
    String)
    requires
        rows@.len() > 0,
        forall|i: int| 0 <= i < rows@.len() ==> data_wf(#[trigger] rows@[i]@),
    ensures
        r@ == batch_insert_sql_spec(table@, rows_view(rows@)),
{
    let ghost rv = rows_view(rows@);
    let cols = data_column_strings(&rows[0]);
    let cols_s = join_comma_strs(&cols);
    let mut groups: Vec<String> = Vec::new();
    let mut i: usize = 0;
    while i < rows.len()
        invariant
            i <= rows.len(),
            groups.len() == i,
            rv == rows_view(rows@),
            forall|k: int| 0 <= k < rows@.len() ==> data_wf(#[trigger] rows@[k]@),
            groups.deep_view() == rv.take(i as int).map_values(
                |row: Seq<(ColumnName, JsonValue)>| value_group_spec(row),
            ),
        decreases rows.len() - i,
    {
        let vals = literal_strings(&rows[i]);
        let vals_s = join_comma_strs(&vals);
        let group = String::from_str("(").concat(vals_s.as_str()).concat(")");
        proof {
            assert(group@ =~= value_group_spec(rv[i as int]));
        }
        groups.push(group);
        proof {
            let ghost target = rv.take(i + 1 as int).map_values(
                |row: Seq<(ColumnName, JsonValue)>| value_group_spec(row),
            );
            assert forall|j: int| 0 <= j < i + 1 implies groups.deep_view()[j] == target[j] by {
                assert(target[j] == value_group_spec(rv.take(i + 1 as int)[j]));
                assert(groups.deep_view()[j] == groups@[j]@);
                if j < i {
                    assert(groups.deep_view()[j] == rv.take(i as int).map_values(
                        |row: Seq<(ColumnName, JsonValue)>| value_group_spec(row),
                    )[j]);
                }
            }
            assert(groups.deep_view() =~= target);
        }
        i = i + 1;
    }
    proof {
        assert(rv.take(rows@.len() as int) =~= rv);
    }
    let groups_s = join_comma_strs(&groups);
    let r = String::from_str("INSERT INTO ").concat(table.as_str()).concat(" (").concat(
        cols_s.as_str(),
    ).concat(") VALUES ").concat(groups_s.as_str());
    proof {
        assert(r@ =~= batch_insert_sql_spec(table@, rv));
    }
    r
}

/// The comma-joined `column = literal` assignments of an update.
pub open spec fn assignments_spec(data: Seq<(ColumnName, JsonValue)>) -> Seq<Seq<char>> {
    data.map_values(
        |p: (ColumnName, JsonValue)| p.0@ + " = "@ + literal_spec(coerce_to_sql(p.1).unwrap()),
    )
}

/// The statement text of an update addressed by primary key.
pub open spec fn update_sql_spec(
    table: Seq<char>,
    data: Seq<(ColumnName, JsonValue)>,
    pk: Seq<char>,
) -> Seq<char> {
    "UPDATE "@ + table + " SET "@ + join_comma(assignments_spec(data)) + " WHERE "@ + pk + " = ?"@
}

/// Builds the UPDATE statement; the key is bound as a parameter.
pub fn build_update_sql(
    table: &TableName,
    data: &Vec<(ColumnName, JsonValue)>,
    pk: &ColumnName,
) -> (r: String)
    requires
        data_wf(data@),
    ensures
        r@ == update_sql_spec(table@, data@, pk@),
{
    let mut parts: Vec<String> = Vec::new();
    let mut i: usize = 0;
    while i < data.len()
        invariant
            i <= data.len(),
            data_wf(data@),
            parts.len() == i,
            parts.deep_view() == assignments_spec(data@.take(i as int)),
        decreases data.len() - i,
    {
        let sv = json_to_sql_value(&data[i].1).unwrap();
        let lit = render_literal(&sv);
        let assign = data[i].0.as_str().to_owned().concat(" = ").concat(lit.as_str());
        proof {
            assert(assign@ =~= data@[i as int].0@ + " = "@ + literal_spec(
                coerce_to_sql(data@[i as int].1).unwrap(),
            ));
        }
        parts.push(assign);
        proof {
            let ghost target = assignments_spec(data@.take(i + 1 as int));
            assert forall|j: int| 0 <= j < i + 1 implies parts.deep_view()[j] == target[j] by {
                assert(target[j] == data@.take(i + 1 as int)[j].0@ + " = "@ + literal_spec(
                    coerce_to_sql(data@.take(i + 1 as int)[j].1).unwrap(),
                ));
                assert(parts.deep_view()[j] == parts@[j]@);
                if j < i {
                    assert(parts.deep_view()[j] == assignments_spec(data@.take(i as int))[j]);
                }
            }
            assert(parts.deep_view() =~= target);
        }
        i = i + 1;
    }
    proof {
        assert(data@.take(data@.len() as int) =~= data@);
    }
    let parts_s = join_comma_strs(&parts);
    let r = String::from_str("UPDATE ").concat(table.as_str()).concat(" SET ").concat(
        parts_s.as_str(),
    ).concat(" WHERE ").concat(pk.as_str()).concat(" = ?");
    proof {
        assert(r@ =~= update_sql_spec(table@, data@, pk@));
    }
    r
}

/// The statement text of a delete addressed by primary key.
pub open spec fn delete_sql_spec(table: Seq<char>, pk: Seq<char>) -> Seq<char> {
    "DELETE FROM "@ + table + " WHERE "@ + pk + " = ?"@
}

/// Builds the DELETE statement; the key is bound as a parameter.
pub fn build_delete_sql(table: &TableName, pk: &ColumnName) -> (r: String)
    ensures
        r@ == delete_sql_spec(table@, pk@),
{
    let r = String::from_str("DELETE FROM ").concat(table.as_str()).concat(" WHERE ").concat(
        pk.as_str(),
    ).concat(" = ?");
    proof {
        assert(r@ =~= delete_sql_spec(table@, pk@));
    }
    r
}

/// The probe statement whose prepared column metadata names a table's
/// columns.
pub open spec fn columns_probe_sql_spec(table: Seq<char>) -> Seq<char> {
    "SELECT * FROM "@ + table
}

/// Builds the probe statement used to read a table's column names.
pub fn build_columns_probe_sql(table: &TableName) -> (r: String)
    ensures
        r@ == columns_probe_sql_spec(table@),
{
    let r = String::from_str("SELECT * FROM ").concat(table.as_str());
    proof {
        assert(r@ =~= columns_probe_sql_spec(table@));
    }
    r
}

/// The schema-metadata statement describing a table's columns, declared
/// types and primary key.
pub open spec fn table_info_sql_spec(table: Seq<char>) -> Seq<char> {
    "PRAGMA table_info("@ + table + ")"@
}

/// Builds the schema-metadata statement for a table.
pub fn build_table_info_sql(table: &TableName) -> (r: String)
    ensures
        r@ == table_info_sql_spec(table@),
{
    let r = String::from_str("PRAGMA table_info(").concat(table.as_str()).concat(")");
    proof {
        assert(r@ =~= table_info_sql_spec(table@));
    }
    r
}

} // verus!
