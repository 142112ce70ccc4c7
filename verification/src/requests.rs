//! Typed requests: the six table operations a caller may submit, each
//! carrying a correlation id that is echoed verbatim in the response.

use vstd::prelude::*;

use crate::values::JsonValue;

verus! {

/// A decoded request: one of the six supported table operations.
#[derive(Debug, Clone, PartialEq, Eq)]
pub enum ApiRequest {
    ListRows(ListRowsRequest),
    GetRow(GetRowRequest),
    InsertRow(InsertRowRequest),
    BatchInsertRow(BatchInsertRowRequest),
    DeleteRow(DeleteRowRequest),
    UpdateRow(UpdateRowRequest),
}

#[derive(Debug, Clone, PartialEq, Eq)]
pub struct ListRowsRequest {
    pub table: String,
    pub select: Vec<String>,
    pub sort: Option<SortInfo>,
    pub page: Option<Pagination>,
    pub request_id: String,
}

#[derive(Debug, Clone, PartialEq, Eq)]
pub struct SortInfo {
    pub column: String,
    pub order: SortOrder,
}

/// The sort direction attached to a list operation.
#[derive(Debug, Clone, Copy, PartialEq, Eq, Structural)]
pub enum SortOrder {
    Asc,
    Desc,
}

/// The SQL keyword a sort direction is written as.
pub open spec fn sort_keyword(o: SortOrder) -> Seq<char> {
    match o {
        SortOrder::Asc => "ASC"@,
        SortOrder::Desc => "DESC"@,
    }
}

impl SortOrder {
    /// The SQL keyword for this direction, as it is embedded in an ORDER BY
    /// clause.
    pub fn sql_keyword(&self) -> (r: &'static str)
        ensures
            r@ == sort_keyword(*self),
    {
        match self {
            SortOrder::Asc => "ASC",
            SortOrder::Desc => "DESC",
        }
    }
}

/// A pagination window: 1-based page number and page size.
#[derive(Debug, Clone, Copy, PartialEq, Eq, Structural)]
pub struct Pagination {
    pub number: u32,
    pub size: u32,
}

impl Pagination {
    /// The row window this page denotes: offset `(number - 1) * size`,
    /// limit `size`.
    pub fn window(&self) -> (r: (u64, u32))
        requires
            self.number >= 1,
        ensures
            r.0 == (self.number - 1) * self.size,
            r.1 == self.size,
    {
        proof {
            assert((self.number - 1) * self.size <= 0xffff_ffff * 0xffff_ffff)
                by (nonlinear_arith)
                requires
                    1 <= self.number <= 0xffff_ffffu64,
                    self.size <= 0xffff_ffffu64,
            ;
        }
        let offset: u64 = (self.number as u64 - 1) * (self.size as u64);
        (offset, self.size)
    }
}

#[derive(Debug, Clone, PartialEq, Eq)]
pub struct GetRowRequest {
    pub table: String,
    pub key: JsonValue,
    pub select: Vec<String>,
    pub request_id: String,
}

#[derive(Debug, Clone, PartialEq, Eq)]
pub struct InsertRowRequest {
    pub table: String,
    pub data: Vec<(String, JsonValue)>,
    pub request_id: String,
}

#[derive(Debug, Clone, PartialEq, Eq)]
pub struct BatchInsertRowRequest {
    pub table: String,
    pub data: Vec<Vec<(String, JsonValue)>>,
    pub request_id: String,
}

#[derive(Debug, Clone, PartialEq, Eq)]
pub struct DeleteRowRequest {
    pub table: String,
    pub key: JsonValue,
    pub request_id: String,
}

#[derive(Debug, Clone, PartialEq, Eq)]
pub struct UpdateRowRequest {
    pub table: String,
    pub key: JsonValue,
    pub data: Vec<(String, JsonValue)>,
    pub request_id: String,
}

} // verus!
