//! Typed responses: one success shape per operation, echoing the request's
//! table and correlation id, and the protocol-level error shapes.

use vstd::prelude::*;

use crate::values::Row;

verus! {

/// A successful response, mirroring the request tags. Batch inserts reuse the
/// insert response shape.
#[derive(Debug, Clone, PartialEq, Eq)]
pub enum ApiResponse {
    ListRows(ListRowsResponse),
    GetRow(GetRowResponse),
    InsertRow(InsertRowResponse),
    BatchInsertRow(InsertRowResponse),
    DeleteRow(DeleteRowResponse),
    UpdateRow(UpdateRowResponse),
}

#[derive(Debug, Clone, PartialEq, Eq)]
pub struct ListRowsResponse {
    pub table: String,
    pub rows: Vec<Row>,
    pub request_id: String,
}

#[derive(Debug, Clone, PartialEq, Eq)]
pub struct GetRowResponse {
    pub table: String,
    pub row: Row,
    pub request_id: String,
}

#[derive(Debug, Clone, PartialEq, Eq)]
pub struct InsertRowResponse {
    pub table: String,
    pub inserted_rows: usize,
    pub request_id: String,
}

#[derive(Debug, Clone, PartialEq, Eq)]
pub struct DeleteRowResponse {
    pub table: String,
    pub deleted_rows: usize,
    pub request_id: String,
}

#[derive(Debug, Clone, PartialEq, Eq)]
pub struct UpdateRowResponse {
    pub table: String,
    pub updated_rows: usize,
    pub request_id: String,
}

/// A protocol-level error produced before a request reaches the handler: a
/// frame that does not decode, or a frame that is not text at all.
#[derive(Debug, Clone, PartialEq, Eq)]
pub enum ErrorResponse {
    BadRequest(ErrorMessage),
    NonTextMessage,
}

/// The human-readable text carried by a `BadRequest` error.
#[derive(Debug, Clone, PartialEq, Eq)]
pub struct ErrorMessage {
    message: String,
}

impl View for ErrorMessage {
    type V = Seq<char>;

    closed spec fn view(&self) -> Seq<char> {
        self.message@
    }
}

impl ErrorMessage {
    pub fn message(&self) -> (r: &str)
        ensures
            r@ == self@,
    {
        self.message.as_str()
    }
}

impl ErrorResponse {
    /// A `BadRequest` error carrying `message`.
    pub fn bad_request(message: String) -> (r: Self)
        ensures
            r matches ErrorResponse::BadRequest(m) && m@ == message@,
    {
        Self::BadRequest(ErrorMessage { message })
    }
}

} // verus!
