//! A table store served over a message-oriented connection: requests name a
//! table and columns by strings, the library validates them against live
//! schema metadata and builds injection-safe SQL for the six supported
//! operations (list, get, insert, batch insert, update, delete).

pub mod catalog;
pub mod db;
pub mod handler;
pub mod requests;
pub mod responses;
pub mod session;
pub mod sql;
pub mod text;
pub mod values;
