//! Normalisation of tabular data from heterogeneous sources into one
//! canonical table of strings, with schema reconciliation, value coercion
//! and the spreadsheet and remote-update sinks.

pub mod coerce;
pub mod config;
pub mod flatfile;
pub mod record;
pub mod schema;
pub mod search;
pub mod sink;
pub mod sources;
pub mod table;
pub mod text;
pub mod update;

pub use schema::{reconcile, MismatchError};
pub use table::ExtractedData;
