//! Reads ACH files in the NACHA format: lines of 94 columns, each a record
//! whose first character tells its kind. The records are decoded field by
//! field and assembled into a document of batches, entries and addenda,
//! which can then be listed entry by entry and browsed.

pub mod batch;
pub mod browse;
pub mod control;
pub mod date;
pub mod document;
pub mod entry;
pub mod error;
pub mod export;
pub mod header;
pub mod laws;
pub mod listing;
pub mod money;
pub mod row;
pub mod text;
