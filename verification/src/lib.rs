//! CSV reading and writing on top of the `csv` crate, with verified
//! configuration, row access, record collection and output assembly.

pub mod bindings;
pub mod error;
pub mod reader;
pub mod row;
pub mod writer;

