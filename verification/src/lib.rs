//! Extraction of livestock-market price tables from HTML pages.
//!
//! The crate provides three verified pieces:
//! - a numeric normalizer that turns Brazilian-locale decimal text
//!   ("1.234,56") into a fixed-point [`numeric::Decimal`] value;
//! - a structural pattern matcher that locates repeated table rows in a
//!   parsed HTML document and captures named text fields from them;
//! - record constructors that turn captured rows into typed price records.
//!
//! Fetching pages, error telemetry and JSON output are left to the
//! surrounding program; the library works on plain strings and trees.

pub mod html;
pub mod matcher;
pub mod numeric;
pub mod parse;
pub mod pattern;
pub mod records;
pub mod tables;

pub use matcher::MatchRow;
pub use matcher::match_document;
pub use numeric::Decimal;
pub use numeric::Normalized;
pub use numeric::normalize;
pub use parse::parse_document;
pub use tables::TableType;
pub use tables::filter_export_rows;
pub use tables::get_table;
