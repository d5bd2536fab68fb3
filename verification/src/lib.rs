//! Verified core of a telemetry CSV export service.
//!
//! Untrusted HTTP query parameters (series name, decimation factor,
//! start and stop date) are validated into a typed `ExportRequest`;
//! the parameterized export statement is built from it with the series
//! column drawn from a closed allow-list; rows are selected by
//! decimation, integrity flag and date range and rendered one CSV line
//! each; and a bounded first-in-first-out buffer decouples row fetching
//! from response writing. The HTTP and database plumbing around this
//! core is ordinary unverified I/O.

mod dates;
mod export;
mod query;
mod queue;
mod render;
mod series;
mod validate;

pub use dates::Date;
pub use dates::Timestamp;
pub use dates::parse_date;
pub use export::TelemetryRow;
pub use export::export_rows;
pub use export::lemma_export_deterministic;
pub use export::lemma_export_order;
pub use export::lemma_only_selected_rows_exported;
pub use export::lemma_reversed_range_empty;
pub use export::lemma_selected_row_exported;
pub use export::render_row;
pub use query::build_query;
pub use query::lemma_query_distinguishes_series;
pub use queue::LineBuffer;
pub use render::render_line;
pub use series::SeriesName;
pub use series::lemma_column_text_injective;
pub use series::lemma_series_round_trip;
pub use series::parse_series;
pub use validate::DEFAULT_DECIMATION;
pub use validate::ExportRequest;
pub use validate::ValidationError;
pub use validate::validate;
