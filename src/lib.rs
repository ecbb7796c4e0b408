//! Counts how often paired IUPAC probes occur, within an edit budget, in
//! sequence records, and assembles the per-guide report.
pub mod guides;
pub mod laws;
pub mod text;
pub mod processor;
pub mod report;
pub mod search;
pub mod stats;

pub use guides::{GuideRow, Guides};


pub use search::MAX_BUDGET;
pub use report::{report_rows, OutputStats, ReportError};
pub use processor::{zero_counts, PatternProcessor};
pub use stats::GuideStats;
