//! A fan-out dispatcher for log records: per-console severity gates, two
//! emission strategies for the consoles, and ordered delegation to an
//! optional file sink and an optional generic sink.
pub mod laws;
pub mod level;
pub mod multi_writer;
pub mod sink;
