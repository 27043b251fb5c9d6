//! Host-performance telemetry core: capacity aggregation over uptime
//! readings, host lookups and listings over performance records, and a
//! fixed taxonomy of HTTP-style error categories.
//!
//! The surrounding service reads documents from its store and hands the
//! plain values to this crate; everything here is verified.

pub mod types;
pub mod db;

