//! An in-process metrics aggregation backend.
//!
//! A [`recorder::Recorder`] owns three independent name-keyed mappings, one
//! per metric kind: counters (unsigned integers that only grow, wrapping on
//! overflow), gauges (floating-point values carried as their 64-bit patterns),
//! and histograms (append-only sequences of observations, also carried as bit
//! patterns). Registration is idempotent get-or-create: for a given kind and
//! name at most one cell ever exists, and every registration of that name
//! returns a handle to the same cell. A snapshot renders all current values
//! as text, showing at most the first five observations of each histogram.

pub mod recorder;
pub mod registry;
pub mod render;
