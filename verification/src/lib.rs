//! Core of a lightweight host-telemetry sampler: it models OS counter
//! snapshots, derives byte rates from pairs of cumulative counters, keeps a
//! bounded history of CPU usage samples, gates how often the probe runs, and
//! classifies usage values into health bands.
//!
//! All usage percentages are carried as integer tenths of a percent
//! (`500` stands for `50.0%`), so the numeric contracts are exact.

pub mod band;
pub mod config;
pub mod history;
pub mod info;
pub mod monitor;
pub mod network;
pub mod parse;
pub mod probe;
pub mod rate;
pub mod schedule;
pub mod stats;
pub mod text;
pub mod theme;
