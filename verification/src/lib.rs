//! Core of a UPS monitor: the management-protocol codec, the battery and
//! shutdown state machine, and the metrics exposition.
//!
//! The library decides and computes; it opens no socket, sleeps nowhere and
//! runs no command. A caller moves the lines that [`ups`] writes and reads,
//! hands each reading to [`monitor`], and serves what [`metrics`] answers.

pub mod binary64;
pub mod clock;
pub mod config;
pub mod metrics;
pub mod monitor;
pub mod text;
pub mod ups;
