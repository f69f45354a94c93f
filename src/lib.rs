//! A lightweight logging library: leveled records, per-channel filtering and
//! naming, pluggable sinks and writers, and loggers that stamp and dispatch
//! records.

pub mod colors;
pub mod filter_maps;
pub mod loggers;
pub mod sinks;
pub mod text;
pub mod writers;

pub use loggers::Logger;
