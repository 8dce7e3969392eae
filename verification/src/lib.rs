//! Verified core of a telemetry capture-and-export pipeline for a racing
//! simulator.
//!
//! The library decodes fixed binary layouts published through shared memory,
//! filters stale frames, frames record batches into a chunked append-only log,
//! parses run notes and markers, synthesizes sync annotations, and models the
//! analytical store that the offline exporter and the annotation-driven slicer
//! write to.  All floating-point telemetry values are carried as their IEEE-754
//! single-precision bit patterns (`u32`); times are integer microseconds.
//! File, database and network I/O live outside the library and hand it plain
//! values.

pub mod annotations;
pub mod capture;
pub mod codec;
pub mod config;
pub mod sync;
pub mod decode;
pub mod err;
pub mod fbits;
pub mod frames;
pub mod gcodec;
pub mod notes;
pub mod rawlog;
pub mod shm;
pub mod slicer;
pub mod store;

pub use err::TelemetryError;
