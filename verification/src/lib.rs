//! Decoding of captured kernel tracing sessions.
//!
//! A capture file holds a stream of records. Each record is classified as
//! a sample or a non-sample and counted (`stats`, `pass`); the payload of a
//! sample is decoded under the metadata it carries itself (`metadata`,
//! `definitions`) or, failing that, under the kernel-format schema of its
//! event (`format`); `decode` puts the two together. `perf` holds the
//! results of the live profiling paths.
//!
//! The library never touches a file or a counter: whoever owns the record
//! cursor hands it the header of each record and the payload of each
//! sample. Schemas and payloads are read by `tracepoint_decode`, through
//! functions whose contracts are stated here and not proved.

pub mod decode;
pub mod definitions;
pub mod format;
pub mod metadata;
pub mod pass;
pub mod perf;
pub mod stats;
