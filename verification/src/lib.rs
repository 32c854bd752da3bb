//! Ingestion pipeline for a line-oriented serial telemetry stream.
//!
//! A sensor sends one frame per text line: the first whitespace-delimited
//! token is a hexadecimal byte sequence holding three big-endian 16-bit axis
//! readings. This crate verifies the core of the pipeline: frame decoding,
//! the device-discovery policy, and the producer/consumer hand-off through an
//! unbounded FIFO channel. Opening the serial device and reading raw lines is
//! I/O and stays with the host application.

pub mod channel;
pub mod decode;
pub mod discovery;
pub mod sample;
