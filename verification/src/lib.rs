//! Framing, decoding and link-recovery engine for a vehicle telemetry stream.
//!
//! A serial link delivers 16-byte frames from the car's control network: one
//! tag byte, 14 payload bytes and a checksum byte. Reads are short and cut the
//! stream at arbitrary places, and the device can be unplugged at any time.
//! This crate turns the bytes of the reads into a telemetry snapshot that is
//! always up to date, and decides how a lost link is established again. It
//! performs no I/O: a driver reads from the port and hands the bytes over.
//!
//! - [`packets`]: the checksum, one decoder per packet type, and the values
//!   derived from packets (throttle percentage, pedal fault, limit flags).
//! - [`queue`]: the byte queue that the assembler buffers in.
//! - [`assembler`]: the frame assembler, which carves frames out of the byte
//!   stream and finds its way back after an unknown tag.
//! - [`snapshot`]: the telemetry snapshot and the update of each packet type.
//! - [`warning`]: the texts of the warnings that fault detection raises.
//! - [`connection`]: the connection manager, a state machine over the
//!   outcomes of the driver's actions.
//! - [`ingest`]: the ingestion loop, which ties the parts together.

pub mod assembler;
pub mod connection;
pub mod ingest;
pub mod packets;
pub mod queue;
pub mod snapshot;
pub mod warning;
