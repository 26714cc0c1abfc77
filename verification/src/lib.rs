//! Core logic of a load generator and latency probe for Media over QUIC relays:
//! synthetic frame payloads, the timestamp wire format used for latency probing,
//! per-track receive validation, track naming, static-file track selection and
//! the counters and latency histogram that the command-line front end reports.

pub mod buffers;
pub mod clock;
pub mod config;
pub mod generator;
pub mod histogram;
pub mod metrics;
pub mod publisher;
pub mod report;
pub mod static_files;
pub mod subscriber;
pub mod tracks;
