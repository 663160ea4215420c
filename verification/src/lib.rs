//! Telemetry ingestion and layered effect pipeline for a racing simulation's
//! UDP telemetry stream.
//!
//! Datagrams arrive as fixed-size byte buffers; the decoder reinterprets them
//! as structured snapshots, the property resolver turns snapshot fields into
//! bounded rates or discrete scores, and the effect engine composes
//! depth-ordered effects into one illumination frame per tick.

pub mod config;
pub mod datagram;
pub mod driver;
pub mod effects;
pub mod error;
pub mod fixed;
pub mod property;
pub mod state;
pub mod stream;
