//! Ingestion core of an API gateway: the decisions of its two background
//! consumers (event batching, metric fan-out), the policies of its lookup
//! caches and the lifecycle records of an archival job.
//!
//! The consumers' waiting, the storage writes and the network calls are made
//! by the program around this library. It hands each thing that happened to a
//! function here and carries out what that function returns.

pub mod archive;
pub mod arrival;
pub mod cache;
pub mod events;
pub mod filter;
pub mod replay;
pub mod settings;
pub mod telemetry;
