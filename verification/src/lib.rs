//! Core logic of a self-contained temperature monitoring node: decoding
//! thermocouple frames, keeping the state that the node's tasks share,
//! composing what the panel shows, driving the wireless link through its
//! connect / probe / reconnect cycle, and handing readings to the remote
//! ingestion service.

pub mod config;
pub mod connectivity;
pub mod display;
pub mod ingest;
pub mod network;
pub mod reading;
pub mod sensor;
pub mod store;
pub mod telemetry;
pub mod text;
