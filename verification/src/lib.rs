//! Relay core of a small environmental monitor: telemetry samples arrive from
//! a message broker, the latest one is kept in a versioned slot, and every
//! streaming client is sent each change it has not yet seen.

pub mod badge;
pub mod clock;
pub mod history;
pub mod ingest;
pub mod relay;
pub mod sample;
pub mod slot;
pub mod wire;
