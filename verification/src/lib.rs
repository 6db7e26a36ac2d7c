//! Core of a live host-telemetry service: a sampler derives CPU, memory and
//! process snapshots from raw host readings on a decimated cadence, and a
//! keep-latest fan-out hub delivers each published snapshot to any number of
//! independent subscribers. Wire messages are rendered as JSON bytes with a
//! fixed, viewer-compatible shape.

pub mod cadence;
pub mod cpu;
pub mod hub;
pub mod ranking;
pub mod sampler;
pub mod snapshots;
pub mod wire;
