//! Tracker statistics synchronization engine.
//!
//! Keeps each indexed torrent's seeder/leecher counters consistent with an
//! external BitTorrent tracker. The engine decides, for every torrent of a
//! catalog snapshot, what the store must record given the tracker's answer,
//! and which failed lookups are operator-visible anomalies. All decisions are
//! pure and verified; performing the tracker lookups and the store writes is
//! left to the surrounding runtime, which feeds the outcomes back in.

pub mod model;
pub mod statistics_importer;
pub mod laws;
