//! Data model of the synchronization engine: catalog snapshots, swarm
//! statistics, the error taxonomy, and the commands the engine emits.

use vstd::prelude::*;

verus! {

/// A read-only catalog snapshot entry: one indexed torrent, identified by its
/// stable id and by the info-hash used as the lookup key against the tracker.
#[derive(Clone, PartialEq, Eq, Debug)]
pub struct TorrentCompact {
    pub torrent_id: i64,
    pub info_hash: String,
}

/// Swarm statistics reported by the tracker for one info-hash.
#[derive(Clone, Copy, PartialEq, Eq, Structural, Debug)]
pub struct TorrentInfo {
    pub seeders: i64,
    pub leechers: i64,
}

/// Why a tracker lookup failed. `TorrentNotFound` is an expected, quiet
/// steady state (the tracker has no record of the info-hash); every other
/// failure mode carries its detail and is an operator-visible anomaly.
#[derive(Clone, PartialEq, Eq, Debug)]
pub enum TrackerAPIError {
    TorrentNotFound,
    Other(String),
}

/// A failure of the torrent store itself (catalog fetch or counter write).
#[derive(Clone, PartialEq, Eq, Debug)]
pub struct DatabaseError {
    pub detail: String,
}

/// The tagged result of one tracker lookup.
pub type TrackerLookupOutcome = Result<TorrentInfo, TrackerAPIError>;

/// The one write the engine ever asks of the store: record both counters of
/// one torrent together, against the tracker they came from. Carrying the
/// pair in a single command keeps the stored pair internally consistent.
#[derive(Clone, PartialEq, Eq, Debug)]
pub struct TrackerInfoUpdate {
    pub torrent_id: i64,
    pub tracker_url: String,
    pub seeders: i64,
    pub leechers: i64,
}

/// An operator-visible anomaly: a failed lookup that is not the quiet
/// `TorrentNotFound` case, with full context for the log.
#[derive(Clone, PartialEq, Eq, Debug)]
pub struct AnomalyEntry {
    pub torrent_id: i64,
    pub info_hash: String,
    pub detail: String,
}

/// Everything a full-catalog pass decides: the store writes to perform (one
/// per catalog entry, in catalog order), the anomalies to surface, and the
/// overall result of the pass.
pub struct PassReport {
    pub updates: Vec<TrackerInfoUpdate>,
    pub anomalies: Vec<AnomalyEntry>,
    pub result: Result<(), DatabaseError>,
}

/// Mathematical image of a [`TrackerInfoUpdate`].
#[verifier::ext_equal]
pub struct UpdateModel {
    pub torrent_id: i64,
    pub tracker_url: Seq<char>,
    pub seeders: int,
    pub leechers: int,
}

/// Mathematical image of an [`AnomalyEntry`].
#[verifier::ext_equal]
pub struct AnomalyModel {
    pub torrent_id: i64,
    pub info_hash: Seq<char>,
    pub detail: Seq<char>,
}

impl TrackerInfoUpdate {
    /// The update as a mathematical value.
    pub open spec fn model(self) -> UpdateModel {
        UpdateModel {
            torrent_id: self.torrent_id,
            tracker_url: self.tracker_url@,
            seeders: self.seeders as int,
            leechers: self.leechers as int,
        }
    }
}

impl AnomalyEntry {
    /// The anomaly as a mathematical value.
    pub open spec fn model(self) -> AnomalyModel {
        AnomalyModel {
            torrent_id: self.torrent_id,
            info_hash: self.info_hash@,
            detail: self.detail@,
        }
    }
}

/// The mathematical image of a sequence of store writes.
pub open spec fn update_models(updates: Seq<TrackerInfoUpdate>) -> Seq<UpdateModel> {
    Seq::new(updates.len(), |i: int| updates[i].model())
}

/// The mathematical image of a sequence of anomaly entries.
pub open spec fn anomaly_models(anomalies: Seq<AnomalyEntry>) -> Seq<AnomalyModel> {
    Seq::new(anomalies.len(), |i: int| anomalies[i].model())
}

/// The mathematical image of an optional anomaly entry.
pub open spec fn anomaly_entry_model(entry: Option<AnomalyEntry>) -> Option<AnomalyModel> {
    match entry {
        Some(anomaly) => Some(anomaly.model()),
        None => None,
    }
}

/// The counters that reconciliation must leave in the store for one torrent,
/// given its lookup outcome: the reported pair on success, zero on any
/// failure, so that the index never shows stale counts during an outage.
pub open spec fn counters_for(lookup: TrackerLookupOutcome) -> (int, int) {
    match lookup {
        Ok(info) => (info.seeders as int, info.leechers as int),
        Err(_) => (0int, 0int),
    }
}

/// Whether a lookup outcome must be surfaced as an anomaly: exactly the
/// failures other than the quiet `TorrentNotFound`.
pub open spec fn is_anomalous(lookup: TrackerLookupOutcome) -> bool {
    lookup matches Err(err) && !err.is_not_found()
}

impl TrackerAPIError {
    /// Whether this failure is the quiet "tracker has no record" case.
    pub open spec fn is_not_found(self) -> bool {
        self matches TrackerAPIError::TorrentNotFound
    }

    /// The detail of a failure that is not `TorrentNotFound`.
    pub open spec fn other_detail(self) -> Seq<char> {
        match self {
            TrackerAPIError::TorrentNotFound => Seq::empty(),
            TrackerAPIError::Other(detail) => detail@,
        }
    }

    /// Executable test for the quiet "tracker has no record" case.
    pub fn is_torrent_not_found(&self) -> (r: bool)
        ensures
            r == self.is_not_found(),
    {
        match self {
            TrackerAPIError::TorrentNotFound => true,
            TrackerAPIError::Other(_) => false,
        }
    }
}

} // verus!
