//! The statistics importer: the reconciliation engine that keeps the stored
//! seeder/leecher counters of every indexed torrent consistent with the
//! tracker's answers.
//!
//! The importer is pure: the runtime performs the catalog fetch and the
//! tracker lookups, hands their outcomes in, and receives back the store
//! writes to perform and the anomalies to surface. The spec functions here
//! say exactly which writes and which anomalies a pass produces.

use vstd::prelude::*;

use crate::model::AnomalyEntry;
use crate::model::AnomalyModel;
use crate::model::anomaly_entry_model;
use crate::model::anomaly_models;
use crate::model::update_models;
use crate::model::DatabaseError;
use crate::model::PassReport;
use crate::model::TorrentCompact;
use crate::model::TrackerAPIError;
use crate::model::TrackerInfoUpdate;
use crate::model::TrackerLookupOutcome;
use crate::model::UpdateModel;
use crate::model::counters_for;

verus! {

/// The store write that reconciling one torrent must produce: the torrent's
/// id, the tracker the counters came from, and the pair that
/// [`counters_for`] assigns to the lookup outcome.
pub open spec fn expected_update(
    tracker_url: Seq<char>,
    torrent_id: i64,
    lookup: TrackerLookupOutcome,
) -> UpdateModel {
    UpdateModel {
        torrent_id: torrent_id,
        tracker_url: tracker_url,
        seeders: counters_for(lookup).0,
        leechers: counters_for(lookup).1,
    }
}

/// The store writes that a whole pass over `torrents` must produce: one per
/// catalog entry, in catalog order.
pub open spec fn expected_updates(
    tracker_url: Seq<char>,
    torrents: Seq<TorrentCompact>,
    lookups: Seq<TrackerLookupOutcome>,
) -> Seq<UpdateModel> {
    Seq::new(torrents.len(), |i: int| expected_update(tracker_url, torrents[i].torrent_id, lookups[i]))
}

/// The anomaly that one torrent's lookup outcome must surface: none for a
/// success or for the quiet `TorrentNotFound`, the full context otherwise.
pub open spec fn expected_anomaly(
    torrent: TorrentCompact,
    lookup: TrackerLookupOutcome,
) -> Option<AnomalyModel> {
    match lookup {
        Ok(_) => None,
        Err(err) => if err.is_not_found() {
            None
        } else {
            Some(AnomalyModel {
                torrent_id: torrent.torrent_id,
                info_hash: torrent.info_hash@,
                detail: err.other_detail(),
            })
        },
    }
}

/// The anomalies that a whole pass over `torrents` must surface, in catalog
/// order: one entry for every anomalous lookup, none for the rest.
pub open spec fn expected_anomalies(
    torrents: Seq<TorrentCompact>,
    lookups: Seq<TrackerLookupOutcome>,
) -> Seq<AnomalyModel>
    decreases torrents.len(),
{
    if torrents.len() == 0 || lookups.len() == 0 {
        Seq::empty()
    } else {
        expected_anomalies(torrents.drop_last(), lookups.drop_last())
            + match expected_anomaly(torrents.last(), lookups.last()) {
                Some(anomaly) => seq![anomaly],
                None => Seq::empty(),
            }
    }
}

/// Classifies one failed lookup: `TorrentNotFound` is suppressed, every
/// other failure becomes an anomaly entry carrying the torrent's id, its
/// info-hash and the failure detail.
pub fn anomaly_for(torrent: &TorrentCompact, err: &TrackerAPIError) -> (r: Option<AnomalyEntry>)
    ensures
        anomaly_entry_model(r) == expected_anomaly(*torrent, Err(*err)),
        r is Some <==> !err.is_not_found(),
{
    match err {
        TrackerAPIError::TorrentNotFound => None,
        TrackerAPIError::Other(detail) => Some(AnomalyEntry {
            torrent_id: torrent.torrent_id,
            info_hash: torrent.info_hash.clone(),
            detail: detail.clone(),
        }),
    }
}

/// Duplicates one lookup outcome, so that a pass can both hand the outcome
/// to the single-torrent unit and keep the caller's vector intact.
fn clone_outcome(lookup: &TrackerLookupOutcome) -> (r: TrackerLookupOutcome)
    ensures
        r == *lookup,
{
    match lookup {
        Ok(info) => Ok(*info),
        Err(TrackerAPIError::TorrentNotFound) => Err(TrackerAPIError::TorrentNotFound),
        Err(TrackerAPIError::Other(detail)) => Err(TrackerAPIError::Other(detail.clone())),
    }
}

/// Orchestrates reconciliation: a full-catalog pass, and the single-torrent
/// unit the pass is made of. Bound at construction to the one tracker whose
/// counters it imports.
pub struct StatisticsImporter {
    pub tracker_url: String,
}

impl StatisticsImporter {
    /// Builds an importer bound to one tracker, named by its URL.
    pub fn new(tracker_url: String) -> (r: Self)
        ensures
            r.tracker_url == tracker_url,
    {
        Self { tracker_url }
    }

    /// Reconciles one torrent, given the outcome of its tracker lookup.
    ///
    /// Both branches end in exactly one store write: the reported pair when
    /// the lookup succeeded, `(0, 0)` when it failed for any reason. The
    /// lookup outcome itself is handed back unchanged as the unit's result.
    pub fn import_torrent_statistics(
        &self,
        torrent_id: i64,
        lookup: TrackerLookupOutcome,
    ) -> (r: (TrackerInfoUpdate, TrackerLookupOutcome))
        ensures
            r.0.model() == expected_update(self.tracker_url@, torrent_id, lookup),
            r.1 == lookup,
    {
        match lookup {
            Ok(info) => {
                let update = TrackerInfoUpdate {
                    torrent_id,
                    tracker_url: self.tracker_url.clone(),
                    seeders: info.seeders,
                    leechers: info.leechers,
                };
                (update, Ok(info))
            }
            Err(err) => {
                let update = TrackerInfoUpdate {
                    torrent_id,
                    tracker_url: self.tracker_url.clone(),
                    seeders: 0,
                    leechers: 0,
                };
                (update, Err(err))
            }
        }
    }

    /// Reconciles the whole catalog snapshot against the tracker's answers.
    ///
    /// If the catalog fetch itself failed, the pass fails with that error at
    /// once: no torrent is processed, no write is emitted. Otherwise every
    /// catalog entry is reconciled exactly once, in catalog order, whatever
    /// its lookup returned: the pass emits one store write per entry, one
    /// anomaly per anomalous lookup, and succeeds.
    pub fn import_all_torrents_statistics(
        &self,
        catalog: Result<Vec<TorrentCompact>, DatabaseError>,
        lookups: Vec<TrackerLookupOutcome>,
    ) -> (r: PassReport)
        requires
            catalog matches Ok(torrents) ==> lookups@.len() == torrents@.len(),
        ensures
            catalog matches Err(fetch_error) ==> {
                &&& r.result == Result::<(), DatabaseError>::Err(fetch_error)
                &&& r.updates@.len() == 0
                &&& r.anomalies@.len() == 0
            },
            catalog matches Ok(torrents) ==> {
                &&& r.result == Result::<(), DatabaseError>::Ok(())
                &&& r.updates@.len() == torrents@.len()
                &&& update_models(r.updates@)
                    == expected_updates(self.tracker_url@, torrents@, lookups@)
                &&& anomaly_models(r.anomalies@)
                    == expected_anomalies(torrents@, lookups@)
            },
    {
        let torrents = match catalog {
            Ok(torrents) => torrents,
            Err(fetch_error) => {
                return PassReport {
                    updates: Vec::new(),
                    anomalies: Vec::new(),
                    result: Err(fetch_error),
                };
            }
        };

        let mut updates: Vec<TrackerInfoUpdate> = Vec::new();
        let mut anomalies: Vec<AnomalyEntry> = Vec::new();
        let mut i: usize = 0;

        while i < torrents.len()
            invariant
                lookups@.len() == torrents@.len(),
                i <= torrents@.len(),
                updates@.len() == i,
                update_models(updates@)
                    == expected_updates(self.tracker_url@, torrents@.take(i as int), lookups@.take(i as int)),
                anomaly_models(anomalies@)
                    == expected_anomalies(torrents@.take(i as int), lookups@.take(i as int)),
            decreases torrents@.len() - i,
        {
            let torrent = &torrents[i];
            let lookup = clone_outcome(&lookups[i]);
            let (update, outcome) = self.import_torrent_statistics(torrent.torrent_id, lookup);

            let ghost updates_before = updates@;
            let ghost anomalies_before = anomalies@;

            updates.push(update);
            if let Err(err) = outcome {
                if let Some(anomaly) = anomaly_for(torrent, &err) {
                    anomalies.push(anomaly);
                }
            }

            proof {
                let j = i as int;
                let torrents_now = torrents@.take(j + 1);
                let lookups_now = lookups@.take(j + 1);
                assert(torrents_now.drop_last() =~= torrents@.take(j));
                assert(lookups_now.drop_last() =~= lookups@.take(j));
                assert(updates@ == updates_before.push(update));
                assert forall|k: int| 0 <= k < j + 1 implies update_models(updates@)[k]
                    == expected_updates(self.tracker_url@, torrents_now, lookups_now)[k] by {
                    if k < j {
                        assert(update_models(updates_before)[k] == expected_updates(
                            self.tracker_url@,
                            torrents@.take(j),
                            lookups@.take(j),
                        )[k]);
                    }
                }
                assert(update_models(updates@)
                    =~= expected_updates(self.tracker_url@, torrents_now, lookups_now));
                assert(anomaly_models(anomalies@)
                    =~= expected_anomalies(torrents_now, lookups_now));
            }

            i += 1;
        }

        proof {
            assert(torrents@.take(torrents@.len() as int) =~= torrents@);
            assert(lookups@.take(torrents@.len() as int) =~= lookups@);
        }

        PassReport {
            updates,
            anomalies,
            result: Ok(()),
        }
    }
}

} // verus!
