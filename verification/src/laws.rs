//! Engine-wide laws, proved once and for all: what reconciliation leaves in
//! the store, which failures are surfaced, and that repeating a
//! reconciliation changes nothing.
//!
//! The store is modelled as a map from torrent id to the stored counter
//! pair; applying an update overwrites that torrent's pair and nothing else.

use vstd::prelude::*;

use crate::model::TorrentCompact;
use crate::model::TorrentInfo;
use crate::model::TrackerAPIError;
use crate::model::TrackerLookupOutcome;
use crate::model::UpdateModel;
use crate::model::counters_for;
use crate::model::is_anomalous;
use crate::statistics_importer::expected_anomalies;
use crate::statistics_importer::expected_update;
use crate::statistics_importer::expected_updates;

verus! {

/// The stored counters: for each torrent id the store knows, the pair of
/// seeder and leecher counts it currently records.
pub type StoredCounters = Map<i64, (int, int)>;

/// The effect of one store write: both counters of the addressed torrent are
/// replaced together; every other torrent's pair is untouched.
pub open spec fn apply_update(counters: StoredCounters, update: UpdateModel) -> StoredCounters {
    counters.insert(update.torrent_id, (update.seeders, update.leechers))
}

/// The effect of a sequence of store writes, applied in order.
pub open spec fn apply_updates(counters: StoredCounters, updates: Seq<UpdateModel>) -> StoredCounters
    decreases updates.len(),
{
    if updates.len() == 0 {
        counters
    } else {
        apply_update(apply_updates(counters, updates.drop_last()), updates.last())
    }
}

/// How many lookup outcomes of a pass are anomalous.
pub open spec fn count_anomalous(lookups: Seq<TrackerLookupOutcome>) -> nat
    decreases lookups.len(),
{
    if lookups.len() == 0 {
        0
    } else {
        count_anomalous(lookups.drop_last()) + if is_anomalous(lookups.last()) {
            1nat
        } else {
            0nat
        }
    }
}

/// A torrent whose lookup succeeded ends up stored with exactly the
/// reported counters — whatever the store held before.
pub proof fn lemma_found_lookup_stores_reported_counters(
    counters: StoredCounters,
    tracker_url: Seq<char>,
    torrent_id: i64,
    info: TorrentInfo,
)
    ensures
        ({
            let stored = apply_update(counters, expected_update(tracker_url, torrent_id, Ok(info)));
            &&& stored.contains_key(torrent_id)
            &&& stored[torrent_id] == (info.seeders as int, info.leechers as int)
        }),
{
}

/// A torrent whose lookup failed — `TorrentNotFound` and every other
/// failure alike — ends up stored with the pair `(0, 0)`, whatever the store
/// held before.
pub proof fn lemma_failed_lookup_resets_counters(
    counters: StoredCounters,
    tracker_url: Seq<char>,
    torrent_id: i64,
    err: TrackerAPIError,
)
    ensures
        ({
            let stored = apply_update(counters, expected_update(tracker_url, torrent_id, Err(err)));
            &&& stored.contains_key(torrent_id)
            &&& stored[torrent_id] == (0int, 0int)
        }),
{
}

/// A store write never touches another torrent's counters.
pub proof fn lemma_update_is_isolated(counters: StoredCounters, update: UpdateModel, other: i64)
    requires
        other != update.torrent_id,
    ensures
        apply_update(counters, update).contains_key(other) == counters.contains_key(other),
        counters.contains_key(other) ==> apply_update(counters, update)[other] == counters[other],
{
}

/// Reconciling a torrent twice with the same lookup outcome stores the same
/// counters as reconciling it once: the write is a plain overwrite, with no
/// accumulation and no other side effect on the store.
pub proof fn lemma_import_twice_is_import_once(
    counters: StoredCounters,
    tracker_url: Seq<char>,
    torrent_id: i64,
    lookup: TrackerLookupOutcome,
)
    ensures
        ({
            let update = expected_update(tracker_url, torrent_id, lookup);
            apply_update(apply_update(counters, update), update) == apply_update(counters, update)
        }),
{
    let update = expected_update(tracker_url, torrent_id, lookup);
    assert(apply_update(apply_update(counters, update), update) =~= apply_update(counters, update));
}

/// A pass surfaces exactly one anomaly per anomalous lookup: the quiet
/// `TorrentNotFound` failures and the successes contribute none, every other
/// failure contributes one.
pub proof fn lemma_one_anomaly_per_anomalous_lookup(
    torrents: Seq<TorrentCompact>,
    lookups: Seq<TrackerLookupOutcome>,
)
    requires
        torrents.len() == lookups.len(),
    ensures
        expected_anomalies(torrents, lookups).len() == count_anomalous(lookups),
    decreases torrents.len(),
{
    if torrents.len() > 0 {
        lemma_one_anomaly_per_anomalous_lookup(torrents.drop_last(), lookups.drop_last());
    }
}

/// A pass with no anomalous lookup surfaces no anomaly at all.
pub proof fn lemma_quiet_pass_has_no_anomalies(
    torrents: Seq<TorrentCompact>,
    lookups: Seq<TrackerLookupOutcome>,
)
    requires
        torrents.len() == lookups.len(),
        forall|i: int| 0 <= i < lookups.len() ==> !is_anomalous(#[trigger] lookups[i]),
    ensures
        expected_anomalies(torrents, lookups).len() == 0,
    decreases torrents.len(),
{
    if torrents.len() > 0 {
        assert(forall|i: int|
            0 <= i < lookups.len() - 1 ==> !is_anomalous(#[trigger] lookups.drop_last()[i]));
        lemma_quiet_pass_has_no_anomalies(torrents.drop_last(), lookups.drop_last());
    }
}

/// After a successful pass over a catalog of pairwise distinct torrent ids,
/// every torrent of the catalog is stored with exactly the counters its own
/// lookup outcome dictates: the reported pair where the lookup succeeded,
/// `(0, 0)` where it failed.
pub proof fn lemma_pass_reconciles_every_torrent(
    counters: StoredCounters,
    tracker_url: Seq<char>,
    torrents: Seq<TorrentCompact>,
    lookups: Seq<TrackerLookupOutcome>,
)
    requires
        torrents.len() == lookups.len(),
        forall|i: int, j: int|
            0 <= i < j < torrents.len() ==> torrents[i].torrent_id != torrents[j].torrent_id,
    ensures
        forall|i: int|
            0 <= i < torrents.len() ==> {
                let stored = apply_updates(counters, expected_updates(tracker_url, torrents, lookups));
                &&& stored.contains_key(#[trigger] torrents[i].torrent_id)
                &&& stored[torrents[i].torrent_id] == counters_for(lookups[i])
            },
    decreases torrents.len(),
{
    if torrents.len() > 0 {
        let updates = expected_updates(tracker_url, torrents, lookups);
        let shorter = expected_updates(tracker_url, torrents.drop_last(), lookups.drop_last());
        assert(updates.drop_last() =~= shorter);
        lemma_pass_reconciles_every_torrent(
            counters,
            tracker_url,
            torrents.drop_last(),
            lookups.drop_last(),
        );
        let last = torrents.len() - 1;
        let stored = apply_updates(counters, updates);
        assert(stored == apply_update(apply_updates(counters, shorter), updates.last()));
        assert(stored.contains_key(torrents[last].torrent_id)
            && stored[torrents[last].torrent_id] == counters_for(lookups[last]));
        assert forall|i: int| 0 <= i < last implies {
            &&& stored.contains_key(#[trigger] torrents[i].torrent_id)
            &&& stored[torrents[i].torrent_id] == counters_for(lookups[i])
        } by {
            assert(torrents.drop_last()[i] == torrents[i]);
            assert(torrents[i].torrent_id != torrents[last].torrent_id);
        }
    }
}

} // verus!
