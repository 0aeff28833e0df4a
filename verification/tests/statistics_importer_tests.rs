use statistics_importer::model::DatabaseError;
use statistics_importer::model::TorrentCompact;
use statistics_importer::model::TorrentInfo;
use statistics_importer::model::TrackerAPIError;
use statistics_importer::statistics_importer::anomaly_for;
use statistics_importer::statistics_importer::StatisticsImporter;

const TRACKER_URL: &str = "udp://tracker:6969";

fn importer() -> StatisticsImporter {
    StatisticsImporter::new(TRACKER_URL.to_string())
}

fn compact(torrent_id: i64, info_hash: &str) -> TorrentCompact {
    TorrentCompact {
        torrent_id,
        info_hash: info_hash.to_string(),
    }
}

#[test]
fn it_should_keep_the_tracker_url_it_was_built_with() {
    let importer = importer();
    assert_eq!(importer.tracker_url, TRACKER_URL);
}

#[test]
fn it_should_store_the_reported_counters_when_the_lookup_succeeds() {
    let importer = importer();
    let (update, outcome) =
        importer.import_torrent_statistics(7, Ok(TorrentInfo { seeders: 5, leechers: 2 }));
    assert_eq!(update.torrent_id, 7);
    assert_eq!(update.tracker_url, TRACKER_URL);
    assert_eq!(update.seeders, 5);
    assert_eq!(update.leechers, 2);
    assert_eq!(outcome, Ok(TorrentInfo { seeders: 5, leechers: 2 }));
}

#[test]
fn it_should_reset_the_counters_when_the_torrent_is_unknown_to_the_tracker() {
    let importer = importer();
    let (update, outcome) =
        importer.import_torrent_statistics(7, Err(TrackerAPIError::TorrentNotFound));
    assert_eq!(update.torrent_id, 7);
    assert_eq!(update.seeders, 0);
    assert_eq!(update.leechers, 0);
    assert!(matches!(outcome, Err(TrackerAPIError::TorrentNotFound)));
}

#[test]
fn it_should_reset_the_counters_when_the_lookup_fails_for_any_other_reason() {
    let importer = importer();
    let (update, outcome) =
        importer.import_torrent_statistics(7, Err(TrackerAPIError::Other("timeout".to_string())));
    assert_eq!(update.torrent_id, 7);
    assert_eq!(update.seeders, 0);
    assert_eq!(update.leechers, 0);
    match outcome {
        Err(TrackerAPIError::Other(detail)) => assert_eq!(detail, "timeout"),
        _ => panic!("the lookup failure must be handed back unchanged"),
    }
}

#[test]
fn it_should_overwrite_rather_than_accumulate_when_reconciling_twice() {
    let importer = importer();
    let (first, _) =
        importer.import_torrent_statistics(9, Ok(TorrentInfo { seeders: 4, leechers: 6 }));
    let (second, _) =
        importer.import_torrent_statistics(9, Ok(TorrentInfo { seeders: 4, leechers: 6 }));
    assert_eq!(first.torrent_id, second.torrent_id);
    assert_eq!(first.tracker_url, second.tracker_url);
    assert_eq!(first.seeders, second.seeders);
    assert_eq!(first.leechers, second.leechers);
    assert_eq!(second.seeders, 4);
    assert_eq!(second.leechers, 6);
}

#[test]
fn it_should_suppress_the_not_found_failure_instead_of_reporting_an_anomaly() {
    let torrent = compact(1, "aa11bb22cc33dd44ee55ff66aa77bb88cc99dd00");
    assert!(anomaly_for(&torrent, &TrackerAPIError::TorrentNotFound).is_none());
    assert!(TrackerAPIError::TorrentNotFound.is_torrent_not_found());
}

#[test]
fn it_should_report_an_anomaly_with_full_context_for_every_other_failure() {
    let torrent = compact(1, "aa11bb22cc33dd44ee55ff66aa77bb88cc99dd00");
    let err = TrackerAPIError::Other("malformed response".to_string());
    assert!(!err.is_torrent_not_found());
    let anomaly = anomaly_for(&torrent, &err).expect("an anomaly must be reported");
    assert_eq!(anomaly.torrent_id, 1);
    assert_eq!(anomaly.info_hash, "aa11bb22cc33dd44ee55ff66aa77bb88cc99dd00");
    assert_eq!(anomaly.detail, "malformed response");
}

#[test]
fn it_should_fail_the_whole_pass_when_the_catalog_fetch_fails() {
    let importer = importer();
    let report = importer.import_all_torrents_statistics(
        Err(DatabaseError {
            detail: "connection refused".to_string(),
        }),
        Vec::new(),
    );
    match report.result {
        Err(fetch_error) => assert_eq!(fetch_error.detail, "connection refused"),
        Ok(()) => panic!("a failed catalog fetch must fail the pass"),
    }
    assert_eq!(report.updates.len(), 0);
    assert_eq!(report.anomalies.len(), 0);
}

#[test]
fn it_should_complete_a_pass_over_an_empty_catalog_without_writes() {
    let importer = importer();
    let report = importer.import_all_torrents_statistics(Ok(Vec::new()), Vec::new());
    assert!(report.result.is_ok());
    assert_eq!(report.updates.len(), 0);
    assert_eq!(report.anomalies.len(), 0);
}

#[test]
fn it_should_write_once_per_catalog_entry_in_catalog_order() {
    let importer = importer();
    let catalog = vec![compact(3, "aa"), compact(1, "bb"), compact(2, "cc")];
    let lookups = vec![
        Ok(TorrentInfo { seeders: 9, leechers: 9 }),
        Err(TrackerAPIError::TorrentNotFound),
        Err(TrackerAPIError::Other("timeout".to_string())),
    ];
    let report = importer.import_all_torrents_statistics(Ok(catalog), lookups);
    assert!(report.result.is_ok());
    assert_eq!(report.updates.len(), 3);
    assert_eq!(report.updates[0].torrent_id, 3);
    assert_eq!(report.updates[1].torrent_id, 1);
    assert_eq!(report.updates[2].torrent_id, 2);
    assert!(report.updates.iter().all(|u| u.tracker_url == TRACKER_URL));
}

#[test]
fn it_should_not_abort_the_pass_on_individual_failures() {
    let importer = importer();
    let catalog = vec![compact(1, "aa"), compact(2, "bb"), compact(3, "cc")];
    let lookups = vec![
        Err(TrackerAPIError::Other("tracker offline".to_string())),
        Err(TrackerAPIError::Other("tracker offline".to_string())),
        Ok(TorrentInfo { seeders: 1, leechers: 0 }),
    ];
    let report = importer.import_all_torrents_statistics(Ok(catalog), lookups);
    assert!(report.result.is_ok());
    assert_eq!(report.updates.len(), 3);
    assert_eq!(report.anomalies.len(), 2);
    assert_eq!(report.anomalies[0].torrent_id, 1);
    assert_eq!(report.anomalies[1].torrent_id, 2);
}

#[test]
fn it_should_complete_quietly_when_one_lookup_succeeds_and_one_finds_nothing() {
    let importer = importer();
    let catalog = vec![compact(1, "aa"), compact(2, "bb")];
    let lookups = vec![
        Ok(TorrentInfo { seeders: 8, leechers: 4 }),
        Err(TrackerAPIError::TorrentNotFound),
    ];
    let report = importer.import_all_torrents_statistics(Ok(catalog), lookups);
    assert!(report.result.is_ok());
    assert_eq!(report.updates.len(), 2);
    assert_eq!(report.updates[0].seeders, 8);
    assert_eq!(report.updates[0].leechers, 4);
    assert_eq!(report.updates[1].seeders, 0);
    assert_eq!(report.updates[1].leechers, 0);
    assert_eq!(report.anomalies.len(), 0);
}

#[test]
fn it_should_reconcile_the_two_torrent_scenario_exactly() {
    let hash_a = "AAAAAAAAAAAAAAAAAAAAAAAAAAAAAAAAAAAAAA11";
    let hash_b = "BBBBBBBBBBBBBBBBBBBBBBBBBBBBBBBBBBBBBB22";
    let importer = importer();
    let catalog = vec![compact(1, hash_a), compact(2, hash_b)];
    let lookups = vec![
        Ok(TorrentInfo { seeders: 3, leechers: 1 }),
        Err(TrackerAPIError::TorrentNotFound),
    ];
    let report = importer.import_all_torrents_statistics(Ok(catalog), lookups);
    assert!(matches!(report.result, Ok(())));
    assert_eq!(report.updates.len(), 2);
    assert_eq!(report.updates[0].torrent_id, 1);
    assert_eq!(report.updates[0].seeders, 3);
    assert_eq!(report.updates[0].leechers, 1);
    assert_eq!(report.updates[1].torrent_id, 2);
    assert_eq!(report.updates[1].seeders, 0);
    assert_eq!(report.updates[1].leechers, 0);
    assert_eq!(report.anomalies.len(), 0);
}
