use asset_sync::archive::{dispatch, DispatchError};
use asset_sync::batch::{all_fetched, commit_batch, TaskOutcome};
use asset_sync::cache::NameHashMapping;
use asset_sync::manifest::{AssetData, PackData, UpdateInfo};
use asset_sync::plan::{download_url, plan, plan_targets, sanitize, select_mode, SourceKind, SyncMode};
use asset_sync::retry::{next_retry, RetryDecision};
use asset_sync::whitelist::is_in_whitelist;
use std::io::{Cursor, Write};

fn asset(name: &str, md5: &str, pid: Option<&str>) -> AssetData {
    AssetData::new(name.to_string(), md5.to_string(), pid.map(|p| p.to_string()))
}

fn manifest(assets: Vec<AssetData>, packs: Vec<&str>) -> UpdateInfo {
    UpdateInfo::new(assets, packs.into_iter().map(|p| PackData::new(p.to_string())).collect())
}

fn list(items: &[&str]) -> Option<Vec<String>> {
    Some(items.iter().map(|s| s.to_string()).collect())
}

#[test]
fn absent_whitelist_passes_every_name() {
    for name in ["", "a", "bgm/theme.mp4", "日本語", "x#y"] {
        assert!(is_in_whitelist(&None, name));
    }
}

#[test]
fn whitelist_matches_substrings() {
    let wl = list(&["foo", "bar"]);
    assert!(is_in_whitelist(&wl, "xfoox"));
    assert!(is_in_whitelist(&wl, "rebar"));
    assert!(!is_in_whitelist(&wl, "baz"));
    assert!(!is_in_whitelist(&wl, "fo"));
}

#[test]
fn empty_whitelist_passes_nothing() {
    let wl = list(&[]);
    assert!(!is_in_whitelist(&wl, "anything"));
    assert!(!is_in_whitelist(&wl, ""));
}

#[test]
fn mode_selection() {
    let empty = NameHashMapping::new();
    assert_eq!(select_mode(&empty, &None), SyncMode::ColdStart);
    assert_eq!(select_mode(&empty, &list(&[])), SyncMode::Incremental);
    assert_eq!(select_mode(&empty, &list(&["char"])), SyncMode::Incremental);
    let filled = NameHashMapping::from_entries(vec![("a".to_string(), "h".to_string())]);
    assert_eq!(select_mode(&filled, &None), SyncMode::Incremental);
}

#[test]
fn sanitize_examples() {
    assert_eq!(sanitize("char_200_.ab"), "char_200_");
    assert_eq!(sanitize("bgm/theme.mp4"), "bgm_theme");
    assert_eq!(sanitize("a#b"), "a__b");
    assert_eq!(sanitize("plain"), "plain");
    assert_eq!(sanitize("x/y#z.ab"), "x_y__z");
}

#[test]
fn download_url_shape() {
    assert_eq!(
        download_url("https://host/base", "24-01-01", "arts/ui#1.ab"),
        "https://host/base/assets/24-01-01/arts_ui__1.dat"
    );
}

#[test]
fn retry_policy_delays() {
    assert_eq!(next_retry(1, 0), RetryDecision::RetryAfter(3000));
    assert_eq!(next_retry(1, 1500), RetryDecision::RetryAfter(4500));
    assert_eq!(next_retry(1, u64::MAX), RetryDecision::RetryAfter(20000));
    assert_eq!(next_retry(2, 0), RetryDecision::RetryAfter(6000));
    assert_eq!(next_retry(3, 0), RetryDecision::RetryAfter(12000));
    assert_eq!(next_retry(4, 0), RetryDecision::RetryAfter(20000));
    assert_eq!(next_retry(5, 0), RetryDecision::GiveUp);
    assert_eq!(next_retry(6, 0), RetryDecision::GiveUp);
}

#[test]
fn retry_first_delay_in_bounds() {
    for jitter in [0u64, 1, 999, 3000, 17000, 17001, 1_000_000] {
        match next_retry(1, jitter) {
            RetryDecision::RetryAfter(d) => assert!((3000..=20000).contains(&d)),
            RetryDecision::GiveUp => panic!("gave up after one failure"),
        }
    }
}

#[test]
fn failed_task_aborts_batch() {
    let info = manifest(vec![asset("a1.ab", "h1", None)], vec!["p1"]);
    let mut cache = NameHashMapping::from_entries(vec![("old".to_string(), "h0".to_string())]);
    let outcomes = vec![TaskOutcome::Fetched, TaskOutcome::RetriesExhausted, TaskOutcome::Fetched];
    assert!(!all_fetched(&outcomes));
    assert!(!commit_batch(&mut cache, &info, &None, &outcomes));
    assert_eq!(cache.get("old"), Some("h0".to_string()));
    assert_eq!(cache.get("a1.ab"), None);
    let corrupt = vec![TaskOutcome::Corrupt];
    assert!(!commit_batch(&mut cache, &info, &None, &corrupt));
    assert_eq!(cache.entries().len(), 1);
}

#[test]
fn end_to_end_cold_start() {
    let info = manifest(vec![asset("a1.ab", "h1", None)], vec!["p1"]);
    let mut cache = NameHashMapping::new();
    let p = plan(&cache, &None, &info);
    assert_eq!(p.mode, SyncMode::ColdStart);
    assert!(!p.purge);
    assert_eq!(p.targets.len(), 2);
    assert_eq!(p.targets[0].name, "p1");
    assert_eq!(p.targets[0].kind, SourceKind::Pack);
    assert_eq!(p.targets[1].name, "a1.ab");
    assert_eq!(p.targets[1].kind, SourceKind::LooseAsset);
    let outcomes = vec![TaskOutcome::Fetched, TaskOutcome::Fetched];
    assert!(commit_batch(&mut cache, &info, &None, &outcomes));
    assert_eq!(cache.entries(), vec![("a1.ab".to_string(), "h1".to_string())]);
}

#[test]
fn cold_start_skips_packed_assets() {
    let info = manifest(
        vec![asset("a", "1", Some("p")), asset("b", "2", None), asset("c", "3", Some("p"))],
        vec!["p", "q"],
    );
    let targets = plan_targets(SyncMode::ColdStart, &None, &info);
    let names: Vec<(&str, SourceKind)> = targets.iter().map(|t| (t.name.as_str(), t.kind)).collect();
    assert_eq!(names, vec![("p", SourceKind::Pack), ("q", SourceKind::Pack), ("b", SourceKind::LooseAsset)]);
}

#[test]
fn incremental_takes_every_whitelisted_asset() {
    let info = manifest(
        vec![asset("char_1", "1", Some("p")), asset("bgm_2", "2", None), asset("char_3", "3", None)],
        vec!["p"],
    );
    let cache = NameHashMapping::from_entries(vec![("char_1".to_string(), "1".to_string())]);
    let wl = list(&["char"]);
    let p = plan(&cache, &wl, &info);
    assert_eq!(p.mode, SyncMode::Incremental);
    assert!(p.purge);
    let names: Vec<&str> = p.targets.iter().map(|t| t.name.as_str()).collect();
    assert_eq!(names, vec!["char_1", "char_3"]);
    assert!(p.targets.iter().all(|t| t.kind == SourceKind::LooseAsset));
}

#[test]
fn cache_set_filters_and_replaces() {
    let info = manifest(
        vec![asset("char_1", "x", None), asset("bgm_2", "y", None), asset("char_1", "z", None)],
        vec![],
    );
    let mut cache = NameHashMapping::from_entries(vec![("gone".to_string(), "0".to_string())]);
    cache.set(&info, &list(&["char"]));
    assert_eq!(cache.get("char_1"), Some("z".to_string()));
    assert_eq!(cache.get("bgm_2"), None);
    assert_eq!(cache.get("gone"), None);
    assert!(!cache.is_empty());
    assert!(NameHashMapping::new().is_empty());
}

#[test]
fn same_input_same_output() {
    let wl = list(&["foo"]);
    assert_eq!(is_in_whitelist(&wl, "xfoo"), is_in_whitelist(&wl, "xfoo"));
    assert_eq!(sanitize("bgm/theme.mp4"), sanitize("bgm/theme.mp4"));
}

fn zip_bytes(files: &[(&str, &[u8])]) -> Vec<u8> {
    let mut w = zip::ZipWriter::new(Cursor::new(Vec::new()));
    for (name, data) in files {
        w.start_file(*name, zip::write::FileOptions::default()).unwrap();
        w.write_all(data).unwrap();
    }
    w.finish().unwrap().into_inner()
}

#[test]
fn dispatch_reads_every_entry() {
    let payload = zip_bytes(&[("dir/sub/a.txt", b"alpha"), ("b.bin", b"\x00\x01")]);
    let jobs = dispatch(payload).unwrap();
    assert_eq!(jobs.len(), 2);
    assert_eq!(jobs[0].data, b"alpha".to_vec());
    assert_eq!(jobs[0].dest_dir, "dir/sub");
    assert_eq!(jobs[1].data, vec![0u8, 1]);
    assert_eq!(jobs[1].dest_dir, "");
}

#[test]
fn dispatch_rejects_corrupt_payload() {
    assert_eq!(dispatch(b"not a zip".to_vec()).err(), Some(DispatchError::CorruptArchive));
    assert_eq!(dispatch(Vec::new()).err(), Some(DispatchError::CorruptArchive));
}
