use vulnera_zed::resolver::CachedVersion;
use vulnera_zed::store::{cache_records, cached_latest_version, installed_marker, installed_version};

#[test]
fn missing_marker_names_no_version() {
    assert_eq!(installed_version(None), None);
}

#[test]
fn empty_marker_names_no_version() {
    assert_eq!(installed_version(Some("")), None);
    assert_eq!(installed_version(Some(" \n\t")), None);
}

#[test]
fn marker_is_trimmed() {
    assert_eq!(installed_version(Some("0.2.0")), Some("0.2.0".to_string()));
    assert_eq!(installed_version(Some("  0.2.0\n")), Some("0.2.0".to_string()));
}

#[test]
fn cache_needs_a_version() {
    assert_eq!(cached_latest_version(None, None), None);
    assert_eq!(cached_latest_version(None, Some("1700000000")), None);
    assert_eq!(cached_latest_version(Some(""), Some("1700000000")), None);
    assert_eq!(cached_latest_version(Some("  \n"), Some("1700000000")), None);
}

#[test]
fn cache_with_version_and_time() {
    assert_eq!(
        cached_latest_version(Some("0.2.0\n"), Some(" 1700000000\n")),
        Some(CachedVersion { version: "0.2.0".to_string(), fetched_at: 1_700_000_000 })
    );
}

#[test]
fn cache_without_readable_time_is_as_old_as_can_be() {
    let expected = Some(CachedVersion { version: "0.2.0".to_string(), fetched_at: 0 });
    assert_eq!(cached_latest_version(Some("0.2.0"), None), expected);
    assert_eq!(cached_latest_version(Some("0.2.0"), Some("")), expected);
    assert_eq!(cached_latest_version(Some("0.2.0"), Some("yesterday")), expected);
    assert_eq!(cached_latest_version(Some("0.2.0"), Some("-5")), expected);
    assert_eq!(cached_latest_version(Some("0.2.0"), Some("17 00")), expected);
    assert_eq!(cached_latest_version(Some("0.2.0"), Some("99999999999999999999999")), expected);
}

#[test]
fn marker_holds_the_version_as_it_stands() {
    assert_eq!(installed_marker("0.2.0"), "0.2.0");
    assert_eq!(installed_marker(" 0.2.0 "), " 0.2.0 ");
}

#[test]
fn marker_written_and_read_names_the_version() {
    for version in ["0.1.1", "0.2.0-rc1", "1"] {
        let marker = installed_marker(version);
        assert_eq!(installed_version(Some(&marker)), Some(version.to_string()));
    }
}

#[test]
fn cache_records_hold_version_and_time() {
    assert_eq!(cache_records("0.2.0", 1_700_000_000), ("0.2.0".to_string(), "1700000000".to_string()));
    assert_eq!(cache_records("0.2.0", 0), ("0.2.0".to_string(), "0".to_string()));
}

#[test]
fn cache_written_and_read_names_version_and_time() {
    for now in [0, 1, 1_700_000_000, u64::MAX] {
        let (version, timestamp) = cache_records("0.2.0", now);
        assert_eq!(
            cached_latest_version(Some(&version), Some(&timestamp)),
            Some(CachedVersion { version: "0.2.0".to_string(), fetched_at: now })
        );
    }
}
