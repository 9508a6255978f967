use std::collections::{HashMap, HashSet};

use vulnera_zed::command::Command;
use vulnera_zed::installer::{FileType, InstallStep};
use vulnera_zed::launcher::{advance, reuses, Answer, Ask, Invocation, Outcome, Session, Stage};
use vulnera_zed::platform::{resolve_platform, Architecture, Os};
use vulnera_zed::resolver::VersionSource;

/// A host that keeps its files in memory and counts what it is asked.
struct Host {
    now: u64,
    records: HashMap<String, String>,
    files: HashSet<String>,
    listing: Option<Vec<u8>>,
    cache_reads: usize,
    fetches: usize,
    downloads: Vec<String>,
    made_executable: Vec<String>,
    failing_step: Option<(usize, String)>,
    read_only_records: bool,
    resolved: Vec<(String, VersionSource)>,
}

fn host() -> Host {
    Host {
        now: 1_700_000_000,
        records: HashMap::new(),
        files: HashSet::new(),
        listing: None,
        cache_reads: 0,
        fetches: 0,
        downloads: Vec::new(),
        made_executable: Vec::new(),
        failing_step: None,
        read_only_records: false,
        resolved: Vec::new(),
    }
}

fn listing_of(tag: &str) -> Option<Vec<u8>> {
    Some(format!("[{{\"tag_name\":\"{}\",\"prerelease\":false,\"draft\":false}}]", tag).into_bytes())
}

fn answer(host: &mut Host, ask: Ask) -> Answer {
    match ask {
        Ask::ReadCache { version_path, timestamp_path } => {
            host.cache_reads += 1;
            Answer::Cache {
                now: host.now,
                version: host.records.get(&version_path).cloned(),
                timestamp: host.records.get(&timestamp_path).cloned(),
            }
        }
        Ask::Fetch { request } => {
            assert_eq!(request, vulnera_zed::releases::listing_request());
            host.fetches += 1;
            host.now += 2;
            Answer::Fetched { body: host.listing.clone(), now: host.now }
        }
        Ask::WriteCache { directory, version_path, version, timestamp_path, timestamp } => {
            assert_eq!(directory, "server");
            if !host.read_only_records {
                host.records.insert(version_path, version);
                host.records.insert(timestamp_path, timestamp);
            }
            Answer::Written
        }
        Ask::Inspect { version, source, remembered, binary, marker_path } => {
            host.resolved.push((version, source));
            Answer::Inspected {
                remembered_exists: remembered.map_or(false, |path| host.files.contains(&path)),
                binary_exists: host.files.contains(&binary),
                marker: host.records.get(&marker_path).cloned(),
            }
        }
        Ask::Install { steps } => {
            for (index, step) in steps.into_iter().enumerate() {
                if let Some((failing, cause)) = &host.failing_step {
                    if *failing == index {
                        return Answer::Installed { failed: Some((index, cause.clone())) };
                    }
                }
                match step {
                    InstallStep::CreateDirectory { .. } => {}
                    InstallStep::Download { url, path, file_type } => {
                        assert_eq!(file_type, FileType::Uncompressed);
                        host.downloads.push(url);
                        host.files.insert(path);
                    }
                    InstallStep::MakeExecutable { path } => host.made_executable.push(path),
                    InstallStep::WriteMarker { path, text } => {
                        if host.read_only_records {
                            return Answer::Installed {
                                failed: Some((index, "read-only".to_string())),
                            };
                        }
                        host.records.insert(path, text);
                    }
                }
            }
            Answer::Installed { failed: None }
        }
    }
}

fn run(host: &mut Host, session: &mut Session, call: &Invocation) -> Result<Command, String> {
    let mut stage = Stage::Start;
    let mut last: Option<Answer> = None;
    let mut moves = 0;
    loop {
        let (next, outcome) = advance(call, session, stage, last);
        moves += 1;
        assert!(moves <= 7);
        match outcome {
            Outcome::Ask(ask) => {
                assert_ne!(next, Stage::Done);
                last = Some(answer(host, ask));
            }
            Outcome::Launch(command) => {
                assert_eq!(next, Stage::Done);
                return Ok(command);
            }
            Outcome::Fail(message) => {
                assert_eq!(next, Stage::Done);
                return Err(message);
            }
        }
        stage = next;
    }
}

fn call_with(entries: &[(&str, &str)], os: Os, arch: Architecture) -> Invocation {
    Invocation {
        server_id: "vulnera".to_string(),
        shell_env: entries.iter().map(|(k, v)| (k.to_string(), v.to_string())).collect(),
        os,
        arch,
    }
}

fn call(entries: &[(&str, &str)]) -> Invocation {
    call_with(entries, Os::Linux, Architecture::X8664)
}

fn session() -> Session {
    Session { cached_binary: None }
}

fn launch(path: &str) -> Command {
    Command {
        command: path.to_string(),
        args: vec![],
        env: vec![("VULNERA_LOG".to_string(), "info".to_string())],
    }
}

fn url(version: &str) -> String {
    format!(
        "https://github.com/vulnera-rs/adapter/releases/download/adapter-v{}/vulnera-adapter-x86_64-unknown-linux-gnu",
        version
    )
}

#[test]
fn unknown_server_is_refused() {
    let mut h = host();
    let mut s = session();
    let mut c = call(&[("VULNERA_ADAPTER_PATH", "/bin/adapter")]);
    c.server_id = "rust-analyzer".to_string();
    assert_eq!(
        run(&mut h, &mut s, &c),
        Err("Vulnera: unknown language server id 'rust-analyzer'".to_string())
    );
    assert_eq!(h.cache_reads + h.fetches + h.downloads.len(), 0);
}

#[test]
fn path_override_is_launched_without_any_ask() {
    let mut h = host();
    let mut s = session();
    let c = call_with(
        &[("VULNERA_ADAPTER_PATH", "  /opt/adapter \n"), ("VULNERA_API_KEY", "k")],
        Os::Windows,
        Architecture::X86,
    );
    let (stage, outcome) = advance(&c, &mut s, Stage::Start, None);
    assert_eq!(stage, Stage::Done);
    assert_eq!(
        outcome,
        Outcome::Launch(Command {
            command: "/opt/adapter".to_string(),
            args: vec![],
            env: vec![
                ("VULNERA_API_KEY".to_string(), "k".to_string()),
                ("VULNERA_LOG".to_string(), "info".to_string()),
            ],
        })
    );
    assert_eq!(s, session());
    assert_eq!(run(&mut h, &mut s, &c).unwrap().command, "/opt/adapter");
    assert_eq!(h.cache_reads + h.fetches + h.downloads.len() + h.resolved.len(), 0);
}

#[test]
fn blank_path_override_is_no_override() {
    let mut h = host();
    let mut s = session();
    let c = call(&[("VULNERA_ADAPTER_PATH", "  "), ("VULNERA_ADAPTER_VERSION", "0.2.0")]);
    assert_eq!(run(&mut h, &mut s, &c), Ok(launch("server/vulnera-adapter")));
    assert_eq!(h.downloads, vec![url("0.2.0")]);
}

#[test]
fn unsupported_platform_is_refused() {
    let mut h = host();
    let mut s = session();
    let c = call_with(&[], Os::Linux, Architecture::X86);
    assert_eq!(
        run(&mut h, &mut s, &c),
        Err("Vulnera: unsupported platform (Os::Linux / Architecture::X86). Build vulnera-adapter from source and set VULNERA_ADAPTER_PATH.".to_string())
    );
    assert_eq!(h.cache_reads + h.fetches + h.downloads.len(), 0);
}

#[test]
fn version_override_needs_neither_cache_nor_listing() {
    let mut h = host();
    h.records.insert("server/cached-version.txt".to_string(), "0.3.0".to_string());
    h.records.insert("server/cached-version-timestamp.txt".to_string(), h.now.to_string());
    h.listing = listing_of("adapter-v0.4.0");
    let mut s = session();
    let c = call(&[("VULNERA_ADAPTER_VERSION", "0.2.0")]);
    assert_eq!(run(&mut h, &mut s, &c), Ok(launch("server/vulnera-adapter")));
    assert_eq!(h.resolved, vec![("0.2.0".to_string(), VersionSource::Override)]);
    assert_eq!(h.cache_reads, 0);
    assert_eq!(h.fetches, 0);
    assert_eq!(h.downloads, vec![url("0.2.0")]);
}

#[test]
fn version_override_is_taken_as_it_stands() {
    let mut h = host();
    h.listing = listing_of("adapter-v0.4.0");
    let mut s = session();
    let c = call(&[("VULNERA_ADAPTER_VERSION", " 0.3.0 ")]);
    assert_eq!(run(&mut h, &mut s, &c), Ok(launch("server/vulnera-adapter")));
    assert_eq!(h.resolved, vec![(" 0.3.0 ".to_string(), VersionSource::Override)]);
    assert_eq!(h.cache_reads, 0);
    assert_eq!(h.fetches, 0);
    assert_eq!(h.downloads, vec![url(" 0.3.0 ")]);
    assert_eq!(h.records["server/installed-version.txt"], " 0.3.0 ");
}

#[test]
fn blank_version_override_is_no_override() {
    let mut h = host();
    h.listing = listing_of("adapter-v0.4.0");
    let mut s = session();
    let c = call(&[("VULNERA_ADAPTER_VERSION", " \t"), ("VULNERA_ADAPTER_VERSION", "0.9.0")]);
    run(&mut h, &mut s, &c).unwrap();
    assert_eq!(h.resolved, vec![("0.4.0".to_string(), VersionSource::Remote)]);
}

#[test]
fn failed_download_leaves_the_marker_and_installs_again() {
    let mut h = host();
    let mut s = session();
    run(&mut h, &mut s, &call(&[("VULNERA_ADAPTER_VERSION", "0.2.0")])).unwrap();
    h.failing_step = Some((1, "timeout".to_string()));
    let next = call(&[("VULNERA_ADAPTER_VERSION", "0.3.0")]);
    assert!(run(&mut h, &mut s, &next).is_err());
    assert_eq!(h.records["server/installed-version.txt"], "0.2.0");
    h.failing_step = None;
    assert_eq!(run(&mut h, &mut s, &next), Ok(launch("server/vulnera-adapter")));
    assert_eq!(h.downloads, vec![url("0.2.0"), url("0.3.0")]);
    assert_eq!(h.records["server/installed-version.txt"], "0.3.0");
}

#[test]
fn fresh_cache_needs_no_listing() {
    let mut h = host();
    h.records.insert("server/cached-version.txt".to_string(), "0.3.0\n".to_string());
    h.records.insert(
        "server/cached-version-timestamp.txt".to_string(),
        (h.now - 86_399).to_string(),
    );
    h.listing = listing_of("adapter-v0.4.0");
    let mut s = session();
    assert_eq!(run(&mut h, &mut s, &call(&[])), Ok(launch("server/vulnera-adapter")));
    assert_eq!(h.resolved, vec![("0.3.0".to_string(), VersionSource::FreshCache)]);
    assert_eq!(h.fetches, 0);
    assert_eq!(h.cache_reads, 1);
    assert_eq!(h.downloads, vec![url("0.3.0")]);
}

#[test]
fn expired_cache_asks_the_listing_and_stores_what_it_gives() {
    let mut h = host();
    h.records.insert("server/cached-version.txt".to_string(), "0.3.0".to_string());
    h.records.insert(
        "server/cached-version-timestamp.txt".to_string(),
        (h.now - 86_400).to_string(),
    );
    h.listing = listing_of("adapter-v0.4.0");
    let mut s = session();
    assert_eq!(run(&mut h, &mut s, &call(&[])), Ok(launch("server/vulnera-adapter")));
    assert_eq!(h.resolved, vec![("0.4.0".to_string(), VersionSource::Remote)]);
    assert_eq!(h.fetches, 1);
    assert_eq!(h.records["server/cached-version.txt"], "0.4.0");
    assert_eq!(h.records["server/cached-version-timestamp.txt"], "1700000002");
    assert_eq!(h.downloads, vec![url("0.4.0")]);
}

#[test]
fn expired_cache_is_taken_when_the_listing_fails() {
    let mut h = host();
    h.records.insert("server/cached-version.txt".to_string(), "0.3.0".to_string());
    h.records.insert("server/cached-version-timestamp.txt".to_string(), "5".to_string());
    h.listing = None;
    let mut s = session();
    assert_eq!(run(&mut h, &mut s, &call(&[])), Ok(launch("server/vulnera-adapter")));
    assert_eq!(h.resolved, vec![("0.3.0".to_string(), VersionSource::StaleCache)]);
    assert_eq!(h.fetches, 1);
    assert_eq!(h.cache_reads, 2);
    assert_eq!(h.records["server/cached-version-timestamp.txt"], "5");
    assert_eq!(h.downloads, vec![url("0.3.0")]);
}

#[test]
fn cache_without_a_time_is_expired() {
    let mut h = host();
    h.records.insert("server/cached-version.txt".to_string(), "0.3.0".to_string());
    h.listing = listing_of("adapter-v0.4.0");
    let mut s = session();
    run(&mut h, &mut s, &call(&[])).unwrap();
    assert_eq!(h.fetches, 1);
    assert_eq!(h.resolved, vec![("0.4.0".to_string(), VersionSource::Remote)]);
}

#[test]
fn floor_is_taken_without_cache_and_listing() {
    let mut h = host();
    let mut s = session();
    assert_eq!(run(&mut h, &mut s, &call(&[])), Ok(launch("server/vulnera-adapter")));
    assert_eq!(h.resolved, vec![("0.1.1".to_string(), VersionSource::Floor)]);
    assert_eq!(h.fetches, 1);
    assert_eq!(h.downloads, vec![url("0.1.1")]);
    assert!(!h.records.contains_key("server/cached-version.txt"));
}

#[test]
fn listing_that_names_no_stable_release_is_a_failed_listing() {
    let mut h = host();
    h.listing = Some(b"[{\"tag_name\":\"adapter-v0.9.0\",\"prerelease\":true}]".to_vec());
    let mut s = session();
    run(&mut h, &mut s, &call(&[])).unwrap();
    assert_eq!(h.resolved, vec![("0.1.1".to_string(), VersionSource::Floor)]);
}

#[test]
fn cache_that_cannot_be_written_changes_nothing() {
    let mut h = host();
    h.listing = listing_of("adapter-v0.4.0");
    h.read_only_records = true;
    let mut s = session();
    assert_eq!(run(&mut h, &mut s, &call(&[])), Ok(launch("server/vulnera-adapter")));
    assert_eq!(h.resolved, vec![("0.4.0".to_string(), VersionSource::Remote)]);
    assert_eq!(h.downloads, vec![url("0.4.0")]);
}

#[test]
fn second_call_downloads_nothing() {
    let mut h = host();
    let mut s = session();
    let c = call(&[("VULNERA_ADAPTER_VERSION", "0.2.0")]);
    assert_eq!(run(&mut h, &mut s, &c), Ok(launch("server/vulnera-adapter")));
    assert_eq!(h.downloads.len(), 1);
    assert_eq!(s.cached_binary, Some("server/vulnera-adapter".to_string()));
    assert_eq!(run(&mut h, &mut s, &c), Ok(launch("server/vulnera-adapter")));
    assert_eq!(h.downloads.len(), 1);
    let mut fresh_session = session();
    assert_eq!(run(&mut h, &mut fresh_session, &c), Ok(launch("server/vulnera-adapter")));
    assert_eq!(h.downloads.len(), 1);
    assert_eq!(fresh_session.cached_binary, Some("server/vulnera-adapter".to_string()));
}

#[test]
fn marker_names_the_installed_version_after_an_install() {
    let mut h = host();
    let mut s = session();
    run(&mut h, &mut s, &call(&[("VULNERA_ADAPTER_VERSION", "0.2.0")])).unwrap();
    let marker = h.records.get("server/installed-version.txt").map(|text| text.as_str());
    assert_eq!(vulnera_zed::store::installed_version(marker), Some("0.2.0".to_string()));
    assert_eq!(h.made_executable, vec!["server/vulnera-adapter".to_string()]);
}

#[test]
fn another_version_is_installed_over_the_old_one() {
    let mut h = host();
    let mut s = session();
    run(&mut h, &mut s, &call(&[("VULNERA_ADAPTER_VERSION", "0.2.0")])).unwrap();
    run(&mut h, &mut s, &call(&[("VULNERA_ADAPTER_VERSION", "0.3.0")])).unwrap();
    assert_eq!(h.downloads, vec![url("0.2.0"), url("0.3.0")]);
    assert_eq!(h.records["server/installed-version.txt"], "0.3.0");
}

#[test]
fn missing_executable_is_installed_again() {
    let mut h = host();
    let mut s = session();
    let c = call(&[("VULNERA_ADAPTER_VERSION", "0.2.0")]);
    run(&mut h, &mut s, &c).unwrap();
    h.files.clear();
    run(&mut h, &mut s, &c).unwrap();
    assert_eq!(h.downloads.len(), 2);
}

#[test]
fn remembered_adapter_is_taken_again() {
    let mut h = host();
    h.files.insert("elsewhere/adapter".to_string());
    h.records.insert("server/installed-version.txt".to_string(), "0.2.0\n".to_string());
    let mut s = Session { cached_binary: Some("elsewhere/adapter".to_string()) };
    let c = call(&[("VULNERA_ADAPTER_VERSION", "0.2.0")]);
    assert_eq!(run(&mut h, &mut s, &c), Ok(launch("elsewhere/adapter")));
    assert!(h.downloads.is_empty());
    assert_eq!(s.cached_binary, Some("elsewhere/adapter".to_string()));
}

#[test]
fn remembered_adapter_of_another_version_is_not_taken() {
    let mut h = host();
    h.files.insert("elsewhere/adapter".to_string());
    h.records.insert("server/installed-version.txt".to_string(), "0.1.1".to_string());
    let mut s = Session { cached_binary: Some("elsewhere/adapter".to_string()) };
    let c = call(&[("VULNERA_ADAPTER_VERSION", "0.2.0")]);
    assert_eq!(run(&mut h, &mut s, &c), Ok(launch("server/vulnera-adapter")));
    assert_eq!(h.downloads, vec![url("0.2.0")]);
    assert_eq!(s.cached_binary, Some("server/vulnera-adapter".to_string()));
}

#[test]
fn remembered_adapter_that_is_gone_is_not_taken() {
    let mut h = host();
    h.files.insert("server/vulnera-adapter".to_string());
    h.records.insert("server/installed-version.txt".to_string(), "0.2.0".to_string());
    let mut s = Session { cached_binary: Some("elsewhere/adapter".to_string()) };
    let c = call(&[("VULNERA_ADAPTER_VERSION", "0.2.0")]);
    assert_eq!(run(&mut h, &mut s, &c), Ok(launch("server/vulnera-adapter")));
    assert!(h.downloads.is_empty());
    assert_eq!(s.cached_binary, Some("server/vulnera-adapter".to_string()));
}

#[test]
fn reuse_needs_path_file_and_marker() {
    let remembering = Session { cached_binary: Some("p".to_string()) };
    assert!(reuses(&remembering, true, Some(" 0.2.0 "), "0.2.0"));
    assert!(!reuses(&remembering, false, Some("0.2.0"), "0.2.0"));
    assert!(!reuses(&remembering, true, Some("0.2.1"), "0.2.0"));
    assert!(!reuses(&remembering, true, None, "0.2.0"));
    assert!(!reuses(&session(), true, Some("0.2.0"), "0.2.0"));
}

#[test]
fn failed_download_fails_the_run() {
    let mut h = host();
    h.failing_step = Some((1, "connection reset".to_string()));
    let mut s = session();
    let c = call(&[("VULNERA_ADAPTER_VERSION", "0.2.0")]);
    assert_eq!(
        run(&mut h, &mut s, &c),
        Err(format!("Vulnera: download failed for {}: connection reset", url("0.2.0")))
    );
    assert_eq!(s, session());
    assert!(!h.records.contains_key("server/installed-version.txt"));
}

#[test]
fn failed_directory_fails_the_run() {
    let mut h = host();
    h.failing_step = Some((0, "denied".to_string()));
    let mut s = session();
    let c = call(&[("VULNERA_ADAPTER_VERSION", "0.2.0")]);
    assert_eq!(
        run(&mut h, &mut s, &c),
        Err("Vulnera: failed to create server/ directory: denied".to_string())
    );
    assert!(h.downloads.is_empty());
}

#[test]
fn failed_executable_bit_fails_the_run() {
    let mut h = host();
    h.failing_step = Some((2, "denied".to_string()));
    let mut s = session();
    let c = call(&[("VULNERA_ADAPTER_VERSION", "0.2.0")]);
    assert_eq!(
        run(&mut h, &mut s, &c),
        Err("Vulnera: chmod +x failed for server/vulnera-adapter: denied".to_string())
    );
}

#[test]
fn failed_marker_does_not_fail_the_run() {
    let mut h = host();
    h.read_only_records = true;
    let mut s = session();
    let c = call(&[("VULNERA_ADAPTER_VERSION", "0.2.0")]);
    assert_eq!(run(&mut h, &mut s, &c), Ok(launch("server/vulnera-adapter")));
    assert_eq!(s.cached_binary, Some("server/vulnera-adapter".to_string()));
    let mut other = session();
    assert_eq!(run(&mut h, &mut other, &c), Ok(launch("server/vulnera-adapter")));
    assert_eq!(h.downloads.len(), 2);
}

#[test]
fn windows_gets_the_suffix_and_no_executable_bit() {
    let mut h = host();
    let mut s = session();
    let c = call_with(&[("VULNERA_ADAPTER_VERSION", "0.2.0")], Os::Windows, Architecture::X8664);
    assert_eq!(run(&mut h, &mut s, &c), Ok(launch("server/vulnera-adapter.exe")));
    assert_eq!(
        h.downloads,
        vec!["https://github.com/vulnera-rs/adapter/releases/download/adapter-v0.2.0/vulnera-adapter-x86_64-pc-windows-msvc.exe".to_string()]
    );
    assert!(h.made_executable.is_empty());
    assert!(h.files.contains("server/vulnera-adapter.exe"));
}

#[test]
fn command_forwards_the_environment() {
    let mut h = host();
    let mut s = session();
    let c = call(&[
        ("VULNERA_ADAPTER_VERSION", "0.2.0"),
        ("VULNERA_LOG", "debug"),
        ("VULNERA_API_URL", "https://api.example"),
    ]);
    assert_eq!(
        run(&mut h, &mut s, &c),
        Ok(Command {
            command: "server/vulnera-adapter".to_string(),
            args: vec![],
            env: vec![
                ("VULNERA_LOG".to_string(), "debug".to_string()),
                ("VULNERA_API_URL".to_string(), "https://api.example".to_string()),
            ],
        })
    );
}

#[test]
fn first_move_asks_for_the_cache() {
    let mut s = session();
    let (stage, outcome) = advance(&call(&[]), &mut s, Stage::Start, None);
    let platform = resolve_platform(Os::Linux, Architecture::X8664).unwrap();
    assert_eq!(stage, Stage::ReadingCache { platform });
    assert_eq!(
        outcome,
        Outcome::Ask(Ask::ReadCache {
            version_path: "server/cached-version.txt".to_string(),
            timestamp_path: "server/cached-version-timestamp.txt".to_string(),
        })
    );
}

#[test]
fn answer_that_was_not_asked_for_fails_the_run() {
    let failure =
        Outcome::Fail("Vulnera: the host's answer does not fit what was asked".to_string());
    let platform = resolve_platform(Os::Linux, Architecture::X8664).unwrap();
    let c = call(&[]);
    let mut s = session();
    assert_eq!(advance(&c, &mut s, Stage::Start, Some(Answer::Written)), (Stage::Done, failure.clone()));
    assert_eq!(
        advance(&c, &mut s, Stage::ReadingCache { platform }, None),
        (Stage::Done, failure.clone())
    );
    assert_eq!(
        advance(&c, &mut s, Stage::Fetching { platform }, Some(Answer::Written)),
        (Stage::Done, failure.clone())
    );
    assert_eq!(advance(&c, &mut s, Stage::Done, None), (Stage::Done, failure.clone()));
    assert_eq!(
        advance(
            &c,
            &mut s,
            Stage::Installing { platform, version: "0.2.0".to_string() },
            Some(Answer::Installed { failed: Some((4, "x".to_string())) }),
        ),
        (Stage::Done, failure)
    );
    assert_eq!(s, session());
}
