//! The lifecycle orchestrator: from a request for the adapter's command to
//! the command.
//!
//! The orchestrator reads no clock, no file and no network. It is a state
//! machine that the host drives: `advance` takes the stage that was reached
//! and the host's answer to what was asked last, and gives the next stage
//! together with what to do: ask the host for something, launch a command,
//! or fail. A run starts at `Stage::Start` without an answer and ends with
//! the first launch or failure.

use crate::command::{
    build_command, first_value, launch_of, raw_setting, read_raw_setting, read_setting, setting,
    Command, Launch, PATH_KEY, VERSION_KEY,
};
use crate::decimal::digits_of;
use crate::installer::{
    after_steps, download_binary, ensure_binary, failure_message, failure_of, install_failure,
    install_needed, install_steps, lemma_install_effect, Ensured, InstallState, InstallStep, Step,
};
use crate::paths::{
    binary_path, binary_path_of, cached_latest_version_path, cached_version_timestamp_path,
    installed_version_path, CACHED_TIMESTAMP_PATH, CACHED_VERSION_PATH, INSTALLED_VERSION_PATH,
    SERVER_DIR,
};
use crate::platform::{
    descriptor_of, resolve_platform, unsupported_message, Architecture, Descriptor, Os,
    PlatformInfo,
};
use crate::releases::{
    listing, listing_request, response_version, version_from_response, Listing, ListingRequest,
};
use crate::resolver::{
    choice, is_fresh, offline_choice, online_choice, resolve_offline, resolve_online,
    VersionSource, VERSION_CACHE_TTL_SECS,
};
use crate::store::{
    cache_record, cache_records, cached_latest_version, installed_version, is_version_text,
    version_record,
};
use crate::text::{lemma_trim_end_of, lemma_trim_start_of, same_text, trim_start_of, trimmed};
use vstd::prelude::*;

verus! {

/// The language server that this library serves.
pub const SERVER_ID: &'static str = "vulnera";

/// What the host hands in with a request for the command.
#[derive(Clone, Debug, PartialEq, Eq)]
pub struct Invocation {
    /// The language server that the command is asked for.
    pub server_id: String,
    /// The caller's shell environment.
    pub shell_env: Vec<(String, String)>,
    /// The operating system that the host runs on.
    pub os: Os,
    /// The architecture that the host runs on.
    pub arch: Architecture,
}

/// What the caller keeps from one request to the next: the path of the
/// adapter that was launched last.
#[derive(Clone, Debug, PartialEq, Eq)]
pub struct Session {
    pub cached_binary: Option<String>,
}

/// What the orchestrator asks the host to do.
#[derive(Clone, Debug, PartialEq, Eq)]
pub enum Ask {
    /// Read the clock and the two cache records.
    ReadCache { version_path: String, timestamp_path: String },
    /// Send the request for the release listing, once, and read the clock
    /// when the answer is there.
    Fetch { request: ListingRequest },
    /// Create the directory unless it is there, then write the two cache
    /// records. A failure is no error.
    WriteCache {
        directory: String,
        version_path: String,
        version: String,
        timestamp_path: String,
        timestamp: String,
    },
    /// Say whether the remembered path and the adapter's path exist, and
    /// read the marker. The version that was resolved and its source come
    /// along, for the host to report.
    Inspect {
        version: String,
        source: VersionSource,
        remembered: Option<String>,
        binary: String,
        marker_path: String,
    },
    /// Carry out the steps in their order, up to the first that fails:
    /// that step and those behind it are left undone.
    Install { steps: Vec<InstallStep> },
}

/// The model of an `Ask`.
pub enum Question {
    ReadCache { version_path: Seq<char>, timestamp_path: Seq<char> },
    Fetch { request: Listing },
    WriteCache {
        directory: Seq<char>,
        version_path: Seq<char>,
        version: Seq<char>,
        timestamp_path: Seq<char>,
        timestamp: Seq<char>,
    },
    Inspect {
        version: Seq<char>,
        source: VersionSource,
        remembered: Option<Seq<char>>,
        binary: Seq<char>,
        marker_path: Seq<char>,
    },
    Install { steps: Seq<Step> },
}

impl View for Ask {
    type V = Question;

    open spec fn view(&self) -> Question {
        match self {
            Ask::ReadCache { version_path, timestamp_path } => Question::ReadCache {
                version_path: version_path@,
                timestamp_path: timestamp_path@,
            },
            Ask::Fetch { request } => Question::Fetch { request: request@ },
            Ask::WriteCache { directory, version_path, version, timestamp_path, timestamp } => {
                Question::WriteCache {
                    directory: directory@,
                    version_path: version_path@,
                    version: version@,
                    timestamp_path: timestamp_path@,
                    timestamp: timestamp@,
                }
            },
            Ask::Inspect { version, source, remembered, binary, marker_path } => {
                Question::Inspect {
                    version: version@,
                    source: *source,
                    remembered: remembered.deep_view(),
                    binary: binary@,
                    marker_path: marker_path@,
                }
            },
            Ask::Install { steps } => Question::Install { steps: steps.deep_view() },
        }
    }
}

/// The host's answer to an `Ask`. A record that is missing or cannot be
/// read is `None`, and so is the body of a request that failed.
#[derive(Clone, Debug, PartialEq, Eq)]
pub enum Answer {
    /// To `ReadCache`: the clock, and the text of the two records.
    Cache { now: u64, version: Option<String>, timestamp: Option<String> },
    /// To `Fetch`: the body of the answer, and the clock.
    Fetched { body: Option<Vec<u8>>, now: u64 },
    /// To `WriteCache`, whether or not the records were written.
    Written,
    /// To `Inspect`: which of the two paths exist, and the marker's text.
    Inspected { remembered_exists: bool, binary_exists: bool, marker: Option<String> },
    /// To `Install`: nothing, or the index of the step that failed and the
    /// cause.
    Installed { failed: Option<(usize, String)> },
}

/// How far a run has come: what was asked last, and what has been found
/// out by then.
#[derive(Clone, Debug, PartialEq, Eq)]
pub enum Stage {
    /// Nothing was asked.
    Start,
    /// The cache was asked for.
    ReadingCache { platform: PlatformInfo },
    /// The release listing was asked for, after the cache gave no fresh
    /// version.
    Fetching { platform: PlatformInfo },
    /// The cache records were handed over to be written, after the
    /// listing gave `version`.
    Storing { platform: PlatformInfo, version: String },
    /// The cache was asked for again, after the listing gave nothing.
    RereadingCache { platform: PlatformInfo },
    /// The install state was asked for, with `version` resolved.
    Inspecting { platform: PlatformInfo, version: String },
    /// The install of `version` was asked for.
    Installing { platform: PlatformInfo, version: String },
    /// The run is over.
    Done,
}

/// The model of a `Stage`.
pub enum Phase {
    Start,
    ReadingCache { platform: Descriptor },
    Fetching { platform: Descriptor },
    Storing { platform: Descriptor, version: Seq<char> },
    RereadingCache { platform: Descriptor },
    Inspecting { platform: Descriptor, version: Seq<char> },
    Installing { platform: Descriptor, version: Seq<char> },
    Done,
}

impl View for Stage {
    type V = Phase;

    open spec fn view(&self) -> Phase {
        match self {
            Stage::Start => Phase::Start,
            Stage::ReadingCache { platform } => Phase::ReadingCache { platform: platform@ },
            Stage::Fetching { platform } => Phase::Fetching { platform: platform@ },
            Stage::Storing { platform, version } => Phase::Storing {
                platform: platform@,
                version: version@,
            },
            Stage::RereadingCache { platform } => Phase::RereadingCache { platform: platform@ },
            Stage::Inspecting { platform, version } => Phase::Inspecting {
                platform: platform@,
                version: version@,
            },
            Stage::Installing { platform, version } => Phase::Installing {
                platform: platform@,
                version: version@,
            },
            Stage::Done => Phase::Done,
        }
    }
}

/// What the host has to do next.
#[derive(Clone, Debug, PartialEq, Eq)]
pub enum Outcome {
    /// Carry out what is asked, and come back with the answer.
    Ask(Ask),
    /// Launch the command: the run is over.
    Launch(Command),
    /// Report the failure: the run is over.
    Fail(String),
}

/// The model of an `Outcome`.
pub enum Verdict {
    Ask(Question),
    Launch(Launch),
    Fail(Seq<char>),
}

impl View for Outcome {
    type V = Verdict;

    open spec fn view(&self) -> Verdict {
        match self {
            Outcome::Ask(ask) => Verdict::Ask(ask@),
            Outcome::Launch(command) => Verdict::Launch(command@),
            Outcome::Fail(message) => Verdict::Fail(message@),
        }
    }
}

/// One move of the machine: the stage that is reached, what the host has
/// to do, and the path that the session remembers from then on.
pub struct Move {
    pub phase: Phase,
    pub verdict: Verdict,
    pub remembered: Option<Seq<char>>,
}

/// The text that reports a request for another language server.
pub open spec fn unknown_server_message(server_id: Seq<char>) -> Seq<char> {
    "Vulnera: unknown language server id '"@ + server_id + "'"@
}

/// The text that reports an answer that does not fit the stage.
pub open spec fn unexpected_answer_message() -> Seq<char> {
    "Vulnera: the host's answer does not fit what was asked"@
}

/// The run ends with a failure; the session is left as it is.
pub open spec fn fail(message: Seq<char>, remembered: Option<Seq<char>>) -> Move {
    Move { phase: Phase::Done, verdict: Verdict::Fail(message), remembered }
}

/// The run ends with the launch of `binary`.
pub open spec fn launch(
    binary: Seq<char>,
    env: Seq<(Seq<char>, Seq<char>)>,
    remembered: Option<Seq<char>>,
) -> Move {
    Move { phase: Phase::Done, verdict: Verdict::Launch(launch_of(binary, env)), remembered }
}

/// The cache is asked for, the first time or again.
pub open spec fn ask_cache(phase: Phase, remembered: Option<Seq<char>>) -> Move {
    Move {
        phase,
        verdict: Verdict::Ask(
            Question::ReadCache {
                version_path: CACHED_VERSION_PATH@,
                timestamp_path: CACHED_TIMESTAMP_PATH@,
            },
        ),
        remembered,
    }
}

/// With the version resolved, the install state is asked for.
pub open spec fn inspect(
    platform: Descriptor,
    version: Seq<char>,
    source: VersionSource,
    remembered: Option<Seq<char>>,
) -> Move {
    Move {
        phase: Phase::Inspecting { platform, version },
        verdict: Verdict::Ask(
            Question::Inspect {
                version,
                source,
                remembered,
                binary: binary_path_of(platform.is_windows),
                marker_path: INSTALLED_VERSION_PATH@,
            },
        ),
        remembered,
    }
}

/// The first move. A request for another language server fails. A path
/// override, trimmed, is launched, and nothing else is looked at. An
/// unsupported platform fails. A version override is the version, as it
/// stands in the environment; without one the cache is asked for.
pub open spec fn start(call: Invocation, remembered: Option<Seq<char>>) -> Move {
    let env = call.shell_env.deep_view();
    if call.server_id@ != SERVER_ID@ {
        fail(unknown_server_message(call.server_id@), remembered)
    } else if setting(env, PATH_KEY@) is Some {
        launch(setting(env, PATH_KEY@)->0, env, remembered)
    } else {
        match descriptor_of(call.os, call.arch) {
            None => fail(unsupported_message(call.os, call.arch), remembered),
            Some(platform) => match offline_choice(
                raw_setting(env, VERSION_KEY@),
                None,
                0,
                VERSION_CACHE_TTL_SECS,
            ) {
                Some(choice) => inspect(platform, choice.version, choice.source, remembered),
                None => ask_cache(Phase::ReadingCache { platform }, remembered),
            },
        }
    }
}

/// The move after the cache was read the first time: a fresh entry is the
/// version, and without one the release listing is asked for.
pub open spec fn cache_read(
    platform: Descriptor,
    now: u64,
    version: Option<Seq<char>>,
    timestamp: Option<Seq<char>>,
    remembered: Option<Seq<char>>,
) -> Move {
    match offline_choice(None, cache_record(version, timestamp), now, VERSION_CACHE_TTL_SECS) {
        Some(choice) => inspect(platform, choice.version, choice.source, remembered),
        None => Move {
            phase: Phase::Fetching { platform },
            verdict: Verdict::Ask(Question::Fetch { request: listing() }),
            remembered,
        },
    }
}

/// The move after the release listing was asked for: the version that it
/// names is handed over to be cached, and without one the cache is asked
/// for again.
pub open spec fn fetched(
    platform: Descriptor,
    body: Option<Seq<u8>>,
    now: u64,
    remembered: Option<Seq<char>>,
) -> Move {
    match response_version(body) {
        Some(version) => Move {
            phase: Phase::Storing { platform, version },
            verdict: Verdict::Ask(
                Question::WriteCache {
                    directory: SERVER_DIR@,
                    version_path: CACHED_VERSION_PATH@,
                    version,
                    timestamp_path: CACHED_TIMESTAMP_PATH@,
                    timestamp: digits_of(now as nat),
                },
            ),
            remembered,
        },
        None => ask_cache(Phase::RereadingCache { platform }, remembered),
    }
}

/// The move after the cache was read again: its entry is the version
/// whatever its age, and without one the floor is.
pub open spec fn cache_reread(
    platform: Descriptor,
    version: Option<Seq<char>>,
    timestamp: Option<Seq<char>>,
    remembered: Option<Seq<char>>,
) -> Move {
    let choice = online_choice(None, cache_record(version, timestamp));
    inspect(platform, choice.version, choice.source, remembered)
}

/// The adapter that the session remembers is taken again: it is still
/// there, and the marker names the wanted version.
pub open spec fn can_reuse(
    remembered: Option<Seq<char>>,
    remembered_exists: bool,
    marker: Option<Seq<char>>,
    version: Seq<char>,
) -> bool {
    remembered is Some && remembered_exists && version_record(marker) == Some(version)
}

/// The move after the install state was read: the remembered adapter is
/// launched where it can be taken again; else the adapter at its path is
/// launched and remembered, after an install where one is needed.
pub open spec fn inspected(
    platform: Descriptor,
    version: Seq<char>,
    env: Seq<(Seq<char>, Seq<char>)>,
    remembered_exists: bool,
    binary_exists: bool,
    marker: Option<Seq<char>>,
    remembered: Option<Seq<char>>,
) -> Move {
    let path = binary_path_of(platform.is_windows);
    if can_reuse(remembered, remembered_exists, marker, version) {
        launch(remembered->0, env, remembered)
    } else if install_needed(binary_exists, version_record(marker), version) {
        Move {
            phase: Phase::Installing { platform, version },
            verdict: Verdict::Ask(Question::Install { steps: install_steps(platform, version) }),
            remembered,
        }
    } else {
        launch(path, env, Some(path))
    }
}

/// The move after the install: the adapter is launched and remembered,
/// unless a step failed whose failure is an error.
pub open spec fn installed(
    platform: Descriptor,
    version: Seq<char>,
    env: Seq<(Seq<char>, Seq<char>)>,
    failed: Option<(usize, Seq<char>)>,
    remembered: Option<Seq<char>>,
) -> Move {
    let path = binary_path_of(platform.is_windows);
    let steps = install_steps(platform, version);
    match failed {
        None => launch(path, env, Some(path)),
        Some((index, cause)) => if index < steps.len() {
            match failure_of(steps[index as int], cause) {
                Some(failure) => fail(failure_message(failure), remembered),
                None => launch(path, env, Some(path)),
            }
        } else {
            fail(unexpected_answer_message(), remembered)
        },
    }
}

/// The machine: the move that follows from a stage and the host's answer.
/// An answer that does not fit the stage ends the run with a failure.
pub open spec fn next(
    call: Invocation,
    remembered: Option<Seq<char>>,
    phase: Phase,
    answer: Option<Answer>,
) -> Move {
    let env = call.shell_env.deep_view();
    match (phase, answer) {
        (Phase::Start, None) => start(call, remembered),
        (Phase::ReadingCache { platform }, Some(Answer::Cache { now, version, timestamp })) => {
            cache_read(platform, now, version.deep_view(), timestamp.deep_view(), remembered)
        },
        (Phase::Fetching { platform }, Some(Answer::Fetched { body, now })) => fetched(
            platform,
            body.deep_view(),
            now,
            remembered,
        ),
        (Phase::Storing { platform, version }, Some(Answer::Written)) => inspect(
            platform,
            version,
            VersionSource::Remote,
            remembered,
        ),
        (Phase::RereadingCache { platform }, Some(Answer::Cache { now, version, timestamp })) => {
            cache_reread(platform, version.deep_view(), timestamp.deep_view(), remembered)
        },
        (
            Phase::Inspecting { platform, version },
            Some(Answer::Inspected { remembered_exists, binary_exists, marker }),
        ) => inspected(
            platform,
            version,
            env,
            remembered_exists,
            binary_exists,
            marker.deep_view(),
            remembered,
        ),
        (Phase::Installing { platform, version }, Some(Answer::Installed { failed })) => installed(
            platform,
            version,
            env,
            failed.deep_view(),
            remembered,
        ),
        _ => fail(unexpected_answer_message(), remembered),
    }
}

/// The number of asks that can still follow a stage.
pub open spec fn asks_left(phase: Phase) -> nat {
    match phase {
        Phase::Start => 6,
        Phase::ReadingCache { .. } => 5,
        Phase::Fetching { .. } => 4,
        Phase::Storing { .. } => 3,
        Phase::RereadingCache { .. } => 3,
        Phase::Inspecting { .. } => 2,
        Phase::Installing { .. } => 1,
        Phase::Done => 0,
    }
}

/// The text of an optional string.
fn as_text(text: &Option<String>) -> (r: Option<&str>)
    ensures
        r.deep_view() == text.deep_view(),
{
    match text {
        Some(t) => Some(t.as_str()),
        None => None,
    }
}

/// The path that the session remembers.
fn remembered_path(session: &Session) -> (r: Option<String>)
    ensures
        r.deep_view() == session.cached_binary.deep_view(),
{
    match &session.cached_binary {
        Some(path) => Some(path.clone()),
        None => None,
    }
}

/// Ends the run with a failure.
fn fail_with(message: String) -> (r: (Stage, Outcome))
    ensures
        r.0@ == Phase::Done,
        r.1@ == Verdict::Fail(message@),
{
    (Stage::Done, Outcome::Fail(message))
}

/// Ends the run because the answer does not fit the stage.
fn unexpected_answer() -> (r: (Stage, Outcome))
    ensures
        r.0@ == Phase::Done,
        r.1@ == Verdict::Fail(unexpected_answer_message()),
{
    fail_with("Vulnera: the host's answer does not fit what was asked".to_owned())
}

/// Ends the run with the launch of `binary`.
fn launch_binary(binary: String, call: &Invocation) -> (r: (Stage, Outcome))
    ensures
        r.0@ == Phase::Done,
        r.1@ == Verdict::Launch(launch_of(binary@, call.shell_env.deep_view())),
{
    (Stage::Done, Outcome::Launch(build_command(binary, &call.shell_env)))
}

/// Asks for the cache and goes to `stage`.
fn read_cache(stage: Stage, session: &Session) -> (r: (Stage, Outcome))
    ensures
        r.0@ == stage@,
        r.1@ == ask_cache(stage@, session.cached_binary.deep_view()).verdict,
{
    let ask = Ask::ReadCache {
        version_path: cached_latest_version_path().to_owned(),
        timestamp_path: cached_version_timestamp_path().to_owned(),
    };
    (stage, Outcome::Ask(ask))
}

/// Asks for the install state, with the version resolved.
fn inspect_install(
    platform: PlatformInfo,
    version: String,
    source: VersionSource,
    session: &Session,
) -> (r: (Stage, Outcome))
    ensures
        r.0@ == inspect(platform@, version@, source, session.cached_binary.deep_view()).phase,
        r.1@ == inspect(platform@, version@, source, session.cached_binary.deep_view()).verdict,
{
    let ask = Ask::Inspect {
        version: version.clone(),
        source,
        remembered: remembered_path(session),
        binary: binary_path(&platform),
        marker_path: installed_version_path().to_owned(),
    };
    (Stage::Inspecting { platform, version }, Outcome::Ask(ask))
}

/// The first move of a run.
fn start_run(call: &Invocation, session: &Session) -> (r: (Stage, Outcome))
    ensures
        r.0@ == start(*call, session.cached_binary.deep_view()).phase,
        r.1@ == start(*call, session.cached_binary.deep_view()).verdict,
{
    if !same_text(call.server_id.as_str(), SERVER_ID) {
        let mut message = String::from_str("Vulnera: unknown language server id '");
        message.append(call.server_id.as_str());
        message.append("'");
        return fail_with(message);
    }
    if let Some(path) = read_setting(&call.shell_env, PATH_KEY) {
        return launch_binary(path, call);
    }
    let platform = match resolve_platform(call.os, call.arch) {
        Ok(platform) => platform,
        Err(error) => { return fail_with(error.message()); },
    };
    let pin = read_raw_setting(&call.shell_env, VERSION_KEY);
    match resolve_offline(as_text(&pin), None, 0, VERSION_CACHE_TTL_SECS) {
        Some(resolution) => inspect_install(
            platform,
            resolution.version,
            resolution.source,
            session,
        ),
        None => read_cache(Stage::ReadingCache { platform }, session),
    }
}

/// The move after the cache was read the first time.
fn after_cache(
    platform: PlatformInfo,
    now: u64,
    version: &Option<String>,
    timestamp: &Option<String>,
    session: &Session,
) -> (r: (Stage, Outcome))
    ensures
        ({
            let m = cache_read(
                platform@,
                now,
                version.deep_view(),
                timestamp.deep_view(),
                session.cached_binary.deep_view(),
            );
            r.0@ == m.phase && r.1@ == m.verdict
        }),
{
    let cache = cached_latest_version(as_text(version), as_text(timestamp));
    match resolve_offline(None, cache.as_ref(), now, VERSION_CACHE_TTL_SECS) {
        Some(resolution) => inspect_install(
            platform,
            resolution.version,
            resolution.source,
            session,
        ),
        None => (Stage::Fetching { platform }, Outcome::Ask(Ask::Fetch { request: listing_request() })),
    }
}

/// The move after the release listing was asked for.
fn after_fetch(platform: PlatformInfo, body: Option<Vec<u8>>, now: u64, session: &Session) -> (r: (
    Stage,
    Outcome,
))
    ensures
        ({
            let m = fetched(platform@, body.deep_view(), now, session.cached_binary.deep_view());
            r.0@ == m.phase && r.1@ == m.verdict
        }),
{
    match version_from_response(body) {
        Some(version) => {
            let records = cache_records(version.as_str(), now);
            let ask = Ask::WriteCache {
                directory: SERVER_DIR.to_owned(),
                version_path: cached_latest_version_path().to_owned(),
                version: records.0,
                timestamp_path: cached_version_timestamp_path().to_owned(),
                timestamp: records.1,
            };
            (Stage::Storing { platform, version }, Outcome::Ask(ask))
        },
        None => read_cache(Stage::RereadingCache { platform }, session),
    }
}

/// The move after the cache was read again.
fn after_reread(
    platform: PlatformInfo,
    version: &Option<String>,
    timestamp: &Option<String>,
    session: &Session,
) -> (r: (Stage, Outcome))
    ensures
        ({
            let m = cache_reread(
                platform@,
                version.deep_view(),
                timestamp.deep_view(),
                session.cached_binary.deep_view(),
            );
            r.0@ == m.phase && r.1@ == m.verdict
        }),
{
    let cache = cached_latest_version(as_text(version), as_text(timestamp));
    let resolution = resolve_online(None, cache);
    inspect_install(platform, resolution.version, resolution.source, session)
}

/// Tells whether the adapter that the session remembers can be taken
/// again.
pub fn reuses(session: &Session, remembered_exists: bool, marker: Option<&str>, version: &str) -> (r:
    bool)
    ensures
        r == can_reuse(
            session.cached_binary.deep_view(),
            remembered_exists,
            marker.deep_view(),
            version@,
        ),
{
    if session.cached_binary.is_none() || !remembered_exists {
        return false;
    }
    match installed_version(marker) {
        Some(installed) => same_text(installed.as_str(), version),
        None => false,
    }
}

/// The move after the install state was read.
fn after_inspect(
    call: &Invocation,
    session: &mut Session,
    platform: PlatformInfo,
    version: String,
    remembered_exists: bool,
    binary_exists: bool,
    marker: &Option<String>,
) -> (r: (Stage, Outcome))
    ensures
        ({
            let m = inspected(
                platform@,
                version@,
                call.shell_env.deep_view(),
                remembered_exists,
                binary_exists,
                marker.deep_view(),
                old(session).cached_binary.deep_view(),
            );
            &&& r.0@ == m.phase
            &&& r.1@ == m.verdict
            &&& final(session).cached_binary.deep_view() == m.remembered
        }),
{
    if reuses(session, remembered_exists, as_text(marker), version.as_str()) {
        match remembered_path(session) {
            Some(path) => { return launch_binary(path, call); },
            None => {},
        }
    }
    match ensure_binary(&platform, version.as_str(), binary_exists, as_text(marker)) {
        Ensured::Present { path } => {
            session.cached_binary = Some(path.clone());
            launch_binary(path, call)
        },
        Ensured::Install { path, steps } => (
            Stage::Installing { platform, version },
            Outcome::Ask(Ask::Install { steps }),
        ),
    }
}

/// The move after the install.
fn after_install(
    call: &Invocation,
    session: &mut Session,
    platform: PlatformInfo,
    version: String,
    failed: &Option<(usize, String)>,
) -> (r: (Stage, Outcome))
    ensures
        ({
            let m = installed(
                platform@,
                version@,
                call.shell_env.deep_view(),
                failed.deep_view(),
                old(session).cached_binary.deep_view(),
            );
            &&& r.0@ == m.phase
            &&& r.1@ == m.verdict
            &&& final(session).cached_binary.deep_view() == m.remembered
        }),
{
    if let Some((index, cause)) = failed {
        let steps = download_binary(&platform, version.as_str());
        assert(steps.deep_view().len() == steps.len());
        if *index >= steps.len() {
            return unexpected_answer();
        }
        assert(steps.deep_view()[*index as int] == steps[*index as int]@);
        if let Some(error) = install_failure(&steps[*index], cause.as_str()) {
            return fail_with(error.message());
        }
    }
    let path = binary_path(&platform);
    session.cached_binary = Some(path.clone());
    launch_binary(path, call)
}

/// Makes the move that follows from `stage` and the host's answer to what
/// was asked last. A run starts at `Stage::Start` with no answer, and goes
/// on for as long as the outcome is an ask.
pub fn advance(call: &Invocation, session: &mut Session, stage: Stage, answer: Option<Answer>) -> (r:
    (Stage, Outcome))
    ensures
        ({
            let m = next(*call, old(session).cached_binary.deep_view(), stage@, answer);
            &&& r.0@ == m.phase
            &&& r.1@ == m.verdict
            &&& final(session).cached_binary.deep_view() == m.remembered
        }),
        r.1 is Ask <==> !(r.0 is Done),
        stage is Done || asks_left(r.0@) < asks_left(stage@),
{
    match stage {
        Stage::Start => match answer {
            None => start_run(call, session),
            Some(_) => unexpected_answer(),
        },
        Stage::ReadingCache { platform } => match answer {
            Some(Answer::Cache { now, version, timestamp }) => after_cache(
                platform,
                now,
                &version,
                &timestamp,
                session,
            ),
            _ => unexpected_answer(),
        },
        Stage::Fetching { platform } => match answer {
            Some(Answer::Fetched { body, now }) => after_fetch(platform, body, now, session),
            _ => unexpected_answer(),
        },
        Stage::Storing { platform, version } => match answer {
            Some(Answer::Written) => inspect_install(
                platform,
                version,
                VersionSource::Remote,
                session,
            ),
            _ => unexpected_answer(),
        },
        Stage::RereadingCache { platform } => match answer {
            Some(Answer::Cache { now, version, timestamp }) => after_reread(
                platform,
                &version,
                &timestamp,
                session,
            ),
            _ => unexpected_answer(),
        },
        Stage::Inspecting { platform, version } => match answer {
            Some(Answer::Inspected { remembered_exists, binary_exists, marker }) => after_inspect(
                call,
                session,
                platform,
                version,
                remembered_exists,
                binary_exists,
                &marker,
            ),
            _ => unexpected_answer(),
        },
        Stage::Installing { platform, version } => match answer {
            Some(Answer::Installed { failed }) => after_install(
                call,
                session,
                platform,
                version,
                &failed,
            ),
            _ => unexpected_answer(),
        },
        Stage::Done => unexpected_answer(),
    }
}

/// The move at which a run that resolves a version asks for the install
/// state, for a host that reads the cache as `version` and `timestamp` at
/// `now`, both times, and gets `body` from the release listing.
pub open spec fn resolving_move(
    call: Invocation,
    remembered: Option<Seq<char>>,
    now: u64,
    version: Option<Seq<char>>,
    timestamp: Option<Seq<char>>,
    body: Option<Seq<u8>>,
    now_fetched: u64,
) -> Move {
    let first = start(call, remembered);
    match first.phase {
        Phase::ReadingCache { platform } => {
            let second = cache_read(platform, now, version, timestamp, remembered);
            match second.phase {
                Phase::Fetching { platform } => {
                    let third = fetched(platform, body, now_fetched, remembered);
                    match third.phase {
                        Phase::Storing { platform, version } => inspect(
                            platform,
                            version,
                            VersionSource::Remote,
                            remembered,
                        ),
                        _ => cache_reread(platform, version, timestamp, remembered),
                    }
                },
                _ => second,
            }
        },
        _ => first,
    }
}

/// A path override is launched at the first move, whatever the platform,
/// the version override and the session are.
pub proof fn lemma_path_override_launches(call: Invocation, remembered: Option<Seq<char>>)
    requires
        call.server_id@ == SERVER_ID@,
        setting(call.shell_env.deep_view(), PATH_KEY@) is Some,
    ensures
        start(call, remembered) == launch(
            setting(call.shell_env.deep_view(), PATH_KEY@)->0,
            call.shell_env.deep_view(),
            remembered,
        ),
{
}

/// A run on a supported platform and without a path override asks for the
/// install state of the version that the resolver's chain gives, for the
/// version override of the environment, the cache entry that the records
/// make, and the version that the release listing names.
pub proof fn lemma_run_follows_chain(
    call: Invocation,
    remembered: Option<Seq<char>>,
    now: u64,
    version: Option<Seq<char>>,
    timestamp: Option<Seq<char>>,
    body: Option<Seq<u8>>,
    now_fetched: u64,
)
    requires
        call.server_id@ == SERVER_ID@,
        setting(call.shell_env.deep_view(), PATH_KEY@) is None,
        descriptor_of(call.os, call.arch) is Some,
    ensures
        ({
            let chosen = choice(
                raw_setting(call.shell_env.deep_view(), VERSION_KEY@),
                cache_record(version, timestamp),
                now,
                VERSION_CACHE_TTL_SECS,
                response_version(body),
            );
            resolving_move(call, remembered, now, version, timestamp, body, now_fetched)
                == inspect(
                descriptor_of(call.os, call.arch)->0,
                chosen.version,
                chosen.source,
                remembered,
            )
        }),
{
}

/// With a fresh cache entry the release listing is not asked for: the
/// move after the cache was read asks for the install state.
pub proof fn lemma_fresh_cache_skips_listing(
    platform: Descriptor,
    now: u64,
    version: Option<Seq<char>>,
    timestamp: Option<Seq<char>>,
    remembered: Option<Seq<char>>,
)
    requires
        cache_record(version, timestamp) is Some,
        is_fresh(cache_record(version, timestamp)->0, now, VERSION_CACHE_TTL_SECS),
    ensures
        cache_read(platform, now, version, timestamp, remembered) == inspect(
            platform,
            cache_record(version, timestamp)->0.version,
            VersionSource::FreshCache,
            remembered,
        ),
{
}

/// Once a version is installed, a run for the same version asks for no
/// install: it launches the adapter.
pub proof fn lemma_installed_version_is_launched(
    platform: Descriptor,
    version: Seq<char>,
    env: Seq<(Seq<char>, Seq<char>)>,
    state: InstallState,
    remembered_exists: bool,
    remembered: Option<Seq<char>>,
)
    requires
        is_version_text(version),
    ensures
        ({
            let after = after_steps(state, install_steps(platform, version));
            inspected(
                platform,
                version,
                env,
                remembered_exists,
                after.binary_exists,
                after.marker,
                remembered,
            ).verdict is Launch
        }),
{
    lemma_install_effect(state, platform, version);
}

/// A version override that is not blank is the version of the run, as it
/// stands in the environment: it is not trimmed, and neither the cache nor
/// the release listing is asked for.
pub proof fn lemma_version_override_is_verbatim(
    call: Invocation,
    remembered: Option<Seq<char>>,
    value: Seq<char>,
)
    requires
        call.server_id@ == SERVER_ID@,
        setting(call.shell_env.deep_view(), PATH_KEY@) is None,
        descriptor_of(call.os, call.arch) is Some,
        first_value(call.shell_env.deep_view(), VERSION_KEY@) == Some(value),
        trimmed(value).len() > 0,
    ensures
        start(call, remembered) == inspect(
            descriptor_of(call.os, call.arch)->0,
            value,
            VersionSource::Override,
            remembered,
        ),
{
    lemma_trim_start_of(value);
    lemma_trim_end_of(trim_start_of(value));
}

} // verus!
