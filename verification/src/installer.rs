//! The installer: whether the adapter has to be downloaded, and how.
//!
//! The host downloads and writes; this module decides. It says whether an
//! install is needed, lists the steps of an install in their order, and
//! turns the failure of a step into an error or lets it pass.

use crate::paths::{
    binary_path, binary_path_of, installed_version_path, INSTALLED_VERSION_PATH, SERVER_DIR,
};
use crate::platform::{Descriptor, PlatformInfo};
use crate::releases::GITHUB_REPO;
use crate::store::{installed_marker, installed_version, is_version_text, version_record};
use crate::text::same_text;
use vstd::prelude::*;

verus! {

/// How a downloaded file is packed.
#[derive(Clone, Copy, Debug, PartialEq, Eq, Structural)]
pub enum FileType {
    Gzip,
    GzipTar,
    Zip,
    Uncompressed,
}

/// One step of an install, for the host to carry out.
#[derive(Clone, Debug, PartialEq, Eq)]
pub enum InstallStep {
    /// Create the directory, and those above it, unless it is there.
    CreateDirectory { path: String },
    /// Fetch `url` and write what comes to `path`, unpacked as the file
    /// type says.
    Download { url: String, path: String, file_type: FileType },
    /// Mark the file as executable.
    MakeExecutable { path: String },
    /// Write `text` to the record at `path`, in place of what it holds.
    WriteMarker { path: String, text: String },
}

/// The model of an `InstallStep`.
pub enum Step {
    CreateDirectory { path: Seq<char> },
    Download { url: Seq<char>, path: Seq<char>, file_type: FileType },
    MakeExecutable { path: Seq<char> },
    WriteMarker { path: Seq<char>, text: Seq<char> },
}

impl View for InstallStep {
    type V = Step;

    open spec fn view(&self) -> Step {
        match self {
            InstallStep::CreateDirectory { path } => Step::CreateDirectory { path: path@ },
            InstallStep::Download { url, path, file_type } => Step::Download {
                url: url@,
                path: path@,
                file_type: *file_type,
            },
            InstallStep::MakeExecutable { path } => Step::MakeExecutable { path: path@ },
            InstallStep::WriteMarker { path, text } => Step::WriteMarker {
                path: path@,
                text: text@,
            },
        }
    }
}

impl DeepView for InstallStep {
    type V = Step;

    open spec fn deep_view(&self) -> Step {
        self.view()
    }
}

/// Why an install failed.
#[derive(Clone, Debug, PartialEq, Eq)]
pub enum InstallError {
    /// The directory could not be created.
    CreateDirectory { path: String, cause: String },
    /// The asset could not be downloaded.
    Download { url: String, cause: String },
    /// The file could not be marked as executable.
    MakeExecutable { path: String, cause: String },
}

/// The model of an `InstallError`.
pub enum Failure {
    CreateDirectory { path: Seq<char>, cause: Seq<char> },
    Download { url: Seq<char>, cause: Seq<char> },
    MakeExecutable { path: Seq<char>, cause: Seq<char> },
}

impl View for InstallError {
    type V = Failure;

    open spec fn view(&self) -> Failure {
        match self {
            InstallError::CreateDirectory { path, cause } => Failure::CreateDirectory {
                path: path@,
                cause: cause@,
            },
            InstallError::Download { url, cause } => Failure::Download { url: url@, cause: cause@ },
            InstallError::MakeExecutable { path, cause } => Failure::MakeExecutable {
                path: path@,
                cause: cause@,
            },
        }
    }
}

impl DeepView for InstallError {
    type V = Failure;

    open spec fn deep_view(&self) -> Failure {
        self.view()
    }
}

/// What `ensure_binary` found.
#[derive(Clone, Debug, PartialEq, Eq)]
pub enum Ensured {
    /// The adapter at `path` is the wanted version: nothing is to be done.
    Present { path: String },
    /// The adapter will be at `path` once the steps are carried out.
    Install { path: String, steps: Vec<InstallStep> },
}

/// The address from which the asset of a version is downloaded.
pub open spec fn download_url_of(asset_name: Seq<char>, version: Seq<char>) -> Seq<char> {
    "https://github.com/"@ + GITHUB_REPO@ + "/releases/download/adapter-v"@ + version + "/"@
        + asset_name
}

/// An install is needed when the executable is missing or the installed
/// version is not the wanted one.
pub open spec fn install_needed(
    binary_exists: bool,
    installed: Option<Seq<char>>,
    version: Seq<char>,
) -> bool {
    !binary_exists || installed != Some(version)
}

/// The steps of an install, in the order in which they are carried out:
/// the directory, the download of the asset as it is, the executable bit
/// except where executables carry a suffix, and the marker.
pub open spec fn install_steps(platform: Descriptor, version: Seq<char>) -> Seq<Step> {
    let path = binary_path_of(platform.is_windows);
    let fetch = seq![
        Step::CreateDirectory { path: SERVER_DIR@ },
        Step::Download {
            url: download_url_of(platform.asset_name, version),
            path,
            file_type: FileType::Uncompressed,
        },
    ];
    let made = if platform.is_windows {
        fetch
    } else {
        fetch.push(Step::MakeExecutable { path })
    };
    made.push(Step::WriteMarker { path: INSTALLED_VERSION_PATH@, text: version })
}

/// The error that the failure of a step makes. A marker that could not be
/// written makes none: the install stands, and the next call installs
/// again.
pub open spec fn failure_of(step: Step, cause: Seq<char>) -> Option<Failure> {
    match step {
        Step::CreateDirectory { path } => Some(Failure::CreateDirectory { path, cause }),
        Step::Download { url, path, file_type } => Some(Failure::Download { url, cause }),
        Step::MakeExecutable { path } => Some(Failure::MakeExecutable { path, cause }),
        Step::WriteMarker { path, text } => None,
    }
}

/// The text that reports a failure: what was tried, on what, and the
/// cause.
pub open spec fn failure_message(failure: Failure) -> Seq<char> {
    match failure {
        Failure::CreateDirectory { path, cause } => "Vulnera: failed to create "@ + path
            + "/ directory: "@ + cause,
        Failure::Download { url, cause } => "Vulnera: download failed for "@ + url + ": "@ + cause,
        Failure::MakeExecutable { path, cause } => "Vulnera: chmod +x failed for "@ + path + ": "@
            + cause,
    }
}

/// What is installed: whether the executable is there, and the marker's
/// text.
pub struct InstallState {
    pub binary_exists: bool,
    pub marker: Option<Seq<char>>,
}

/// What is installed after a step was carried out with success.
pub open spec fn after_step(state: InstallState, step: Step) -> InstallState {
    match step {
        Step::CreateDirectory { path } => state,
        Step::Download { url, path, file_type } => InstallState { binary_exists: true, ..state },
        Step::MakeExecutable { path } => state,
        Step::WriteMarker { path, text } => InstallState { marker: Some(text), ..state },
    }
}

/// What is installed after each of the steps was carried out with success,
/// one after the other.
pub open spec fn after_steps(state: InstallState, steps: Seq<Step>) -> InstallState
    decreases steps.len(),
{
    if steps.len() == 0 {
        state
    } else {
        after_step(after_steps(state, steps.drop_last()), steps.last())
    }
}

/// What is installed after an install that failed at the step `index`:
/// the steps before it were carried out with success, and neither that
/// step nor one behind it was.
pub open spec fn after_failure(state: InstallState, steps: Seq<Step>, index: int) -> InstallState {
    after_steps(state, steps.take(index))
}

/// The address from which the asset of `version` is downloaded.
pub fn download_url(platform: &PlatformInfo, version: &str) -> (r: String)
    ensures
        r@ == download_url_of(platform.asset_name@, version@),
{
    let mut url = String::from_str("https://github.com/");
    url.append(GITHUB_REPO);
    url.append("/releases/download/adapter-v");
    url.append(version);
    url.append("/");
    url.append(platform.asset_name);
    url
}

/// Tells whether an install is needed, given whether the executable is
/// there and which version is installed.
pub fn needs_download(binary_exists: bool, installed: Option<&str>, version: &str) -> (r: bool)
    ensures
        r == install_needed(binary_exists, installed.deep_view(), version@),
{
    if !binary_exists {
        return true;
    }
    match installed {
        Some(found) => !same_text(found, version),
        None => true,
    }
}

/// The steps that install `version`.
pub fn download_binary(platform: &PlatformInfo, version: &str) -> (r: Vec<InstallStep>)
    ensures
        r.deep_view() == install_steps(platform@, version@),
{
    let mut steps: Vec<InstallStep> = Vec::new();
    steps.push(InstallStep::CreateDirectory { path: SERVER_DIR.to_owned() });
    steps.push(
        InstallStep::Download {
            url: download_url(platform, version),
            path: binary_path(platform),
            file_type: FileType::Uncompressed,
        },
    );
    if !platform.is_windows {
        steps.push(InstallStep::MakeExecutable { path: binary_path(platform) });
    }
    steps.push(
        InstallStep::WriteMarker {
            path: installed_version_path().to_owned(),
            text: installed_marker(version),
        },
    );
    assert(steps.deep_view() =~= install_steps(platform@, version@));
    steps
}

/// The error that the failure of `step` makes, if it makes one.
pub fn install_failure(step: &InstallStep, cause: &str) -> (r: Option<InstallError>)
    ensures
        r.deep_view() == failure_of(step@, cause@),
{
    match step {
        InstallStep::CreateDirectory { path } => Some(
            InstallError::CreateDirectory { path: path.clone(), cause: cause.to_owned() },
        ),
        InstallStep::Download { url, path, file_type } => Some(
            InstallError::Download { url: url.clone(), cause: cause.to_owned() },
        ),
        InstallStep::MakeExecutable { path } => Some(
            InstallError::MakeExecutable { path: path.clone(), cause: cause.to_owned() },
        ),
        InstallStep::WriteMarker { path, text } => None,
    }
}

impl InstallError {
    /// The text that reports this error.
    pub fn message(&self) -> (r: String)
        ensures
            r@ == failure_message(self@),
    {
        match self {
            InstallError::CreateDirectory { path, cause } => {
                let mut text = String::from_str("Vulnera: failed to create ");
                text.append(path.as_str());
                text.append("/ directory: ");
                text.append(cause.as_str());
                text
            },
            InstallError::Download { url, cause } => {
                let mut text = String::from_str("Vulnera: download failed for ");
                text.append(url.as_str());
                text.append(": ");
                text.append(cause.as_str());
                text
            },
            InstallError::MakeExecutable { path, cause } => {
                let mut text = String::from_str("Vulnera: chmod +x failed for ");
                text.append(path.as_str());
                text.append(": ");
                text.append(cause.as_str());
                text
            },
        }
    }
}

/// Says where the adapter of `version` is, or how it gets there, given
/// whether the executable is there and what the marker's text is.
pub fn ensure_binary(
    platform: &PlatformInfo,
    version: &str,
    binary_exists: bool,
    marker: Option<&str>,
) -> (r: Ensured)
    ensures
        match r {
            Ensured::Present { path } => {
                &&& !install_needed(binary_exists, version_record(marker.deep_view()), version@)
                &&& path@ == binary_path_of(platform.is_windows)
            },
            Ensured::Install { path, steps } => {
                &&& install_needed(binary_exists, version_record(marker.deep_view()), version@)
                &&& path@ == binary_path_of(platform.is_windows)
                &&& steps.deep_view() == install_steps(platform@, version@)
            },
        },
{
    let path = binary_path(platform);
    let installed = installed_version(marker);
    let needed = match &installed {
        Some(found) => needs_download(binary_exists, Some(found.as_str()), version),
        None => needs_download(binary_exists, None, version),
    };
    if needed {
        Ensured::Install { path, steps: download_binary(platform, version) }
    } else {
        Ensured::Present { path }
    }
}

/// After the steps of an install, the executable is there and the marker
/// names the version.
pub proof fn lemma_install_effect(state: InstallState, platform: Descriptor, version: Seq<char>)
    ensures
        after_steps(state, install_steps(platform, version)) == (InstallState {
            binary_exists: true,
            marker: Some(version),
        }),
{
    let path = binary_path_of(platform.is_windows);
    let s0 = Seq::<Step>::empty();
    let s1 = s0.push(Step::CreateDirectory { path: SERVER_DIR@ });
    let s2 = s1.push(
        Step::Download {
            url: download_url_of(platform.asset_name, version),
            path,
            file_type: FileType::Uncompressed,
        },
    );
    let s3 = if platform.is_windows {
        s2
    } else {
        s2.push(Step::MakeExecutable { path })
    };
    let s4 = s3.push(Step::WriteMarker { path: INSTALLED_VERSION_PATH@, text: version });
    assert(s4 == install_steps(platform, version));
    assert(s1.drop_last() == s0);
    assert(s2.drop_last() == s1);
    assert(s4.drop_last() == s3);
    assert(after_steps(state, s0) == state);
    assert(after_steps(state, s1) == state);
    assert(after_steps(state, s2) == InstallState { binary_exists: true, ..state });
    if !platform.is_windows {
        assert(s3.drop_last() == s2);
    }
    assert(after_steps(state, s3) == InstallState { binary_exists: true, ..state });
}

/// After an install, the marker read back names the version that was
/// installed.
pub proof fn lemma_install_round_trip(state: InstallState, platform: Descriptor, version: Seq<char>)
    requires
        is_version_text(version),
    ensures
        version_record(after_steps(state, install_steps(platform, version)).marker) == Some(
            version,
        ),
{
    lemma_install_effect(state, platform, version);
}

/// After an install, no install of the same version is needed: a second
/// call downloads nothing.
pub proof fn lemma_install_idempotent(state: InstallState, platform: Descriptor, version: Seq<char>)
    requires
        is_version_text(version),
    ensures
        ({
            let after = after_steps(state, install_steps(platform, version));
            !install_needed(after.binary_exists, version_record(after.marker), version)
        }),
{
    lemma_install_effect(state, platform, version);
}

/// Steps among which no marker is written leave the marker as it was.
pub proof fn lemma_marker_kept(state: InstallState, steps: Seq<Step>)
    requires
        forall|i: int| 0 <= i < steps.len() ==> !(#[trigger] steps[i] is WriteMarker),
    ensures
        after_steps(state, steps).marker == state.marker,
    decreases steps.len(),
{
    if steps.len() > 0 {
        lemma_marker_kept(state, steps.drop_last());
    }
}

/// An install that fails at a step whose failure is an error leaves the
/// marker as it was: the directory, the download or the executable bit
/// failed, and the marker is written behind them.
pub proof fn lemma_failed_install_keeps_marker(
    state: InstallState,
    platform: Descriptor,
    version: Seq<char>,
    index: int,
    cause: Seq<char>,
)
    requires
        0 <= index < install_steps(platform, version).len(),
        failure_of(install_steps(platform, version)[index], cause) is Some,
    ensures
        after_failure(state, install_steps(platform, version), index).marker == state.marker,
{
    let steps = install_steps(platform, version);
    assert(steps[0] is CreateDirectory);
    assert(steps[1] is Download);
    assert(steps.last() is WriteMarker);
    assert(index < 3);
    lemma_marker_kept(state, steps.take(index));
}

} // verus!
