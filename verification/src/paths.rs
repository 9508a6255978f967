//! Where the adapter and the records about it are kept, relative to the
//! host's working directory.

use crate::platform::PlatformInfo;
use vstd::prelude::*;

verus! {

/// The directory that holds the adapter and the records.
pub const SERVER_DIR: &'static str = "server";

/// The path of the record that names the installed version.
pub const INSTALLED_VERSION_PATH: &'static str = "server/installed-version.txt";

/// The path of the record that names the latest known version.
pub const CACHED_VERSION_PATH: &'static str = "server/cached-version.txt";

/// The path of the record that says when the latest known version was
/// fetched.
pub const CACHED_TIMESTAMP_PATH: &'static str = "server/cached-version-timestamp.txt";

/// The path of the adapter on a platform with or without the `.exe` suffix.
pub open spec fn binary_path_of(is_windows: bool) -> Seq<char> {
    if is_windows {
        "server/vulnera-adapter.exe"@
    } else {
        "server/vulnera-adapter"@
    }
}

/// The path of the adapter's executable.
pub fn binary_path(platform: &PlatformInfo) -> (r: String)
    ensures
        r@ == binary_path_of(platform.is_windows),
{
    if platform.is_windows {
        "server/vulnera-adapter.exe".to_owned()
    } else {
        "server/vulnera-adapter".to_owned()
    }
}

/// The path of the record that names the installed version.
pub fn installed_version_path() -> (r: &'static str)
    ensures
        r@ == INSTALLED_VERSION_PATH@,
{
    INSTALLED_VERSION_PATH
}

/// The path of the record that names the latest known version.
pub fn cached_latest_version_path() -> (r: &'static str)
    ensures
        r@ == CACHED_VERSION_PATH@,
{
    CACHED_VERSION_PATH
}

/// The path of the record that says when the latest known version was
/// fetched.
pub fn cached_version_timestamp_path() -> (r: &'static str)
    ensures
        r@ == CACHED_TIMESTAMP_PATH@,
{
    CACHED_TIMESTAMP_PATH
}

} // verus!
