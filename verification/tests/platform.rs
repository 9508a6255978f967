use vulnera_zed::platform::{resolve_platform, Architecture, Os, PlatformInfo, UnsupportedPlatform};

#[test]
fn linux_x86_64_is_supported() {
    assert_eq!(
        resolve_platform(Os::Linux, Architecture::X8664),
        Ok(PlatformInfo {
            target_triple: "x86_64-unknown-linux-gnu",
            asset_name: "vulnera-adapter-x86_64-unknown-linux-gnu",
            is_windows: false,
        })
    );
}

#[test]
fn linux_aarch64_is_supported() {
    assert_eq!(
        resolve_platform(Os::Linux, Architecture::Aarch64),
        Ok(PlatformInfo {
            target_triple: "aarch64-unknown-linux-gnu",
            asset_name: "vulnera-adapter-aarch64-unknown-linux-gnu",
            is_windows: false,
        })
    );
}

#[test]
fn mac_x86_64_is_supported() {
    assert_eq!(
        resolve_platform(Os::Mac, Architecture::X8664),
        Ok(PlatformInfo {
            target_triple: "x86_64-apple-darwin",
            asset_name: "vulnera-adapter-x86_64-apple-darwin",
            is_windows: false,
        })
    );
}

#[test]
fn mac_aarch64_is_supported() {
    assert_eq!(
        resolve_platform(Os::Mac, Architecture::Aarch64),
        Ok(PlatformInfo {
            target_triple: "aarch64-apple-darwin",
            asset_name: "vulnera-adapter-aarch64-apple-darwin",
            is_windows: false,
        })
    );
}

#[test]
fn windows_x86_64_is_supported() {
    assert_eq!(
        resolve_platform(Os::Windows, Architecture::X8664),
        Ok(PlatformInfo {
            target_triple: "x86_64-pc-windows-msvc",
            asset_name: "vulnera-adapter-x86_64-pc-windows-msvc.exe",
            is_windows: true,
        })
    );
}

#[test]
fn every_pair_is_supported_with_names_or_refused() {
    let systems = [Os::Mac, Os::Linux, Os::Windows];
    let architectures = [Architecture::Aarch64, Architecture::X86, Architecture::X8664];
    let mut supported = 0;
    for os in systems {
        for arch in architectures {
            match resolve_platform(os, arch) {
                Ok(platform) => {
                    supported += 1;
                    assert!(!platform.target_triple.is_empty());
                    assert!(!platform.asset_name.is_empty());
                    assert_ne!(arch, Architecture::X86);
                }
                Err(error) => assert_eq!(error, UnsupportedPlatform { os, arch }),
            }
        }
    }
    assert_eq!(supported, 5);
}

#[test]
fn unsupported_pairs_are_refused() {
    assert!(resolve_platform(Os::Windows, Architecture::Aarch64).is_err());
    assert!(resolve_platform(Os::Windows, Architecture::X86).is_err());
    assert!(resolve_platform(Os::Linux, Architecture::X86).is_err());
    assert!(resolve_platform(Os::Mac, Architecture::X86).is_err());
}

#[test]
fn unsupported_platform_message_names_the_pair_and_the_way_out() {
    let error = UnsupportedPlatform { os: Os::Linux, arch: Architecture::X86 };
    assert_eq!(
        error.message(),
        "Vulnera: unsupported platform (Os::Linux / Architecture::X86). Build vulnera-adapter from source and set VULNERA_ADAPTER_PATH."
    );
    let other = UnsupportedPlatform { os: Os::Windows, arch: Architecture::Aarch64 };
    assert_eq!(
        other.message(),
        "Vulnera: unsupported platform (Os::Windows / Architecture::Aarch64). Build vulnera-adapter from source and set VULNERA_ADAPTER_PATH."
    );
}

#[test]
fn names_of_systems_and_architectures() {
    assert_eq!(Os::Mac.name(), "Os::Mac");
    assert_eq!(Os::Linux.name(), "Os::Linux");
    assert_eq!(Os::Windows.name(), "Os::Windows");
    assert_eq!(Architecture::Aarch64.name(), "Architecture::Aarch64");
    assert_eq!(Architecture::X86.name(), "Architecture::X86");
    assert_eq!(Architecture::X8664.name(), "Architecture::X8664");
}
