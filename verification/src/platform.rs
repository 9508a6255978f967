//! The platform resolver: from operating system and architecture to the
//! release asset built for them.

use vstd::prelude::*;

verus! {

/// An operating system.
#[derive(Clone, Copy, Debug, PartialEq, Eq, Structural)]
pub enum Os {
    Mac,
    Linux,
    Windows,
}

/// A processor architecture.
#[derive(Clone, Copy, Debug, PartialEq, Eq, Structural)]
pub enum Architecture {
    Aarch64,
    X86,
    X8664,
}

/// What is known of a supported platform.
#[derive(Clone, Copy, Debug, PartialEq, Eq)]
pub struct PlatformInfo {
    /// The target triple, such as `x86_64-unknown-linux-gnu`.
    pub target_triple: &'static str,
    /// The file name of the release asset.
    pub asset_name: &'static str,
    /// Whether executables carry the suffix `.exe`.
    pub is_windows: bool,
}

/// The model of a `PlatformInfo`.
pub struct Descriptor {
    pub target_triple: Seq<char>,
    pub asset_name: Seq<char>,
    pub is_windows: bool,
}

impl View for PlatformInfo {
    type V = Descriptor;

    open spec fn view(&self) -> Descriptor {
        Descriptor {
            target_triple: self.target_triple@,
            asset_name: self.asset_name@,
            is_windows: self.is_windows,
        }
    }
}

impl DeepView for PlatformInfo {
    type V = Descriptor;

    open spec fn deep_view(&self) -> Descriptor {
        self.view()
    }
}

/// A platform for which no adapter is published.
#[derive(Clone, Copy, Debug, PartialEq, Eq, Structural)]
pub struct UnsupportedPlatform {
    pub os: Os,
    pub arch: Architecture,
}

/// The pairs for which an adapter is published.
pub open spec fn is_supported(os: Os, arch: Architecture) -> bool {
    match (os, arch) {
        (Os::Linux, Architecture::X8664) => true,
        (Os::Linux, Architecture::Aarch64) => true,
        (Os::Mac, Architecture::X8664) => true,
        (Os::Mac, Architecture::Aarch64) => true,
        (Os::Windows, Architecture::X8664) => true,
        _ => false,
    }
}

/// The descriptor of each supported pair.
pub open spec fn descriptor_of(os: Os, arch: Architecture) -> Option<Descriptor> {
    match (os, arch) {
        (Os::Linux, Architecture::X8664) => Some(
            Descriptor {
                target_triple: "x86_64-unknown-linux-gnu"@,
                asset_name: "vulnera-adapter-x86_64-unknown-linux-gnu"@,
                is_windows: false,
            },
        ),
        (Os::Linux, Architecture::Aarch64) => Some(
            Descriptor {
                target_triple: "aarch64-unknown-linux-gnu"@,
                asset_name: "vulnera-adapter-aarch64-unknown-linux-gnu"@,
                is_windows: false,
            },
        ),
        (Os::Mac, Architecture::X8664) => Some(
            Descriptor {
                target_triple: "x86_64-apple-darwin"@,
                asset_name: "vulnera-adapter-x86_64-apple-darwin"@,
                is_windows: false,
            },
        ),
        (Os::Mac, Architecture::Aarch64) => Some(
            Descriptor {
                target_triple: "aarch64-apple-darwin"@,
                asset_name: "vulnera-adapter-aarch64-apple-darwin"@,
                is_windows: false,
            },
        ),
        (Os::Windows, Architecture::X8664) => Some(
            Descriptor {
                target_triple: "x86_64-pc-windows-msvc"@,
                asset_name: "vulnera-adapter-x86_64-pc-windows-msvc.exe"@,
                is_windows: true,
            },
        ),
        _ => None,
    }
}

/// The name under which an operating system is reported.
pub open spec fn os_name(os: Os) -> Seq<char> {
    match os {
        Os::Mac => "Os::Mac"@,
        Os::Linux => "Os::Linux"@,
        Os::Windows => "Os::Windows"@,
    }
}

/// The name under which an architecture is reported.
pub open spec fn arch_name(arch: Architecture) -> Seq<char> {
    match arch {
        Architecture::Aarch64 => "Architecture::Aarch64"@,
        Architecture::X86 => "Architecture::X86"@,
        Architecture::X8664 => "Architecture::X8664"@,
    }
}

/// The text that reports an unsupported platform: it names the pair and
/// the way out, a build from source and an explicit path.
pub open spec fn unsupported_message(os: Os, arch: Architecture) -> Seq<char> {
    "Vulnera: unsupported platform ("@ + os_name(os) + " / "@ + arch_name(arch)
        + "). Build vulnera-adapter from source and set VULNERA_ADAPTER_PATH."@
}

impl Os {
    /// The name under which this operating system is reported.
    pub fn name(&self) -> (r: &'static str)
        ensures
            r@ == os_name(*self),
    {
        match self {
            Os::Mac => "Os::Mac",
            Os::Linux => "Os::Linux",
            Os::Windows => "Os::Windows",
        }
    }
}

impl Architecture {
    /// The name under which this architecture is reported.
    pub fn name(&self) -> (r: &'static str)
        ensures
            r@ == arch_name(*self),
    {
        match self {
            Architecture::Aarch64 => "Architecture::Aarch64",
            Architecture::X86 => "Architecture::X86",
            Architecture::X8664 => "Architecture::X8664",
        }
    }
}

impl UnsupportedPlatform {
    /// The text that reports this error.
    pub fn message(&self) -> (r: String)
        ensures
            r@ == unsupported_message(self.os, self.arch),
    {
        let mut text = String::from_str("Vulnera: unsupported platform (");
        text.append(self.os.name());
        text.append(" / ");
        text.append(self.arch.name());
        text.append("). Build vulnera-adapter from source and set VULNERA_ADAPTER_PATH.");
        text
    }
}

/// Maps an operating system and an architecture to the descriptor of the
/// adapter built for them.
pub fn resolve_platform(os: Os, arch: Architecture) -> (r: Result<PlatformInfo, UnsupportedPlatform>)
    ensures
        r is Ok <==> is_supported(os, arch),
        match r {
            Ok(platform) => descriptor_of(os, arch) == Some(platform@),
            Err(error) => descriptor_of(os, arch) is None && error == (UnsupportedPlatform {
                os,
                arch,
            }),
        },
{
    match (os, arch) {
        (Os::Linux, Architecture::X8664) => Ok(
            PlatformInfo {
                target_triple: "x86_64-unknown-linux-gnu",
                asset_name: "vulnera-adapter-x86_64-unknown-linux-gnu",
                is_windows: false,
            },
        ),
        (Os::Linux, Architecture::Aarch64) => Ok(
            PlatformInfo {
                target_triple: "aarch64-unknown-linux-gnu",
                asset_name: "vulnera-adapter-aarch64-unknown-linux-gnu",
                is_windows: false,
            },
        ),
        (Os::Mac, Architecture::X8664) => Ok(
            PlatformInfo {
                target_triple: "x86_64-apple-darwin",
                asset_name: "vulnera-adapter-x86_64-apple-darwin",
                is_windows: false,
            },
        ),
        (Os::Mac, Architecture::Aarch64) => Ok(
            PlatformInfo {
                target_triple: "aarch64-apple-darwin",
                asset_name: "vulnera-adapter-aarch64-apple-darwin",
                is_windows: false,
            },
        ),
        (Os::Windows, Architecture::X8664) => Ok(
            PlatformInfo {
                target_triple: "x86_64-pc-windows-msvc",
                asset_name: "vulnera-adapter-x86_64-pc-windows-msvc.exe",
                is_windows: true,
            },
        ),
        _ => Err(UnsupportedPlatform { os, arch }),
    }
}

/// Every supported pair has a descriptor, whose target triple and asset
/// name are not empty, and no other pair has one.
pub proof fn lemma_descriptors(os: Os, arch: Architecture)
    ensures
        descriptor_of(os, arch) is Some <==> is_supported(os, arch),
        descriptor_of(os, arch) matches Some(d) ==> d.target_triple.len() > 0 && d.asset_name.len()
            > 0,
{
    reveal_strlit("x86_64-unknown-linux-gnu");
    reveal_strlit("vulnera-adapter-x86_64-unknown-linux-gnu");
    reveal_strlit("aarch64-unknown-linux-gnu");
    reveal_strlit("vulnera-adapter-aarch64-unknown-linux-gnu");
    reveal_strlit("x86_64-apple-darwin");
    reveal_strlit("vulnera-adapter-x86_64-apple-darwin");
    reveal_strlit("aarch64-apple-darwin");
    reveal_strlit("vulnera-adapter-aarch64-apple-darwin");
    reveal_strlit("x86_64-pc-windows-msvc");
    reveal_strlit("vulnera-adapter-x86_64-pc-windows-msvc.exe");
}

} // verus!
