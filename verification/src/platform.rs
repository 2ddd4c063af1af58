use vstd::prelude::*;
use vstd::string::StringExecFns;

use crate::errors::DriverError;

verus! {

/// The artifact triple for one supported platform: the remote platform tag,
/// the executable file name, and the archive base name (the base is both the
/// remote artifact's file-name stem and the top-level directory inside the
/// extracted archive).
#[derive(Debug)]
pub struct PlatformTarget {
    pub platform: String,
    pub exec_name: String,
    pub zip_name: String,
}

impl PlatformTarget {
    /// The triple as the specification-level value the contracts speak of:
    /// (platform tag, executable name, archive base name).
    pub open spec fn view_triple(self) -> (Seq<char>, Seq<char>, Seq<char>) {
        (self.platform@, self.exec_name@, self.zip_name@)
    }
}

/// The documented platform mapping: macOS on 64-bit ARM, macOS on any other
/// architecture, and Windows on any architecture each map to their fixed
/// triple; every other operating system is unsupported.
pub open spec fn spec_platform_target(os: Seq<char>, arch: Seq<char>) -> Option<
    (Seq<char>, Seq<char>, Seq<char>),
> {
    if os == "macos"@ {
        if arch == "aarch64"@ {
            Some(("mac-arm64"@, "chromedriver"@, "chromedriver-mac-arm64"@))
        } else {
            Some(("mac-x64"@, "chromedriver"@, "chromedriver-mac-x64"@))
        }
    } else if os == "windows"@ {
        Some(("win64"@, "chromedriver.exe"@, "chromedriver-win64"@))
    } else {
        None
    }
}

/// String-slice equality, decided through `String`'s specified `==`.
pub(crate) fn str_eq(a: &str, b: &str) -> (r: bool)
    ensures
        r == (a@ == b@),
{
    let sa = String::from_str(a);
    let sb = String::from_str(b);
    sa.eq(&sb)
}

/// The Platform Mapper: derives the artifact triple from the running
/// operating system and CPU architecture identifiers, or reports the
/// operating system as unsupported, carrying its identifier for diagnostics.
pub fn platform_target(os: &str, arch: &str) -> (r: Result<PlatformTarget, DriverError>)
    ensures
        match r {
            Ok(t) => spec_platform_target(os@, arch@) == Some(t.view_triple()),
            Err(e) => e matches DriverError::UnsupportedPlatformError { os: o } && o@ == os@
                && spec_platform_target(os@, arch@) is None,
        },
{
    if str_eq(os, "macos") {
        if str_eq(arch, "aarch64") {
            Ok(
                PlatformTarget {
                    platform: String::from_str("mac-arm64"),
                    exec_name: String::from_str("chromedriver"),
                    zip_name: String::from_str("chromedriver-mac-arm64"),
                },
            )
        } else {
            Ok(
                PlatformTarget {
                    platform: String::from_str("mac-x64"),
                    exec_name: String::from_str("chromedriver"),
                    zip_name: String::from_str("chromedriver-mac-x64"),
                },
            )
        }
    } else if str_eq(os, "windows") {
        Ok(
            PlatformTarget {
                platform: String::from_str("win64"),
                exec_name: String::from_str("chromedriver.exe"),
                zip_name: String::from_str("chromedriver-win64"),
            },
        )
    } else {
        Err(DriverError::UnsupportedPlatformError { os: String::from_str(os) })
    }
}

} // verus!
