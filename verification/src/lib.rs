//! Keeps a platform-appropriate, version-current browser-automation driver
//! binary present on disk, downloading and unpacking it only when necessary.
//!
//! The library is the decision core of the install routine: it resolves the
//! stable version out of the metadata document, maps the running platform to
//! its artifact triple, computes the expected on-disk path and the download
//! URL, and drives the install as a step-by-step flow. Each step hands the
//! caller an [`install::Action`] (fetch this URL, unzip into this directory,
//! ...); the caller performs it and reports back an [`install::Event`]. The
//! network, the filesystem and the archive decoder thus stay outside the
//! verified core, while every decision between them is verified.

use vstd::prelude::*;

pub mod errors;
pub mod install;
pub mod platform;
pub mod probe;
pub mod resolve;

verus! {

/// Information about the installed driver: the sole output of a successful
/// install.
pub struct DriverInfo {
    /// Path to the driver executable, `<out_dir>/<archive base>/<executable>`.
    pub driver_path: String,
    /// The installed version, as resolved from the metadata document.
    pub version: String,
}

} // verus!
