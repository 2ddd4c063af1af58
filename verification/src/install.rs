use vstd::pervasive::unreached;
use vstd::prelude::*;
use vstd::string::StringExecFns;

use crate::errors::DriverError;
use crate::platform::platform_target;
use crate::platform::spec_platform_target;
use crate::platform::str_eq;
use crate::platform::PlatformTarget;
use crate::resolve::json_parses;
use crate::resolve::resolve_version_from_body;
use crate::resolve::stable_version_of;
use crate::DriverInfo;

verus! {

/// The fixed metadata endpoint: the "last known good" versions document.
pub const METADATA_URL: &'static str =
    "https://googlechromelabs.github.io/chrome-for-testing/last-known-good-versions.json";

/// The fixed prefix of the archive endpoint; version, platform tag and
/// archive base name are interpolated behind it.
pub const DOWNLOAD_BASE: &'static str =
    "https://edgedl.me.gvt1.com/edgedl/chrome/chrome-for-testing/";

/// The expected local path of the executable:
/// `<out_dir>/<archive base>/<executable name>`. The archive base segment is
/// there because extraction creates a directory of that name.
pub open spec fn spec_driver_path(
    out_dir: Seq<char>,
    zip_name: Seq<char>,
    exec_name: Seq<char>,
) -> Seq<char> {
    out_dir + "/"@ + zip_name + "/"@ + exec_name
}

/// The remote archive URL:
/// `<base><version>/<platform tag>/<archive base>.zip`.
pub open spec fn spec_download_url(
    version: Seq<char>,
    platform: Seq<char>,
    zip_name: Seq<char>,
) -> Seq<char> {
    DOWNLOAD_BASE@ + version + "/"@ + platform + "/"@ + zip_name + ".zip"@
}

/// Compute the expected local path of the executable for an output
/// directory and a platform triple.
pub fn driver_path(out_dir: &str, target: &PlatformTarget) -> (r: String)
    ensures
        r@ == spec_driver_path(out_dir@, target.zip_name@, target.exec_name@),
{
    let mut s = String::from_str(out_dir);
    s.append("/");
    s.append(target.zip_name.as_str());
    s.append("/");
    s.append(target.exec_name.as_str());
    s
}

/// Build the remote archive URL for a resolved version and a platform
/// triple.
pub fn download_url(version: &str, target: &PlatformTarget) -> (r: String)
    ensures
        r@ == spec_download_url(version@, target.platform@, target.zip_name@),
{
    let mut s = String::from_str(DOWNLOAD_BASE);
    s.append(version);
    s.append("/");
    s.append(target.platform.as_str());
    s.append("/");
    s.append(target.zip_name.as_str());
    s.append(".zip");
    s
}

/// What the flow asks its caller to perform next. The caller carries the
/// action out and reports the outcome back as the matching [`Event`].
pub enum Action {
    /// Perform an HTTP GET of `url` and hand the response body back as text.
    FetchText { url: String },
    /// Report whether a filesystem entry exists at `path`.
    CheckExists { path: String },
    /// Perform an HTTP GET of `url` and hand the response body back as bytes.
    FetchBytes { url: String },
    /// Create the directory `dir`, with its parents, if it is missing.
    EnsureDir { dir: String },
    /// Decode `archive` as a zip container and extract every entry into
    /// `dir`, preserving the archive's internal directory structure.
    Unzip { archive: Vec<u8>, dir: String },
    /// Mark the file at `path` executable, mode 0755; POSIX systems only.
    SetExecutable { path: String },
    /// The install is over with this outcome; nothing more to perform.
    Finish { result: Result<DriverInfo, DriverError> },
}

/// The caller's report on the action it performed. The `Err` side of each
/// fallible outcome carries the collaborator's own message for diagnostics.
pub enum Event {
    /// The body fetched for [`Action::FetchText`], or the network failure.
    TextFetched { result: Result<String, String> },
    /// The answer to [`Action::CheckExists`].
    ExistsChecked { found: bool },
    /// The bytes fetched for [`Action::FetchBytes`], or the network failure.
    BytesFetched { result: Result<Vec<u8>, String> },
    /// The outcome of [`Action::EnsureDir`].
    DirEnsured { result: Result<(), String> },
    /// The outcome of [`Action::Unzip`].
    Unzipped { result: Result<(), String> },
    /// The outcome of [`Action::SetExecutable`].
    ExecutableSet { result: Result<(), String> },
}

/// The state of one install run between two actions. Control flow is
/// strictly sequential: resolve, map, check, and only when the executable is
/// absent download, extract and repair permissions.
pub enum Flow {
    /// Waiting for the metadata document.
    ResolvingVersion { out_dir: String, os: String, arch: String },
    /// Waiting for the existence check at `path`.
    CheckingInstalled { out_dir: String, version: String, target: PlatformTarget, path: String },
    /// Waiting for the archive bytes.
    Downloading { out_dir: String, version: String, target: PlatformTarget, path: String },
    /// Waiting for the output directory to exist.
    PreparingDir {
        out_dir: String,
        version: String,
        target: PlatformTarget,
        path: String,
        archive: Vec<u8>,
    },
    /// Waiting for the extraction into the output directory.
    Extracting { version: String, target: PlatformTarget, path: String },
    /// Waiting for the permission repair on the extracted executable.
    RepairingPermissions { version: String, path: String },
    /// The flow has finished; no further event is expected.
    Finished,
}

/// Which event a state is waiting for: the one that answers the action the
/// flow handed out when it entered that state.
pub open spec fn awaited_event(f: Flow, e: Event) -> bool {
    match (f, e) {
        (Flow::ResolvingVersion { .. }, Event::TextFetched { .. }) => true,
        (Flow::CheckingInstalled { .. }, Event::ExistsChecked { .. }) => true,
        (Flow::Downloading { .. }, Event::BytesFetched { .. }) => true,
        (Flow::PreparingDir { .. }, Event::DirEnsured { .. }) => true,
        (Flow::Extracting { .. }, Event::Unzipped { .. }) => true,
        (Flow::RepairingPermissions { .. }, Event::ExecutableSet { .. }) => true,
        _ => false,
    }
}

/// The flow is over, with this classified error.
pub open spec fn finished_with_error(post: Flow, action: Action, err: DriverError) -> bool {
    &&& post is Finished
    &&& action == (Action::Finish { result: Err(err) })
}

/// The flow is over, successfully, with the descriptor for this path and
/// version.
pub open spec fn finished_with_info(
    post: Flow,
    action: Action,
    path: String,
    version: String,
) -> bool {
    &&& post is Finished
    &&& match action {
        Action::Finish { result } => match result {
            Ok(info) => info.driver_path == path && info.version == version,
            Err(_) => false,
        },
        _ => false,
    }
}

/// The full transition relation of the install flow: relates a state and the
/// event that arrived to the successor state and the action handed out.
pub open spec fn flow_steps_to(pre: Flow, event: Event, post: Flow, action: Action) -> bool {
    match (pre, event) {
        (
            Flow::ResolvingVersion { out_dir, os, arch },
            Event::TextFetched { result },
        ) => match result {
            Err(detail) => finished_with_error(
                post,
                action,
                DriverError::NetworkError { detail },
            ),
            Ok(body) => {
                if !json_parses(body@) {
                    finished_with_error(post, action, DriverError::ParseError)
                } else {
                    match stable_version_of(body@) {
                        None => finished_with_error(
                            post,
                            action,
                            DriverError::MissingFieldError,
                        ),
                        Some(version) => match spec_platform_target(os@, arch@) {
                            None => {
                                &&& post is Finished
                                &&& match action {
                                    Action::Finish { result } => match result {
                                        Err(e) => e matches
                                            DriverError::UnsupportedPlatformError { os: o }
                                            && o@ == os@,
                                        Ok(_) => false,
                                    },
                                    _ => false,
                                }
                            },
                            Some(triple) => {
                                &&& match post {
                                    Flow::CheckingInstalled {
                                        out_dir: o,
                                        version: v,
                                        target: t,
                                        path: p,
                                    } => {
                                        &&& o == out_dir
                                        &&& v@ == version
                                        &&& t.view_triple() == triple
                                        &&& p@ == spec_driver_path(out_dir@, triple.2, triple.1)
                                    },
                                    _ => false,
                                }
                                &&& match action {
                                    Action::CheckExists { path: p } => p@ == spec_driver_path(
                                        out_dir@,
                                        triple.2,
                                        triple.1,
                                    ),
                                    _ => false,
                                }
                            },
                        },
                    }
                }
            },
        },
        (
            Flow::CheckingInstalled { out_dir, version, target, path },
            Event::ExistsChecked { found },
        ) => {
            if found {
                finished_with_info(post, action, path, version)
            } else {
                &&& post == (Flow::Downloading { out_dir, version, target, path })
                &&& match action {
                    Action::FetchBytes { url } => url@ == spec_download_url(
                        version@,
                        target.platform@,
                        target.zip_name@,
                    ),
                    _ => false,
                }
            }
        },
        (
            Flow::Downloading { out_dir, version, target, path },
            Event::BytesFetched { result },
        ) => match result {
            Err(detail) => finished_with_error(
                post,
                action,
                DriverError::NetworkError { detail },
            ),
            Ok(bytes) => {
                &&& post == (Flow::PreparingDir { out_dir, version, target, path, archive: bytes })
                &&& match action {
                    Action::EnsureDir { dir } => dir@ == out_dir@,
                    _ => false,
                }
            },
        },
        (
            Flow::PreparingDir { out_dir, version, target, path, archive },
            Event::DirEnsured { result },
        ) => match result {
            Err(detail) => finished_with_error(
                post,
                action,
                DriverError::FilesystemError { detail },
            ),
            Ok(_) => {
                &&& post == (Flow::Extracting { version, target, path })
                &&& action == (Action::Unzip { archive, dir: out_dir })
            },
        },
        (Flow::Extracting { version, target, path }, Event::Unzipped { result }) => match result {
            Err(detail) => finished_with_error(post, action, DriverError::ArchiveError { detail }),
            Ok(_) => {
                if target.platform@ == "win64"@ {
                    finished_with_info(post, action, path, version)
                } else {
                    &&& post == (Flow::RepairingPermissions { version, path })
                    &&& match action {
                        Action::SetExecutable { path: p } => p == path,
                        _ => false,
                    }
                }
            },
        },
        (
            Flow::RepairingPermissions { version, path },
            Event::ExecutableSet { result },
        ) => match result {
            Err(detail) => finished_with_error(
                post,
                action,
                DriverError::FilesystemError { detail },
            ),
            Ok(_) => finished_with_info(post, action, path, version),
        },
        _ => false,
    }
}

impl Flow {
    /// Start the whole install for an output directory on the given
    /// operating system and architecture. The first action fetches the
    /// metadata document; the version is resolved out of what comes back.
    pub fn start(out_dir: String, os: String, arch: String) -> (r: (Flow, Action))
        ensures
            r.0 == (Flow::ResolvingVersion { out_dir, os, arch }),
            r.1 matches Action::FetchText { url } && url@ == METADATA_URL@,
    {
        let url = String::from_str(METADATA_URL);
        (Flow::ResolvingVersion { out_dir, os, arch }, Action::FetchText { url })
    }

    /// Start at the Installer step, the version and platform already
    /// resolved. The first action checks whether the executable is already
    /// present at the computed path.
    pub fn installer(out_dir: String, version: String, target: PlatformTarget) -> (r: (
        Flow,
        Action,
    ))
        ensures
            r.0 matches Flow::CheckingInstalled { out_dir: o, version: v, target: t, path: p }
                && o == out_dir && v == version && t == target && p@ == spec_driver_path(
                out_dir@,
                target.zip_name@,
                target.exec_name@,
            ),
            r.1 matches Action::CheckExists { path: p } && p@ == spec_driver_path(
                out_dir@,
                target.zip_name@,
                target.exec_name@,
            ),
    {
        let path = driver_path(out_dir.as_str(), &target);
        let probe = path.clone();
        (
            Flow::CheckingInstalled { out_dir, version, target, path },
            Action::CheckExists { path: probe },
        )
    }

    /// Take one step: consume the event that answers the pending action and
    /// hand out the successor state with the next action, exactly as
    /// [`flow_steps_to`] relates them.
    pub fn step(self, event: Event) -> (r: (Flow, Action))
        requires
            awaited_event(self, event),
        ensures
            flow_steps_to(self, event, r.0, r.1),
    {
        match (self, event) {
            (
                Flow::ResolvingVersion { out_dir, os, arch },
                Event::TextFetched { result },
            ) => match result {
                Err(detail) => (
                    Flow::Finished,
                    Action::Finish { result: Err(DriverError::NetworkError { detail }) },
                ),
                Ok(body) => match resolve_version_from_body(body.as_str()) {
                    Err(e) => (Flow::Finished, Action::Finish { result: Err(e) }),
                    Ok(version) => match platform_target(os.as_str(), arch.as_str()) {
                        Err(e) => (Flow::Finished, Action::Finish { result: Err(e) }),
                        Ok(target) => {
                            let path = driver_path(out_dir.as_str(), &target);
                            let probe = path.clone();
                            (
                                Flow::CheckingInstalled { out_dir, version, target, path },
                                Action::CheckExists { path: probe },
                            )
                        },
                    },
                },
            },
            (
                Flow::CheckingInstalled { out_dir, version, target, path },
                Event::ExistsChecked { found },
            ) => {
                if found {
                    (
                        Flow::Finished,
                        Action::Finish {
                            result: Ok(DriverInfo { driver_path: path, version }),
                        },
                    )
                } else {
                    let url = download_url(version.as_str(), &target);
                    (
                        Flow::Downloading { out_dir, version, target, path },
                        Action::FetchBytes { url },
                    )
                }
            },
            (
                Flow::Downloading { out_dir, version, target, path },
                Event::BytesFetched { result },
            ) => match result {
                Err(detail) => (
                    Flow::Finished,
                    Action::Finish { result: Err(DriverError::NetworkError { detail }) },
                ),
                Ok(bytes) => {
                    let dir = out_dir.clone();
                    (
                        Flow::PreparingDir { out_dir, version, target, path, archive: bytes },
                        Action::EnsureDir { dir },
                    )
                },
            },
            (
                Flow::PreparingDir { out_dir, version, target, path, archive },
                Event::DirEnsured { result },
            ) => match result {
                Err(detail) => (
                    Flow::Finished,
                    Action::Finish { result: Err(DriverError::FilesystemError { detail }) },
                ),
                Ok(_) => (
                    Flow::Extracting { version, target, path },
                    Action::Unzip { archive, dir: out_dir },
                ),
            },
            (
                Flow::Extracting { version, target, path },
                Event::Unzipped { result },
            ) => match result {
                Err(detail) => (
                    Flow::Finished,
                    Action::Finish { result: Err(DriverError::ArchiveError { detail }) },
                ),
                Ok(_) => {
                    if str_eq(target.platform.as_str(), "win64") {
                        (
                            Flow::Finished,
                            Action::Finish {
                                result: Ok(DriverInfo { driver_path: path, version }),
                            },
                        )
                    } else {
                        let p = path.clone();
                        (
                            Flow::RepairingPermissions { version, path },
                            Action::SetExecutable { path: p },
                        )
                    }
                },
            },
            (
                Flow::RepairingPermissions { version, path },
                Event::ExecutableSet { result },
            ) => match result {
                Err(detail) => (
                    Flow::Finished,
                    Action::Finish { result: Err(DriverError::FilesystemError { detail }) },
                ),
                Ok(_) => (
                    Flow::Finished,
                    Action::Finish { result: Ok(DriverInfo { driver_path: path, version }) },
                ),
            },
            _ => unreached(),
        }
    }
}

/// The descriptor a finished flow hands back, if the action is a successful
/// `Finish`.
pub open spec fn finish_descriptor(action: Action) -> Option<DriverInfo> {
    match action {
        Action::Finish { result } => match result {
            Ok(info) => Some(info),
            Err(_) => None,
        },
        _ => None,
    }
}

/// Law (path determinism): the computed driver path is a function of the
/// output directory and the platform triple alone; two computations over
/// equal inputs yield the identical character sequence.
pub proof fn lemma_driver_path_deterministic(
    out_a: Seq<char>,
    zip_a: Seq<char>,
    exe_a: Seq<char>,
    out_b: Seq<char>,
    zip_b: Seq<char>,
    exe_b: Seq<char>,
)
    requires
        out_a == out_b,
        zip_a == zip_b,
        exe_a == exe_b,
    ensures
        spec_driver_path(out_a, zip_a, exe_a) == spec_driver_path(out_b, zip_b, exe_b),
{
}

/// Law (idempotent install): when the existence check finds the executable
/// already present, the flow finishes at once. The only action it may hand
/// out is `Finish` with the descriptor for the checked path and the resolved
/// version — in particular neither fetch action, so the run performs no
/// network request beyond what preceded the check.
pub proof fn lemma_install_idempotent(
    out_dir: String,
    version: String,
    target: PlatformTarget,
    path: String,
    post: Flow,
    action: Action,
)
    requires
        flow_steps_to(
            (Flow::CheckingInstalled { out_dir, version, target, path }),
            (Event::ExistsChecked { found: true }),
            post,
            action,
        ),
    ensures
        post is Finished,
        finish_descriptor(action) matches Some(info) && info.driver_path == path
            && info.version == version,
        !(action is FetchBytes),
        !(action is FetchText),
{
}

/// Law (identical descriptors): two runs that reach the existence check with
/// the same output directory, platform triple, resolved version and computed
/// path, and both find the executable present, hand back identical
/// descriptors.
pub proof fn lemma_repeated_install_identical(
    out_dir: String,
    version: String,
    target: PlatformTarget,
    path: String,
    post_a: Flow,
    action_a: Action,
    post_b: Flow,
    action_b: Action,
)
    requires
        flow_steps_to(
            (Flow::CheckingInstalled { out_dir, version, target, path }),
            (Event::ExistsChecked { found: true }),
            post_a,
            action_a,
        ),
        flow_steps_to(
            (Flow::CheckingInstalled { out_dir, version, target, path }),
            (Event::ExistsChecked { found: true }),
            post_b,
            action_b,
        ),
    ensures
        finish_descriptor(action_a) is Some,
        finish_descriptor(action_a) == finish_descriptor(action_b),
{
}

} // verus!
