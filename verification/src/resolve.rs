//! Resolution of the language-server toolchain, as a state machine of pure
//! decisions. The host drives it: `begin_resolution` opens a resolution and
//! every answer to the returned action is handed back through `step`, which
//! says what to do next. The model of every transition is `next`; the laws
//! at the end of this file state the policies the machine keeps.
//!
//! One resolution ensures, in order: the language server is present at its
//! pinned version (an install failure is swallowed when a usable binary is
//! on disk afterward); the TypeScript SDK is present and current, unless the
//! project declares its own `typescript` dependency, in which case the
//! session's relative default path is kept (a manifest that does not parse
//! is fatal); and the companion plugin is at its latest version, failures
//! here being fatal. A resolved SDK path is committed to the session only
//! when the whole resolution succeeds.

use crate::manifest::{has_dependency, manifest_declares, parsed_manifest};
use crate::packages::{
    pinned_server_version, server_package, server_path, spec_pinned_server_version,
    spec_server_package, spec_server_path, spec_ts_plugin_package, spec_typescript_package,
    spec_typescript_tsdk_path, ts_plugin_package, typescript_package, typescript_tsdk_path,
};
use crate::paths::{join_path, joined_path, sanitize_windows_path, sanitized_path, Os};
use vstd::prelude::*;

verus! {

/// Per-activation state: whether a resolution has located the server in this
/// session, and the SDK path resolved so far (initially the bundled relative
/// default).
pub struct Session {
    pub server_located: bool,
    pub sdk_path: String,
}

/// The view of a session.
pub struct SessionView {
    pub server_located: bool,
    pub sdk_path: Seq<char>,
}

impl View for Session {
    type V = SessionView;

    open spec fn view(&self) -> SessionView {
        SessionView { server_located: self.server_located, sdk_path: self.sdk_path@ }
    }
}

impl Session {
    /// A fresh session: the server not yet located, the SDK path the bundled
    /// relative default.
    pub fn new() -> (s: Session)
        ensures
            s@.server_located == false,
            s@.sdk_path == spec_typescript_tsdk_path(),
    {
        Session { server_located: false, sdk_path: typescript_tsdk_path().to_owned() }
    }
}

/// Where a resolution stands: which answer it is waiting for.
pub enum Phase {
    /// Awaiting the probe for the server binary.
    Probe,
    /// Awaiting the installed version of the language server.
    PrimaryVersion,
    /// Awaiting the outcome of installing the language server.
    PrimaryInstall,
    /// Awaiting the re-probe for the server binary after an install.
    PostInstallProbe { install_error: Option<String> },
    /// Awaiting the project manifest text.
    ManifestCheck,
    /// Awaiting the installed version of the TypeScript SDK.
    SdkInstalledVersion,
    /// Awaiting the latest version of the TypeScript SDK.
    SdkLatestVersion { installed: Option<String> },
    /// Awaiting the outcome of installing the TypeScript SDK.
    SdkInstall,
    /// Awaiting the installed version of the companion plugin. `sdk_path`
    /// is the SDK path this resolution has resolved and will commit to the
    /// session on success, or `None` where the project's own copy is kept.
    PluginInstalledVersion { sdk_path: Option<String> },
    /// Awaiting the latest version of the companion plugin.
    PluginLatestVersion { installed: Option<String>, sdk_path: Option<String> },
    /// Awaiting the outcome of installing the companion plugin.
    PluginInstall { sdk_path: Option<String> },
    /// No resolution in progress: the last one finished or failed.
    Idle,
}

/// The view of a phase.
pub enum PhaseView {
    Probe,
    PrimaryVersion,
    PrimaryInstall,
    PostInstallProbe { install_error: Option<Seq<char>> },
    ManifestCheck,
    SdkInstalledVersion,
    SdkLatestVersion { installed: Option<Seq<char>> },
    SdkInstall,
    PluginInstalledVersion { sdk_path: Option<Seq<char>> },
    PluginLatestVersion { installed: Option<Seq<char>>, sdk_path: Option<Seq<char>> },
    PluginInstall { sdk_path: Option<Seq<char>> },
    Idle,
}

impl View for Phase {
    type V = PhaseView;

    open spec fn view(&self) -> PhaseView {
        match self {
            Phase::Probe => PhaseView::Probe,
            Phase::PrimaryVersion => PhaseView::PrimaryVersion,
            Phase::PrimaryInstall => PhaseView::PrimaryInstall,
            Phase::PostInstallProbe { install_error } => PhaseView::PostInstallProbe {
                install_error: install_error.deep_view(),
            },
            Phase::ManifestCheck => PhaseView::ManifestCheck,
            Phase::SdkInstalledVersion => PhaseView::SdkInstalledVersion,
            Phase::SdkLatestVersion { installed } => PhaseView::SdkLatestVersion {
                installed: installed.deep_view(),
            },
            Phase::SdkInstall => PhaseView::SdkInstall,
            Phase::PluginInstalledVersion { sdk_path } => PhaseView::PluginInstalledVersion {
                sdk_path: sdk_path.deep_view(),
            },
            Phase::PluginLatestVersion { installed, sdk_path } => PhaseView::PluginLatestVersion {
                installed: installed.deep_view(),
                sdk_path: sdk_path.deep_view(),
            },
            Phase::PluginInstall { sdk_path } => PhaseView::PluginInstall {
                sdk_path: sdk_path.deep_view(),
            },
            Phase::Idle => PhaseView::Idle,
        }
    }
}

/// An answer from the host to the action a resolution asked for.
pub enum Event {
    /// Whether the server binary exists as a file.
    ServerProbed(bool),
    /// The installed version of the queried package, or a registry error.
    InstalledVersion(Result<Option<String>, String>),
    /// The latest version of the queried package, or a registry error.
    LatestVersion(Result<String, String>),
    /// The outcome of the requested install.
    InstallFinished(Result<(), String>),
    /// The project manifest text, or the error reading it.
    ManifestRead(Result<String, String>),
}

/// The view of an event.
pub enum EventView {
    ServerProbed(bool),
    InstalledVersion(Result<Option<Seq<char>>, Seq<char>>),
    LatestVersion(Result<Seq<char>, Seq<char>>),
    InstallFinished(Result<(), Seq<char>>),
    ManifestRead(Result<Seq<char>, Seq<char>>),
}

impl View for Event {
    type V = EventView;

    open spec fn view(&self) -> EventView {
        match self {
            Event::ServerProbed(server_exists) => EventView::ServerProbed(*server_exists),
            Event::InstalledVersion(res) => EventView::InstalledVersion(
                match res {
                    Ok(v) => Ok(v.deep_view()),
                    Err(e) => Err(e@),
                },
            ),
            Event::LatestVersion(res) => EventView::LatestVersion(
                match res {
                    Ok(v) => Ok(v@),
                    Err(e) => Err(e@),
                },
            ),
            Event::InstallFinished(res) => EventView::InstallFinished(
                match res {
                    Ok(_) => Ok(()),
                    Err(e) => Err(e@),
                },
            ),
            Event::ManifestRead(res) => EventView::ManifestRead(
                match res {
                    Ok(t) => Ok(t@),
                    Err(e) => Err(e@),
                },
            ),
        }
    }
}

/// What a resolution asks the host to do next.
#[derive(Debug)]
pub enum Op {
    /// Check whether the server binary exists as a file.
    ProbeServer,
    /// Ask the registry for the installed version of the package.
    QueryInstalledVersion(String),
    /// Ask the registry for the latest version of the package.
    QueryLatestVersion(String),
    /// Install the package at the version.
    InstallPackage { package: String, version: String },
    /// Read the project's manifest text.
    ReadManifest,
    /// Resolution succeeded with these paths.
    Done { server_path: String, sdk_path: String },
    /// Resolution failed with this message.
    Fail(String),
}

/// The view of an operation.
pub enum OpView {
    ProbeServer,
    QueryInstalledVersion(Seq<char>),
    QueryLatestVersion(Seq<char>),
    InstallPackage { package: Seq<char>, version: Seq<char> },
    ReadManifest,
    Done { server_path: Seq<char>, sdk_path: Seq<char> },
    Fail(Seq<char>),
}

impl View for Op {
    type V = OpView;

    open spec fn view(&self) -> OpView {
        match self {
            Op::ProbeServer => OpView::ProbeServer,
            Op::QueryInstalledVersion(p) => OpView::QueryInstalledVersion(p@),
            Op::QueryLatestVersion(p) => OpView::QueryLatestVersion(p@),
            Op::InstallPackage { package, version } => OpView::InstallPackage {
                package: package@,
                version: version@,
            },
            Op::ReadManifest => OpView::ReadManifest,
            Op::Done { server_path, sdk_path } => OpView::Done {
                server_path: server_path@,
                sdk_path: sdk_path@,
            },
            Op::Fail(message) => OpView::Fail(message@),
        }
    }
}

/// An operation together with the installation statuses to report before it,
/// in order: "checking for update", then "downloading".
pub struct Action {
    pub report_checking: bool,
    pub report_downloading: bool,
    pub op: Op,
}

/// The view of an action.
pub struct ActionView {
    pub report_checking: bool,
    pub report_downloading: bool,
    pub op: OpView,
}

impl View for Action {
    type V = ActionView;

    open spec fn view(&self) -> ActionView {
        ActionView {
            report_checking: self.report_checking,
            report_downloading: self.report_downloading,
            op: self.op@,
        }
    }
}

/// A resolution in progress: the session it updates, the workspace root and
/// operating system it resolves paths against, and its phase.
pub struct Resolver {
    pub session: Session,
    pub workspace_root: String,
    pub os: Os,
    pub phase: Phase,
}

/// The view of a resolver.
pub struct ResolverView {
    pub session: SessionView,
    pub workspace_root: Seq<char>,
    pub os: Os,
    pub phase: PhaseView,
}

impl View for Resolver {
    type V = ResolverView;

    open spec fn view(&self) -> ResolverView {
        ResolverView {
            session: self.session@,
            workspace_root: self.workspace_root@,
            os: self.os,
            phase: self.phase@,
        }
    }
}

/// A transition's result: the resolver after it and the action asked of the
/// host.
pub struct StepView {
    pub resolver: ResolverView,
    pub action: ActionView,
}

/// The absolute path of the server entry point under the workspace root.
pub open spec fn spec_absolute_server_path(os: Os, root: Seq<char>) -> Seq<char> {
    joined_path(sanitized_path(os, root), spec_server_path())
}

/// The absolute path of the TypeScript SDK under the workspace root.
pub open spec fn spec_resolved_sdk_path(os: Os, root: Seq<char>) -> Seq<char> {
    joined_path(sanitized_path(os, root), spec_typescript_tsdk_path())
}

/// The failure message when an install reports success but the expected
/// server entry point is still absent.
pub open spec fn spec_missing_server_message() -> Seq<char> {
    "installed package '@vue/language-server' did not contain expected path 'node_modules/@vue/language-server/bin/vue-language-server.js'"@
}

/// The failure message when an install reports success but the expected
/// server entry point is still absent.
pub fn missing_server_message() -> (r: &'static str)
    ensures
        r@ == spec_missing_server_message(),
{
    "installed package '@vue/language-server' did not contain expected path 'node_modules/@vue/language-server/bin/vue-language-server.js'"
}

/// The failure message when the host hands an event the phase does not
/// expect.
pub open spec fn spec_protocol_error_message() -> Seq<char> {
    "resolution received an event it was not waiting for"@
}

/// The failure message when the host hands an event the phase does not
/// expect.
pub fn protocol_error_message() -> (r: &'static str)
    ensures
        r@ == spec_protocol_error_message(),
{
    "resolution received an event it was not waiting for"
}

/// A transition to `phase` that asks for `op` after reporting the given
/// statuses, leaving the session as it stands.
pub open spec fn step_to(
    session: SessionView,
    root: Seq<char>,
    os: Os,
    phase: PhaseView,
    report_checking: bool,
    report_downloading: bool,
    op: OpView,
) -> StepView {
    StepView {
        resolver: ResolverView { session, workspace_root: root, os, phase },
        action: ActionView { report_checking, report_downloading, op },
    }
}

/// The transition that ends a resolution successfully: the session has
/// located the server, the SDK path this resolution resolved (if any) is
/// committed to it only now, and the resolved paths are handed back.
pub open spec fn finish_step(
    session: SessionView,
    root: Seq<char>,
    os: Os,
    pending_sdk: Option<Seq<char>>,
) -> StepView {
    let sdk_path = match pending_sdk {
        Some(p) => p,
        None => session.sdk_path,
    };
    step_to(
        SessionView { server_located: true, sdk_path },
        root,
        os,
        PhaseView::Idle,
        false,
        false,
        OpView::Done { server_path: spec_absolute_server_path(os, root), sdk_path },
    )
}

/// The transition that ends a resolution with a failure, leaving the session
/// as it stands.
pub open spec fn fail_step(session: SessionView, root: Seq<char>, os: Os, message: Seq<char>) -> StepView {
    step_to(session, root, os, PhaseView::Idle, false, false, OpView::Fail(message))
}

/// The transition after the probe for the server binary. A session that has
/// already located the server, with the binary still on disk, finishes at
/// once: this is the fast path. Otherwise a "checking for update" status is
/// owed; an absent binary goes straight to installing the pinned version,
/// and a present one has its installed version compared first.
pub open spec fn next_probe(session: SessionView, root: Seq<char>, os: Os, server_exists: bool) -> StepView {
    if session.server_located && server_exists {
        finish_step(session, root, os, None)
    } else if !server_exists {
        step_to(
            session,
            root,
            os,
            PhaseView::PrimaryInstall,
            true,
            true,
            OpView::InstallPackage {
                package: spec_server_package(),
                version: spec_pinned_server_version(),
            },
        )
    } else {
        step_to(
            session,
            root,
            os,
            PhaseView::PrimaryVersion,
            true,
            false,
            OpView::QueryInstalledVersion(spec_server_package()),
        )
    }
}

/// The transition after the registry reports the installed version of the
/// language server: a registry error is fatal; the pinned version already
/// installed moves on to the manifest check; any other answer triggers an
/// install of the pinned version.
pub open spec fn next_primary_version(
    session: SessionView,
    root: Seq<char>,
    os: Os,
    res: Result<Option<Seq<char>>, Seq<char>>,
) -> StepView {
    match res {
        Err(e) => fail_step(session, root, os, e),
        Ok(installed) => if installed == Some(spec_pinned_server_version()) {
            step_to(session, root, os, PhaseView::ManifestCheck, false, false, OpView::ReadManifest)
        } else {
            step_to(
                session,
                root,
                os,
                PhaseView::PrimaryInstall,
                false,
                true,
                OpView::InstallPackage {
                    package: spec_server_package(),
                    version: spec_pinned_server_version(),
                },
            )
        },
    }
}

/// The transition after the language server's install finishes: whatever the
/// outcome, the binary is probed again before deciding.
pub open spec fn next_primary_install(
    session: SessionView,
    root: Seq<char>,
    os: Os,
    res: Result<(), Seq<char>>,
) -> StepView {
    step_to(
        session,
        root,
        os,
        PhaseView::PostInstallProbe {
            install_error: match res {
                Ok(_) => None,
                Err(e) => Some(e),
            },
        },
        false,
        false,
        OpView::ProbeServer,
    )
}

/// The transition after the re-probe that follows an install. A binary on
/// disk proceeds, an install error notwithstanding: that is the tolerant
/// policy for the primary server. An absent binary is fatal: the install
/// error propagates, or the missing-path message when the install claimed
/// success.
pub open spec fn next_post_install_probe(
    session: SessionView,
    root: Seq<char>,
    os: Os,
    install_error: Option<Seq<char>>,
    server_exists: bool,
) -> StepView {
    if server_exists {
        step_to(session, root, os, PhaseView::ManifestCheck, false, false, OpView::ReadManifest)
    } else {
        fail_step(
            session,
            root,
            os,
            match install_error {
                Some(e) => e,
                None => spec_missing_server_message(),
            },
        )
    }
}

/// The transition after the manifest is read. A text that does not parse is
/// fatal: the resolution fails with the parse error. A project that declares
/// its own `typescript` dependency defers to that copy: the SDK steps are
/// skipped, no SDK path is resolved, and the companion plugin is checked
/// next. A manifest that cannot be read (no file) declares nothing.
/// Otherwise the SDK's installed version is queried.
pub open spec fn next_manifest_check(
    session: SessionView,
    root: Seq<char>,
    os: Os,
    res: Result<Seq<char>, Seq<char>>,
) -> StepView {
    match res {
        Ok(text) => match parsed_manifest(text) {
            Err(message) => fail_step(session, root, os, message),
            Ok(_) => if manifest_declares(text, spec_typescript_package()) {
                step_to(
                    session,
                    root,
                    os,
                    PhaseView::PluginInstalledVersion { sdk_path: None },
                    false,
                    false,
                    OpView::QueryInstalledVersion(spec_ts_plugin_package()),
                )
            } else {
                step_to(
                    session,
                    root,
                    os,
                    PhaseView::SdkInstalledVersion,
                    false,
                    false,
                    OpView::QueryInstalledVersion(spec_typescript_package()),
                )
            },
        },
        Err(_) => step_to(
            session,
            root,
            os,
            PhaseView::SdkInstalledVersion,
            false,
            false,
            OpView::QueryInstalledVersion(spec_typescript_package()),
        ),
    }
}

/// The transition after the registry reports the SDK's installed version: a
/// registry error is fatal, else its latest version is queried.
pub open spec fn next_sdk_installed_version(
    session: SessionView,
    root: Seq<char>,
    os: Os,
    res: Result<Option<Seq<char>>, Seq<char>>,
) -> StepView {
    match res {
        Err(e) => fail_step(session, root, os, e),
        Ok(installed) => step_to(
            session,
            root,
            os,
            PhaseView::SdkLatestVersion { installed },
            false,
            false,
            OpView::QueryLatestVersion(spec_typescript_package()),
        ),
    }
}

/// The step shared by the SDK paths that satisfied the dependency: the
/// absolute SDK path under the workspace root is carried onward, to be
/// committed to the session only when the resolution succeeds, and the
/// companion plugin is checked next.
pub open spec fn sdk_resolved_step(session: SessionView, root: Seq<char>, os: Os) -> StepView {
    step_to(
        session,
        root,
        os,
        PhaseView::PluginInstalledVersion { sdk_path: Some(spec_resolved_sdk_path(os, root)) },
        false,
        false,
        OpView::QueryInstalledVersion(spec_ts_plugin_package()),
    )
}

/// The transition after the registry reports the SDK's latest version: a
/// registry error is fatal; an installed version equal to the latest
/// resolves the SDK path; any other triggers an install of the latest.
pub open spec fn next_sdk_latest_version(
    session: SessionView,
    root: Seq<char>,
    os: Os,
    installed: Option<Seq<char>>,
    res: Result<Seq<char>, Seq<char>>,
) -> StepView {
    match res {
        Err(e) => fail_step(session, root, os, e),
        Ok(latest) => if installed == Some(latest) {
            sdk_resolved_step(session, root, os)
        } else {
            step_to(
                session,
                root,
                os,
                PhaseView::SdkInstall,
                false,
                false,
                OpView::InstallPackage { package: spec_typescript_package(), version: latest },
            )
        },
    }
}

/// The transition after the SDK's install finishes: a failure is fatal (the
/// strict policy), success resolves the SDK path.
pub open spec fn next_sdk_install(
    session: SessionView,
    root: Seq<char>,
    os: Os,
    res: Result<(), Seq<char>>,
) -> StepView {
    match res {
        Err(e) => fail_step(session, root, os, e),
        Ok(_) => sdk_resolved_step(session, root, os),
    }
}

/// The transition after the registry reports the companion plugin's
/// installed version: a registry error is fatal, else its latest version is
/// queried.
pub open spec fn next_plugin_installed_version(
    session: SessionView,
    root: Seq<char>,
    os: Os,
    sdk_path: Option<Seq<char>>,
    res: Result<Option<Seq<char>>, Seq<char>>,
) -> StepView {
    match res {
        Err(e) => fail_step(session, root, os, e),
        Ok(installed) => step_to(
            session,
            root,
            os,
            PhaseView::PluginLatestVersion { installed, sdk_path },
            false,
            false,
            OpView::QueryLatestVersion(spec_ts_plugin_package()),
        ),
    }
}

/// The transition after the registry reports the companion plugin's latest
/// version: a registry error is fatal; an installed version equal to the
/// latest finishes the resolution; any other triggers an install of the
/// latest.
pub open spec fn next_plugin_latest_version(
    session: SessionView,
    root: Seq<char>,
    os: Os,
    installed: Option<Seq<char>>,
    sdk_path: Option<Seq<char>>,
    res: Result<Seq<char>, Seq<char>>,
) -> StepView {
    match res {
        Err(e) => fail_step(session, root, os, e),
        Ok(latest) => if installed == Some(latest) {
            finish_step(session, root, os, sdk_path)
        } else {
            step_to(
                session,
                root,
                os,
                PhaseView::PluginInstall { sdk_path },
                false,
                false,
                OpView::InstallPackage { package: spec_ts_plugin_package(), version: latest },
            )
        },
    }
}

/// The transition after the companion plugin's install finishes: a failure
/// is fatal (the strict policy), success finishes the resolution.
pub open spec fn next_plugin_install(
    session: SessionView,
    root: Seq<char>,
    os: Os,
    sdk_path: Option<Seq<char>>,
    res: Result<(), Seq<char>>,
) -> StepView {
    match res {
        Err(e) => fail_step(session, root, os, e),
        Ok(_) => finish_step(session, root, os, sdk_path),
    }
}

/// The machine's transition relation: what a resolution in the given state
/// does with the given host answer. An answer the phase is not waiting for
/// fails the resolution.
pub open spec fn next(r: ResolverView, e: EventView) -> StepView {
    match (r.phase, e) {
        (PhaseView::Probe, EventView::ServerProbed(server_exists)) => next_probe(
            r.session,
            r.workspace_root,
            r.os,
            server_exists,
        ),
        (PhaseView::PrimaryVersion, EventView::InstalledVersion(res)) => next_primary_version(
            r.session,
            r.workspace_root,
            r.os,
            res,
        ),
        (PhaseView::PrimaryInstall, EventView::InstallFinished(res)) => next_primary_install(
            r.session,
            r.workspace_root,
            r.os,
            res,
        ),
        (
            PhaseView::PostInstallProbe { install_error },
            EventView::ServerProbed(server_exists),
        ) => next_post_install_probe(r.session, r.workspace_root, r.os, install_error, server_exists),
        (PhaseView::ManifestCheck, EventView::ManifestRead(res)) => next_manifest_check(
            r.session,
            r.workspace_root,
            r.os,
            res,
        ),
        (PhaseView::SdkInstalledVersion, EventView::InstalledVersion(res)) => next_sdk_installed_version(
            r.session,
            r.workspace_root,
            r.os,
            res,
        ),
        (PhaseView::SdkLatestVersion { installed }, EventView::LatestVersion(res)) => next_sdk_latest_version(
            r.session,
            r.workspace_root,
            r.os,
            installed,
            res,
        ),
        (PhaseView::SdkInstall, EventView::InstallFinished(res)) => next_sdk_install(
            r.session,
            r.workspace_root,
            r.os,
            res,
        ),
        (
            PhaseView::PluginInstalledVersion { sdk_path },
            EventView::InstalledVersion(res),
        ) => next_plugin_installed_version(r.session, r.workspace_root, r.os, sdk_path, res),
        (
            PhaseView::PluginLatestVersion { installed, sdk_path },
            EventView::LatestVersion(res),
        ) => next_plugin_latest_version(r.session, r.workspace_root, r.os, installed, sdk_path, res),
        (PhaseView::PluginInstall { sdk_path }, EventView::InstallFinished(res)) => next_plugin_install(
            r.session,
            r.workspace_root,
            r.os,
            sdk_path,
            res,
        ),
        _ => fail_step(r.session, r.workspace_root, r.os, spec_protocol_error_message()),
    }
}

/// The state and action that open a resolution: probe for the server binary.
pub open spec fn start_step(session: SessionView, root: Seq<char>, os: Os) -> StepView {
    step_to(session, root, os, PhaseView::Probe, false, false, OpView::ProbeServer)
}

/// Opens a resolution for the session against the workspace root.
pub fn begin_resolution(session: Session, workspace_root: String, os: Os) -> (out: (
    Resolver,
    Action,
))
    ensures
        out.0@ == start_step(session@, workspace_root@, os).resolver,
        out.1@ == start_step(session@, workspace_root@, os).action,
{
    (
        Resolver { session, workspace_root, os, phase: Phase::Probe },
        Action { report_checking: false, report_downloading: false, op: Op::ProbeServer },
    )
}

/// The absolute path of the server entry point under the workspace root.
pub fn absolute_server_path(os: Os, root: &str) -> (r: String)
    ensures
        r@ == spec_absolute_server_path(os, root@),
{
    let sanitized = sanitize_windows_path(os, root.to_owned());
    join_path(sanitized.as_str(), server_path())
}

/// The absolute path of the TypeScript SDK under the workspace root.
pub fn resolved_sdk_path(os: Os, root: &str) -> (r: String)
    ensures
        r@ == spec_resolved_sdk_path(os, root@),
{
    let sanitized = sanitize_windows_path(os, root.to_owned());
    join_path(sanitized.as_str(), typescript_tsdk_path())
}

fn finish_resolution(
    session: Session,
    workspace_root: String,
    os: Os,
    pending_sdk: Option<String>,
) -> (out: (Resolver, Action))
    ensures
        out.0@ == finish_step(session@, workspace_root@, os, pending_sdk.deep_view()).resolver,
        out.1@ == finish_step(session@, workspace_root@, os, pending_sdk.deep_view()).action,
{
    let server_path = absolute_server_path(os, workspace_root.as_str());
    let sdk_path = match pending_sdk {
        Some(p) => p,
        None => session.sdk_path,
    };
    let sdk_path_copy = sdk_path.clone();
    (
        Resolver {
            session: Session { server_located: true, sdk_path },
            workspace_root,
            os,
            phase: Phase::Idle,
        },
        Action {
            report_checking: false,
            report_downloading: false,
            op: Op::Done { server_path, sdk_path: sdk_path_copy },
        },
    )
}

fn fail_resolution(session: Session, workspace_root: String, os: Os, message: String) -> (out: (
    Resolver,
    Action,
))
    ensures
        out.0@ == fail_step(session@, workspace_root@, os, message@).resolver,
        out.1@ == fail_step(session@, workspace_root@, os, message@).action,
{
    (
        Resolver { session, workspace_root, os, phase: Phase::Idle },
        Action { report_checking: false, report_downloading: false, op: Op::Fail(message) },
    )
}

fn sdk_resolved_resolution(session: Session, workspace_root: String, os: Os) -> (out: (
    Resolver,
    Action,
))
    ensures
        out.0@ == sdk_resolved_step(session@, workspace_root@, os).resolver,
        out.1@ == sdk_resolved_step(session@, workspace_root@, os).action,
{
    let sdk_path = resolved_sdk_path(os, workspace_root.as_str());
    (
        Resolver {
            session,
            workspace_root,
            os,
            phase: Phase::PluginInstalledVersion { sdk_path: Some(sdk_path) },
        },
        Action {
            report_checking: false,
            report_downloading: false,
            op: Op::QueryInstalledVersion(ts_plugin_package().to_owned()),
        },
    )
}

/// One transition of a resolution: hands the host's answer to the machine
/// and returns the resolver after it and the next action.
pub fn step(r: Resolver, event: Event) -> (out: (Resolver, Action))
    ensures
        out.0@ == next(r@, event@).resolver,
        out.1@ == next(r@, event@).action,
{
    let Resolver { session, workspace_root, os, phase } = r;
    match (phase, event) {
        (Phase::Probe, Event::ServerProbed(server_exists)) => {
            if session.server_located && server_exists {
                finish_resolution(session, workspace_root, os, None)
            } else if !server_exists {
                (
                    Resolver { session, workspace_root, os, phase: Phase::PrimaryInstall },
                    Action {
                        report_checking: true,
                        report_downloading: true,
                        op: Op::InstallPackage {
                            package: server_package().to_owned(),
                            version: pinned_server_version().to_owned(),
                        },
                    },
                )
            } else {
                (
                    Resolver { session, workspace_root, os, phase: Phase::PrimaryVersion },
                    Action {
                        report_checking: true,
                        report_downloading: false,
                        op: Op::QueryInstalledVersion(server_package().to_owned()),
                    },
                )
            }
        },
        (Phase::PrimaryVersion, Event::InstalledVersion(res)) => {
            match res {
                Err(e) => fail_resolution(session, workspace_root, os, e),
                Ok(installed) => {
                    let is_pinned = match &installed {
                        Some(v) => v.eq(&pinned_server_version().to_owned()),
                        None => false,
                    };
                    if is_pinned {
                        (
                            Resolver { session, workspace_root, os, phase: Phase::ManifestCheck },
                            Action {
                                report_checking: false,
                                report_downloading: false,
                                op: Op::ReadManifest,
                            },
                        )
                    } else {
                        (
                            Resolver { session, workspace_root, os, phase: Phase::PrimaryInstall },
                            Action {
                                report_checking: false,
                                report_downloading: true,
                                op: Op::InstallPackage {
                                    package: server_package().to_owned(),
                                    version: pinned_server_version().to_owned(),
                                },
                            },
                        )
                    }
                },
            }
        },
        (Phase::PrimaryInstall, Event::InstallFinished(res)) => {
            let install_error = match res {
                Ok(_) => None,
                Err(e) => Some(e),
            };
            (
                Resolver {
                    session,
                    workspace_root,
                    os,
                    phase: Phase::PostInstallProbe { install_error },
                },
                Action {
                    report_checking: false,
                    report_downloading: false,
                    op: Op::ProbeServer,
                },
            )
        },
        (Phase::PostInstallProbe { install_error }, Event::ServerProbed(server_exists)) => {
            if server_exists {
                (
                    Resolver { session, workspace_root, os, phase: Phase::ManifestCheck },
                    Action {
                        report_checking: false,
                        report_downloading: false,
                        op: Op::ReadManifest,
                    },
                )
            } else {
                let message = match install_error {
                    Some(e) => e,
                    None => missing_server_message().to_owned(),
                };
                fail_resolution(session, workspace_root, os, message)
            }
        },
        (Phase::ManifestCheck, Event::ManifestRead(res)) => {
            match res {
                Ok(text) => match has_dependency(text.as_str(), typescript_package()) {
                    Err(e) => fail_resolution(session, workspace_root, os, e),
                    Ok(true) => (
                        Resolver {
                            session,
                            workspace_root,
                            os,
                            phase: Phase::PluginInstalledVersion { sdk_path: None },
                        },
                        Action {
                            report_checking: false,
                            report_downloading: false,
                            op: Op::QueryInstalledVersion(ts_plugin_package().to_owned()),
                        },
                    ),
                    Ok(false) => (
                        Resolver { session, workspace_root, os, phase: Phase::SdkInstalledVersion },
                        Action {
                            report_checking: false,
                            report_downloading: false,
                            op: Op::QueryInstalledVersion(typescript_package().to_owned()),
                        },
                    ),
                },
                Err(_) => (
                    Resolver { session, workspace_root, os, phase: Phase::SdkInstalledVersion },
                    Action {
                        report_checking: false,
                        report_downloading: false,
                        op: Op::QueryInstalledVersion(typescript_package().to_owned()),
                    },
                ),
            }
        },
        (Phase::SdkInstalledVersion, Event::InstalledVersion(res)) => {
            match res {
                Err(e) => fail_resolution(session, workspace_root, os, e),
                Ok(installed) => (
                    Resolver {
                        session,
                        workspace_root,
                        os,
                        phase: Phase::SdkLatestVersion { installed },
                    },
                    Action {
                        report_checking: false,
                        report_downloading: false,
                        op: Op::QueryLatestVersion(typescript_package().to_owned()),
                    },
                ),
            }
        },
        (Phase::SdkLatestVersion { installed }, Event::LatestVersion(res)) => {
            match res {
                Err(e) => fail_resolution(session, workspace_root, os, e),
                Ok(latest) => {
                    let is_current = match &installed {
                        Some(v) => v.eq(&latest),
                        None => false,
                    };
                    if is_current {
                        sdk_resolved_resolution(session, workspace_root, os)
                    } else {
                        (
                            Resolver { session, workspace_root, os, phase: Phase::SdkInstall },
                            Action {
                                report_checking: false,
                                report_downloading: false,
                                op: Op::InstallPackage {
                                    package: typescript_package().to_owned(),
                                    version: latest,
                                },
                            },
                        )
                    }
                },
            }
        },
        (Phase::SdkInstall, Event::InstallFinished(res)) => {
            match res {
                Err(e) => fail_resolution(session, workspace_root, os, e),
                Ok(_) => sdk_resolved_resolution(session, workspace_root, os),
            }
        },
        (Phase::PluginInstalledVersion { sdk_path }, Event::InstalledVersion(res)) => {
            match res {
                Err(e) => fail_resolution(session, workspace_root, os, e),
                Ok(installed) => (
                    Resolver {
                        session,
                        workspace_root,
                        os,
                        phase: Phase::PluginLatestVersion { installed, sdk_path },
                    },
                    Action {
                        report_checking: false,
                        report_downloading: false,
                        op: Op::QueryLatestVersion(ts_plugin_package().to_owned()),
                    },
                ),
            }
        },
        (Phase::PluginLatestVersion { installed, sdk_path }, Event::LatestVersion(res)) => {
            match res {
                Err(e) => fail_resolution(session, workspace_root, os, e),
                Ok(latest) => {
                    let is_current = match &installed {
                        Some(v) => v.eq(&latest),
                        None => false,
                    };
                    if is_current {
                        finish_resolution(session, workspace_root, os, sdk_path)
                    } else {
                        (
                            Resolver {
                                session,
                                workspace_root,
                                os,
                                phase: Phase::PluginInstall { sdk_path },
                            },
                            Action {
                                report_checking: false,
                                report_downloading: false,
                                op: Op::InstallPackage {
                                    package: ts_plugin_package().to_owned(),
                                    version: latest,
                                },
                            },
                        )
                    }
                },
            }
        },
        (Phase::PluginInstall { sdk_path }, Event::InstallFinished(res)) => {
            match res {
                Err(e) => fail_resolution(session, workspace_root, os, e),
                Ok(_) => finish_resolution(session, workspace_root, os, sdk_path),
            }
        },
        (_, _) => fail_resolution(
            session,
            workspace_root,
            os,
            protocol_error_message().to_owned(),
        ),
    }
}

/// How an attempt to ensure the language server's install ended: it was
/// already present at the pinned version, it was installed cleanly, it was
/// installed with a swallowed warning (the install reported an error but a
/// usable binary is on disk), or it failed.
#[derive(Debug)]
pub enum InstallOutcome {
    AlreadyPresent,
    Installed,
    InstalledWithWarning(String),
    Failed(String),
}

/// The view of an install outcome.
pub enum InstallOutcomeView {
    AlreadyPresent,
    Installed,
    InstalledWithWarning(Seq<char>),
    Failed(Seq<char>),
}

impl View for InstallOutcome {
    type V = InstallOutcomeView;

    open spec fn view(&self) -> InstallOutcomeView {
        match self {
            InstallOutcome::AlreadyPresent => InstallOutcomeView::AlreadyPresent,
            InstallOutcome::Installed => InstallOutcomeView::Installed,
            InstallOutcome::InstalledWithWarning(w) => InstallOutcomeView::InstalledWithWarning(w@),
            InstallOutcome::Failed(e) => InstallOutcomeView::Failed(e@),
        }
    }
}

/// Whether an install of the language server is owed: the binary is absent,
/// or the installed version differs from the pinned one.
pub open spec fn spec_install_needed(server_exists: bool, installed: Option<Seq<char>>) -> bool {
    !server_exists || installed != Some(spec_pinned_server_version())
}

/// The outcome of an install attempt of the language server, given what the
/// re-probe found: an error is swallowed into a warning when the binary is
/// on disk afterward, and a clean report without the binary is itself a
/// failure.
pub open spec fn spec_install_outcome(
    res: Result<(), Seq<char>>,
    server_exists_after: bool,
) -> InstallOutcomeView {
    match res {
        Ok(_) => if server_exists_after {
            InstallOutcomeView::Installed
        } else {
            InstallOutcomeView::Failed(spec_missing_server_message())
        },
        Err(e) => if server_exists_after {
            InstallOutcomeView::InstalledWithWarning(e)
        } else {
            InstallOutcomeView::Failed(e)
        },
    }
}

/// Whether an install of the language server is owed: the binary is absent,
/// or the installed version the registry reports differs from the pinned
/// one. When it is not, the outcome is `InstallOutcome::AlreadyPresent`.
pub fn install_needed(server_exists: bool, installed: &Option<String>) -> (r: bool)
    ensures
        r == spec_install_needed(server_exists, installed.deep_view()),
{
    if !server_exists {
        true
    } else {
        match installed {
            Some(v) => !v.eq(&pinned_server_version().to_owned()),
            None => true,
        }
    }
}

/// Classifies an install attempt of the language server by its reported
/// result and whether the binary exists afterward.
pub fn classify_install(res: Result<(), String>, server_exists_after: bool) -> (r: InstallOutcome)
    ensures
        r@ == spec_install_outcome(
            match res {
                Ok(_) => Ok(()),
                Err(e) => Err(e@),
            },
            server_exists_after,
        ),
{
    match res {
        Ok(_) => {
            if server_exists_after {
                InstallOutcome::Installed
            } else {
                InstallOutcome::Failed(missing_server_message().to_owned())
            }
        },
        Err(e) => {
            if server_exists_after {
                InstallOutcome::InstalledWithWarning(e)
            } else {
                InstallOutcome::Failed(e)
            }
        },
    }
}

/// An install of the language server is triggered exactly under the trigger
/// conditions: the binary is absent, or the installed version the registry
/// reports differs from the pinned one.
pub proof fn lemma_install_trigger_conditions(r: ResolverView, installed: Option<Seq<char>>)
    requires
        r.phase is Probe,
        !r.session.server_located,
    ensures
        next(r, EventView::ServerProbed(false)).action.op == (OpView::InstallPackage {
            package: spec_server_package(),
            version: spec_pinned_server_version(),
        }),
        ({
            let after_probe = next(r, EventView::ServerProbed(true));
            let after_version = next(
                after_probe.resolver,
                EventView::InstalledVersion(Ok(installed)),
            );
            (after_version.action.op is InstallPackage) <==> spec_install_needed(true, installed)
        }),
{
}

/// After an install of the language server, the machine fails exactly when
/// the install's outcome is `Failed`, and with that outcome's message; a
/// clean install and a swallowed warning both proceed.
pub proof fn lemma_install_outcome_drives_fatality(
    r: ResolverView,
    res: Result<(), Seq<char>>,
    server_exists_after: bool,
)
    requires
        r.phase is PrimaryInstall,
    ensures
        ({
            let after_install = next(r, EventView::InstallFinished(res));
            let after_probe = next(
                after_install.resolver,
                EventView::ServerProbed(server_exists_after),
            );
            match spec_install_outcome(res, server_exists_after) {
                InstallOutcomeView::Failed(message) => after_probe.action.op == OpView::Fail(
                    message,
                ),
                _ => !(after_probe.action.op is Fail),
            }
        }),
{
}

/// A project that declares its own `typescript` dependency defers to that
/// copy: from the manifest check the resolver proceeds straight to the
/// companion-plugin check, asks for no SDK query or install, and leaves the
/// session — its SDK path included — unchanged.
pub proof fn lemma_sdk_skipped_when_project_declares_typescript(r: ResolverView, text: Seq<char>)
    requires
        r.phase is ManifestCheck,
        manifest_declares(text, spec_typescript_package()),
    ensures
        next(r, EventView::ManifestRead(Ok(text))).resolver.phase is PluginInstalledVersion,
        next(r, EventView::ManifestRead(Ok(text))).resolver.session == r.session,
        next(r, EventView::ManifestRead(Ok(text))).action.op == OpView::QueryInstalledVersion(
            spec_ts_plugin_package(),
        ),
{
}

/// When the language server's installed version differs from the pinned
/// version, an install of the pinned version is triggered; when that install
/// fails and the binary is absent afterward, the install error propagates
/// and the resolution fails.
pub proof fn lemma_failed_primary_install_propagates(
    r: ResolverView,
    installed: Option<Seq<char>>,
    err: Seq<char>,
)
    requires
        r.phase is PrimaryVersion,
        installed != Some(spec_pinned_server_version()),
    ensures
        ({
            let after_version = next(r, EventView::InstalledVersion(Ok(installed)));
            let after_install = next(after_version.resolver, EventView::InstallFinished(Err(err)));
            let after_probe = next(after_install.resolver, EventView::ServerProbed(false));
            &&& after_version.action.op == (OpView::InstallPackage {
                package: spec_server_package(),
                version: spec_pinned_server_version(),
            })
            &&& after_probe.action.op == OpView::Fail(err)
            &&& after_probe.resolver.phase is Idle
        }),
{
}

/// When the language server's install fails but the binary exists on disk
/// afterward, the error is swallowed: the resolution proceeds to the
/// dependency checks instead of failing.
pub proof fn lemma_failed_primary_install_swallowed(r: ResolverView, err: Seq<char>)
    requires
        r.phase is PrimaryInstall,
    ensures
        ({
            let after_install = next(r, EventView::InstallFinished(Err(err)));
            let after_probe = next(after_install.resolver, EventView::ServerProbed(true));
            &&& !(after_probe.action.op is Fail)
            &&& after_probe.action.op is ReadManifest
            &&& after_probe.resolver.phase is ManifestCheck
            &&& after_probe.resolver.session == r.session
        }),
{
}

/// A failed registry query for the companion plugin is fatal: the resolution
/// fails at once with that error, with no fallback.
pub proof fn lemma_plugin_registry_failure_is_fatal(r: ResolverView, err: Seq<char>)
    ensures
        r.phase is PluginInstalledVersion ==> next(
            r,
            EventView::InstalledVersion(Err(err)),
        ).action.op == OpView::Fail(err),
        (r.phase matches PhaseView::PluginLatestVersion { installed: _, sdk_path: _ }) ==> next(
            r,
            EventView::LatestVersion(Err(err)),
        ).action.op == OpView::Fail(err),
{
}

/// A manifest text that does not parse is fatal: the resolution fails at the
/// manifest check, surfacing the parse error to the caller.
pub proof fn lemma_malformed_manifest_is_fatal(r: ResolverView, text: Seq<char>, message: Seq<char>)
    requires
        r.phase is ManifestCheck,
        parsed_manifest(text) == Err::<(Seq<Seq<char>>, Seq<Seq<char>>), Seq<char>>(message),
    ensures
        next(r, EventView::ManifestRead(Ok(text))).action.op == OpView::Fail(message),
        next(r, EventView::ManifestRead(Ok(text))).resolver.session == r.session,
{
}

/// The session changes only when a resolution succeeds: every transition
/// whose action is not `Done` — every failure included — leaves the session,
/// its SDK path included, exactly as it stood.
pub proof fn lemma_session_committed_only_on_success(r: ResolverView, e: EventView)
    ensures
        !(next(r, e).action.op is Done) ==> next(r, e).resolver.session == r.session,
{
}

/// When the language server's install fails but the binary is on disk
/// afterward, a resolution whose remaining steps succeed (here: the project
/// declares its own `typescript`, and the companion plugin is already at its
/// latest version) still finishes with the session's paths, marks the server
/// located, and the next resolution takes the fast path to the same paths.
pub proof fn lemma_swallowed_install_still_resolves(
    r: ResolverView,
    err: Seq<char>,
    text: Seq<char>,
    plugin_version: Seq<char>,
)
    requires
        r.phase is PrimaryInstall,
        manifest_declares(text, spec_typescript_package()),
    ensures
        ({
            let after_install = next(r, EventView::InstallFinished(Err(err)));
            let after_probe = next(after_install.resolver, EventView::ServerProbed(true));
            let after_manifest = next(after_probe.resolver, EventView::ManifestRead(Ok(text)));
            let after_installed = next(
                after_manifest.resolver,
                EventView::InstalledVersion(Ok(Some(plugin_version))),
            );
            let finished = next(after_installed.resolver, EventView::LatestVersion(Ok(plugin_version)));
            let reopened = ResolverView {
                session: finished.resolver.session,
                workspace_root: r.workspace_root,
                os: r.os,
                phase: PhaseView::Probe,
            };
            &&& finished.action.op == (OpView::Done {
                server_path: spec_absolute_server_path(r.os, r.workspace_root),
                sdk_path: r.session.sdk_path,
            })
            &&& finished.resolver.session.server_located
            &&& finished.resolver.session.sdk_path == r.session.sdk_path
            &&& next(reopened, EventView::ServerProbed(true)).action.op == finished.action.op
        }),
{
}

/// A fresh session resolving a project that declares its own `typescript`
/// finishes with the bundled relative default as its SDK path: no absolute
/// override is ever resolved, so the default initialization payload keeps
/// the project-relative convention.
pub proof fn lemma_project_typescript_keeps_default_sdk(
    r: ResolverView,
    text: Seq<char>,
    plugin_version: Seq<char>,
)
    requires
        r.phase is Probe,
        !r.session.server_located,
        r.session.sdk_path == spec_typescript_tsdk_path(),
        manifest_declares(text, spec_typescript_package()),
    ensures
        ({
            let after_probe = next(r, EventView::ServerProbed(true));
            let after_version = next(
                after_probe.resolver,
                EventView::InstalledVersion(Ok(Some(spec_pinned_server_version()))),
            );
            let after_manifest = next(after_version.resolver, EventView::ManifestRead(Ok(text)));
            let after_installed = next(
                after_manifest.resolver,
                EventView::InstalledVersion(Ok(Some(plugin_version))),
            );
            let finished = next(after_installed.resolver, EventView::LatestVersion(Ok(plugin_version)));
            &&& finished.action.op == (OpView::Done {
                server_path: spec_absolute_server_path(r.os, r.workspace_root),
                sdk_path: spec_typescript_tsdk_path(),
            })
            &&& finished.resolver.session.sdk_path == spec_typescript_tsdk_path()
        }),
{
}

/// The session fast path: once a resolution has located the server, a new
/// resolution whose probe finds the binary still on disk finishes in that
/// single step — no registry query and no install attempt — and returns the
/// paths the session already resolved.
pub proof fn lemma_session_fast_path(r: ResolverView)
    requires
        r.phase is Probe,
        r.session.server_located,
    ensures
        ({
            let after_probe = next(r, EventView::ServerProbed(true));
            &&& after_probe.action.op == (OpView::Done {
                server_path: spec_absolute_server_path(r.os, r.workspace_root),
                sdk_path: r.session.sdk_path,
            })
            &&& after_probe.resolver.session == r.session
            &&& after_probe.resolver.phase is Idle
        }),
{
}

} // verus!
