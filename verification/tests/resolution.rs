use vue_toolchain::paths::Os;
use vue_toolchain::resolve::{
    begin_resolution, classify_install, install_needed, step, Action, Event, InstallOutcome, Op,
    Resolver, Session,
};

const SERVER: &str = "@vue/language-server";
const PINNED: &str = "2.2.8";
const PLUGIN: &str = "@vue/typescript-plugin";
const SERVER_ENTRY: &str = "node_modules/@vue/language-server/bin/vue-language-server.js";

fn ok_install() -> Event {
    Event::InstallFinished(Ok(()))
}

fn assert_query_installed(action: &Action, package: &str) {
    match &action.op {
        Op::QueryInstalledVersion(p) => assert_eq!(p.as_str(), package),
        other => panic!("expected an installed-version query, got {other:?}"),
    }
}

fn assert_query_latest(action: &Action, package: &str) {
    match &action.op {
        Op::QueryLatestVersion(p) => assert_eq!(p.as_str(), package),
        other => panic!("expected a latest-version query, got {other:?}"),
    }
}

fn assert_install(action: &Action, expect_package: &str, expect_version: &str) {
    match &action.op {
        Op::InstallPackage { package, version } => {
            assert_eq!(package.as_str(), expect_package);
            assert_eq!(version.as_str(), expect_version);
        }
        other => panic!("expected an install, got {other:?}"),
    }
}

fn assert_done(action: &Action, expect_server: &str, expect_sdk: &str) {
    match &action.op {
        Op::Done { server_path, sdk_path } => {
            assert_eq!(server_path.as_str(), expect_server);
            assert_eq!(sdk_path.as_str(), expect_sdk);
        }
        other => panic!("expected resolution to finish, got {other:?}"),
    }
}

fn assert_fail(action: &Action, expect_message: &str) {
    match &action.op {
        Op::Fail(message) => assert_eq!(message.as_str(), expect_message),
        other => panic!("expected resolution to fail, got {other:?}"),
    }
}

/// Runs a fresh resolution for a project without its own TypeScript through
/// a successful slow path and returns the resolver holding the session.
fn resolve_fresh_session(root: &str) -> Resolver {
    let (r, action) = begin_resolution(Session::new(), root.to_string(), Os::Linux);
    assert!(matches!(action.op, Op::ProbeServer));
    let (r, action) = step(r, Event::ServerProbed(false));
    assert!(action.report_checking && action.report_downloading);
    assert_install(&action, SERVER, PINNED);
    let (r, action) = step(r, ok_install());
    assert!(matches!(action.op, Op::ProbeServer));
    let (r, action) = step(r, Event::ServerProbed(true));
    assert!(matches!(action.op, Op::ReadManifest));
    let (r, action) = step(r, Event::ManifestRead(Ok("{}".to_string())));
    assert_query_installed(&action, "typescript");
    let (r, action) = step(r, Event::InstalledVersion(Ok(Some("5.4.5".to_string()))));
    assert_query_latest(&action, "typescript");
    let (r, action) = step(r, Event::LatestVersion(Ok("5.4.5".to_string())));
    assert_query_installed(&action, PLUGIN);
    let (r, action) = step(r, Event::InstalledVersion(Ok(None)));
    assert_query_latest(&action, PLUGIN);
    let (r, action) = step(r, Event::LatestVersion(Ok("2.0.0".to_string())));
    assert_install(&action, PLUGIN, "2.0.0");
    let (r, action) = step(r, ok_install());
    assert_done(
        &action,
        &format!("{root}/{SERVER_ENTRY}"),
        &format!("{root}/node_modules/typescript/lib"),
    );
    assert!(r.session.server_located);
    r
}

#[test]
fn fresh_session_resolves_and_updates_sdk_path() {
    let r = resolve_fresh_session("/work/project");
    assert_eq!(r.session.sdk_path, "/work/project/node_modules/typescript/lib");
}

#[test]
fn fast_path_finishes_without_queries_or_installs() {
    let r = resolve_fresh_session("/work/project");
    let (r, action) = begin_resolution(r.session, "/work/project".to_string(), Os::Linux);
    assert!(matches!(action.op, Op::ProbeServer));
    let (r, action) = step(r, Event::ServerProbed(true));
    assert!(!action.report_checking && !action.report_downloading);
    assert_done(
        &action,
        &format!("/work/project/{SERVER_ENTRY}"),
        "/work/project/node_modules/typescript/lib",
    );
    assert!(r.session.server_located);
}

#[test]
fn vanished_binary_leaves_the_fast_path() {
    let r = resolve_fresh_session("/work/project");
    let (r, action) = begin_resolution(r.session, "/work/project".to_string(), Os::Linux);
    assert!(matches!(action.op, Op::ProbeServer));
    let (_, action) = step(r, Event::ServerProbed(false));
    assert!(action.report_checking && action.report_downloading);
    assert_install(&action, SERVER, PINNED);
}

#[test]
fn wrong_installed_version_triggers_pinned_install() {
    let (r, _) = begin_resolution(Session::new(), "/w".to_string(), Os::Linux);
    let (r, action) = step(r, Event::ServerProbed(true));
    assert!(action.report_checking && !action.report_downloading);
    assert_query_installed(&action, SERVER);
    let (_, action) = step(r, Event::InstalledVersion(Ok(Some("2.2.7".to_string()))));
    assert!(action.report_downloading);
    assert_install(&action, SERVER, PINNED);
}

#[test]
fn pinned_version_already_installed_skips_install() {
    let (r, _) = begin_resolution(Session::new(), "/w".to_string(), Os::Linux);
    let (r, action) = step(r, Event::ServerProbed(true));
    assert_query_installed(&action, SERVER);
    let (_, action) = step(r, Event::InstalledVersion(Ok(Some(PINNED.to_string()))));
    assert!(matches!(action.op, Op::ReadManifest));
}

#[test]
fn failed_install_with_absent_binary_propagates_the_error() {
    let (r, _) = begin_resolution(Session::new(), "/w".to_string(), Os::Linux);
    let (r, action) = step(r, Event::ServerProbed(true));
    assert_query_installed(&action, SERVER);
    let (r, action) = step(r, Event::InstalledVersion(Ok(Some("2.2.7".to_string()))));
    assert_install(&action, SERVER, PINNED);
    let (r, action) = step(r, Event::InstallFinished(Err("registry unreachable".to_string())));
    assert!(matches!(action.op, Op::ProbeServer));
    let (_, action) = step(r, Event::ServerProbed(false));
    assert_fail(&action, "registry unreachable");
}

#[test]
fn successful_install_without_binary_reports_missing_path() {
    let (r, _) = begin_resolution(Session::new(), "/w".to_string(), Os::Linux);
    let (r, action) = step(r, Event::ServerProbed(false));
    assert_install(&action, SERVER, PINNED);
    let (r, action) = step(r, ok_install());
    assert!(matches!(action.op, Op::ProbeServer));
    let (_, action) = step(r, Event::ServerProbed(false));
    assert_fail(
        &action,
        "installed package '@vue/language-server' did not contain expected path \
         'node_modules/@vue/language-server/bin/vue-language-server.js'",
    );
}

#[test]
fn failed_install_with_binary_present_is_swallowed() {
    let (r, _) = begin_resolution(Session::new(), "/w".to_string(), Os::Linux);
    let (r, action) = step(r, Event::ServerProbed(true));
    assert_query_installed(&action, SERVER);
    let (r, action) = step(r, Event::InstalledVersion(Ok(Some("2.2.7".to_string()))));
    assert_install(&action, SERVER, PINNED);
    let (r, action) = step(r, Event::InstallFinished(Err("flaky registry".to_string())));
    assert!(matches!(action.op, Op::ProbeServer));
    let (_, action) = step(r, Event::ServerProbed(true));
    assert!(matches!(action.op, Op::ReadManifest));
}

#[test]
fn project_typescript_skips_sdk_and_keeps_relative_path() {
    let (r, _) = begin_resolution(Session::new(), "/w".to_string(), Os::Linux);
    let (r, action) = step(r, Event::ServerProbed(true));
    assert_query_installed(&action, SERVER);
    let (r, action) = step(r, Event::InstalledVersion(Ok(Some(PINNED.to_string()))));
    assert!(matches!(action.op, Op::ReadManifest));
    let manifest = r#"{"devDependencies":{"typescript":"^5.0.0"}}"#.to_string();
    let (r, action) = step(r, Event::ManifestRead(Ok(manifest)));
    assert_query_installed(&action, PLUGIN);
    assert_eq!(r.session.sdk_path, "node_modules/typescript/lib");
}

#[test]
fn unreadable_manifest_counts_as_undeclared() {
    let (r, _) = begin_resolution(Session::new(), "/w".to_string(), Os::Linux);
    let (r, action) = step(r, Event::ServerProbed(true));
    assert_query_installed(&action, SERVER);
    let (r, action) = step(r, Event::InstalledVersion(Ok(Some(PINNED.to_string()))));
    assert!(matches!(action.op, Op::ReadManifest));
    let (_, action) = step(r, Event::ManifestRead(Err("no package.json".to_string())));
    assert_query_installed(&action, "typescript");
}

#[test]
fn plugin_registry_failure_is_fatal_even_with_binary_present() {
    let (r, _) = begin_resolution(Session::new(), "/w".to_string(), Os::Linux);
    let (r, action) = step(r, Event::ServerProbed(true));
    assert_query_installed(&action, SERVER);
    let (r, action) = step(r, Event::InstalledVersion(Ok(Some(PINNED.to_string()))));
    assert!(matches!(action.op, Op::ReadManifest));
    let manifest = r#"{"dependencies":{"typescript":"5.4.5"}}"#.to_string();
    let (r, action) = step(r, Event::ManifestRead(Ok(manifest)));
    assert_query_installed(&action, PLUGIN);
    let (_, action) = step(r, Event::InstalledVersion(Err("registry unreachable".to_string())));
    assert_fail(&action, "registry unreachable");
}

#[test]
fn sdk_version_mismatch_installs_latest() {
    let (r, _) = begin_resolution(Session::new(), "/w".to_string(), Os::Linux);
    let (r, _) = step(r, Event::ServerProbed(true));
    let (r, _) = step(r, Event::InstalledVersion(Ok(Some(PINNED.to_string()))));
    let (r, action) = step(r, Event::ManifestRead(Ok("{}".to_string())));
    assert_query_installed(&action, "typescript");
    let (r, action) = step(r, Event::InstalledVersion(Ok(Some("5.3.0".to_string()))));
    assert_query_latest(&action, "typescript");
    let (r, action) = step(r, Event::LatestVersion(Ok("5.4.5".to_string())));
    assert_install(&action, "typescript", "5.4.5");
    let (r, action) = step(r, Event::InstallFinished(Ok(())));
    assert_query_installed(&action, PLUGIN);
    // the resolved path is committed only on success
    assert_eq!(r.session.sdk_path, "node_modules/typescript/lib");
    let (r, action) = step(r, Event::InstalledVersion(Ok(Some("2.0.0".to_string()))));
    assert_query_latest(&action, PLUGIN);
    let (r, action) = step(r, Event::LatestVersion(Ok("2.0.0".to_string())));
    assert_done(
        &action,
        &format!("/w/{SERVER_ENTRY}"),
        "/w/node_modules/typescript/lib",
    );
    assert_eq!(r.session.sdk_path, "/w/node_modules/typescript/lib");
}

#[test]
fn malformed_manifest_fails_the_resolution() {
    let (r, _) = begin_resolution(Session::new(), "/w".to_string(), Os::Linux);
    let (r, _) = step(r, Event::ServerProbed(true));
    let (r, action) = step(r, Event::InstalledVersion(Ok(Some(PINNED.to_string()))));
    assert!(matches!(action.op, Op::ReadManifest));
    let (r, action) = step(r, Event::ManifestRead(Ok("not json".to_string())));
    match &action.op {
        Op::Fail(message) => assert!(message.starts_with("failed to parse package.json")),
        other => panic!("expected resolution to fail, got {other:?}"),
    }
    assert!(!r.session.server_located);
}

#[test]
fn failed_resolution_leaves_the_session_sdk_path_unchanged() {
    let (r, _) = begin_resolution(Session::new(), "/w".to_string(), Os::Linux);
    let (r, _) = step(r, Event::ServerProbed(true));
    let (r, _) = step(r, Event::InstalledVersion(Ok(Some(PINNED.to_string()))));
    let (r, action) = step(r, Event::ManifestRead(Ok("{}".to_string())));
    assert_query_installed(&action, "typescript");
    let (r, _) = step(r, Event::InstalledVersion(Ok(Some("5.4.5".to_string()))));
    let (r, action) = step(r, Event::LatestVersion(Ok("5.4.5".to_string())));
    assert_query_installed(&action, PLUGIN);
    let (r, action) = step(r, Event::InstalledVersion(Err("registry unreachable".to_string())));
    assert_fail(&action, "registry unreachable");
    assert_eq!(r.session.sdk_path, "node_modules/typescript/lib");
    assert!(!r.session.server_located);
}

#[test]
fn sdk_install_failure_is_fatal() {
    let (r, _) = begin_resolution(Session::new(), "/w".to_string(), Os::Linux);
    let (r, _) = step(r, Event::ServerProbed(true));
    let (r, _) = step(r, Event::InstalledVersion(Ok(Some(PINNED.to_string()))));
    let (r, _) = step(r, Event::ManifestRead(Ok("{}".to_string())));
    let (r, _) = step(r, Event::InstalledVersion(Ok(None)));
    let (r, action) = step(r, Event::LatestVersion(Ok("5.4.5".to_string())));
    assert_install(&action, "typescript", "5.4.5");
    let (_, action) = step(r, Event::InstallFinished(Err("disk full".to_string())));
    assert_fail(&action, "disk full");
}

#[test]
fn unexpected_event_fails_the_resolution() {
    let (r, _) = begin_resolution(Session::new(), "/w".to_string(), Os::Linux);
    let (_, action) = step(r, Event::LatestVersion(Ok("1.0.0".to_string())));
    assert_fail(&action, "resolution received an event it was not waiting for");
}

#[test]
fn windows_root_is_sanitized_in_resolved_paths() {
    let session = Session {
        server_located: true,
        sdk_path: "node_modules/typescript/lib".to_string(),
    };
    let (r, _) = begin_resolution(session, "/C:/work".to_string(), Os::Windows);
    let (_, action) = step(r, Event::ServerProbed(true));
    assert_done(
        &action,
        &format!("C:/work/{SERVER_ENTRY}"),
        "node_modules/typescript/lib",
    );
}

#[test]
fn install_is_needed_without_binary_or_at_another_version() {
    assert!(install_needed(false, &None));
    assert!(install_needed(false, &Some(PINNED.to_string())));
    assert!(install_needed(true, &None));
    assert!(install_needed(true, &Some("2.2.7".to_string())));
    assert!(!install_needed(true, &Some(PINNED.to_string())));
}

#[test]
fn install_outcomes_follow_the_swallow_policy() {
    assert!(matches!(classify_install(Ok(()), true), InstallOutcome::Installed));
    match classify_install(Ok(()), false) {
        InstallOutcome::Failed(message) => {
            assert!(message.contains("did not contain expected path"));
        }
        other => panic!("expected a failure, got {other:?}"),
    }
    match classify_install(Err("flaky registry".to_string()), true) {
        InstallOutcome::InstalledWithWarning(warning) => assert_eq!(warning, "flaky registry"),
        other => panic!("expected a swallowed warning, got {other:?}"),
    }
    match classify_install(Err("registry unreachable".to_string()), false) {
        InstallOutcome::Failed(message) => assert_eq!(message, "registry unreachable"),
        other => panic!("expected a failure, got {other:?}"),
    }
}
