//! The configuration payloads handed to the language server and to the
//! cooperating TypeScript language services, and the launch command for the
//! server.

use crate::manifest::{has_dependency, manifest_declares, parsed_manifest};
use crate::packages::{
    spec_ts_plugin_package, spec_typescript_language_server_id, spec_vtsls_id, ts_plugin_package,
    typescript_language_server_id, vtsls_id,
};
use crate::resolve::Session;
use vstd::prelude::*;

verus! {

/// The initialization payload for the language server when the host
/// configures no override: the resolved SDK path, and hybrid mode off.
pub struct InitializationOptions {
    pub typescript_tsdk: String,
    pub vue_hybrid_mode: bool,
}

/// The default initialization payload for the session: its resolved SDK
/// path, and hybrid mode off.
pub fn default_initialization_options(session: &Session) -> (r: InitializationOptions)
    ensures
        r.typescript_tsdk@ == session@.sdk_path,
        r.vue_hybrid_mode == false,
{
    InitializationOptions {
        typescript_tsdk: session.sdk_path.clone(),
        vue_hybrid_mode: false,
    }
}

/// The launch command for the language server: the runtime binary, the
/// server entry point, and the fixed `--stdio` argument, with no extra
/// environment.
pub struct LaunchCommand {
    pub command: String,
    pub args: Vec<String>,
    pub env: Vec<(String, String)>,
}

/// The launch command: `node_binary` running `server_path` with `--stdio`.
pub fn language_server_command(node_binary: String, server_path: String) -> (r: LaunchCommand)
    ensures
        r.command@ == node_binary@,
        r.args.deep_view() == seq![server_path@, "--stdio"@],
        r.env@.len() == 0,
{
    let ghost server_path_view = server_path@;
    let mut args: Vec<String> = Vec::new();
    args.push(server_path);
    args.push("--stdio".to_owned());
    proof {
        assert(args.deep_view() =~= seq![server_path_view, "--stdio"@]);
    }
    LaunchCommand { command: node_binary, args, env: Vec::new() }
}

/// Where the cooperating server should load the companion plugin from:
/// omitted for a project that declares the plugin itself (deferring to the
/// project's own copy), else the absolute workspace root.
pub open spec fn spec_plugin_location(text: Seq<char>, root: Seq<char>) -> Option<Seq<char>> {
    if manifest_declares(text, spec_ts_plugin_package()) {
        None
    } else {
        Some(root)
    }
}

/// One plugin entry of a cooperating server's configuration.
pub struct PluginEntry {
    pub name: String,
    pub location: Option<String>,
    pub languages: Vec<String>,
}

/// The view of a plugin entry.
pub struct PluginEntryView {
    pub name: Seq<char>,
    pub location: Option<Seq<char>>,
    pub languages: Seq<Seq<char>>,
}

impl View for PluginEntry {
    type V = PluginEntryView;

    open spec fn view(&self) -> PluginEntryView {
        PluginEntryView {
            name: self.name@,
            location: self.location.deep_view(),
            languages: self.languages.deep_view(),
        }
    }
}

impl DeepView for PluginEntry {
    type V = PluginEntryView;

    open spec fn deep_view(&self) -> PluginEntryView {
        self.view()
    }
}

/// The plugin entry owed to a manifest and workspace root: the companion
/// plugin, located per `spec_plugin_location`, for the TypeScript and Vue
/// languages.
pub open spec fn spec_plugin_entry(text: Seq<char>, root: Seq<char>) -> PluginEntryView {
    PluginEntryView {
        name: spec_ts_plugin_package(),
        location: spec_plugin_location(text, root),
        languages: seq!["typescript"@, "vue.js"@],
    }
}

fn plugin_entry(manifest_text: &str, workspace_root: &str) -> (r: Result<PluginEntry, String>)
    ensures
        r is Ok <==> parsed_manifest(manifest_text@) is Ok,
        r matches Ok(entry) ==> entry@ == spec_plugin_entry(manifest_text@, workspace_root@),
        r matches Err(e) ==> (parsed_manifest(manifest_text@) matches Err(message)
            && message == e@),
{
    let declared = match has_dependency(manifest_text, ts_plugin_package()) {
        Ok(b) => b,
        Err(e) => {
            return Err(e);
        },
    };
    let location = if declared {
        None
    } else {
        Some(workspace_root.to_owned())
    };
    let mut languages: Vec<String> = Vec::new();
    languages.push("typescript".to_owned());
    languages.push("vue.js".to_owned());
    proof {
        assert(languages.deep_view() =~= seq!["typescript"@, "vue.js"@]);
    }
    Ok(PluginEntry { name: ts_plugin_package().to_owned(), location, languages })
}

/// The additional initialization payload for the primary cooperating
/// TypeScript language service: one plugin entry under a `plugins` field.
pub struct TsServerInitializationOptions {
    pub plugins: Vec<PluginEntry>,
}

/// The additional workspace configuration for the alternate cooperating
/// service: one plugin entry, enabled for the workspace's TypeScript
/// versions, nested as `vtsls.tsserver.globalPlugins`.
pub struct VtslsWorkspaceConfiguration {
    pub global_plugins: Vec<PluginEntry>,
    pub enable_for_workspace_type_script_versions: bool,
}

/// The additional initialization options for the cooperating server
/// `target_id`: `None` for an identifier this tool does not customize; for
/// the primary TypeScript language service, a single plugin entry. Fails
/// exactly when the manifest must be read but does not parse.
pub fn additional_initialization_options(
    target_id: &str,
    manifest_text: &str,
    workspace_root: &str,
) -> (r: Result<Option<TsServerInitializationOptions>, String>)
    ensures
        target_id@ != spec_typescript_language_server_id() ==> (r matches Ok(o) && o is None),
        target_id@ == spec_typescript_language_server_id() ==> match r {
            Ok(Some(c)) => parsed_manifest(manifest_text@) is Ok && c.plugins.deep_view()
                == seq![spec_plugin_entry(manifest_text@, workspace_root@)],
            Ok(None) => false,
            Err(e) => (parsed_manifest(manifest_text@) matches Err(message) && message == e@),
        },
{
    let is_target = target_id.to_owned().eq(&typescript_language_server_id().to_owned());
    if !is_target {
        return Ok(None);
    }
    let entry = match plugin_entry(manifest_text, workspace_root) {
        Ok(entry) => entry,
        Err(e) => {
            return Err(e);
        },
    };
    let ghost entry_view = entry@;
    let mut plugins: Vec<PluginEntry> = Vec::new();
    plugins.push(entry);
    proof {
        assert(plugins.deep_view() =~= seq![entry_view]);
    }
    Ok(Some(TsServerInitializationOptions { plugins }))
}

/// The additional workspace configuration for the cooperating server
/// `target_id`: `None` for an identifier this tool does not customize; for
/// the alternate TypeScript language service, a single global plugin entry
/// enabled for the workspace's TypeScript versions. Fails exactly when the
/// manifest must be read but does not parse.
pub fn additional_workspace_configuration(
    target_id: &str,
    manifest_text: &str,
    workspace_root: &str,
) -> (r: Result<Option<VtslsWorkspaceConfiguration>, String>)
    ensures
        target_id@ != spec_vtsls_id() ==> (r matches Ok(o) && o is None),
        target_id@ == spec_vtsls_id() ==> match r {
            Ok(Some(c)) => parsed_manifest(manifest_text@) is Ok && c.global_plugins.deep_view()
                == seq![spec_plugin_entry(manifest_text@, workspace_root@)]
                && c.enable_for_workspace_type_script_versions,
            Ok(None) => false,
            Err(e) => (parsed_manifest(manifest_text@) matches Err(message) && message == e@),
        },
{
    let is_target = target_id.to_owned().eq(&vtsls_id().to_owned());
    if !is_target {
        return Ok(None);
    }
    let entry = match plugin_entry(manifest_text, workspace_root) {
        Ok(entry) => entry,
        Err(e) => {
            return Err(e);
        },
    };
    let ghost entry_view = entry@;
    let mut global_plugins: Vec<PluginEntry> = Vec::new();
    global_plugins.push(entry);
    proof {
        assert(global_plugins.deep_view() =~= seq![entry_view]);
    }
    Ok(Some(VtslsWorkspaceConfiguration {
        global_plugins,
        enable_for_workspace_type_script_versions: true,
    }))
}

/// For every manifest that does not declare the companion plugin, the
/// emitted plugin location is the absolute workspace root; for one that
/// declares it, the location is omitted, deferring to the project's copy.
pub proof fn lemma_plugin_location_policy(text: Seq<char>, root: Seq<char>)
    ensures
        !manifest_declares(text, spec_ts_plugin_package()) ==> spec_plugin_entry(text, root).location
            == Some(root),
        manifest_declares(text, spec_ts_plugin_package()) ==> spec_plugin_entry(text, root).location
            is None,
{
}

} // verus!
