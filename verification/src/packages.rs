//! The fixed names this tool provisions and wires: the language-server
//! package and its pinned version, the TypeScript SDK package, the companion
//! TypeScript plugin, and the identifiers of the cooperating servers.

use vstd::prelude::*;

verus! {

/// The relative path of the language server's entry point once installed.
pub open spec fn spec_server_path() -> Seq<char> {
    "node_modules/@vue/language-server/bin/vue-language-server.js"@
}

/// The relative path of the language server's entry point once installed.
pub fn server_path() -> (r: &'static str)
    ensures
        r@ == spec_server_path(),
{
    "node_modules/@vue/language-server/bin/vue-language-server.js"
}

/// The language-server package this tool installs.
pub open spec fn spec_server_package() -> Seq<char> {
    "@vue/language-server"@
}

/// The language-server package this tool installs.
pub fn server_package() -> (r: &'static str)
    ensures
        r@ == spec_server_package(),
{
    "@vue/language-server"
}

/// The version the language server is pinned to: this tool intentionally
/// tracks a known-compatible version rather than the latest release.
pub open spec fn spec_pinned_server_version() -> Seq<char> {
    "2.2.8"@
}

/// The version the language server is pinned to.
pub fn pinned_server_version() -> (r: &'static str)
    ensures
        r@ == spec_pinned_server_version(),
{
    "2.2.8"
}

/// The TypeScript SDK package.
pub open spec fn spec_typescript_package() -> Seq<char> {
    "typescript"@
}

/// The TypeScript SDK package.
pub fn typescript_package() -> (r: &'static str)
    ensures
        r@ == spec_typescript_package(),
{
    "typescript"
}

/// The companion plugin that gives the TypeScript language service
/// framework awareness.
pub open spec fn spec_ts_plugin_package() -> Seq<char> {
    "@vue/typescript-plugin"@
}

/// The companion plugin package.
pub fn ts_plugin_package() -> (r: &'static str)
    ensures
        r@ == spec_ts_plugin_package(),
{
    "@vue/typescript-plugin"
}

/// The relative path of the TypeScript SDK's library files.
pub open spec fn spec_typescript_tsdk_path() -> Seq<char> {
    "node_modules/typescript/lib"@
}

/// The relative path of the TypeScript SDK's library files.
pub fn typescript_tsdk_path() -> (r: &'static str)
    ensures
        r@ == spec_typescript_tsdk_path(),
{
    "node_modules/typescript/lib"
}

/// The identifier of the primary cooperating TypeScript language service.
pub open spec fn spec_typescript_language_server_id() -> Seq<char> {
    "typescript-language-server"@
}

/// The identifier of the primary cooperating TypeScript language service.
pub fn typescript_language_server_id() -> (r: &'static str)
    ensures
        r@ == spec_typescript_language_server_id(),
{
    "typescript-language-server"
}

/// The identifier of the alternate cooperating TypeScript language service.
pub open spec fn spec_vtsls_id() -> Seq<char> {
    "vtsls"@
}

/// The identifier of the alternate cooperating TypeScript language service.
pub fn vtsls_id() -> (r: &'static str)
    ensures
        r@ == spec_vtsls_id(),
{
    "vtsls"
}

} // verus!
