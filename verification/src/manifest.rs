//! Reading a project manifest: which package names a `package.json` declares
//! under its `dependencies` and `devDependencies` mappings.

use std::collections::BTreeMap;

use vstd::prelude::*;

verus! {

/// What parsing a manifest text yields: the names declared under
/// `dependencies` and under `devDependencies`, in that order, or the parse
/// error for a text that is not a well-formed manifest (not a JSON document
/// whose dependency mappings, where present, map package names to version
/// strings).
pub uninterp spec fn parsed_manifest(text: Seq<char>) -> Result<
    (Seq<Seq<char>>, Seq<Seq<char>>),
    Seq<char>,
>;

/// Every manifest parse error begins with this prefix.
pub open spec fn spec_parse_error_prefix() -> Seq<char> {
    "failed to parse package.json"@
}

/// Whether a well-formed manifest text declares `name` in either dependency
/// mapping. A text that does not parse declares nothing.
pub open spec fn manifest_declares(text: Seq<char>, name: Seq<char>) -> bool {
    match parsed_manifest(text) {
        Ok(sections) => sections.0.contains(name) || sections.1.contains(name),
        Err(_) => false,
    }
}

/// The two dependency mappings of a project manifest, reduced to the package
/// names that appear as keys.
pub struct Manifest {
    pub dependencies: Vec<String>,
    pub dev_dependencies: Vec<String>,
}

impl Manifest {
    /// Whether `name` appears as a key of either dependency mapping.
    pub open spec fn spec_declares(self, name: Seq<char>) -> bool {
        self.dependencies.deep_view().contains(name) || self.dev_dependencies.deep_view().contains(
            name,
        )
    }

    /// Whether `name` appears as a key of either dependency mapping.
    pub fn declares(&self, name: &str) -> (r: bool)
        ensures
            r == self.spec_declares(name@),
    {
        vec_contains_str(&self.dependencies, name) || vec_contains_str(&self.dev_dependencies, name)
    }
}

fn vec_contains_str(v: &Vec<String>, name: &str) -> (r: bool)
    ensures
        r == v.deep_view().contains(name@),
{
    let name_owned = name.to_owned();
    let mut i: usize = 0;
    while i < v.len()
        invariant
            0 <= i <= v.len(),
            name_owned@ == name@,
            forall|j: int| 0 <= j < i ==> v.deep_view()[j] != name@,
        decreases v.len() - i,
    {
        if v[i].eq(&name_owned) {
            assert(v.deep_view()[i as int] == name@);
            return true;
        }
        i = i + 1;
    }
    assert(forall|j: int| 0 <= j < v.deep_view().len() ==> v.deep_view()[j] != name@);
    false
}

/// Relies on `serde_json::from_str` and `serde_json::from_value`: parsing a
/// JSON document is a function of the text alone, and without the crate's
/// `preserve_order` feature its maps are ordered by key, so the collected key
/// lists are too. The document must be a JSON object; its `dependencies` and
/// `devDependencies` fields, where present, must be objects mapping package
/// names to version strings, and a missing field declares nothing.
#[verifier::external_body]
fn parse_manifest(text: &str) -> (r: Result<Manifest, String>)
    ensures
        r is Ok <==> parsed_manifest(text@) is Ok,
        r matches Ok(m) ==> (parsed_manifest(text@) matches Ok(sections)
            && sections.0 == m.dependencies.deep_view()
            && sections.1 == m.dev_dependencies.deep_view()),
        r matches Err(e) ==> (parsed_manifest(text@) matches Err(message) && message == e@
            && spec_parse_error_prefix().is_prefix_of(e@)),
{
    let doc: serde_json::Map<String, serde_json::Value> = serde_json::from_str(text)
        .map_err(|err| format!("failed to parse package.json: {err}"))?;
    let deps: BTreeMap<String, String> = match doc.get("dependencies") {
        Some(v) => serde_json::from_value(v.clone())
            .map_err(|err| format!("failed to parse package.json: {err}"))?,
        None => BTreeMap::new(),
    };
    let devs: BTreeMap<String, String> = match doc.get("devDependencies") {
        Some(v) => serde_json::from_value(v.clone())
            .map_err(|err| format!("failed to parse package.json: {err}"))?,
        None => BTreeMap::new(),
    };
    Ok(Manifest { dependencies: deps.into_keys().collect(), dev_dependencies: devs.into_keys().collect() })
}

/// Whether `manifest_text` declares `package_name` under `dependencies` or
/// `devDependencies`. Fails exactly when the text is not a well-formed
/// manifest, with the parse error.
pub fn has_dependency(manifest_text: &str, package_name: &str) -> (r: Result<bool, String>)
    ensures
        r is Ok <==> parsed_manifest(manifest_text@) is Ok,
        r matches Ok(b) ==> b == manifest_declares(manifest_text@, package_name@),
        r matches Err(e) ==> (parsed_manifest(manifest_text@) matches Err(message) && message == e@
            && spec_parse_error_prefix().is_prefix_of(e@)),
{
    match parse_manifest(manifest_text) {
        Ok(m) => Ok(m.declares(package_name)),
        Err(err) => Err(err),
    }
}

} // verus!
