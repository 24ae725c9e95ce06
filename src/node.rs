use crate::config::{Config, DependencySpec, DependencyView};
use vstd::prelude::*;

verus! {

#[verifier::external_type_specification]
#[verifier::external_body]
pub struct ExJsonError(serde_json::Error);

/// The installer manifest's dependency table: each key with its version
/// selector, in configuration order.
pub open spec fn manifest_entries_of(deps: Seq<(String, DependencySpec)>) -> Seq<(Seq<char>, Seq<char>)> {
    Seq::new(deps.len(), |i: int| (deps[i].0@, deps[i].1@.render(deps[i].0@)))
}

/// The name of the manifest field that holds the dependency table.
pub open spec fn dependencies_field() -> Seq<char> {
    "dependencies"@
}

/// The string pairs of `entries` as a map; a later pair with the same key
/// replaces an earlier one.
pub open spec fn entries_map(entries: Seq<(Seq<char>, Seq<char>)>) -> Map<Seq<char>, Seq<char>>
    decreases entries.len(),
{
    if entries.len() == 0 {
        Map::empty()
    } else {
        entries_map(entries.drop_last()).insert(entries.last().0, entries.last().1)
    }
}

/// The pretty-printed JSON object holding one field, named `table`, whose
/// value is the object of the string map `entries`.
pub uninterp spec fn json_document(table: Seq<char>, entries: Map<Seq<char>, Seq<char>>) -> Seq<char>;

/// Relies on serde_json::to_string_pretty, applied to a `serde_json::Value`
/// object built from `table` and `entries`. Its map is sorted by key, so
/// the text depends on the map of the pairs alone; serialising string keys
/// and strings into memory does not fail.
#[verifier::external_body]
fn encode_document(table: &str, entries: &Vec<(String, String)>) -> (r: Result<String, serde_json::Error>)
    ensures
        r is Ok,
        r matches Ok(s) ==> s@ == json_document(table@, entries_map(entries.deep_view())),
{
    let mut inner = serde_json::Map::new();
    for (k, v) in entries.iter() {
        inner.insert(k.clone(), serde_json::Value::String(v.clone()));
    }
    let mut outer = serde_json::Map::new();
    outer.insert(table.to_string(), serde_json::Value::Object(inner));
    serde_json::to_string_pretty(&serde_json::Value::Object(outer))
}

/// The error of a manifest that could not be encoded.
#[derive(Debug, Clone, PartialEq, Eq)]
pub enum ManifestError {
    Encode,
}

/// Each dependency key of `config` with the version selector the installer
/// manifest holds for it, in configuration order.
pub fn manifest_entries(config: &Config) -> (r: Vec<(String, String)>)
    ensures
        r.deep_view() == manifest_entries_of(config.dependencies@),
{
    let deps = &config.dependencies;
    let mut out: Vec<(String, String)> = Vec::new();
    let mut i: usize = 0;
    while i < deps.len()
        invariant
            0 <= i <= deps@.len(),
            deps == &config.dependencies,
            out.deep_view() =~= manifest_entries_of(deps@).subrange(0, i as int),
        decreases deps@.len() - i,
    {
        let key = &deps[i].0;
        let entry = deps[i].1.as_package_json_dependency_version(key.as_str());
        let ghost before = out.deep_view();
        out.push((key.clone(), entry));
        assert(out.deep_view() =~= before.push((key@, entry@)));
        i = i + 1;
    }
    out
}

/// Each dependency key of `deps` with its source, as a map.
pub open spec fn dependency_map(deps: Seq<(String, DependencySpec)>) -> Map<Seq<char>, DependencyView>
    decreases deps.len(),
{
    if deps.len() == 0 {
        Map::empty()
    } else {
        dependency_map(deps.drop_last()).insert(deps.last().0@, deps.last().1@)
    }
}

/// Each key of `m` with the version selector of its source.
pub open spec fn rendered_map(m: Map<Seq<char>, DependencyView>) -> Map<Seq<char>, Seq<char>> {
    Map::new(|k: Seq<char>| m.dom().contains(k), |k: Seq<char>| m[k].render(k))
}

/// The text of the installer manifest of the dependencies `deps`.
pub open spec fn manifest_of(deps: Seq<(String, DependencySpec)>) -> Seq<char> {
    json_document(dependencies_field(), entries_map(manifest_entries_of(deps)))
}

/// The installer manifest for `config`: a JSON document whose
/// `dependencies` object maps each key to its version selector.
pub fn build_package_json(config: &Config) -> (r: Result<String, ManifestError>)
    ensures
        r matches Ok(s) && s@ == manifest_of(config.dependencies@),
{
    let entries = manifest_entries(config);
    match encode_document("dependencies", &entries) {
        Ok(s) => Ok(s),
        Err(_) => Err(ManifestError::Encode),
    }
}

proof fn entries_follow_dependencies(deps: Seq<(String, DependencySpec)>)
    ensures
        entries_map(manifest_entries_of(deps)) == rendered_map(dependency_map(deps)),
    decreases deps.len(),
{
    if deps.len() > 0 {
        let short = deps.drop_last();
        entries_follow_dependencies(short);
        assert(manifest_entries_of(deps).drop_last() =~= manifest_entries_of(short));
        assert(entries_map(manifest_entries_of(deps)) =~= rendered_map(dependency_map(deps)));
    } else {
        assert(entries_map(manifest_entries_of(deps)) =~= rendered_map(dependency_map(deps)));
    }
}

/// The manifest depends on the dependencies as a map from key to source
/// alone: configurations with the same dependencies, listed in any order,
/// give the same text.
pub proof fn manifest_is_reproducible(a: Config, b: Config)
    requires
        dependency_map(a.dependencies@) == dependency_map(b.dependencies@),
    ensures
        manifest_of(a.dependencies@) == manifest_of(b.dependencies@),
{
    entries_follow_dependencies(a.dependencies@);
    entries_follow_dependencies(b.dependencies@);
}

} // verus!
