use vstd::prelude::*;
use vstd::string::StringExecFns;

verus! {

/// The package manager a build installs with.
#[derive(Debug, Clone, PartialEq, Eq)]
pub enum PackageManagerType {
    /// Whichever known package manager on the system succeeds first.
    Auto,
    Npm,
    Pnpm,
    Yarn,
    Bun,
    /// An executable, invoked as `<executable> install`.
    LocalExecutable(String),
}

impl Default for PackageManagerType {
    fn default() -> (r: PackageManagerType)
        ensures
            r is Auto,
    {
        PackageManagerType::Auto
    }
}

/// The known package manager a configured name stands for, if any.
pub open spec fn known_selector(name: Seq<char>) -> Option<PackageManagerType> {
    if name == "auto"@ {
        Some(PackageManagerType::Auto)
    } else if name == "npm"@ {
        Some(PackageManagerType::Npm)
    } else if name == "pnpm"@ {
        Some(PackageManagerType::Pnpm)
    } else if name == "yarn"@ {
        Some(PackageManagerType::Yarn)
    } else if name == "bun"@ {
        Some(PackageManagerType::Bun)
    } else {
        None
    }
}

/// Whether `r` is the selector that the configured name `name` stands for.
pub open spec fn names_selector(name: Seq<char>, r: PackageManagerType) -> bool {
    match known_selector(name) {
        Some(known) => r == known,
        None => r matches PackageManagerType::LocalExecutable(e) && e@ == name,
    }
}

impl PackageManagerType {
    /// The selector for a configured name; the names are `auto`, `npm`,
    /// `pnpm`, `yarn` and `bun`, and any other name is an executable.
    pub fn from_name(name: &str) -> (r: PackageManagerType)
        ensures
            names_selector(name@, r),
    {
        let n = String::from_str(name);
        if n == String::from_str("auto") {
            PackageManagerType::Auto
        } else if n == String::from_str("npm") {
            PackageManagerType::Npm
        } else if n == String::from_str("pnpm") {
            PackageManagerType::Pnpm
        } else if n == String::from_str("yarn") {
            PackageManagerType::Yarn
        } else if n == String::from_str("bun") {
            PackageManagerType::Bun
        } else {
            PackageManagerType::LocalExecutable(n)
        }
    }
}

/// The ref a git-hosted dependency is pinned to, as written in configuration.
pub enum GitRefView {
    Tag(Seq<char>),
    Reference(Seq<char>),
    Branch(Seq<char>),
}

impl GitRefView {
    /// Every kind of ref is written out verbatim.
    pub open spec fn text(self) -> Seq<char> {
        match self {
            GitRefView::Tag(t) => t,
            GitRefView::Reference(r) => r,
            GitRefView::Branch(b) => b,
        }
    }
}

/// The mathematical model of one dependency's source.
pub enum DependencyView {
    RegistryVersion(Seq<char>),
    Registry { registry: Seq<char>, name: Option<Seq<char>>, version: Seq<char> },
    Url { url: Seq<char> },
    Git { git: Seq<char>, version: Option<GitRefView> },
    Github { github: Seq<char>, version: Option<GitRefView> },
    LocalPath { path: Seq<char> },
}

/// `base` alone, or `base#ref` when a ref is given.
pub open spec fn with_ref(base: Seq<char>, version: Option<GitRefView>) -> Seq<char> {
    match version {
        Some(v) => base + seq!['#'] + v.text(),
        None => base,
    }
}

impl DependencyView {
    /// The version selector written into the installer manifest for the
    /// dependency stored under `key`.
    pub open spec fn render(self, key: Seq<char>) -> Seq<char> {
        match self {
            DependencyView::RegistryVersion(v) => v,
            DependencyView::Registry { registry, name, version } => {
                let package = match name {
                    Some(n) => n,
                    None => key,
                };
                key + seq!['@'] + registry + seq![':'] + package + seq!['@'] + version
            },
            DependencyView::Url { url } => url,
            DependencyView::Git { git, version } => with_ref(git, version),
            DependencyView::Github { github, version } => with_ref(github, version),
            DependencyView::LocalPath { path } => path,
        }
    }
}

/// A version of a git dependency (`Git`, `Github`).
#[derive(Debug, Clone, PartialEq, Eq)]
pub enum GitDependencyVersion {
    Tag { tag: String },
    Reference { reference: String },
    Branch { branch: String },
}

impl View for GitDependencyVersion {
    type V = GitRefView;

    open spec fn view(&self) -> GitRefView {
        match self {
            GitDependencyVersion::Tag { tag } => GitRefView::Tag(tag@),
            GitDependencyVersion::Reference { reference } => GitRefView::Reference(reference@),
            GitDependencyVersion::Branch { branch } => GitRefView::Branch(branch@),
        }
    }
}

impl GitDependencyVersion {
    /// The ref as the installer reads it.
    pub fn to_string(&self) -> (r: String)
        ensures
            r@ == self@.text(),
    {
        match self {
            GitDependencyVersion::Tag { tag } => tag.clone(),
            GitDependencyVersion::Reference { reference } => reference.clone(),
            GitDependencyVersion::Branch { branch } => branch.clone(),
        }
    }
}

pub open spec fn ref_view(v: Option<GitDependencyVersion>) -> Option<GitRefView> {
    match v {
        Some(g) => Some(g@),
        None => None,
    }
}

/// Where one dependency comes from, and which version of it to install.
#[derive(Debug, Clone, PartialEq, Eq)]
pub enum DependencySpec {
    /// A package of the default registry, at the given version.
    RegistryVersion(String),
    /// A package of a named registry, optionally under another package name.
    Registry { registry: String, name: Option<String>, version: String },
    /// A tarball located at the url.
    Url { url: String },
    /// A git repository.
    Git { git: String, version: Option<GitDependencyVersion> },
    /// A GitHub repository, written `owner/repo`.
    Github { github: String, version: Option<GitDependencyVersion> },
    /// A directory on the local machine.
    LocalPath { path: String },
}

impl View for DependencySpec {
    type V = DependencyView;

    open spec fn view(&self) -> DependencyView {
        match self {
            DependencySpec::RegistryVersion(v) => DependencyView::RegistryVersion(v@),
            DependencySpec::Registry { registry, name, version } => DependencyView::Registry {
                registry: registry@,
                name: match name {
                    Some(n) => Some(n@),
                    None => None,
                },
                version: version@,
            },
            DependencySpec::Url { url } => DependencyView::Url { url: url@ },
            DependencySpec::Git { git, version } => DependencyView::Git {
                git: git@,
                version: ref_view(*version),
            },
            DependencySpec::Github { github, version } => DependencyView::Github {
                github: github@,
                version: ref_view(*version),
            },
            DependencySpec::LocalPath { path } => DependencyView::LocalPath { path: path@ },
        }
    }
}

/// `base`, followed by `#ref` when a ref is given.
fn append_ref(base: &String, version: &Option<GitDependencyVersion>) -> (r: String)
    ensures
        r@ == with_ref(base@, ref_view(*version)),
{
    match version {
        Some(v) => {
            let mut s = base.clone();
            s.append("#");
            s.append(v.to_string().as_str());
            proof {
                reveal_strlit("#");
            }
            s
        },
        None => base.clone(),
    }
}

impl DependencySpec {
    /// The registry used when a `Registry` dependency names none.
    pub fn default_registry() -> (r: String)
        ensures
            r@ == default_registry_name(),
    {
        String::from_str("npm")
    }

    /// The version selector that the installer manifest holds for this
    /// dependency under `key`.
    pub fn as_package_json_dependency_version(&self, key: &str) -> (r: String)
        ensures
            r@ == self@.render(key@),
    {
        proof {
            reveal_strlit("@");
            reveal_strlit(":");
        }
        match self {
            DependencySpec::RegistryVersion(version) => version.clone(),
            DependencySpec::Registry { registry, name, version } => {
                let mut s = String::from_str(key);
                s.append("@");
                s.append(registry.as_str());
                s.append(":");
                match name {
                    Some(n) => s.append(n.as_str()),
                    None => s.append(key),
                }
                s.append("@");
                s.append(version.as_str());
                s
            },
            DependencySpec::Url { url } => url.clone(),
            DependencySpec::Git { git, version } => append_ref(git, version),
            DependencySpec::Github { github, version } => append_ref(github, version),
            DependencySpec::LocalPath { path } => path.clone(),
        }
    }
}

pub open spec fn default_registry_name() -> Seq<char> {
    "npm"@
}

/// A dependency's configuration value before its shape is decided: a bare
/// string, or a table of named string fields.
#[derive(Debug, Clone, PartialEq, Eq)]
pub enum RawSpec {
    Text(String),
    Table(Vec<(String, String)>),
}

/// The first value of the field called `name`, if any.
pub open spec fn lookup(fields: Seq<(Seq<char>, Seq<char>)>, name: Seq<char>) -> Option<Seq<char>>
    decreases fields.len(),
{
    if fields.len() == 0 {
        None
    } else if fields[0].0 == name {
        Some(fields[0].1)
    } else {
        lookup(fields.subrange(1, fields.len() as int), name)
    }
}

/// The pinned ref of a git-hosted dependency: `tag`, else `ref`, else `branch`.
pub open spec fn decode_ref(fields: Seq<(Seq<char>, Seq<char>)>) -> Option<GitRefView> {
    if lookup(fields, "tag"@) is Some {
        Some(GitRefView::Tag(lookup(fields, "tag"@)->0))
    } else if lookup(fields, "ref"@) is Some {
        Some(GitRefView::Reference(lookup(fields, "ref"@)->0))
    } else if lookup(fields, "branch"@) is Some {
        Some(GitRefView::Branch(lookup(fields, "branch"@)->0))
    } else {
        None
    }
}

/// The source a table describes, probing its distinguishing fields in the
/// order `url`, `git`, `github`, `path`, `version`; `None` when it has none.
pub open spec fn decode_table(fields: Seq<(Seq<char>, Seq<char>)>) -> Option<DependencyView> {
    if lookup(fields, "url"@) is Some {
        Some(DependencyView::Url { url: lookup(fields, "url"@)->0 })
    } else if lookup(fields, "git"@) is Some {
        Some(DependencyView::Git { git: lookup(fields, "git"@)->0, version: decode_ref(fields) })
    } else if lookup(fields, "github"@) is Some {
        Some(
            DependencyView::Github {
                github: lookup(fields, "github"@)->0,
                version: decode_ref(fields),
            },
        )
    } else if lookup(fields, "path"@) is Some {
        Some(DependencyView::LocalPath { path: lookup(fields, "path"@)->0 })
    } else if lookup(fields, "version"@) is Some {
        Some(
            DependencyView::Registry {
                registry: match lookup(fields, "registry"@) {
                    Some(r) => r,
                    None => default_registry_name(),
                },
                name: lookup(fields, "name"@),
                version: lookup(fields, "version"@)->0,
            },
        )
    } else {
        None
    }
}

impl RawSpec {
    pub open spec fn decoded(self) -> Option<DependencyView> {
        match self {
            RawSpec::Text(v) => Some(DependencyView::RegistryVersion(v@)),
            RawSpec::Table(fields) => decode_table(fields.deep_view()),
        }
    }
}

/// The value of the first field of `fields` called `name`.
fn find_field(fields: &Vec<(String, String)>, name: &str) -> (r: Option<String>)
    ensures
        r.deep_view() == lookup(fields.deep_view(), name@),
{
    let target = String::from_str(name);
    let ghost all = fields.deep_view();
    let mut i: usize = 0;
    assert(all.subrange(0, all.len() as int) =~= all);
    while i < fields.len()
        invariant
            0 <= i <= fields.len(),
            all == fields.deep_view(),
            target@ == name@,
            lookup(all, name@) == lookup(all.subrange(i as int, all.len() as int), name@),
        decreases fields.len() - i,
    {
        let ghost rest = all.subrange(i as int, all.len() as int);
        assert(rest[0] == all[i as int]);
        if fields[i].0 == target {
            return Some(fields[i].1.clone());
        }
        assert(rest.subrange(1, rest.len() as int) =~= all.subrange(i + 1, all.len() as int));
        i = i + 1;
    }
    None
}

fn decode_git_ref(fields: &Vec<(String, String)>) -> (r: Option<GitDependencyVersion>)
    ensures
        ref_view(r) == decode_ref(fields.deep_view()),
{
    if let Some(tag) = find_field(fields, "tag") {
        Some(GitDependencyVersion::Tag { tag })
    } else if let Some(reference) = find_field(fields, "ref") {
        Some(GitDependencyVersion::Reference { reference })
    } else if let Some(branch) = find_field(fields, "branch") {
        Some(GitDependencyVersion::Branch { branch })
    } else {
        None
    }
}

/// The error of a configuration that cannot be turned into dependencies.
#[derive(Debug, Clone, PartialEq, Eq)]
pub enum ConfigError {
    /// The value of the dependency under this key has none of the
    /// distinguishing fields of a source.
    InvalidDependencySpec(String),
}

impl DependencySpec {
    /// Decides the source that `raw` describes, trying the shapes in a fixed
    /// order (first match wins); `key` names the dependency in the error.
    pub fn decode(key: &str, raw: &RawSpec) -> (r: Result<DependencySpec, ConfigError>)
        ensures
            match r {
                Ok(spec) => raw.decoded() == Some(spec@),
                Err(ConfigError::InvalidDependencySpec(k)) => raw.decoded() is None && k@ == key@,
            },
    {
        match raw {
            RawSpec::Text(v) => Ok(DependencySpec::RegistryVersion(v.clone())),
            RawSpec::Table(fields) => {
                if let Some(url) = find_field(fields, "url") {
                    Ok(DependencySpec::Url { url })
                } else if let Some(git) = find_field(fields, "git") {
                    Ok(DependencySpec::Git { git, version: decode_git_ref(fields) })
                } else if let Some(github) = find_field(fields, "github") {
                    Ok(DependencySpec::Github { github, version: decode_git_ref(fields) })
                } else if let Some(path) = find_field(fields, "path") {
                    Ok(DependencySpec::LocalPath { path })
                } else if let Some(version) = find_field(fields, "version") {
                    let registry = match find_field(fields, "registry") {
                        Some(r) => r,
                        None => DependencySpec::default_registry(),
                    };
                    let name = find_field(fields, "name");
                    Ok(DependencySpec::Registry { registry, name, version })
                } else {
                    Err(ConfigError::InvalidDependencySpec(String::from_str(key)))
                }
            },
        }
    }
}

/// The manifest entry a dependency's raw value gives under `key`, if it
/// describes a source.
pub open spec fn rendered_entry(key: Seq<char>, raw: RawSpec) -> Option<Seq<char>> {
    match raw.decoded() {
        Some(d) => Some(d.render(key)),
        None => None,
    }
}

/// Decoding a raw value and rendering it gives: a bare string itself; the
/// `url`; the `git` or `github` repository, followed by `#` and the `tag`,
/// `ref` or `branch` when one is given; the `path`; or
/// `key@registry:name@version`, with registry `npm` and the key as name
/// when they are absent. A table with none of these fields gives nothing.
pub proof fn decode_then_render(key: Seq<char>, raw: RawSpec)
    ensures
        raw matches RawSpec::Text(v) ==> rendered_entry(key, raw) == Some(v@),
        raw matches RawSpec::Table(t) ==> {
            let f = t.deep_view();
            if let Some(url) = lookup(f, "url"@) {
                rendered_entry(key, raw) == Some(url)
            } else if let Some(git) = lookup(f, "git"@) {
                rendered_entry(key, raw) == Some(
                    match decode_ref(f) {
                        Some(v) => git + seq!['#'] + v.text(),
                        None => git,
                    },
                )
            } else if let Some(github) = lookup(f, "github"@) {
                rendered_entry(key, raw) == Some(
                    match decode_ref(f) {
                        Some(v) => github + seq!['#'] + v.text(),
                        None => github,
                    },
                )
            } else if let Some(path) = lookup(f, "path"@) {
                rendered_entry(key, raw) == Some(path)
            } else if let Some(version) = lookup(f, "version"@) {
                let registry = match lookup(f, "registry"@) {
                    Some(r) => r,
                    None => "npm"@,
                };
                let package = match lookup(f, "name"@) {
                    Some(n) => n,
                    None => key,
                };
                rendered_entry(key, raw) == Some(
                    key + seq!['@'] + registry + seq![':'] + package + seq!['@'] + version,
                )
            } else {
                rendered_entry(key, raw) is None
            }
        },
{
}

/// A table with both a `git` and a `path` field is a git dependency (or,
/// with a `url`, a tarball), never a local path.
pub proof fn git_takes_precedence_over_path(fields: Seq<(Seq<char>, Seq<char>)>)
    requires
        lookup(fields, "git"@) is Some,
        lookup(fields, "path"@) is Some,
    ensures
        decode_table(fields) is Some,
        !(decode_table(fields)->0 is LocalPath),
        lookup(fields, "url"@) is None ==> decode_table(fields)->0 is Git,
{
}

/// A registry dependency is installed under the package name it gives, or
/// under its own key when it gives none.
pub proof fn registry_package_name(key: Seq<char>, registry: Seq<char>, name: Option<Seq<char>>, version: Seq<char>)
    ensures
        (DependencyView::Registry { registry, name: None, version }).render(key) == key + seq!['@']
            + registry + seq![':'] + key + seq!['@'] + version,
        name matches Some(n) ==> (DependencyView::Registry { registry, name, version }).render(key)
            == key + seq!['@'] + registry + seq![':'] + n + seq!['@'] + version,
{
}

/// A build's configuration: the package manager, and each dependency under
/// its key.
#[derive(Debug, Clone, PartialEq, Eq)]
pub struct Config {
    pub package_manager: PackageManagerType,
    pub dependencies: Vec<(String, DependencySpec)>,
}

impl Default for Config {
    fn default() -> (r: Config)
        ensures
            r.package_manager is Auto,
            r.dependencies@.len() == 0,
    {
        Config { package_manager: PackageManagerType::Auto, dependencies: Vec::new() }
    }
}

/// Whether no two entries of `s` have the same key.
pub open spec fn distinct_keys<V>(s: Seq<(String, V)>) -> bool {
    forall|i: int, j: int| 0 <= i < j < s.len() ==> (#[trigger] s[i]).0@ != (#[trigger] s[j]).0@
}

impl Config {
    /// Each dependency key occurs once.
    pub open spec fn wf(&self) -> bool {
        distinct_keys(self.dependencies@)
    }
}

/// Whether every dependency of `raw` has a source.
pub open spec fn all_decode(raw: Seq<(String, RawSpec)>) -> bool {
    forall|i: int| 0 <= i < raw.len() ==> (#[trigger] raw[i]).1.decoded() is Some
}

/// Whether `deps` holds the sources of `raw`, key for key and in order.
pub open spec fn decodes_to(raw: Seq<(String, RawSpec)>, deps: Seq<(String, DependencySpec)>) -> bool {
    &&& deps.len() == raw.len()
    &&& forall|i: int|
        0 <= i < raw.len() ==> {
            &&& (#[trigger] deps[i]).0@ == raw[i].0@
            &&& raw[i].1.decoded() == Some(deps[i].1@)
        }
}

impl Config {
    /// Decodes a configuration from the configured package manager name
    /// (absent: `auto`) and the raw value of each dependency; fails on the
    /// first dependency whose value describes no source. The keys are those
    /// of a map, so each occurs once.
    pub fn decode(package_manager: &Option<String>, dependencies: &Vec<(String, RawSpec)>) -> (r:
        Result<Config, ConfigError>)
        requires
            distinct_keys(dependencies@),
        ensures
            r is Ok <==> all_decode(dependencies@),
            r matches Ok(c) ==> {
                &&& c.wf()
                &&& decodes_to(dependencies@, c.dependencies@)
                &&& match package_manager {
                    Some(n) => names_selector(n@, c.package_manager),
                    None => c.package_manager is Auto,
                }
            },
            r matches Err(ConfigError::InvalidDependencySpec(k)) ==> exists|i: int|
                {
                    &&& 0 <= i < dependencies@.len()
                    &&& (#[trigger] dependencies@[i]).1.decoded() is None
                    &&& k@ == dependencies@[i].0@
                    &&& all_decode(dependencies@.subrange(0, i))
                },
    {
        let mut deps: Vec<(String, DependencySpec)> = Vec::new();
        let mut i: usize = 0;
        while i < dependencies.len()
            invariant
                0 <= i <= dependencies@.len(),
                decodes_to(dependencies@.subrange(0, i as int), deps@),
            decreases dependencies@.len() - i,
        {
            let key = &dependencies[i].0;
            match DependencySpec::decode(key.as_str(), &dependencies[i].1) {
                Ok(spec) => {
                    deps.push((key.clone(), spec));
                },
                Err(e) => {
                    assert(all_decode(dependencies@.subrange(0, i as int))) by {
                        assert forall|j: int| 0 <= j < i implies (#[trigger] dependencies@.subrange(0, i as int)[j]).1.decoded() is Some by {
                            assert(deps@[j].0@ == dependencies@[j].0@);
                        }
                    }
                    assert(!all_decode(dependencies@)) by {
                        assert(dependencies@[i as int].1.decoded() is None);
                    }
                    return Err(e);
                },
            }
            i = i + 1;
            assert(dependencies@.subrange(0, i as int) =~= dependencies@.subrange(0, i - 1).push(dependencies@[i - 1]));
        }
        assert(dependencies@.subrange(0, i as int) =~= dependencies@);
        assert forall|j: int| 0 <= j < dependencies@.len() implies (#[trigger] dependencies@[j]).1.decoded() is Some by {
            assert(deps@[j].0@ == dependencies@[j].0@);
        }
        assert forall|a: int, b: int| 0 <= a < b < deps@.len() implies (#[trigger] deps@[a]).0@ != (#[trigger] deps@[b]).0@ by {
            assert(deps@[a].0@ == dependencies@[a].0@);
            assert(deps@[b].0@ == dependencies@[b].0@);
            assert(dependencies@[a].0@ != dependencies@[b].0@);
        }
        let package_manager = match package_manager {
            Some(n) => PackageManagerType::from_name(n.as_str()),
            None => PackageManagerType::Auto,
        };
        Ok(Config { package_manager, dependencies: deps })
    }
}

} // verus!
