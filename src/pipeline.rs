use crate::config::Config;
use crate::node::{build_package_json, manifest_of, ManifestError};
use crate::package_manager::{Backend, InstallPlan, SelectedBackend};
use vstd::prelude::*;
use vstd::string::StringExecFns;

verus! {

/// Everything a build needs to do on disk, decided from its configuration:
/// the manifest to write, where to write it, how to install, and where the
/// installed dependencies will be.
#[derive(Debug, Clone, PartialEq, Eq)]
pub struct BuildPlan {
    /// The work directory, created when absent.
    pub work_dir: String,
    /// Where the manifest is written, over any earlier one.
    pub manifest_path: String,
    /// The manifest's text.
    pub manifest: String,
    /// The selected backend.
    pub backend: SelectedBackend,
    /// The installer invocations of that backend, in the order they are tried.
    pub install: InstallPlan,
    /// The directory under which the installer puts the dependencies.
    pub installed_root: String,
}

/// `dir/name`.
pub open spec fn child(dir: Seq<char>, name: Seq<char>) -> Seq<char> {
    dir + seq!['/'] + name
}

fn child_path(dir: &str, name: &str) -> (r: String)
    ensures
        r@ == child(dir@, name@),
{
    proof {
        reveal_strlit("/");
    }
    let mut r = String::from_str(dir);
    r.append("/");
    r.append(name);
    r
}

/// Plans the build of `config` under the build output directory `out_dir`:
/// the work directory is `out_dir/interoper`, the manifest is its
/// `package.json`, the dependencies go to its `node_modules`, and the
/// installer is the one `config` selects.
pub fn plan_build(config: &Config, out_dir: &str) -> (r: Result<BuildPlan, ManifestError>)
    ensures
        r matches Ok(p) && {
            &&& p.work_dir@ == child(out_dir@, "interoper"@)
            &&& p.manifest_path@ == child(p.work_dir@, "package.json"@)
            &&& p.installed_root@ == child(p.work_dir@, "node_modules"@)
            &&& p.manifest@ == manifest_of(config.dependencies@)
            &&& p.backend.plan_spec() == config.package_manager.plan_spec()
            &&& p.install@ == config.package_manager.plan_spec()
        },
{
    let work_dir = child_path(out_dir, "interoper");
    let manifest = match build_package_json(config) {
        Ok(m) => m,
        Err(e) => {
            return Err(e);
        },
    };
    let manifest_path = child_path(work_dir.as_str(), "package.json");
    let installed_root = child_path(work_dir.as_str(), "node_modules");
    let backend = config.package_manager.as_backend();
    let install = backend.plan();
    Ok(BuildPlan { work_dir, manifest_path, manifest, backend, install, installed_root })
}

} // verus!
