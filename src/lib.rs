//! Declarative orchestration of Node-style package dependencies: the source
//! model, the installer manifest, backend selection with fallback, and the
//! mapping of installed dependency names to directories.
pub mod config;
pub mod node;
pub mod package_manager;
pub mod pipeline;
pub mod project;

pub use config::{Config, ConfigError, DependencySpec, GitDependencyVersion, PackageManagerType, RawSpec};
pub use node::{build_package_json, manifest_entries, ManifestError};
pub use package_manager::{
    next_step, Auto, Backend, Bun, InstallCommand, InstallError, InstallPlan, InstallStep, Local,
    Npm, Outcome, Pnpm, SelectedBackend, Yarn,
};
pub use pipeline::{plan_build, BuildPlan};
pub use project::{install_path, install_segments, placeholder, resolve_dependencies, Project};
