//! The project's configuration.

use crate::strmap::{sorted_keys, StrMap};
use vstd::prelude::*;

verus! {

/// What the project is called and where its code lives.
#[derive(Clone, Debug)]
pub struct ProjectInfo {
    pub name: String,
    pub entry: String,
    pub modules_dir: String,
}

/// Where a dependency comes from.
#[derive(Clone, Debug)]
pub struct DependencySpec {
    pub url: Option<String>,
    pub version: Option<String>,
    pub path: Option<String>,
}

/// The runtime that the project's scripts run on.
#[derive(Clone, Debug)]
pub struct RuntimeConfig {
    pub name: String,
    pub security: String,
    pub performance: String,
    pub notes: String,
}

/// How the project is built.
#[derive(Clone, Debug)]
pub struct BuildConfig {
    pub kind: String,
    pub link: String,
    pub modules: String,
    pub module_languages: Vec<String>,
    pub features: Vec<String>,
    pub c_compiler: Option<String>,
    pub cpp_compiler: Option<String>,
    pub toolchain: Option<String>,
}

/// The project's configuration. A dependency name has at most one
/// description, and the descriptions stand in the rising order of the
/// names.
#[derive(Clone, Debug)]
pub struct ProjectConfig {
    pub project: ProjectInfo,
    pub dependencies: StrMap<DependencySpec>,
    pub runtime: Option<RuntimeConfig>,
    pub build: Option<BuildConfig>,
}

/// What a new project named `name` is: its entry script and its modules
/// directory are the usual ones.
pub open spec fn fresh_info(info: ProjectInfo, name: Seq<char>) -> bool {
    &&& info.name@ == name
    &&& info.entry@ == "src/main.luau"@
    &&& info.modules_dir@ == "modules"@
}

impl DependencySpec {
    /// A description that says nothing.
    pub fn new() -> (r: Self)
        ensures
            r.url.is_none(),
            r.version.is_none(),
            r.path.is_none(),
    {
        DependencySpec { url: None, version: None, path: None }
    }
}

impl Default for DependencySpec {
    fn default() -> (r: Self)
        ensures
            r.url.is_none(),
            r.version.is_none(),
            r.path.is_none(),
    {
        DependencySpec::new()
    }
}

impl ProjectConfig {
    /// The configuration of a new project without runtime or build
    /// settings.
    pub fn new(name: &str) -> (r: Self)
        ensures
            fresh_info(r.project, name@),
            r.dependencies@ == Map::<Seq<char>, DependencySpec>::empty(),
            r.runtime.is_none(),
            r.build.is_none(),
    {
        ProjectConfig {
            project: ProjectInfo {
                name: name.to_owned(),
                entry: "src/main.luau".to_owned(),
                modules_dir: "modules".to_owned(),
            },
            dependencies: StrMap::new(),
            runtime: None,
            build: None,
        }
    }

    /// The configuration of a new project that runs on `runtime`.
    pub fn new_with_runtime(name: &str, runtime: RuntimeConfig, build: Option<BuildConfig>) -> (r:
        Self)
        ensures
            fresh_info(r.project, name@),
            r.dependencies@ == Map::<Seq<char>, DependencySpec>::empty(),
            r.runtime == Some(runtime),
            r.build == build,
    {
        ProjectConfig {
            project: ProjectInfo {
                name: name.to_owned(),
                entry: "src/main.luau".to_owned(),
                modules_dir: "modules".to_owned(),
            },
            dependencies: StrMap::new(),
            runtime: Some(runtime),
            build,
        }
    }

    /// Describes the dependency `name`, in the place of any earlier
    /// description of it. Nothing else changes.
    pub fn add_dependency(&mut self, name: &str, spec: DependencySpec)
        ensures
            final(self).dependencies@ == old(self).dependencies@.insert(name@, spec),
            sorted_keys(final(self).dependencies.entries()),
            final(self).project == old(self).project,
            final(self).runtime == old(self).runtime,
            final(self).build == old(self).build,
    {
        self.dependencies.insert(name.to_owned(), spec);
    }

    /// Drops the dependency `name`, if it is described. Nothing else
    /// changes.
    pub fn remove_dependency(&mut self, name: &str)
        ensures
            final(self).dependencies@ == old(self).dependencies@.remove(name@),
            sorted_keys(final(self).dependencies.entries()),
            final(self).project == old(self).project,
            final(self).runtime == old(self).runtime,
            final(self).build == old(self).build,
    {
        self.dependencies.remove(name);
    }
}

} // verus!
