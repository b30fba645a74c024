//! The internal partial-plan representation and the frozen build plan.
//!
//! Decomposed provider phases are normalized into [`NewPhase`] values — one
//! uniform shape per named phase — before merging. A [`NewBuildPlan`] is one
//! provider's whole contribution; a [`BuildPlan`] is the frozen, ordered
//! output the external builder consumes.

use vstd::prelude::*;

use crate::environment::EnvVar;
use crate::listops::{opt_view, push_opt, extend_opt};
use crate::phase::{BuildPhase, InstallPhase, SetupPhase, StartPhase};
use crate::pkg::Pkg;
use crate::strutil::opt_chars;

verus! {

/// One named phase in the uniform shape the merge pipeline works on.
#[derive(Debug, PartialEq)]
pub struct NewPhase {
    pub name: String,
    pub nix_pkgs: Option<Vec<Pkg>>,
    pub nix_libraries: Option<Vec<String>>,
    pub nixpacks_archive: Option<String>,
    pub apt_pkgs: Option<Vec<String>>,
    pub cmds: Option<Vec<String>>,
    pub only_include_files: Option<Vec<String>>,
    pub cache_directories: Option<Vec<String>>,
    pub paths: Option<Vec<String>>,
    pub depends_on: Option<Vec<String>>,
}

impl NewPhase {
    pub fn new(name: &str) -> (p: NewPhase)
        ensures
            p.name@ == name@,
            p.nix_pkgs is None,
            p.nix_libraries is None,
            p.nixpacks_archive is None,
            p.apt_pkgs is None,
            p.cmds is None,
            p.only_include_files is None,
            p.cache_directories is None,
            p.paths is None,
            p.depends_on is None,
    {
        NewPhase {
            name: name.to_owned(),
            nix_pkgs: None,
            nix_libraries: None,
            nixpacks_archive: None,
            apt_pkgs: None,
            cmds: None,
            only_include_files: None,
            cache_directories: None,
            paths: None,
            depends_on: None,
        }
    }

    pub fn add_nix_pkgs(&mut self, new_pkgs: Vec<Pkg>)
        ensures
            final(self).nix_pkgs is Some,
            opt_view(final(self).nix_pkgs) == opt_view(old(self).nix_pkgs) + new_pkgs@,
            final(self).name == old(self).name,
            final(self).nix_libraries == old(self).nix_libraries,
            final(self).nixpacks_archive == old(self).nixpacks_archive,
            final(self).apt_pkgs == old(self).apt_pkgs,
            final(self).cmds == old(self).cmds,
            final(self).only_include_files == old(self).only_include_files,
            final(self).cache_directories == old(self).cache_directories,
            final(self).paths == old(self).paths,
            final(self).depends_on == old(self).depends_on,
    {
        extend_opt(&mut self.nix_pkgs, new_pkgs);
    }

    pub fn add_cmd(&mut self, cmd: String)
        ensures
            final(self).cmds is Some,
            opt_view(final(self).cmds) == opt_view(old(self).cmds).push(cmd),
            final(self).name == old(self).name,
            final(self).nix_pkgs == old(self).nix_pkgs,
            final(self).nix_libraries == old(self).nix_libraries,
            final(self).nixpacks_archive == old(self).nixpacks_archive,
            final(self).apt_pkgs == old(self).apt_pkgs,
            final(self).only_include_files == old(self).only_include_files,
            final(self).cache_directories == old(self).cache_directories,
            final(self).paths == old(self).paths,
            final(self).depends_on == old(self).depends_on,
    {
        push_opt(&mut self.cmds, cmd);
    }

    /// Declare that this phase must run after the phase named `name`.
    pub fn depends_on_phase(&mut self, name: &str)
        ensures
            final(self).depends_on is Some,
            opt_view(final(self).depends_on).len() == opt_view(old(self).depends_on).len()
                + 1,
            opt_view(final(self).depends_on) =~= opt_view(old(self).depends_on).push(
                opt_view(final(self).depends_on).last(),
            ),
            opt_view(final(self).depends_on).last()@ == name@,
            final(self).name == old(self).name,
            final(self).nix_pkgs == old(self).nix_pkgs,
            final(self).nix_libraries == old(self).nix_libraries,
            final(self).nixpacks_archive == old(self).nixpacks_archive,
            final(self).apt_pkgs == old(self).apt_pkgs,
            final(self).cmds == old(self).cmds,
            final(self).only_include_files == old(self).only_include_files,
            final(self).cache_directories == old(self).cache_directories,
            final(self).paths == old(self).paths,
    {
        push_opt(&mut self.depends_on, name.to_owned());
    }

    /// Normalize a decomposed setup phase, which always carries the name
    /// `setup`.
    pub fn from_setup(setup_phase: SetupPhase) -> (p: NewPhase)
        ensures
            p.name@ == "setup"@,
            p.nix_pkgs matches Some(v) && v@ == setup_phase.pkgs@,
            p.nix_libraries == setup_phase.libraries,
            p.nixpacks_archive == setup_phase.archive,
            p.apt_pkgs == setup_phase.apt_pkgs,
            p.cmds == setup_phase.cmds,
            p.only_include_files == setup_phase.only_include_files,
            p.cache_directories is None,
            p.paths is None,
            p.depends_on is None,
    {
        NewPhase {
            name: "setup".to_owned(),
            nix_pkgs: Some(setup_phase.pkgs),
            nix_libraries: setup_phase.libraries,
            nixpacks_archive: setup_phase.archive,
            apt_pkgs: setup_phase.apt_pkgs,
            cmds: setup_phase.cmds,
            only_include_files: setup_phase.only_include_files,
            cache_directories: None,
            paths: None,
            depends_on: None,
        }
    }

    /// Normalize a decomposed install phase, which always carries the name
    /// `install`. The extra path entries are an install-time concern and do
    /// not carry into the uniform phase.
    pub fn from_install(install_phase: InstallPhase) -> (p: NewPhase)
        ensures
            p.name@ == "install"@,
            p.cmds == install_phase.cmds,
            p.only_include_files == install_phase.only_include_files,
            p.cache_directories == install_phase.cache_directories,
            p.paths is None,
            p.nix_pkgs is None,
            p.nix_libraries is None,
            p.nixpacks_archive is None,
            p.apt_pkgs is None,
            p.depends_on is None,
    {
        NewPhase {
            name: "install".to_owned(),
            nix_pkgs: None,
            nix_libraries: None,
            nixpacks_archive: None,
            apt_pkgs: None,
            cmds: install_phase.cmds,
            only_include_files: install_phase.only_include_files,
            cache_directories: install_phase.cache_directories,
            paths: None,
            depends_on: None,
        }
    }

    /// Normalize a decomposed build phase, which always carries the name
    /// `build`.
    pub fn from_build(build_phase: BuildPhase) -> (p: NewPhase)
        ensures
            p.name@ == "build"@,
            p.cmds == build_phase.cmds,
            p.only_include_files == build_phase.only_include_files,
            p.cache_directories == build_phase.cache_directories,
            p.nix_pkgs is None,
            p.nix_libraries is None,
            p.nixpacks_archive is None,
            p.apt_pkgs is None,
            p.paths is None,
            p.depends_on is None,
    {
        NewPhase {
            name: "build".to_owned(),
            nix_pkgs: None,
            nix_libraries: None,
            nixpacks_archive: None,
            apt_pkgs: None,
            cmds: build_phase.cmds,
            only_include_files: build_phase.only_include_files,
            cache_directories: build_phase.cache_directories,
            paths: None,
            depends_on: None,
        }
    }
}

/// The start phase in its uniform shape.
#[derive(Debug, PartialEq)]
pub struct NewStartPhase {
    pub cmd: Option<String>,
    pub run_image: Option<String>,
    pub only_include_files: Option<Vec<String>>,
}

impl NewStartPhase {
    pub fn new() -> (p: NewStartPhase)
        ensures
            p.cmd is None,
            p.run_image is None,
            p.only_include_files is None,
    {
        NewStartPhase { cmd: None, run_image: None, only_include_files: None }
    }

    /// Normalize a decomposed start phase; its file allowlist is resolved
    /// separately at freeze and does not carry over.
    pub fn from_start(start_phase: StartPhase) -> (p: NewStartPhase)
        ensures
            p.cmd == start_phase.cmd,
            p.run_image == start_phase.run_image,
            p.only_include_files is None,
    {
        NewStartPhase { cmd: start_phase.cmd, run_image: start_phase.run_image, only_include_files: None }
    }
}

/// One provider's whole contribution: named phases and, possibly, a start
/// phase.
#[derive(Debug, PartialEq)]
pub struct NewBuildPlan {
    pub phases: Vec<NewPhase>,
    pub start_phase: Option<NewStartPhase>,
}

impl NewBuildPlan {
    pub fn new(phases: Vec<NewPhase>) -> (p: NewBuildPlan)
        ensures
            p.phases@ == phases@,
            p.start_phase is None,
    {
        NewBuildPlan { phases, start_phase: None }
    }
}

/// An equal copy of an optional string.
pub fn clone_opt_string(o: &Option<String>) -> (r: Option<String>)
    ensures
        r == *o,
{
    match o {
        Some(s) => Some(s.clone()),
        None => None,
    }
}

/// An equal copy of an optional string list.
pub fn clone_opt_strings(o: &Option<Vec<String>>) -> (r: Option<Vec<String>>)
    ensures
        crate::listops::opt_model(r) == crate::listops::opt_model(*o),
        r is Some <==> *o is Some,
{
    match o {
        Some(v) => Some(crate::listops::clone_strings(v)),
        None => None,
    }
}

/// An equal copy of a phase.
pub fn clone_phase(p: &NewPhase) -> (q: NewPhase)
    ensures
        q.name == p.name,
        crate::listops::opt_model(q.nix_pkgs) == crate::listops::opt_model(p.nix_pkgs),
        q.nix_pkgs is Some <==> p.nix_pkgs is Some,
        crate::listops::opt_model(q.nix_libraries) == crate::listops::opt_model(p.nix_libraries),
        q.nix_libraries is Some <==> p.nix_libraries is Some,
        q.nixpacks_archive == p.nixpacks_archive,
        crate::listops::opt_model(q.apt_pkgs) == crate::listops::opt_model(p.apt_pkgs),
        q.apt_pkgs is Some <==> p.apt_pkgs is Some,
        crate::listops::opt_model(q.cmds) == crate::listops::opt_model(p.cmds),
        q.cmds is Some <==> p.cmds is Some,
        crate::listops::opt_model(q.only_include_files) == crate::listops::opt_model(
            p.only_include_files,
        ),
        q.only_include_files is Some <==> p.only_include_files is Some,
        crate::listops::opt_model(q.cache_directories) == crate::listops::opt_model(
            p.cache_directories,
        ),
        q.cache_directories is Some <==> p.cache_directories is Some,
        crate::listops::opt_model(q.paths) == crate::listops::opt_model(p.paths),
        q.paths is Some <==> p.paths is Some,
        crate::listops::opt_model(q.depends_on) == crate::listops::opt_model(p.depends_on),
        q.depends_on is Some <==> p.depends_on is Some,
{
    let nix_pkgs = match &p.nix_pkgs {
        Some(v) => Some(crate::pkg::clone_pkgs(v)),
        None => None,
    };
    NewPhase {
        name: p.name.clone(),
        nix_pkgs,
        nix_libraries: clone_opt_strings(&p.nix_libraries),
        nixpacks_archive: clone_opt_string(&p.nixpacks_archive),
        apt_pkgs: clone_opt_strings(&p.apt_pkgs),
        cmds: clone_opt_strings(&p.cmds),
        only_include_files: clone_opt_strings(&p.only_include_files),
        cache_directories: clone_opt_strings(&p.cache_directories),
        paths: clone_opt_strings(&p.paths),
        depends_on: clone_opt_strings(&p.depends_on),
    }
}

/// An equal copy of a start phase.
pub fn clone_start_phase(p: &NewStartPhase) -> (q: NewStartPhase)
    ensures
        q.cmd == p.cmd,
        q.run_image == p.run_image,
        crate::listops::opt_model(q.only_include_files) == crate::listops::opt_model(
            p.only_include_files,
        ),
        q.only_include_files is Some <==> p.only_include_files is Some,
{
    NewStartPhase {
        cmd: clone_opt_string(&p.cmd),
        run_image: clone_opt_string(&p.run_image),
        only_include_files: clone_opt_strings(&p.only_include_files),
    }
}

/// The frozen output: phases in a dependency-respecting order, at most one
/// start phase, the pass-through environment map, and the resolved image
/// pair. Nothing mutates a value of this type after freeze.
#[derive(Debug, PartialEq)]
pub struct BuildPlan {
    pub phases: Vec<NewPhase>,
    pub start_phase: Option<NewStartPhase>,
    pub variables: Vec<EnvVar>,
    pub base_image: String,
    pub run_image: String,
}

} // verus!
