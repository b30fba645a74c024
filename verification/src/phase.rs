//! The per-ecosystem phase values a provider hands to the merge pipeline.
//!
//! A provider contributes up to four decomposed phases — setup, install,
//! build and start — each built incrementally through the methods here.
//! Every optional list field distinguishes "never set" from "set to a
//! list"; the merge pipeline later resolves that distinction per field.

use vstd::prelude::*;

use crate::images::{
    debian_slim_image, debian_slim_image_chars, default_base_image, default_base_image_chars,
};
use crate::listops::{opt_view, push_opt, extend_opt};
use crate::pkg::Pkg;
use crate::strutil::opt_chars;

verus! {

/// The phase that prepares the build environment: packages, libraries and
/// the base image everything runs in.
#[derive(Debug, PartialEq)]
pub struct SetupPhase {
    pub pkgs: Vec<Pkg>,
    pub archive: Option<String>,
    pub libraries: Option<Vec<String>>,
    pub apt_pkgs: Option<Vec<String>>,
    pub cmds: Option<Vec<String>>,
    pub only_include_files: Option<Vec<String>>,
    pub base_image: String,
}

impl SetupPhase {
    pub fn new(pkgs: Vec<Pkg>) -> (p: SetupPhase)
        ensures
            p.pkgs@ == pkgs@,
            p.archive is None,
            p.libraries is None,
            p.apt_pkgs is None,
            p.cmds is None,
            p.only_include_files is None,
            p.base_image@ == default_base_image_chars(),
    {
        SetupPhase {
            pkgs,
            archive: None,
            libraries: None,
            apt_pkgs: None,
            cmds: None,
            only_include_files: None,
            base_image: default_base_image(),
        }
    }

    pub fn add_file_dependency(&mut self, file: String)
        ensures
            final(self).only_include_files is Some,
            opt_view(final(self).only_include_files) == opt_view(
                old(self).only_include_files,
            ).push(file),
            final(self).pkgs == old(self).pkgs,
            final(self).archive == old(self).archive,
            final(self).libraries == old(self).libraries,
            final(self).apt_pkgs == old(self).apt_pkgs,
            final(self).cmds == old(self).cmds,
            final(self).base_image == old(self).base_image,
    {
        push_opt(&mut self.only_include_files, file);
    }

    pub fn add_pkgs(&mut self, new_pkgs: &mut Vec<Pkg>)
        ensures
            final(self).pkgs@ == old(self).pkgs@ + old(new_pkgs)@,
            final(new_pkgs)@ == Seq::<Pkg>::empty(),
            final(self).archive == old(self).archive,
            final(self).libraries == old(self).libraries,
            final(self).apt_pkgs == old(self).apt_pkgs,
            final(self).cmds == old(self).cmds,
            final(self).only_include_files == old(self).only_include_files,
            final(self).base_image == old(self).base_image,
    {
        self.pkgs.append(new_pkgs);
    }

    pub fn set_archive(&mut self, archive: String)
        ensures
            opt_chars(final(self).archive) == Some(archive@),
            final(self).pkgs == old(self).pkgs,
            final(self).libraries == old(self).libraries,
            final(self).apt_pkgs == old(self).apt_pkgs,
            final(self).cmds == old(self).cmds,
            final(self).only_include_files == old(self).only_include_files,
            final(self).base_image == old(self).base_image,
    {
        self.archive = Some(archive);
    }

    pub fn add_libraries(&mut self, lib: Vec<String>)
        ensures
            final(self).libraries is Some,
            opt_view(final(self).libraries) == opt_view(old(self).libraries) + lib@,
            final(self).pkgs == old(self).pkgs,
            final(self).archive == old(self).archive,
            final(self).apt_pkgs == old(self).apt_pkgs,
            final(self).cmds == old(self).cmds,
            final(self).only_include_files == old(self).only_include_files,
            final(self).base_image == old(self).base_image,
    {
        extend_opt(&mut self.libraries, lib);
    }

    pub fn add_apt_pkgs(&mut self, apt_pkgs: Vec<String>)
        ensures
            final(self).apt_pkgs is Some,
            opt_view(final(self).apt_pkgs) == opt_view(old(self).apt_pkgs) + apt_pkgs@,
            final(self).pkgs == old(self).pkgs,
            final(self).archive == old(self).archive,
            final(self).libraries == old(self).libraries,
            final(self).cmds == old(self).cmds,
            final(self).only_include_files == old(self).only_include_files,
            final(self).base_image == old(self).base_image,
    {
        extend_opt(&mut self.apt_pkgs, apt_pkgs);
    }

    pub fn add_cmd(&mut self, cmd: String)
        ensures
            final(self).cmds is Some,
            opt_view(final(self).cmds) == opt_view(old(self).cmds).push(cmd),
            final(self).pkgs == old(self).pkgs,
            final(self).archive == old(self).archive,
            final(self).libraries == old(self).libraries,
            final(self).apt_pkgs == old(self).apt_pkgs,
            final(self).only_include_files == old(self).only_include_files,
            final(self).base_image == old(self).base_image,
    {
        push_opt(&mut self.cmds, cmd);
    }
}

impl Default for SetupPhase {
    fn default() -> (p: SetupPhase)
        ensures
            p.pkgs@ == Seq::<Pkg>::empty(),
            p.archive is None,
            p.libraries is None,
            p.apt_pkgs is None,
            p.cmds is None,
            p.only_include_files is None,
            p.base_image@ == default_base_image_chars(),
    {
        SetupPhase::new(Vec::new())
    }
}

/// The phase that fetches dependencies, with the cache directories and
/// extra path entries installation needs.
#[derive(Debug, PartialEq)]
pub struct InstallPhase {
    pub cmds: Option<Vec<String>>,
    pub only_include_files: Option<Vec<String>>,
    pub cache_directories: Option<Vec<String>>,
    pub paths: Option<Vec<String>>,
}

impl InstallPhase {
    pub fn new(cmd: String) -> (p: InstallPhase)
        ensures
            p.cmds is Some,
            opt_view(p.cmds) == seq![cmd],
            p.only_include_files is None,
            p.cache_directories is None,
            p.paths is None,
    {
        let cmds: Vec<String> = vec![cmd];
        proof {
            assert(cmds@ =~= seq![cmd]);
        }
        InstallPhase { cmds: Some(cmds), only_include_files: None, cache_directories: None, paths: None }
    }

    pub fn add_file_dependency(&mut self, file: String)
        ensures
            final(self).only_include_files is Some,
            opt_view(final(self).only_include_files) == opt_view(
                old(self).only_include_files,
            ).push(file),
            final(self).cmds == old(self).cmds,
            final(self).cache_directories == old(self).cache_directories,
            final(self).paths == old(self).paths,
    {
        push_opt(&mut self.only_include_files, file);
    }

    pub fn add_cache_directory(&mut self, dir: String)
        ensures
            final(self).cache_directories is Some,
            opt_view(final(self).cache_directories) == opt_view(
                old(self).cache_directories,
            ).push(dir),
            final(self).cmds == old(self).cmds,
            final(self).only_include_files == old(self).only_include_files,
            final(self).paths == old(self).paths,
    {
        push_opt(&mut self.cache_directories, dir);
    }

    pub fn add_path(&mut self, path: String)
        ensures
            final(self).paths is Some,
            opt_view(final(self).paths) == opt_view(old(self).paths).push(path),
            final(self).cmds == old(self).cmds,
            final(self).only_include_files == old(self).only_include_files,
            final(self).cache_directories == old(self).cache_directories,
    {
        push_opt(&mut self.paths, path);
    }

    pub fn add_cmd(&mut self, cmd: String)
        ensures
            final(self).cmds is Some,
            opt_view(final(self).cmds) == opt_view(old(self).cmds).push(cmd),
            final(self).only_include_files == old(self).only_include_files,
            final(self).cache_directories == old(self).cache_directories,
            final(self).paths == old(self).paths,
    {
        push_opt(&mut self.cmds, cmd);
    }
}

impl Default for InstallPhase {
    fn default() -> (p: InstallPhase)
        ensures
            p.cmds is None,
            p.only_include_files is None,
            p.cache_directories is None,
            p.paths is None,
    {
        InstallPhase { cmds: None, only_include_files: None, cache_directories: None, paths: None }
    }
}

/// The phase that compiles or otherwise prepares the application.
#[derive(Debug, PartialEq)]
pub struct BuildPhase {
    pub cmds: Option<Vec<String>>,
    pub only_include_files: Option<Vec<String>>,
    pub cache_directories: Option<Vec<String>>,
}

impl BuildPhase {
    pub fn new(cmd: String) -> (p: BuildPhase)
        ensures
            p.cmds is Some,
            opt_view(p.cmds) == seq![cmd],
            p.only_include_files is None,
            p.cache_directories is None,
    {
        let cmds: Vec<String> = vec![cmd];
        proof {
            assert(cmds@ =~= seq![cmd]);
        }
        BuildPhase { cmds: Some(cmds), only_include_files: None, cache_directories: None }
    }

    pub fn add_file_dependency(&mut self, file: String)
        ensures
            final(self).only_include_files is Some,
            opt_view(final(self).only_include_files) == opt_view(
                old(self).only_include_files,
            ).push(file),
            final(self).cmds == old(self).cmds,
            final(self).cache_directories == old(self).cache_directories,
    {
        push_opt(&mut self.only_include_files, file);
    }

    pub fn add_cache_directory(&mut self, dir: String)
        ensures
            final(self).cache_directories is Some,
            opt_view(final(self).cache_directories) == opt_view(
                old(self).cache_directories,
            ).push(dir),
            final(self).cmds == old(self).cmds,
            final(self).only_include_files == old(self).only_include_files,
    {
        push_opt(&mut self.cache_directories, dir);
    }

    pub fn add_cmd(&mut self, cmd: String)
        ensures
            final(self).cmds is Some,
            opt_view(final(self).cmds) == opt_view(old(self).cmds).push(cmd),
            final(self).only_include_files == old(self).only_include_files,
            final(self).cache_directories == old(self).cache_directories,
    {
        push_opt(&mut self.cmds, cmd);
    }
}

impl Default for BuildPhase {
    fn default() -> (p: BuildPhase)
        ensures
            p.cmds is None,
            p.only_include_files is None,
            p.cache_directories is None,
    {
        BuildPhase { cmds: None, only_include_files: None, cache_directories: None }
    }
}

/// The degenerate phase that runs the built application: one command and an
/// optional distinct runtime image.
#[derive(Debug, PartialEq)]
pub struct StartPhase {
    pub cmd: Option<String>,
    pub run_image: Option<String>,
    pub only_include_files: Option<Vec<String>>,
}

impl StartPhase {
    pub fn new(cmd: String) -> (p: StartPhase)
        ensures
            opt_chars(p.cmd) == Some(cmd@),
            p.run_image is None,
            p.only_include_files is None,
    {
        StartPhase { cmd: Some(cmd), run_image: None, only_include_files: None }
    }

    pub fn run_in_image(&mut self, image_name: String)
        ensures
            opt_chars(final(self).run_image) == Some(image_name@),
            final(self).cmd == old(self).cmd,
            final(self).only_include_files == old(self).only_include_files,
    {
        self.run_image = Some(image_name);
    }

    pub fn run_in_default_image(&mut self)
        ensures
            opt_chars(final(self).run_image) == Some(default_base_image_chars()),
            final(self).cmd == old(self).cmd,
            final(self).only_include_files == old(self).only_include_files,
    {
        self.run_image = Some(default_base_image());
    }

    pub fn run_in_slim_image(&mut self)
        ensures
            opt_chars(final(self).run_image) == Some(debian_slim_image_chars()),
            final(self).cmd == old(self).cmd,
            final(self).only_include_files == old(self).only_include_files,
    {
        self.run_image = Some(debian_slim_image());
    }

    pub fn add_file_dependency(&mut self, file: String)
        ensures
            final(self).only_include_files is Some,
            opt_view(final(self).only_include_files) == opt_view(
                old(self).only_include_files,
            ).push(file),
            final(self).cmd == old(self).cmd,
            final(self).run_image == old(self).run_image,
    {
        push_opt(&mut self.only_include_files, file);
    }
}

impl Default for StartPhase {
    fn default() -> (p: StartPhase)
        ensures
            p.cmd is None,
            p.run_image is None,
            p.only_include_files is None,
    {
        StartPhase { cmd: None, run_image: None, only_include_files: None }
    }
}

} // verus!
