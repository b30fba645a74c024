//! The Deno ecosystem provider.
//!
//! Detection: a `deno.json` or `deno.jsonc` manifest, or a TypeScript file
//! importing from `deno.land`. The build phase primes the module cache for
//! the entry file; the start command is the manifest's `tasks.start` entry
//! when declared, else a `deno run` of the first `index.ts`/`index.js`.

use vstd::prelude::*;
use vstd::string::StringExecFns;

use crate::errors::PlanError;
use crate::phase::{BuildPhase, SetupPhase, StartPhase};
use crate::pkg::Pkg;
use crate::plan::{NewBuildPlan, NewPhase};
use crate::source::{
    tree_file_contents, tree_has_file, tree_has_match, SourceFile, SourceTree,
};
use crate::strutil::{ends_with, has_suffix, opt_chars};
use crate::listops::opt_view;

verus! {

/// The task table of a Deno manifest.
#[derive(Debug)]
pub struct DenoTasks {
    pub start: Option<String>,
}

/// The part of a `deno.json` manifest this provider reads.
#[derive(Debug)]
pub struct DenoJson {
    pub tasks: Option<DenoTasks>,
}

/// The start task a parsed manifest declares, if any.
pub open spec fn deno_json_start(d: DenoJson) -> Option<Seq<char>> {
    match d.tasks {
        Some(t) => match t.start {
            Some(s) => Some(s@),
            None => None,
        },
        None => None,
    }
}

/// The outcome of parsing a Deno manifest text: `None` when the text is
/// malformed, otherwise the `tasks.start` entry it declares, if any. A
/// function of the text alone.
pub uninterp spec fn deno_manifest_start_task(text: Seq<char>) -> Option<Option<Seq<char>>>;

/// Relies on `serde_json::from_str` and `serde_json::Value::{get, is_object,
/// as_str}`: the parse outcome is a deterministic function of the manifest
/// text. Malformed text yields `None`; so does a `tasks` entry that is not
/// an object, or a `tasks.start` entry that is not a string, matching a
/// typed deserialization of the manifest.
#[verifier::external_body]
fn parse_deno_manifest(text: &str) -> (r: Option<DenoJson>)
    ensures
        match deno_manifest_start_task(text@) {
            None => r is None,
            Some(task) => r matches Some(d) && deno_json_start(d) == task,
        },
{
    let value: serde_json::Value = serde_json::from_str(text).ok()?;
    let tasks = match value.get("tasks") {
        None => None,
        Some(t) if !t.is_object() => return None,
        Some(t) => match t.get("start") {
            None => Some(DenoTasks { start: None }),
            Some(sv) => Some(DenoTasks { start: Some(sv.as_str()?.to_owned()) }),
        },
    };
    Some(DenoJson { tasks })
}

/// The regular expression that recognizes a `deno.land` import line.
pub open spec fn deno_import_pattern() -> Seq<char> {
    "(?m)^import .+ from \"https://deno.land/[^\"]+\\.ts\";?$"@
}

/// Whether the Deno provider recognizes this tree.
pub open spec fn deno_detects(files: Seq<SourceFile>) -> bool {
    tree_has_file(files, "deno.json"@) || tree_has_file(files, "deno.jsonc"@)
        || tree_has_match(files, deno_import_pattern(), ".ts"@)
}

/// A path the provider accepts as the entry file: an `index.ts` or
/// `index.js`, at the root or in any directory.
pub open spec fn is_index_path(path: Seq<char>) -> bool {
    path == "index.ts"@ || path == "index.js"@ || has_suffix(path, "/index.ts"@)
        || has_suffix(path, "/index.js"@)
}

/// The path of the first entry file in the tree, if any.
pub open spec fn first_index_path(files: Seq<SourceFile>) -> Option<Seq<char>>
    decreases files.len(),
{
    if files.len() == 0 {
        None
    } else if is_index_path(files.first().path@) {
        Some(files.first().path@)
    } else {
        first_index_path(files.drop_first())
    }
}

/// The cache-priming build command, when there is an entry file.
pub open spec fn deno_build_cmd(files: Seq<SourceFile>) -> Option<Seq<char>> {
    match first_index_path(files) {
        Some(p) => Some("deno cache "@ + p),
        None => None,
    }
}

/// The inferred run command, when there is an entry file.
pub open spec fn deno_index_run_cmd(files: Seq<SourceFile>) -> Option<Seq<char>> {
    match first_index_path(files) {
        Some(p) => Some("deno run --allow-all "@ + p),
        None => None,
    }
}

/// The start command: the manifest's declared start task wins over the
/// inferred run command; a malformed manifest is fatal.
pub open spec fn deno_start_cmd(files: Seq<SourceFile>) -> Result<Option<Seq<char>>, ()> {
    match tree_file_contents(files, "deno.json"@) {
        Some(text) => match deno_manifest_start_task(text) {
            None => Err(()),
            Some(Some(task)) => Ok(Some(task)),
            Some(None) => Ok(deno_index_run_cmd(files)),
        },
        None => Ok(deno_index_run_cmd(files)),
    }
}

/// The stateless Deno detector and phase factory.
#[derive(Debug)]
pub struct DenoProvider {}

impl DenoProvider {
    pub fn name(&self) -> (r: &'static str)
        ensures
            r@ == "deno"@,
    {
        "deno"
    }

    /// The pure detection predicate over the snapshot.
    pub fn detect(&self, app: &SourceTree, _env: &crate::environment::Environment) -> (r: Result<
        bool,
        PlanError,
    >)
        ensures
            r matches Ok(b) && b == deno_detects(app.files@),
    {
        if app.includes_file("deno.json") {
            return Ok(true);
        }
        if app.includes_file("deno.jsonc") {
            return Ok(true);
        }
        let matched = app.find_match(
            "(?m)^import .+ from \"https://deno.land/[^\"]+\\.ts\";?$",
            ".ts",
        );
        Ok(matched)
    }

    /// The unified contribution: a setup phase pulling the `deno` package
    /// and a build phase, dependent on setup, priming the module cache
    /// when there is an entry file.
    pub fn get_build_plan(&self, app: &SourceTree, _env: &crate::environment::Environment) -> (r:
        Result<Option<NewBuildPlan>, PlanError>)
        ensures
            r matches Ok(op) && op matches Some(plan),
            ({
                let plan = r->Ok_0->Some_0;
                &&& plan.phases@.len() == 2
                &&& plan.phases@[0].name@ == "setup"@
                &&& plan.phases@[0].nix_pkgs is Some
                &&& opt_view(plan.phases@[0].nix_pkgs).len() == 1
                &&& opt_view(plan.phases@[0].nix_pkgs)[0].name@ == "deno"@
                &&& plan.phases@[1].name@ == "build"@
                &&& plan.phases@[1].depends_on is Some
                &&& opt_view(plan.phases@[1].depends_on).len() == 1
                &&& opt_view(plan.phases@[1].depends_on)[0]@ == "setup"@
                &&& (match deno_build_cmd(app.files@) {
                    Some(c) => plan.phases@[1].cmds is Some && opt_view(
                        plan.phases@[1].cmds,
                    ).len() == 1 && opt_view(plan.phases@[1].cmds)[0]@ == c,
                    None => plan.phases@[1].cmds is None,
                })
                &&& plan.start_phase is None
            }),
    {
        let mut setup_phase = NewPhase::new("setup");
        let pkgs: Vec<Pkg> = vec![Pkg::new("deno")];
        setup_phase.add_nix_pkgs(pkgs);

        let mut build_phase = NewPhase::new("build");
        build_phase.depends_on_phase("setup");

        let start_file = match Self::get_start_file(app) {
            Ok(f) => f,
            Err(e) => return Err(e),
        };
        if let Some(file) = start_file {
            let mut cmd = "deno cache ".to_owned();
            cmd.append(file.as_str());
            build_phase.add_cmd(cmd);
        }

        let phases: Vec<NewPhase> = vec![setup_phase, build_phase];
        Ok(Some(NewBuildPlan::new(phases)))
    }

    /// The decomposed setup contribution: the `deno` runtime package.
    pub fn setup(&self, _app: &SourceTree, _env: &crate::environment::Environment) -> (r: Result<
        Option<SetupPhase>,
        PlanError,
    >)
        ensures
            r matches Ok(op) && op matches Some(p),
            ({
                let p = r->Ok_0->Some_0;
                &&& p.pkgs@.len() == 1
                &&& p.pkgs@[0].name@ == "deno"@
                &&& p.pkgs@[0].version is None
                &&& p.cmds is None
                &&& p.archive is None
                &&& p.libraries is None
                &&& p.apt_pkgs is None
                &&& p.only_include_files is None
                &&& p.base_image@ == crate::images::default_base_image_chars()
            }),
    {
        let pkgs: Vec<Pkg> = vec![Pkg::new("deno")];
        Ok(Some(SetupPhase::new(pkgs)))
    }

    /// The decomposed build contribution, when a build command exists.
    pub fn build(&self, app: &SourceTree, _env: &crate::environment::Environment) -> (r: Result<
        Option<BuildPhase>,
        PlanError,
    >)
        ensures
            r is Ok,
            match deno_build_cmd(app.files@) {
                Some(c) => {
                    &&& r->Ok_0 matches Some(p)
                    &&& p.cmds is Some
                    &&& opt_view(p.cmds).len() == 1
                    &&& opt_view(p.cmds)[0]@ == c
                    &&& p.only_include_files is None
                    &&& p.cache_directories is None
                },
                None => r->Ok_0 is None,
            },
    {
        let build_cmd = match Self::get_build_cmd(app) {
            Ok(c) => c,
            Err(e) => return Err(e),
        };
        match build_cmd {
            Some(cmd) => Ok(Some(BuildPhase::new(cmd))),
            None => Ok(None),
        }
    }

    /// The decomposed start contribution, when a start command exists.
    pub fn start(&self, app: &SourceTree, _env: &crate::environment::Environment) -> (r: Result<
        Option<StartPhase>,
        PlanError,
    >)
        ensures
            match deno_start_cmd(app.files@) {
                Ok(Some(c)) => {
                    &&& r is Ok
                    &&& r->Ok_0 is Some
                    &&& opt_chars(r->Ok_0->Some_0.cmd) == Some(c)
                    &&& r->Ok_0->Some_0.run_image is None
                    &&& r->Ok_0->Some_0.only_include_files is None
                },
                Ok(None) => r matches Ok(op) && op is None,
                Err(_) => r matches Err(e) && e matches PlanError::Config { provider }
                    && provider@ == "deno"@,
            },
    {
        let start_cmd = match Self::get_start_cmd(app) {
            Ok(c) => c,
            Err(e) => return Err(e),
        };
        match start_cmd {
            Some(cmd) => Ok(Some(StartPhase::new(cmd))),
            None => Ok(None),
        }
    }

    /// The cache-priming command for the entry file, if any.
    pub fn get_build_cmd(app: &SourceTree) -> (r: Result<Option<String>, PlanError>)
        ensures
            r matches Ok(c) && opt_chars(c) == deno_build_cmd(app.files@),
    {
        let start_file = match Self::get_start_file(app) {
            Ok(f) => f,
            Err(e) => return Err(e),
        };
        match start_file {
            Some(file) => {
                let mut cmd = "deno cache ".to_owned();
                cmd.append(file.as_str());
                Ok(Some(cmd))
            },
            None => Ok(None),
        }
    }

    /// The start command: first the manifest's `tasks.start`, else a
    /// `deno run --allow-all` of the entry file.
    pub fn get_start_cmd(app: &SourceTree) -> (r: Result<Option<String>, PlanError>)
        ensures
            match deno_start_cmd(app.files@) {
                Ok(c) => r matches Ok(rc) && opt_chars(rc) == c,
                Err(_) => r matches Err(e) && e matches PlanError::Config { provider }
                    && provider@ == "deno"@,
            },
    {
        // First look for a deno.json and the start task it may declare.
        if let Some(text) = app.read_file("deno.json") {
            match parse_deno_manifest(text.as_str()) {
                None => {
                    return Err(PlanError::Config { provider: "deno".to_owned() });
                },
                Some(manifest) => {
                    if let Some(tasks) = manifest.tasks {
                        if let Some(start) = tasks.start {
                            return Ok(Some(start));
                        }
                    }
                },
            }
        }
        // Barring that, start the entry file with full permissions.
        let start_file = match Self::get_start_file(app) {
            Ok(f) => f,
            Err(e) => return Err(e),
        };
        match start_file {
            Some(file) => {
                let mut cmd = "deno run --allow-all ".to_owned();
                cmd.append(file.as_str());
                Ok(Some(cmd))
            },
            None => Ok(None),
        }
    }

    /// The first `index.ts` or `index.js` of the snapshot, in tree order.
    pub fn get_start_file(app: &SourceTree) -> (r: Result<Option<String>, PlanError>)
        ensures
            r matches Ok(c) && opt_chars(c) == first_index_path(app.files@),
    {
        let n = app.files.len();
        proof {
            assert(app.files@.skip(0) =~= app.files@);
        }
        let mut i: usize = 0;
        while i < n
            invariant
                n == app.files@.len(),
                i <= n,
                first_index_path(app.files@) == first_index_path(app.files@.skip(i as int)),
            decreases n - i,
        {
            proof {
                assert(app.files@.skip(i as int).first() == app.files@[i as int]);
                assert(app.files@.skip(i as int).drop_first() =~= app.files@.skip(i + 1));
            }
            let p = &app.files[i].path;
            if str_is_index(p.as_str()) {
                return Ok(Some(p.clone()));
            }
            i += 1;
        }
        proof {
            assert(app.files@.skip(n as int) =~= Seq::<SourceFile>::empty());
        }
        Ok(None)
    }
}

/// Does this path name an entry file?
fn str_is_index(path: &str) -> (r: bool)
    ensures
        r == is_index_path(path@),
{
    if crate::strutil::str_eq(path, "index.ts") {
        return true;
    }
    if crate::strutil::str_eq(path, "index.js") {
        return true;
    }
    if ends_with(path, "/index.ts") {
        return true;
    }
    ends_with(path, "/index.js")
}

} // verus!
