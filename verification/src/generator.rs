//! The plan generator: detect, synthesize, merge, resolve, freeze.
//!
//! One pass over the fixed provider registry detects and synthesizes; the
//! merge pipeline combines the contributions and the user's overrides;
//! dependency resolution orders the result or rejects it; the freeze step
//! resolves images and the environment map into an immutable plan.
//! Generation is all-or-nothing and a deterministic function of the
//! snapshot, the configuration and the options.

use vstd::prelude::*;

use crate::chain::{
    distinct_names, fold_pkgs_field, lemma_distinct_contains, lemma_distinct_names_unique,
    lemma_fold_deps_props, lemma_fold_pkgs_unique, merge_phases, merged_deps, opt_or,
    phase_names, pkg_names,
};
use crate::environment::{clone_env_vars, EnvVar, Environment};
use crate::errors::PlanError;
use crate::images::{
    debian_slim_image, debian_slim_image_chars, default_base_image, default_base_image_chars,
};
use crate::listops::{opt_model, opt_view};
use crate::plan::{
    clone_opt_strings, clone_phase, BuildPlan, NewBuildPlan, NewPhase, NewStartPhase,
};
use crate::providers::deno::{deno_detects, deno_start_cmd};
use crate::providers::staticfile::{staticfile_detects, staticfile_serve_cmd, StaticfileProvider};
use crate::providers::{deno_start_shape, provider_contribution_ok, provider_detects, Provider};
use crate::resolve::{
    deps_of, lemma_topo_exists, lemma_topo_props, order_ok, phase_from, resolvable,
    resolve_phase_order, topo_from,
};
use crate::source::{SourceFile, SourceTree};
use crate::strutil::{opt_chars, string_eq};

verus! {

/// What to do when no provider recognizes the tree.
#[derive(Debug)]
pub enum NoMatchPolicy {
    /// Fail with `NoProviderMatched`.
    FailClosed,
    /// Fall back to the static-file-serving plan.
    Fallback,
}

/// A user-supplied phase merged after every provider contribution. Its
/// commands append unless `replace_cmds` asks them to replace the merged
/// command list outright.
#[derive(Debug)]
pub struct PhaseOverride {
    pub phase: NewPhase,
    pub replace_cmds: bool,
}

/// Explicit choices a caller may make for one generation run.
#[derive(Debug)]
pub struct GeneratePlanOptions {
    pub policy: NoMatchPolicy,
    pub custom_base_image: Option<String>,
    pub custom_start_cmd: Option<String>,
    pub extra_phases: Vec<PhaseOverride>,
    pub extra_env: Vec<EnvVar>,
    pub prefer_slim_runtime: bool,
}

impl GeneratePlanOptions {
    /// No overrides: fail closed, default images, nothing injected.
    pub fn new() -> (r: GeneratePlanOptions)
        ensures
            r.policy is FailClosed,
            r.custom_base_image is None,
            r.custom_start_cmd is None,
            r.extra_phases@.len() == 0,
            r.extra_env@.len() == 0,
            !r.prefer_slim_runtime,
    {
        GeneratePlanOptions {
            policy: NoMatchPolicy::FailClosed,
            custom_base_image: None,
            custom_start_cmd: None,
            extra_phases: Vec::new(),
            extra_env: Vec::new(),
            prefer_slim_runtime: false,
        }
    }
}

/// An equal copy of the options, precise in everything the generator's
/// contract speaks of.
pub fn clone_options(o: &GeneratePlanOptions) -> (r: GeneratePlanOptions)
    ensures
        r.policy == o.policy,
        r.custom_base_image == o.custom_base_image,
        r.custom_start_cmd == o.custom_start_cmd,
        r.extra_env@ == o.extra_env@,
        r.prefer_slim_runtime == o.prefer_slim_runtime,
        r.extra_phases@.len() == o.extra_phases@.len(),
{
    let policy = match &o.policy {
        NoMatchPolicy::FailClosed => NoMatchPolicy::FailClosed,
        NoMatchPolicy::Fallback => NoMatchPolicy::Fallback,
    };
    let n = o.extra_phases.len();
    let mut extra_phases: Vec<PhaseOverride> = Vec::new();
    let mut i: usize = 0;
    while i < n
        invariant
            n == o.extra_phases@.len(),
            i <= n,
            extra_phases@.len() == i,
        decreases n - i,
    {
        extra_phases.push(
            PhaseOverride {
                phase: clone_phase(&o.extra_phases[i].phase),
                replace_cmds: o.extra_phases[i].replace_cmds,
            },
        );
        i += 1;
    }
    GeneratePlanOptions {
        policy,
        custom_base_image: crate::plan::clone_opt_string(&o.custom_base_image),
        custom_start_cmd: crate::plan::clone_opt_string(&o.custom_start_cmd),
        extra_phases,
        extra_env: clone_env_vars(&o.extra_env),
        prefer_slim_runtime: o.prefer_slim_runtime,
    }
}

/// Some provider of the registry recognizes the tree.
pub open spec fn any_provider_detects(ps: Seq<Provider>, files: Seq<SourceFile>) -> bool {
    exists|k: int| 0 <= k < ps.len() && provider_detects(#[trigger] ps[k], files)
}

/// A Deno provider of the registry recognizes the tree but cannot read
/// its manifest.
pub open spec fn failing_deno_at(ps: Seq<Provider>, files: Seq<SourceFile>, k: int) -> bool {
    &&& ps[k] matches Provider::Deno(_)
    &&& deno_detects(files)
    &&& deno_start_cmd(files) is Err
}

pub open spec fn any_failing_deno(ps: Seq<Provider>, files: Seq<SourceFile>) -> bool {
    exists|k: int| 0 <= k < ps.len() && failing_deno_at(ps, files, k)
}

/// The dependencies of these phases are canonical: a dependency only ever
/// names `setup`, and a phase named `setup` declares none.
pub open spec fn canonical_deps(ps: Seq<NewPhase>) -> bool {
    &&& (forall|j: int, d: int|
        0 <= j < ps.len() && 0 <= d < opt_view(ps[j].depends_on).len() ==> (#[trigger] opt_view(
            ps[j].depends_on,
        )[d])@ == "setup"@)
    &&& (forall|j: int|
        0 <= j < ps.len() && (#[trigger] ps[j].name)@ == "setup"@ ==> ps[j].depends_on
            is None)
}

/// Some phase of the list is a dependency-free `setup`.
pub open spec fn has_setup_root(ps: Seq<NewPhase>) -> bool {
    exists|k: int|
        0 <= k < ps.len() && (#[trigger] ps[k].name)@ == "setup"@ && ps[k].depends_on is None
}

/// The shape every provider contribution has: canonical dependencies, led
/// by a dependency-free `setup` phase when there is any phase at all.
pub open spec fn benign_contribution(ps: Seq<NewPhase>) -> bool {
    &&& canonical_deps(ps)
    &&& (ps.len() > 0 ==> ps[0].name@ == "setup"@ && ps[0].depends_on is None)
}

/// Any phase that declares dependencies comes after the `setup` phase:
/// the canonical order among the phases the providers produce.
pub open spec fn setup_leads(ps: Seq<NewPhase>) -> bool {
    forall|i: int, j: int|
        0 <= i < ps.len() && 0 <= j < ps.len() && ((#[trigger] ps[i]).name)@ == "setup"@
            && deps_of(#[trigger] ps[j]).len() > 0 ==> i < j
}

/// Whatever a provider contributes has the benign shape.
proof fn lemma_contribution_benign(p: Provider, files: Seq<SourceFile>, c: NewBuildPlan)
    requires
        provider_contribution_ok(p, files, c),
    ensures
        benign_contribution(c.phases@),
{
    reveal_strlit("build");
    reveal_strlit("setup");
    match p {
        Provider::Deno(_) => {
            assert("build"@ != "setup"@) by {
                if "build"@ == "setup"@ {
                    assert("build"@[0] == "setup"@[0]);
                }
            }
            assert forall|j: int|
                0 <= j < c.phases@.len() && (#[trigger] c.phases@[j].name)@ == "setup"@ implies
                c.phases@[j].depends_on is None by {
                if j == 1 {
                    assert(c.phases@[1].name@ == "build"@);
                }
            }
            assert forall|j: int, d: int|
                0 <= j < c.phases@.len() && 0 <= d < opt_view(c.phases@[j].depends_on).len()
                implies (#[trigger] opt_view(c.phases@[j].depends_on)[d])@ == "setup"@ by {
                if j == 0 {
                    assert(c.phases@[0].depends_on is None);
                } else {
                    assert(j == 1);
                    assert(opt_view(c.phases@[1].depends_on).len() == 1);
                    assert(opt_view(c.phases@[1].depends_on)[0]@ == "setup"@);
                }
            }
        },
        Provider::Staticfile(_) => {
            assert(c.phases@.len() == 0);
        },
    }
}

/// The last override for `n` that asks to replace commands, if any.
pub open spec fn last_replace_for(ovs: Seq<PhaseOverride>, n: Seq<char>) -> Option<PhaseOverride>
    decreases ovs.len(),
{
    if ovs.len() == 0 {
        None
    } else if ovs.last().replace_cmds && ovs.last().phase.name@ == n {
        Some(ovs.last())
    } else {
        last_replace_for(ovs.drop_last(), n)
    }
}

/// A phase with its command list replaced by a copy of `ov_cmds`; every
/// other field is kept as it was.
fn with_replaced_cmds(p: NewPhase, ov_cmds: &Option<Vec<String>>) -> (q: NewPhase)
    ensures
        q.name == p.name,
        q.nix_pkgs == p.nix_pkgs,
        q.nix_libraries == p.nix_libraries,
        q.nixpacks_archive == p.nixpacks_archive,
        q.apt_pkgs == p.apt_pkgs,
        q.only_include_files == p.only_include_files,
        q.cache_directories == p.cache_directories,
        q.paths == p.paths,
        q.depends_on == p.depends_on,
        opt_model(q.cmds) == opt_model(*ov_cmds),
{
    NewPhase {
        name: p.name,
        nix_pkgs: p.nix_pkgs,
        nix_libraries: p.nix_libraries,
        nixpacks_archive: p.nixpacks_archive,
        apt_pkgs: p.apt_pkgs,
        cmds: clone_opt_strings(ov_cmds),
        only_include_files: p.only_include_files,
        cache_directories: p.cache_directories,
        paths: p.paths,
        depends_on: p.depends_on,
    }
}

/// Whether `dst` is `src` with its commands resolved against the
/// replace-marked overrides, every other field untouched.
pub open spec fn replaced_ok(src: NewPhase, dst: NewPhase, ovs: Seq<PhaseOverride>) -> bool {
    &&& dst.name == src.name
    &&& dst.nix_pkgs == src.nix_pkgs
    &&& dst.nix_libraries == src.nix_libraries
    &&& dst.nixpacks_archive == src.nixpacks_archive
    &&& dst.apt_pkgs == src.apt_pkgs
    &&& dst.only_include_files == src.only_include_files
    &&& dst.cache_directories == src.cache_directories
    &&& dst.paths == src.paths
    &&& dst.depends_on == src.depends_on
    &&& (match last_replace_for(ovs, src.name@) {
        Some(ov) => opt_model(dst.cmds) == opt_model(ov.phase.cmds),
        None => dst.cmds == src.cmds,
    })
}

/// Apply the replace-marked overrides: each phase keeps everything but
/// its command list, which the last replacing override for its name wins.
fn apply_replacements(phases: Vec<NewPhase>, ovs: &Vec<PhaseOverride>) -> (r: Vec<NewPhase>)
    ensures
        r@.len() == phases@.len(),
        phase_names(r@) == phase_names(phases@),
        forall|k: int| 0 <= k < r@.len() ==> replaced_ok(#[trigger] phases@[k], r@[k], ovs@),
{
    let mut out = phases;
    let n = out.len();
    let ghost orig: Seq<NewPhase> = out@;
    let mut k: usize = 0;
    while k < n
        invariant
            n == out@.len(),
            orig.len() == n,
            k <= n,
            forall|m: int| k <= m < n ==> #[trigger] out@[m] == orig[m],
            forall|m: int| 0 <= m < k ==> replaced_ok(#[trigger] orig[m], out@[m], ovs@),
        decreases n - k,
    {
        match find_last_replace(ovs, &out[k].name) {
            Some(j) => {
                let ghost pre: Seq<NewPhase> = out@;
                let cur = out.remove(k);
                let replaced = with_replaced_cmds(cur, &ovs[j].phase.cmds);
                out.insert(k, replaced);
                proof {
                    assert(out@ =~= pre.update(k as int, replaced));
                }
            },
            None => {},
        }
        k += 1;
    }
    proof {
        assert(phase_names(out@) =~= phase_names(orig));
    }
    out
}

/// Merge two start-phase contributions: the later one's fields win where
/// they are set.
fn overlay_start(acc: Option<NewStartPhase>, c: NewStartPhase) -> (r: NewStartPhase)
    ensures
        r.cmd == (if c.cmd is Some {
            c.cmd
        } else {
            match acc {
                Some(a) => a.cmd,
                None => None::<String>,
            }
        }),
        r.run_image == (if c.run_image is Some {
            c.run_image
        } else {
            match acc {
                Some(a) => a.run_image,
                None => None::<String>,
            }
        }),
        r.only_include_files == (if c.only_include_files is Some {
            c.only_include_files
        } else {
            match acc {
                Some(a) => a.only_include_files,
                None => None::<Vec<String>>,
            }
        }),
{
    match acc {
        None => c,
        Some(a) => NewStartPhase {
            cmd: if c.cmd.is_some() {
                c.cmd
            } else {
                a.cmd
            },
            run_image: if c.run_image.is_some() {
                c.run_image
            } else {
                a.run_image
            },
            only_include_files: if c.only_include_files.is_some() {
                c.only_include_files
            } else {
                a.only_include_files
            },
        },
    }
}

/// The generator: the fixed provider registry and the caller's options,
/// driving one detection-to-freeze pass per invocation.
#[derive(Debug)]
pub struct NixpacksBuildPlanGenerator {
    pub providers: Vec<Provider>,
    pub options: GeneratePlanOptions,
}

impl NixpacksBuildPlanGenerator {
    pub fn new(providers: Vec<Provider>, options: GeneratePlanOptions) -> (g:
        NixpacksBuildPlanGenerator)
        ensures
            g.providers@ == providers@,
            g.options == options,
    {
        NixpacksBuildPlanGenerator { providers, options }
    }

    /// Run the whole pipeline: detect, synthesize, merge, resolve, freeze.
    ///
    /// Generation fails with `NoProviderMatched` exactly when nothing
    /// detects under fail-closed policy, and with a manifest error exactly
    /// when a detected Deno provider cannot read its manifest. Success is
    /// owed everywhere else, as long as no phase overrides are injected:
    /// the providers' own dependencies always resolve, so a graph error
    /// can only come from injected phases. A produced plan is whole: one
    /// phase per name, every dependency placed earlier, setup leading the
    /// dependent phases, the environment passed through, and the image
    /// pair resolved from the options.
    pub fn generate_plan(&self, app: &SourceTree, env: &Environment) -> (r: Result<
        BuildPlan,
        PlanError,
    >)
        ensures
            (r matches Err(PlanError::NoProviderMatched)) <==> (!any_provider_detects(
                self.providers@,
                app.files@,
            ) && self.options.policy matches NoMatchPolicy::FailClosed),
            (r matches Err(PlanError::Config { .. })) <==> any_failing_deno(
                self.providers@,
                app.files@,
            ),
            r matches Ok(plan) ==> phase_names(plan.phases@).no_duplicates() && order_ok(
                plan.phases@,
            ),
            r matches Ok(plan) ==> plan.variables@ == env.vars@ + self.options.extra_env@,
            r matches Ok(plan) ==> (match self.options.custom_base_image {
                Some(b) => plan.base_image@ == b@,
                None => plan.base_image@ == default_base_image_chars(),
            }),
            r matches Ok(plan) ==> (forall|k: int|
                0 <= k < plan.phases@.len() ==> pkg_names(
                    opt_or(opt_model((#[trigger] plan.phases@[k]).nix_pkgs)),
                ).no_duplicates()),
            (match r {
                Ok(plan) => (match self.options.custom_start_cmd {
                    Some(c) => plan.start_phase matches Some(s) && s.cmd == Some(c),
                    None => true,
                }),
                Err(_) => true,
            }),
            ({
                &&& !any_provider_detects(self.providers@, app.files@)
                &&& self.options.policy matches NoMatchPolicy::Fallback
                &&& self.options.extra_phases@.len() == 0
                &&& self.options.custom_start_cmd is None
            }) ==> ({
                &&& r is Ok
                &&& r->Ok_0.phases@.len() == 0
                &&& r->Ok_0.start_phase is Some
                &&& opt_chars(r->Ok_0.start_phase->Some_0.cmd) == Some(staticfile_serve_cmd())
                &&& r->Ok_0.start_phase->Some_0.run_image is None
            }),
            ({
                &&& self.providers@.len() == 2
                &&& self.providers@[0] matches Provider::Deno(_)
                &&& self.providers@[1] matches Provider::Staticfile(_)
                &&& deno_detects(app.files@)
                &&& !staticfile_detects(app.files@)
                &&& self.options.custom_start_cmd is None
            }) ==> (match r {
                Ok(plan) => deno_start_shape(plan.start_phase, app.files@)
                    || deno_start_cmd(app.files@) is Err,
                Err(_) => true,
            }),
            (any_provider_detects(self.providers@, app.files@) && !any_failing_deno(
                self.providers@,
                app.files@,
            ) && self.options.extra_phases@.len() == 0) ==> r is Ok,
            ({
                &&& !any_provider_detects(self.providers@, app.files@)
                &&& self.options.policy matches NoMatchPolicy::Fallback
                &&& self.options.extra_phases@.len() == 0
            }) ==> r is Ok,
            r matches Err(PlanError::PlanGraph) ==> self.options.extra_phases@.len() > 0,
            !(r matches Err(PlanError::Detection { .. })),
            (match r {
                Ok(plan) => self.options.extra_phases@.len() == 0 ==> setup_leads(
                    plan.phases@,
                ),
                Err(_) => true,
            }),
            r matches Ok(plan) ==> (match plan.start_phase {
                Some(s) => (match s.run_image {
                    Some(img) => plan.run_image@ == img@,
                    None => plan.run_image@ == (if self.options.prefer_slim_runtime {
                        debian_slim_image_chars()
                    } else {
                        plan.base_image@
                    }),
                }),
                None => plan.run_image@ == (if self.options.prefer_slim_runtime {
                    debian_slim_image_chars()
                } else {
                    plan.base_image@
                }),
            }),
    {
        // Detect and synthesize, in registry order.
        let ghost dn: bool = ({
            &&& self.providers@.len() == 2
            &&& self.providers@[0] matches Provider::Deno(_)
            &&& self.providers@[1] matches Provider::Staticfile(_)
            &&& deno_detects(app.files@)
            &&& !staticfile_detects(app.files@)
            &&& self.options.custom_start_cmd is None
        });
        let mut contributions: Vec<NewBuildPlan> = Vec::new();
        let mut matched: bool = false;
        let n = self.providers.len();
        proof {
            assert(self.providers@.subrange(0, 0) =~= Seq::<Provider>::empty());
        }
        let mut i: usize = 0;
        while i < n
            invariant
                n == self.providers@.len(),
                i <= n,
                matched == any_provider_detects(
                    self.providers@.subrange(0, i as int),
                    app.files@,
                ),
                !any_failing_deno(self.providers@.subrange(0, i as int), app.files@),
                !matched ==> contributions@.len() == 0,
                dn ==> ({
                    &&& self.providers@.len() == 2
                    &&& self.providers@[0] matches Provider::Deno(_)
                    &&& self.providers@[1] matches Provider::Staticfile(_)
                    &&& deno_detects(app.files@)
                    &&& !staticfile_detects(app.files@)
                }),
                dn ==> (i == 0 ==> contributions@.len() == 0),
                dn ==> (i >= 1 ==> contributions@.len() == 1 && deno_start_shape(
                    contributions@[0].start_phase,
                    app.files@,
                )),
                forall|idx: int|
                    0 <= idx < contributions@.len() ==> benign_contribution(
                        (#[trigger] contributions@[idx]).phases@,
                    ),
            decreases n - i,
        {
            let ghost prefix: Seq<Provider> = self.providers@.subrange(0, i as int);
            let ghost prefix2: Seq<Provider> = self.providers@.subrange(0, i + 1);
            proof {
                assert(prefix2[i as int] == self.providers@[i as int]);
                assert(forall|m: int| 0 <= m < i ==> prefix2[m] == prefix[m]);
            }
            let p = &self.providers[i];
            let det = match p.detect(app, env) {
                Ok(b) => b,
                Err(e) => {
                    return Err(e);
                },
            };
            if det {
                matched = true;
                match p.partial_plan(app, env) {
                    Ok(c) => {
                        let ghost pre: Seq<NewBuildPlan> = contributions@;
                        contributions.push(c);
                        proof {
                            if dn && i == 0 {
                                assert(pre.len() == 0);
                                assert(contributions@[0] == c);
                                assert(self.providers@[0] matches Provider::Deno(_));
                                assert(provider_contribution_ok(
                                    self.providers@[i as int],
                                    app.files@,
                                    c,
                                ));
                                assert(deno_start_shape(c.start_phase, app.files@));
                            }
                            lemma_contribution_benign(
                                self.providers@[i as int],
                                app.files@,
                                c,
                            );
                            assert forall|idx: int|
                                0 <= idx < contributions@.len() implies benign_contribution(
                                (#[trigger] contributions@[idx]).phases@,
                            ) by {
                                if idx < pre.len() {
                                    assert(contributions@[idx] == pre[idx]);
                                } else {
                                    assert(contributions@[idx] == c);
                                }
                            }
                        }
                    },
                    Err(e) => {
                        proof {
                            assert(failing_deno_at(self.providers@, app.files@, i as int));
                            assert(any_failing_deno(self.providers@, app.files@));
                            assert(provider_detects(self.providers@[i as int], app.files@));
                            assert(any_provider_detects(self.providers@, app.files@));
                        }
                        return Err(e);
                    },
                }
            }
            proof {
                if matched {
                    if any_provider_detects(prefix, app.files@) {
                        let w = choose|k: int|
                            0 <= k < prefix.len() && provider_detects(
                                #[trigger] prefix[k],
                                app.files@,
                            );
                        assert(provider_detects(prefix2[w], app.files@));
                    } else {
                        assert(provider_detects(prefix2[i as int], app.files@));
                    }
                }
                if any_provider_detects(prefix2, app.files@) {
                    let w = choose|k: int|
                        0 <= k < prefix2.len() && provider_detects(
                            #[trigger] prefix2[k],
                            app.files@,
                        );
                    if w < i {
                        assert(provider_detects(prefix[w], app.files@));
                        assert(matched);
                    }
                }
                if any_failing_deno(prefix2, app.files@) {
                    let w = choose|k: int|
                        0 <= k < prefix2.len() && failing_deno_at(prefix2, app.files@, k);
                    if w < i {
                        assert(prefix[w] == prefix2[w]);
                        assert(failing_deno_at(prefix, app.files@, w));
                        assert(any_failing_deno(prefix, app.files@));
                    } else {
                        assert(false);
                    }
                }
            }
            i += 1;
        }
        proof {
            assert(self.providers@.subrange(0, n as int) =~= self.providers@);
        }
        // Policy: no provider matched.
        if !matched {
            match &self.options.policy {
                NoMatchPolicy::FailClosed => {
                    return Err(PlanError::NoProviderMatched);
                },
                NoMatchPolicy::Fallback => {
                    let fallback = Provider::Staticfile(StaticfileProvider {  });
                    match fallback.partial_plan(app, env) {
                        Ok(c) => {
                            let ghost pre: Seq<NewBuildPlan> = contributions@;
                            contributions.push(c);
                            proof {
                                lemma_contribution_benign(fallback, app.files@, c);
                                assert forall|idx: int|
                                    0 <= idx < contributions@.len() implies benign_contribution(
                                    (#[trigger] contributions@[idx]).phases@,
                                ) by {
                                    if idx < pre.len() {
                                        assert(contributions@[idx] == pre[idx]);
                                    } else {
                                        assert(contributions@[idx] == c);
                                    }
                                }
                            }
                        },
                        Err(_) => {
                            assert(false);
                        },
                    }
                },
            }
        }
        // Flatten the contributions, providers first, overrides last.
        let ghost fb: bool = ({
            &&& !any_provider_detects(self.providers@, app.files@)
            &&& self.options.policy matches NoMatchPolicy::Fallback
            &&& self.options.extra_phases@.len() == 0
            &&& self.options.custom_start_cmd is None
        });
        let ghost serve_start_ok = |s: NewStartPhase|
            opt_chars(s.cmd) == Some(staticfile_serve_cmd()) && s.run_image is None;
        proof {
            if fb {
                assert(contributions@.len() == 1);
            }
        }
        let mut flat: Vec<NewPhase> = Vec::new();
        let mut starts: Vec<NewStartPhase> = Vec::new();
        while contributions.len() > 0
            invariant
                canonical_deps(flat@),
                flat@.len() > 0 ==> has_setup_root(flat@),
                forall|idx: int|
                    0 <= idx < contributions@.len() ==> benign_contribution(
                        (#[trigger] contributions@[idx]).phases@,
                    ),
                dn ==> contributions@.len() <= 1,
                dn ==> (contributions@.len() == 1 ==> starts@.len() == 0 && deno_start_shape(
                    contributions@[0].start_phase,
                    app.files@,
                )),
                dn ==> (contributions@.len() == 0 ==> (match deno_start_cmd(app.files@) {
                    Ok(Some(c)) => starts@.len() == 1 && opt_chars(starts@[0].cmd) == Some(c)
                        && starts@[0].run_image is None,
                    Ok(None) => starts@.len() == 0,
                    Err(_) => true,
                })),
                fb ==> flat@.len() == 0,
                fb ==> starts@.len() + contributions@.len() == 1,
                fb ==> (contributions@.len() == 1 ==> {
                    &&& contributions@[0].phases@.len() == 0
                    &&& contributions@[0].start_phase is Some
                    &&& serve_start_ok(contributions@[0].start_phase->Some_0)
                }),
                fb ==> (starts@.len() == 1 ==> serve_start_ok(starts@[0])),
            decreases contributions@.len(),
        {
            let ghost pre_contributions: Seq<NewBuildPlan> = contributions@;
            let mut c = contributions.remove(0);
            proof {
                if dn {
                    assert(pre_contributions.len() == 1);
                    assert(c == pre_contributions[0]);
                }
                assert(c == pre_contributions[0]);
                assert(benign_contribution(c.phases@));
                assert forall|idx: int|
                    0 <= idx < contributions@.len() implies benign_contribution(
                    (#[trigger] contributions@[idx]).phases@,
                ) by {
                    assert(contributions@[idx] == pre_contributions[idx + 1]);
                }
            }
            while c.phases.len() > 0
                invariant
                    canonical_deps(flat@),
                    flat@.len() > 0 ==> has_setup_root(flat@),
                    canonical_deps(c.phases@),
                    c.phases@.len() > 0 ==> ((c.phases@[0].name@ == "setup"@
                        && c.phases@[0].depends_on is None) || has_setup_root(flat@)),
                    fb ==> flat@.len() == 0 && c.phases@.len() == 0,
                    fb ==> c.start_phase is Some && serve_start_ok(c.start_phase->Some_0),
                    dn ==> deno_start_shape(c.start_phase, app.files@),
                decreases c.phases@.len(),
            {
                let ghost pre_flat: Seq<NewPhase> = flat@;
                let ghost pre_phases: Seq<NewPhase> = c.phases@;
                let e = c.phases.remove(0);
                flat.push(e);
                proof {
                    assert(e == pre_phases[0]);
                    assert(flat@ == pre_flat.push(e));
                    assert forall|j: int, d: int|
                        0 <= j < flat@.len() && 0 <= d < opt_view(flat@[j].depends_on).len()
                        implies (#[trigger] opt_view(flat@[j].depends_on)[d])@ == "setup"@ by {
                        if j < pre_flat.len() {
                            assert(flat@[j] == pre_flat[j]);
                            assert(opt_view(pre_flat[j].depends_on)[d]@ == "setup"@);
                        } else {
                            assert(flat@[j] == e);
                            assert(opt_view(pre_phases[0].depends_on)[d]@ == "setup"@);
                        }
                    }
                    assert forall|j: int|
                        0 <= j < flat@.len() && (#[trigger] flat@[j].name)@ == "setup"@ implies
                        flat@[j].depends_on is None by {
                        if j < pre_flat.len() {
                            assert(flat@[j] == pre_flat[j]);
                        } else {
                            assert(flat@[j] == e);
                            assert(pre_phases[0].name@ == "setup"@);
                        }
                    }
                    if e.name@ == "setup"@ {
                        assert(pre_phases[0].depends_on is None);
                        assert(flat@[pre_flat.len() as int] == e);
                        assert(has_setup_root(flat@));
                    } else {
                        assert(has_setup_root(pre_flat));
                        let k = choose|k: int|
                            0 <= k < pre_flat.len() && (#[trigger] pre_flat[k].name)@
                                == "setup"@ && pre_flat[k].depends_on is None;
                        assert(flat@[k] == pre_flat[k]);
                        assert(has_setup_root(flat@));
                    }
                    assert forall|j: int, d: int|
                        0 <= j < c.phases@.len() && 0 <= d < opt_view(
                            c.phases@[j].depends_on,
                        ).len() implies (#[trigger] opt_view(c.phases@[j].depends_on)[d])@
                        == "setup"@ by {
                        assert(c.phases@[j] == pre_phases[j + 1]);
                        assert(opt_view(pre_phases[j + 1].depends_on)[d]@ == "setup"@);
                    }
                    assert forall|j: int|
                        0 <= j < c.phases@.len() && (#[trigger] c.phases@[j].name)@
                            == "setup"@ implies c.phases@[j].depends_on is None by {
                        assert(c.phases@[j] == pre_phases[j + 1]);
                    }
                }
            }
            if let Some(s) = c.start_phase {
                starts.push(s);
            }
        }
        let oc = self.options.extra_phases.len();
        let mut oi: usize = 0;
        while oi < oc
            invariant
                oc == self.options.extra_phases@.len(),
                oi <= oc,
                fb ==> flat@.len() == 0,
                fb ==> oc == 0,
                oc == 0 ==> canonical_deps(flat@) && (flat@.len() > 0 ==> has_setup_root(
                    flat@,
                )),
            decreases oc - oi,
        {
            flat.push(clone_phase(&self.options.extra_phases[oi].phase));
            oi += 1;
        }
        // Merge, apply command replacements, resolve the order.
        let merged = merge_phases(&flat);
        let ghost merged0: Seq<NewPhase> = merged@;
        proof {
            lemma_distinct_names_unique(flat@);
        }
        let merged = apply_replacements(merged, &self.options.extra_phases);
        let ghost resolve_input: Seq<NewPhase> = merged@;
        proof {
            assert(phase_names(resolve_input).no_duplicates());
        }
        proof {
            if fb {
                assert(flat@ =~= Seq::<NewPhase>::empty());
                assert(distinct_names(flat@) =~= Seq::<Seq<char>>::empty());
                assert(resolve_input.len() == 0);
                assert(resolve_input =~= Seq::<NewPhase>::empty());
            }
            if self.options.extra_phases@.len() == 0 {
                // With no overrides the replacement pass was the identity,
                // and the canonical provider dependencies always resolve.
                assert forall|k: int|
                    0 <= k < resolve_input.len() implies resolve_input[k] == merged0[k] by {
                    assert(replaced_ok(merged0[k], resolve_input[k], self.options.extra_phases@));
                }
                assert(resolve_input =~= merged0);
                assert forall|i: int, d: int|
                    #![trigger deps_of(resolve_input[i])[d]]
                    0 <= i < resolve_input.len() && 0 <= d < deps_of(resolve_input[i]).len()
                    implies deps_of(resolve_input[i])[d]@ == "setup"@ by {
                    let nm = resolve_input[i].name@;
                    assert(opt_model(merged0[i].depends_on) == merged_deps(flat@, nm));
                    lemma_fold_deps_props(flat@, nm);
                    assert(deps_of(resolve_input[i]) == opt_or(merged_deps(flat@, nm)));
                }
                assert forall|i: int, d: int|
                    #![trigger deps_of(resolve_input[i])[d]]
                    0 <= i < resolve_input.len() && 0 <= d < deps_of(resolve_input[i]).len()
                    implies (Seq::<Seq<char>>::empty().contains(deps_of(resolve_input[i])[d]@)
                    || exists|j: int|
                        0 <= j < resolve_input.len() && resolve_input[j].name@ == deps_of(
                            resolve_input[i],
                        )[d]@ && deps_of(resolve_input[j]).len() == 0) by {
                    let nm = resolve_input[i].name@;
                    assert(deps_of(resolve_input[i])[d]@ == "setup"@);
                    assert(flat@.len() > 0) by {
                        if flat@.len() == 0 {
                            assert(distinct_names(flat@) =~= Seq::<Seq<char>>::empty());
                            assert(phase_names(merged0).len() == 0);
                        }
                    }
                    assert(has_setup_root(flat@));
                    let kf = choose|kf: int|
                        0 <= kf < flat@.len() && (#[trigger] flat@[kf].name)@ == "setup"@
                            && flat@[kf].depends_on is None;
                    lemma_distinct_contains(Seq::<Seq<char>>::empty(), flat@, "setup"@);
                    assert(distinct_names(flat@).contains("setup"@));
                    let kk = choose|kk: int|
                        0 <= kk < phase_names(merged0).len() && phase_names(merged0)[kk]
                            == "setup"@;
                    assert(merged0[kk].name@ == "setup"@);
                    assert(opt_model(merged0[kk].depends_on) == merged_deps(
                        flat@,
                        merged0[kk].name@,
                    ));
                    lemma_fold_deps_props(flat@, "setup"@);
                    assert(merged_deps(flat@, "setup"@) is None);
                    assert(deps_of(resolve_input[kk]).len() == 0);
                    assert(resolve_input[kk].name@ == deps_of(resolve_input[i])[d]@);
                }
                assert(resolvable(resolve_input, Seq::<Seq<char>>::empty()));
                lemma_topo_exists(resolve_input, Seq::<Seq<char>>::empty());
            }
        }
        let ordered = match resolve_phase_order(merged) {
            Ok(v) => v,
            Err(e) => {
                proof {
                    if fb {
                        assert(topo_from(resolve_input, Seq::<Seq<char>>::empty()) is Some);
                        assert(false);
                    }
                    if self.options.extra_phases@.len() == 0 {
                        assert(topo_from(resolve_input, Seq::<Seq<char>>::empty()) is Some);
                        assert(false);
                    }
                }
                return Err(e);
            },
        };
        proof {
            lemma_topo_props(resolve_input, Seq::<Seq<char>>::empty());
            assert(phase_names(ordered@).no_duplicates() && order_ok(ordered@));
            if self.options.extra_phases@.len() == 0 {
                assert forall|i: int, j: int|
                    0 <= i < ordered@.len() && 0 <= j < ordered@.len() && ((
                    #[trigger] ordered@[i]).name)@ == "setup"@ && deps_of(
                        #[trigger] ordered@[j],
                    ).len() > 0 implies i < j by {
                    assert(phase_from(ordered@, resolve_input, j));
                    let jj = choose|jj: int|
                        0 <= jj < resolve_input.len() && ordered@[j] == resolve_input[jj];
                    assert(deps_of(resolve_input[jj])[0]@ == "setup"@);
                    assert(deps_of(ordered@[j])[0]@ == "setup"@);
                    assert(!Seq::<Seq<char>>::empty().contains(deps_of(ordered@[j])[0]@));
                    let k = choose|k: int|
                        0 <= k < j && ordered@[k].name@ == deps_of(ordered@[j])[0]@;
                    if i != k {
                        assert(phase_names(ordered@)[i] == "setup"@);
                        assert(phase_names(ordered@)[k] == "setup"@);
                        assert(false);
                    }
                }
                assert(setup_leads(ordered@));
            }
            assert forall|k: int|
                0 <= k < ordered@.len() implies pkg_names(
                opt_or(opt_model((#[trigger] ordered@[k]).nix_pkgs)),
            ).no_duplicates() by {
                assert(phase_from(ordered@, resolve_input, k));
                let j = choose|j: int|
                    0 <= j < resolve_input.len() && ordered@[k] == resolve_input[j];
                assert(replaced_ok(merged0[j], resolve_input[j], self.options.extra_phases@));
                assert(opt_model(merged0[j].nix_pkgs) == fold_pkgs_field(
                    flat@,
                    merged0[j].name@,
                ));
                lemma_fold_pkgs_unique(flat@, merged0[j].name@);
            }
        }
        // Freeze: images, environment, the immutable plan.
        let mut start_acc: Option<NewStartPhase> = None;
        while starts.len() > 0
            invariant
                dn ==> (match deno_start_cmd(app.files@) {
                    Ok(Some(c)) => (starts@.len() == 1 && start_acc is None && opt_chars(
                        starts@[0].cmd,
                    ) == Some(c) && starts@[0].run_image is None) || (starts@.len() == 0
                        && start_acc is Some && opt_chars(start_acc->Some_0.cmd) == Some(c)
                        && start_acc->Some_0.run_image is None),
                    Ok(None) => starts@.len() == 0 && start_acc is None,
                    Err(_) => true,
                }),
                fb ==> ((starts@.len() == 1 && start_acc is None) || {
                    &&& starts@.len() == 0
                    &&& start_acc is Some
                    &&& serve_start_ok(start_acc->Some_0)
                }),
                fb ==> (starts@.len() == 1 ==> serve_start_ok(starts@[0])),
            decreases starts@.len(),
        {
            let c = starts.remove(0);
            start_acc = Some(overlay_start(start_acc, c));
        }
        if let Some(c) = &self.options.custom_start_cmd {
            let mut s = match start_acc {
                Some(s) => s,
                None => NewStartPhase::new(),
            };
            s.cmd = Some(c.clone());
            start_acc = Some(s);
        }
        let base_image = match &self.options.custom_base_image {
            Some(b) => b.clone(),
            None => default_base_image(),
        };
        let run_image = match &start_acc {
            Some(s) => match &s.run_image {
                Some(img) => img.clone(),
                None => {
                    if self.options.prefer_slim_runtime {
                        debian_slim_image()
                    } else {
                        base_image.clone()
                    }
                },
            },
            None => {
                if self.options.prefer_slim_runtime {
                    debian_slim_image()
                } else {
                    base_image.clone()
                }
            },
        };
        let mut variables = clone_env_vars(&env.vars);
        let mut extra = clone_env_vars(&self.options.extra_env);
        variables.append(&mut extra);
        Ok(
            BuildPlan {
                phases: ordered,
                start_phase: start_acc,
                variables,
                base_image,
                run_image,
            },
        )
    }
}

/// The position of the last override for `name` that asks to replace
/// commands, if any.
fn find_last_replace(ovs: &Vec<PhaseOverride>, name: &String) -> (r: Option<usize>)
    ensures
        match r {
            Some(j) => j < ovs@.len() && last_replace_for(ovs@, name@) == Some(ovs@[j as int]),
            None => last_replace_for(ovs@, name@) is None,
        },
{
    let mut j = ovs.len();
    proof {
        assert(ovs@.subrange(0, j as int) =~= ovs@);
    }
    while j > 0
        invariant
            j <= ovs@.len(),
            last_replace_for(ovs@, name@) == last_replace_for(
                ovs@.subrange(0, j as int),
                name@,
            ),
        decreases j,
    {
        proof {
            assert(ovs@.subrange(0, j as int).drop_last() =~= ovs@.subrange(0, j - 1));
            assert(ovs@.subrange(0, j as int).last() == ovs@[j - 1]);
        }
        if ovs[j - 1].replace_cmds && string_eq(&ovs[j - 1].phase.name, name) {
            return Some(j - 1);
        }
        j -= 1;
    }
    proof {
        assert(ovs@.subrange(0, 0) =~= Seq::<PhaseOverride>::empty());
    }
    None
}

} // verus!
