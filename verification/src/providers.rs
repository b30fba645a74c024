//! The closed, priority-ordered set of ecosystem providers.
//!
//! Each provider is a stateless detector plus phase factory. The registry
//! is an ordered list of these variants; the generator walks it once per
//! run, and the fixed order makes every tie-break deterministic.

pub mod deno;
pub mod staticfile;

use vstd::prelude::*;

use crate::errors::PlanError;
use crate::environment::Environment;
use crate::listops::opt_view;
use crate::plan::{NewBuildPlan, NewPhase, NewStartPhase};
use crate::providers::deno::{
    deno_build_cmd, deno_detects, deno_start_cmd, DenoProvider,
};
use crate::providers::staticfile::{
    staticfile_detects, staticfile_serve_cmd, StaticfileProvider,
};
use crate::source::{SourceFile, SourceTree};
use crate::strutil::opt_chars;

verus! {

/// One ecosystem provider, as a tagged variant behind one capability
/// interface.
#[derive(Debug)]
pub enum Provider {
    Deno(DenoProvider),
    Staticfile(StaticfileProvider),
}

/// Whether this provider recognizes this tree.
pub open spec fn provider_detects(p: Provider, files: Seq<SourceFile>) -> bool {
    match p {
        Provider::Deno(_) => deno_detects(files),
        Provider::Staticfile(_) => staticfile_detects(files),
    }
}

/// The start phase a Deno contribution carries: the provider's start
/// command when there is one, nothing when there is none.
pub open spec fn deno_start_shape(sp: Option<NewStartPhase>, files: Seq<SourceFile>) -> bool {
    match deno_start_cmd(files) {
        Ok(Some(c)) => sp matches Some(s) && opt_chars(s.cmd) == Some(c) && s.run_image
            is None,
        Ok(None) => sp is None,
        Err(_) => false,
    }
}

/// The contribution this provider makes once it detected, described phase
/// by phase. `Err(())` stands for the provider failing on its manifest.
pub open spec fn provider_contribution_ok(
    p: Provider,
    files: Seq<SourceFile>,
    plan: NewBuildPlan,
) -> bool {
    match p {
        Provider::Deno(_) => {
            &&& plan.phases@.len() == (if deno_build_cmd(files) is Some {
                2int
            } else {
                1int
            })
            &&& plan.phases@[0].name@ == "setup"@
            &&& plan.phases@[0].nix_pkgs is Some
            &&& opt_view(plan.phases@[0].nix_pkgs).len() == 1
            &&& opt_view(plan.phases@[0].nix_pkgs)[0].name@ == "deno"@
            &&& opt_view(plan.phases@[0].nix_pkgs)[0].version is None
            &&& plan.phases@[0].cmds is None
            &&& plan.phases@[0].depends_on is None
            &&& (deno_build_cmd(files) matches Some(c) ==> {
                &&& plan.phases@[1].name@ == "build"@
                &&& plan.phases@[1].cmds is Some
                &&& opt_view(plan.phases@[1].cmds).len() == 1
                &&& opt_view(plan.phases@[1].cmds)[0]@ == c
                &&& plan.phases@[1].depends_on is Some
                &&& opt_view(plan.phases@[1].depends_on).len() == 1
                &&& opt_view(plan.phases@[1].depends_on)[0]@ == "setup"@
                &&& plan.phases@[1].nix_pkgs is None
            })
            &&& deno_start_shape(plan.start_phase, files)
        },
        Provider::Staticfile(_) => {
            &&& plan.phases@.len() == 0
            &&& plan.start_phase matches Some(s) && opt_chars(s.cmd) == Some(
                staticfile_serve_cmd(),
            ) && s.run_image is None
        },
    }
}

impl Provider {
    /// The provider's fixed name.
    pub fn name(&self) -> (r: &'static str)
        ensures
            match self {
                Provider::Deno(_) => r@ == "deno"@,
                Provider::Staticfile(_) => r@ == "staticfile"@,
            },
    {
        match self {
            Provider::Deno(p) => p.name(),
            Provider::Staticfile(p) => p.name(),
        }
    }

    /// The pure detection predicate: a deterministic function of the
    /// snapshot and the configuration, never of anything else.
    pub fn detect(&self, app: &SourceTree, env: &Environment) -> (r: Result<bool, PlanError>)
        ensures
            r matches Ok(b) && b == provider_detects(*self, app.files@),
    {
        match self {
            Provider::Deno(p) => p.detect(app, env),
            Provider::Staticfile(p) => p.detect(app, env),
        }
    }

    /// The provider's whole contribution, normalized: decomposed phase
    /// methods are composed here, exactly once, into one partial plan.
    pub fn partial_plan(&self, app: &SourceTree, env: &Environment) -> (r: Result<
        NewBuildPlan,
        PlanError,
    >)
        ensures
            match r {
                Ok(plan) => provider_contribution_ok(*self, app.files@, plan),
                Err(e) => {
                    &&& self matches Provider::Deno(_)
                    &&& deno_start_cmd(app.files@) is Err
                    &&& e matches PlanError::Config { provider } && provider@ == "deno"@
                },
            },
            self matches Provider::Staticfile(_) ==> r is Ok,
            self matches Provider::Deno(_) && deno_start_cmd(app.files@) is Ok ==> r is Ok,
    {
        match self {
            Provider::Deno(p) => {
                let setup = match p.setup(app, env) {
                    Ok(s) => s,
                    Err(e) => return Err(e),
                };
                let build = match p.build(app, env) {
                    Ok(b) => b,
                    Err(e) => return Err(e),
                };
                let start = match p.start(app, env) {
                    Ok(s) => s,
                    Err(e) => return Err(e),
                };
                let mut phases: Vec<NewPhase> = Vec::new();
                if let Some(sp) = setup {
                    phases.push(NewPhase::from_setup(sp));
                }
                if let Some(bp) = build {
                    let mut np = NewPhase::from_build(bp);
                    np.depends_on_phase("setup");
                    phases.push(np);
                }
                let mut plan = NewBuildPlan::new(phases);
                if let Some(st) = start {
                    plan.start_phase = Some(NewStartPhase::from_start(st));
                }
                Ok(plan)
            },
            Provider::Staticfile(p) => {
                match p.get_build_plan(app, env) {
                    Ok(Some(plan)) => Ok(plan),
                    Ok(None) => Ok(NewBuildPlan::new(Vec::new())),
                    Err(e) => Err(e),
                }
            },
        }
    }
}

} // verus!
