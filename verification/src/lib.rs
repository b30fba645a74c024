//! Zero-config build-plan synthesis for application source trees.
//!
//! The library inspects a snapshot of a source tree, infers which
//! ecosystem it belongs to through an ordered provider registry, merges
//! every matching provider's phase contributions under field-level rules,
//! resolves the phase dependency graph, and freezes the result into an
//! immutable build plan for an external image builder. Generation is
//! side-effect-free: the same snapshot, configuration and options always
//! freeze into the same plan.

use vstd::prelude::*;

pub mod chain;
pub mod environment;
pub mod errors;
pub mod generator;
pub mod images;
pub mod listops;
pub mod plan;
pub mod resolve;
pub mod providers;
pub mod source;
pub mod phase;
pub mod pkg;
pub mod strutil;

use crate::environment::{EnvVar, Environment};
use crate::errors::PlanError;
use crate::generator::{
    any_provider_detects, any_failing_deno, clone_options, GeneratePlanOptions,
    NixpacksBuildPlanGenerator, NoMatchPolicy,
};
use crate::images::{debian_slim_image_chars, default_base_image_chars};
use crate::chain::phase_names;
use crate::plan::BuildPlan;
use crate::providers::deno::{deno_detects, deno_start_cmd, DenoProvider};
use crate::providers::staticfile::{staticfile_detects, StaticfileProvider};
use crate::providers::{provider_detects, Provider};
use crate::resolve::order_ok;
use crate::source::{SourceFile, SourceTree};

verus! {

/// The fixed provider registry, in priority order: the first provider
/// whose detection succeeds is the primary ecosystem, later ones may
/// still add orthogonal phases.
pub fn get_providers() -> (r: Vec<Provider>)
    ensures
        r@.len() == 2,
        r@[0] matches Provider::Deno(_),
        r@[1] matches Provider::Staticfile(_),
{
    let mut v: Vec<Provider> = Vec::new();
    v.push(Provider::Deno(DenoProvider {  }));
    v.push(Provider::Staticfile(StaticfileProvider {  }));
    v
}

/// Some provider of the fixed registry recognizes the tree.
pub open spec fn registry_detects(files: Seq<SourceFile>) -> bool {
    deno_detects(files) || staticfile_detects(files)
}

/// Generate the build plan for one snapshot of a source tree, under the
/// given configuration and options, with the fixed provider registry.
pub fn generate_build_plan(
    app: &SourceTree,
    envs: Vec<EnvVar>,
    plan_options: &GeneratePlanOptions,
) -> (r: Result<BuildPlan, PlanError>)
    ensures
        (r matches Err(PlanError::NoProviderMatched)) <==> (!registry_detects(app.files@)
            && plan_options.policy matches NoMatchPolicy::FailClosed),
        (r matches Err(PlanError::Config { .. })) <==> (deno_detects(app.files@)
            && deno_start_cmd(app.files@) is Err),
        r matches Ok(plan) ==> phase_names(plan.phases@).no_duplicates() && order_ok(
            plan.phases@,
        ),
        r matches Ok(plan) ==> plan.variables@ == envs@ + plan_options.extra_env@,
        r matches Ok(plan) ==> (match plan_options.custom_base_image {
            Some(b) => plan.base_image@ == b@,
            None => plan.base_image@ == default_base_image_chars(),
        }),
        r matches Ok(plan) ==> (forall|k: int|
            0 <= k < plan.phases@.len() ==> crate::chain::pkg_names(
                crate::chain::opt_or(crate::listops::opt_model((#[trigger] plan.phases@[k]).nix_pkgs)),
            ).no_duplicates()),
        (match r {
            Ok(plan) => (match plan_options.custom_start_cmd {
                Some(c) => plan.start_phase matches Some(s) && s.cmd == Some(c),
                None => true,
            }),
            Err(_) => true,
        }),
        ({
            &&& !registry_detects(app.files@)
            &&& plan_options.policy matches crate::generator::NoMatchPolicy::Fallback
            &&& plan_options.extra_phases@.len() == 0
            &&& plan_options.custom_start_cmd is None
        }) ==> ({
            &&& r is Ok
            &&& r->Ok_0.phases@.len() == 0
            &&& r->Ok_0.start_phase is Some
            &&& crate::strutil::opt_chars(r->Ok_0.start_phase->Some_0.cmd) == Some(
                crate::providers::staticfile::staticfile_serve_cmd(),
            )
            &&& r->Ok_0.start_phase->Some_0.run_image is None
        }),
        (registry_detects(app.files@) && !(deno_detects(app.files@) && deno_start_cmd(
            app.files@,
        ) is Err) && plan_options.extra_phases@.len() == 0) ==> r is Ok,
        ({
            &&& !registry_detects(app.files@)
            &&& plan_options.policy matches NoMatchPolicy::Fallback
            &&& plan_options.extra_phases@.len() == 0
        }) ==> r is Ok,
        r matches Err(PlanError::PlanGraph) ==> plan_options.extra_phases@.len() > 0,
        !(r matches Err(PlanError::Detection { .. })),
        (match r {
            Ok(plan) => plan_options.extra_phases@.len() == 0
                ==> crate::generator::setup_leads(plan.phases@),
            Err(_) => true,
        }),
        ({
            &&& deno_detects(app.files@)
            &&& !staticfile_detects(app.files@)
            &&& plan_options.custom_start_cmd is None
        }) ==> (match r {
            Ok(plan) => crate::providers::deno_start_shape(plan.start_phase, app.files@)
                || deno_start_cmd(app.files@) is Err,
            Err(_) => true,
        }),
        r matches Ok(plan) ==> (match plan.start_phase {
            Some(s) => (match s.run_image {
                Some(img) => plan.run_image@ == img@,
                None => plan.run_image@ == (if plan_options.prefer_slim_runtime {
                    debian_slim_image_chars()
                } else {
                    plan.base_image@
                }),
            }),
            None => plan.run_image@ == (if plan_options.prefer_slim_runtime {
                debian_slim_image_chars()
            } else {
                plan.base_image@
            }),
        }),
{
    let providers = get_providers();
    proof {
        if any_provider_detects(providers@, app.files@) {
            let w = choose|k: int|
                0 <= k < providers@.len() && provider_detects(
                    #[trigger] providers@[k],
                    app.files@,
                );
            assert(registry_detects(app.files@));
        }
        if registry_detects(app.files@) {
            if deno_detects(app.files@) {
                assert(provider_detects(providers@[0], app.files@));
            } else {
                assert(provider_detects(providers@[1], app.files@));
            }
        }
        if any_failing_deno(providers@, app.files@) {
            let w = choose|k: int|
                0 <= k < providers@.len() && crate::generator::failing_deno_at(
                    providers@,
                    app.files@,
                    k,
                );
        }
        if deno_detects(app.files@) && deno_start_cmd(app.files@) is Err {
            assert(crate::generator::failing_deno_at(providers@, app.files@, 0));
        }
    }
    let environment = Environment::new(envs);
    let generator = NixpacksBuildPlanGenerator::new(providers, clone_options(plan_options));
    generator.generate_plan(app, &environment)
}

} // verus!
