//! End-to-end plan generation: detection, merging, ordering, freezing.

use nixpacks::environment::EnvVar;
use nixpacks::errors::PlanError;
use nixpacks::generator::{GeneratePlanOptions, NoMatchPolicy, PhaseOverride};
use nixpacks::plan::NewPhase;
use nixpacks::source::{SourceFile, SourceTree};
use nixpacks::generate_build_plan;

fn tree(files: Vec<(&str, &str)>) -> SourceTree {
    SourceTree {
        files: files
            .into_iter()
            .map(|(p, c)| SourceFile { path: p.to_string(), contents: c.to_string() })
            .collect(),
    }
}

fn default_options() -> GeneratePlanOptions {
    GeneratePlanOptions::new()
}

const DENO_INDEX: &str = "import { serve } from \"https://deno.land/std/http/server.ts\";\n";

#[test]
fn scenario_index_ts_without_manifest() {
    let app = tree(vec![("index.ts", DENO_INDEX)]);
    let plan = generate_build_plan(&app, vec![], &default_options()).unwrap();
    let build = plan
        .phases
        .iter()
        .find(|p| p.name == "build")
        .expect("build phase expected");
    assert_eq!(build.cmds, Some(vec!["deno cache index.ts".to_string()]));
    let start = plan.start_phase.expect("start phase expected");
    assert_eq!(start.cmd, Some("deno run --allow-all index.ts".to_string()));
}

#[test]
fn scenario_manifest_start_task_wins() {
    let app = tree(vec![
        ("deno.json", "{\"tasks\":{\"start\":\"deno run --allow-net main.ts\"}}"),
        ("index.ts", DENO_INDEX),
    ]);
    let plan = generate_build_plan(&app, vec![], &default_options()).unwrap();
    let start = plan.start_phase.expect("start phase expected");
    assert_eq!(start.cmd, Some("deno run --allow-net main.ts".to_string()));
}

#[test]
fn scenario_no_provider_fail_closed() {
    let app = tree(vec![("README.md", "nothing to detect")]);
    let err = generate_build_plan(&app, vec![], &default_options()).unwrap_err();
    assert!(matches!(err, PlanError::NoProviderMatched));
}

#[test]
fn scenario_no_provider_fallback_serves_files() {
    let app = tree(vec![("README.md", "nothing to detect")]);
    let mut options = default_options();
    options.policy = NoMatchPolicy::Fallback;
    let plan = generate_build_plan(&app, vec![], &options).unwrap();
    assert!(plan.phases.is_empty());
    let start = plan.start_phase.expect("fallback start phase expected");
    assert_eq!(start.cmd, Some("python3 -m http.server".to_string()));
}

#[test]
fn generation_is_idempotent() {
    let app = tree(vec![("deno.json", "{}"), ("index.ts", DENO_INDEX)]);
    let envs = vec![EnvVar { name: "PORT".to_string(), value: "8080".to_string() }];
    let options = default_options();
    let first = generate_build_plan(&app, envs.clone(), &options).unwrap();
    let second = generate_build_plan(&app, envs, &options).unwrap();
    assert_eq!(first, second);
}

#[test]
fn malformed_manifest_is_fatal() {
    let app = tree(vec![("deno.json", "{not json at all")]);
    let err = generate_build_plan(&app, vec![], &default_options()).unwrap_err();
    match err {
        PlanError::Config { provider } => assert_eq!(provider, "deno"),
        other => panic!("expected a manifest error, got {:?}", other),
    }
}

#[test]
fn manifest_without_start_task_falls_back_to_index() {
    let app = tree(vec![("deno.json", "{\"tasks\":{}}"), ("index.ts", DENO_INDEX)]);
    let plan = generate_build_plan(&app, vec![], &default_options()).unwrap();
    let start = plan.start_phase.expect("start phase expected");
    assert_eq!(start.cmd, Some("deno run --allow-all index.ts".to_string()));
}

#[test]
fn environment_passes_through() {
    let app = tree(vec![("deno.json", "{}")]);
    let envs = vec![
        EnvVar { name: "A".to_string(), value: "1".to_string() },
        EnvVar { name: "B".to_string(), value: "2".to_string() },
    ];
    let mut options = default_options();
    options.extra_env = vec![EnvVar { name: "C".to_string(), value: "3".to_string() }];
    let plan = generate_build_plan(&app, envs, &options).unwrap();
    assert_eq!(plan.variables.len(), 3);
    assert_eq!(plan.variables[0].name, "A");
    assert_eq!(plan.variables[2].value, "3");
}

#[test]
fn image_resolution_default_and_pinned() {
    let app = tree(vec![("deno.json", "{}")]);
    let plan = generate_build_plan(&app, vec![], &default_options()).unwrap();
    assert_eq!(plan.base_image, "ghcr.io/railwayapp/nixpacks:ubuntu");
    assert_eq!(plan.run_image, plan.base_image);

    let mut options = default_options();
    options.custom_base_image = Some("ubuntu:22.04".to_string());
    let plan = generate_build_plan(&app, vec![], &options).unwrap();
    assert_eq!(plan.base_image, "ubuntu:22.04");
}

#[test]
fn slim_runtime_opt_in() {
    let app = tree(vec![("deno.json", "{}")]);
    let mut options = default_options();
    options.prefer_slim_runtime = true;
    let plan = generate_build_plan(&app, vec![], &options).unwrap();
    assert_eq!(plan.run_image, "debian:bullseye-slim");
}

#[test]
fn custom_start_cmd_overrides_inference() {
    let app = tree(vec![("index.ts", DENO_INDEX)]);
    let mut options = default_options();
    options.custom_start_cmd = Some("./run.sh".to_string());
    let plan = generate_build_plan(&app, vec![], &options).unwrap();
    assert_eq!(plan.start_phase.unwrap().cmd, Some("./run.sh".to_string()));
}

#[test]
fn override_phase_appends_commands() {
    let app = tree(vec![("index.ts", DENO_INDEX)]);
    let mut extra = NewPhase::new("build");
    extra.add_cmd("echo done".to_string());
    let mut options = default_options();
    options.extra_phases = vec![PhaseOverride { phase: extra, replace_cmds: false }];
    let plan = generate_build_plan(&app, vec![], &options).unwrap();
    let build = plan.phases.iter().find(|p| p.name == "build").unwrap();
    assert_eq!(
        build.cmds,
        Some(vec!["deno cache index.ts".to_string(), "echo done".to_string()])
    );
}

#[test]
fn override_phase_replaces_commands() {
    let app = tree(vec![("index.ts", DENO_INDEX)]);
    let mut extra = NewPhase::new("build");
    extra.add_cmd("make".to_string());
    let mut options = default_options();
    options.extra_phases = vec![PhaseOverride { phase: extra, replace_cmds: true }];
    let plan = generate_build_plan(&app, vec![], &options).unwrap();
    let build = plan.phases.iter().find(|p| p.name == "build").unwrap();
    assert_eq!(build.cmds, Some(vec!["make".to_string()]));
}

#[test]
fn cyclic_overrides_are_rejected() {
    let app = tree(vec![("index.ts", DENO_INDEX)]);
    let mut a = NewPhase::new("install");
    a.depends_on_phase("build");
    let mut b = NewPhase::new("build");
    b.depends_on_phase("install");
    let mut options = default_options();
    options.extra_phases = vec![
        PhaseOverride { phase: a, replace_cmds: false },
        PhaseOverride { phase: b, replace_cmds: false },
    ];
    let err = generate_build_plan(&app, vec![], &options).unwrap_err();
    assert!(matches!(err, PlanError::PlanGraph));
}

#[test]
fn phases_come_out_dependency_ordered() {
    let app = tree(vec![("index.ts", DENO_INDEX)]);
    let plan = generate_build_plan(&app, vec![], &default_options()).unwrap();
    let setup_pos = plan.phases.iter().position(|p| p.name == "setup").unwrap();
    let build_pos = plan.phases.iter().position(|p| p.name == "build").unwrap();
    assert!(setup_pos < build_pos);
    let setup = &plan.phases[setup_pos];
    let pkgs = setup.nix_pkgs.as_ref().unwrap();
    assert_eq!(pkgs.len(), 1);
    assert_eq!(pkgs[0].name, "deno");
}

#[test]
fn plan_without_start_phase_is_valid() {
    // Detected ecosystem, but no entry file and no declared start task:
    // a library-only build gets a plan with no start phase.
    let app = tree(vec![("deno.jsonc", "{}"), ("lib.ts", DENO_INDEX)]);
    let plan = generate_build_plan(&app, vec![], &default_options()).unwrap();
    assert!(plan.start_phase.is_none());
    assert_eq!(plan.phases.len(), 1);
    assert_eq!(plan.phases[0].name, "setup");
}
