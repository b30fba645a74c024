//! The provider predicates, the merge pipeline and the phase builders.

use nixpacks::chain::merge_phases;
use nixpacks::environment::{Environment, EnvVar};
use nixpacks::errors::PlanError;
use nixpacks::phase::{BuildPhase, InstallPhase, SetupPhase, StartPhase};
use nixpacks::pkg::Pkg;
use nixpacks::plan::{NewPhase, NewStartPhase, NewBuildPlan};
use nixpacks::providers::deno::DenoProvider;
use nixpacks::providers::staticfile::StaticfileProvider;
use nixpacks::resolve::resolve_phase_order;
use nixpacks::source::{SourceFile, SourceTree};

fn tree(files: Vec<(&str, &str)>) -> SourceTree {
    SourceTree {
        files: files
            .into_iter()
            .map(|(p, c)| SourceFile { path: p.to_string(), contents: c.to_string() })
            .collect(),
    }
}

fn empty_env() -> Environment {
    Environment::new(vec![])
}

const DENO_IMPORT: &str = "import { x } from \"https://deno.land/x/mod.ts\";\n";

#[test]
fn detect_is_pure_and_repeatable() {
    let app = tree(vec![("deno.json", "{}")]);
    let env = empty_env();
    let provider = DenoProvider {};
    let first = provider.detect(&app, &env).unwrap();
    let second = provider.detect(&app, &env).unwrap();
    assert!(first);
    assert_eq!(first, second);
}

#[test]
fn detect_by_manifest_variants() {
    let env = empty_env();
    let provider = DenoProvider {};
    assert!(provider.detect(&tree(vec![("deno.jsonc", "{}")]), &env).unwrap());
    assert!(!provider.detect(&tree(vec![("package.json", "{}")]), &env).unwrap());
}

#[test]
fn detect_by_import_regex() {
    let env = empty_env();
    let provider = DenoProvider {};
    // A TypeScript file importing from deno.land matches.
    assert!(provider.detect(&tree(vec![("main.ts", DENO_IMPORT)]), &env).unwrap());
    // The same text in a non-TypeScript file does not.
    assert!(!provider.detect(&tree(vec![("main.rs", DENO_IMPORT)]), &env).unwrap());
    // A TypeScript file without such an import does not.
    assert!(!provider
        .detect(&tree(vec![("main.ts", "import { x } from \"./local.ts\";\n")]), &env)
        .unwrap());
}

#[test]
fn staticfile_detects_marker() {
    let env = empty_env();
    let provider = StaticfileProvider {};
    assert!(provider.detect(&tree(vec![("Staticfile", "")]), &env).unwrap());
    assert!(!provider.detect(&tree(vec![("index.html", "")]), &env).unwrap());
}

#[test]
fn start_file_prefers_first_in_tree_order() {
    let app = tree(vec![("src/index.ts", DENO_IMPORT), ("index.js", "x")]);
    let file = DenoProvider::get_start_file(&app).unwrap().unwrap();
    assert_eq!(file, "src/index.ts");
}

#[test]
fn build_cmd_references_entry_file() {
    let app = tree(vec![("app/index.js", "x")]);
    let cmd = DenoProvider::get_build_cmd(&app).unwrap().unwrap();
    assert_eq!(cmd, "deno cache app/index.js");
    let none = DenoProvider::get_build_cmd(&tree(vec![("main.ts", "x")])).unwrap();
    assert!(none.is_none());
}

#[test]
fn start_cmd_reads_manifest_task() {
    let app = tree(vec![("deno.json", "{\"tasks\":{\"start\":\"deno task dev\"}}")]);
    let cmd = DenoProvider::get_start_cmd(&app).unwrap().unwrap();
    assert_eq!(cmd, "deno task dev");
}

#[test]
fn start_cmd_rejects_malformed_manifest() {
    let app = tree(vec![("deno.json", "not json")]);
    let err = DenoProvider::get_start_cmd(&app).unwrap_err();
    assert!(matches!(err, PlanError::Config { .. }));
}

#[test]
fn start_cmd_rejects_wrong_typed_start_task() {
    // Valid JSON, but tasks.start is not a string: a typed read of the
    // manifest fails, so the manifest counts as malformed.
    let app = tree(vec![("deno.json", "{\"tasks\":{\"start\":7}}")]);
    let err = DenoProvider::get_start_cmd(&app).unwrap_err();
    assert!(matches!(err, PlanError::Config { .. }));

    // And a tasks entry that is not an object is malformed too.
    let app = tree(vec![("deno.json", "{\"tasks\":3}")]);
    let err = DenoProvider::get_start_cmd(&app).unwrap_err();
    assert!(matches!(err, PlanError::Config { .. }));
}

#[test]
fn unified_deno_plan_has_setup_and_build() {
    let app = tree(vec![("index.ts", DENO_IMPORT)]);
    let env = empty_env();
    let plan = DenoProvider {}.get_build_plan(&app, &env).unwrap().unwrap();
    assert_eq!(plan.phases.len(), 2);
    assert_eq!(plan.phases[0].name, "setup");
    assert_eq!(plan.phases[1].name, "build");
    assert_eq!(plan.phases[1].depends_on, Some(vec!["setup".to_string()]));
    assert_eq!(plan.phases[1].cmds, Some(vec!["deno cache index.ts".to_string()]));
}

#[test]
fn merge_respects_priority_order() {
    let mut a = NewPhase::new("build");
    a.add_cmd("x".to_string());
    let mut b = NewPhase::new("build");
    b.add_cmd("y".to_string());
    let merged = merge_phases(&vec![a, b]);
    assert_eq!(merged.len(), 1);
    assert_eq!(merged[0].cmds, Some(vec!["x".to_string(), "y".to_string()]));
}

#[test]
fn merge_deduplicates_packages_by_name() {
    let mut a = NewPhase::new("setup");
    a.add_nix_pkgs(vec![Pkg::new("deno"), Pkg::new("curl")]);
    let mut b = NewPhase::new("setup");
    b.add_nix_pkgs(vec![Pkg::pinned("deno", "1.30")]);
    let merged = merge_phases(&vec![a, b]);
    assert_eq!(merged.len(), 1);
    let pkgs = merged[0].nix_pkgs.as_ref().unwrap();
    assert_eq!(pkgs.len(), 2);
    // The later contribution's version wins, in the first position.
    assert_eq!(pkgs[0].name, "deno");
    assert_eq!(pkgs[0].version, Some("1.30".to_string()));
    assert_eq!(pkgs[1].name, "curl");
}

#[test]
fn merge_keeps_distinct_phases_apart() {
    let mut a = NewPhase::new("setup");
    a.add_cmd("a".to_string());
    let mut b = NewPhase::new("build");
    b.add_cmd("b".to_string());
    let merged = merge_phases(&vec![a, b]);
    assert_eq!(merged.len(), 2);
    assert_eq!(merged[0].name, "setup");
    assert_eq!(merged[1].name, "build");
}

#[test]
fn cycle_between_install_and_build_is_rejected() {
    let mut install = NewPhase::new("install");
    install.depends_on_phase("build");
    let mut build = NewPhase::new("build");
    build.depends_on_phase("install");
    let err = resolve_phase_order(vec![install, build]).unwrap_err();
    assert!(matches!(err, PlanError::PlanGraph));
}

#[test]
fn missing_dependency_is_rejected() {
    let mut build = NewPhase::new("build");
    build.depends_on_phase("setup");
    let err = resolve_phase_order(vec![build]).unwrap_err();
    assert!(matches!(err, PlanError::PlanGraph));
}

#[test]
fn resolution_orders_dependencies_first() {
    let mut build = NewPhase::new("build");
    build.depends_on_phase("setup");
    let setup = NewPhase::new("setup");
    let ordered = resolve_phase_order(vec![build, setup]).unwrap();
    assert_eq!(ordered[0].name, "setup");
    assert_eq!(ordered[1].name, "build");
}

#[test]
fn setup_phase_builder() {
    let mut p = SetupPhase::new(vec![Pkg::new("deno")]);
    p.add_pkgs(&mut vec![Pkg::new("curl")]);
    p.add_cmd("echo hi".to_string());
    p.add_libraries(vec!["openssl".to_string()]);
    p.add_apt_pkgs(vec!["git".to_string()]);
    p.add_file_dependency("deno.json".to_string());
    p.set_archive("v1".to_string());
    assert_eq!(p.pkgs.len(), 2);
    assert_eq!(p.cmds, Some(vec!["echo hi".to_string()]));
    assert_eq!(p.libraries, Some(vec!["openssl".to_string()]));
    assert_eq!(p.apt_pkgs, Some(vec!["git".to_string()]));
    assert_eq!(p.only_include_files, Some(vec!["deno.json".to_string()]));
    assert_eq!(p.archive, Some("v1".to_string()));
    assert_eq!(p.base_image, "ghcr.io/railwayapp/nixpacks:ubuntu");
}

#[test]
fn install_and_build_phase_builders() {
    let mut i = InstallPhase::new("npm ci".to_string());
    i.add_cache_directory("/root/.npm".to_string());
    i.add_path("/app/node_modules/.bin".to_string());
    i.add_cmd("npm dedupe".to_string());
    i.add_file_dependency("package.json".to_string());
    assert_eq!(i.cmds, Some(vec!["npm ci".to_string(), "npm dedupe".to_string()]));
    assert_eq!(i.cache_directories, Some(vec!["/root/.npm".to_string()]));
    assert_eq!(i.paths, Some(vec!["/app/node_modules/.bin".to_string()]));
    assert_eq!(i.only_include_files, Some(vec!["package.json".to_string()]));

    let mut b = BuildPhase::new("cargo build".to_string());
    b.add_cache_directory("target".to_string());
    b.add_cmd("cargo test".to_string());
    b.add_file_dependency("Cargo.toml".to_string());
    assert_eq!(b.cmds, Some(vec!["cargo build".to_string(), "cargo test".to_string()]));
    assert_eq!(b.cache_directories, Some(vec!["target".to_string()]));
}

#[test]
fn start_phase_builder_and_images() {
    let mut s = StartPhase::new("./server".to_string());
    assert_eq!(s.cmd, Some("./server".to_string()));
    s.run_in_slim_image();
    assert_eq!(s.run_image, Some("debian:bullseye-slim".to_string()));
    s.run_in_default_image();
    assert_eq!(s.run_image, Some("ghcr.io/railwayapp/nixpacks:ubuntu".to_string()));
    s.run_in_image("alpine:3".to_string());
    assert_eq!(s.run_image, Some("alpine:3".to_string()));
    s.add_file_dependency("server".to_string());
    assert_eq!(s.only_include_files, Some(vec!["server".to_string()]));
}

#[test]
fn phase_normalization_keeps_fields() {
    let mut sp = SetupPhase::new(vec![Pkg::new("deno")]);
    sp.add_cmd("prepare".to_string());
    let np = NewPhase::from_setup(sp);
    assert_eq!(np.name, "setup");
    assert_eq!(np.nix_pkgs.as_ref().unwrap()[0].name, "deno");
    assert_eq!(np.cmds, Some(vec!["prepare".to_string()]));

    let ip = InstallPhase::new("fetch".to_string());
    let np = NewPhase::from_install(ip);
    assert_eq!(np.name, "install");
    assert_eq!(np.cmds, Some(vec!["fetch".to_string()]));

    let bp = BuildPhase::new("compile".to_string());
    let np = NewPhase::from_build(bp);
    assert_eq!(np.name, "build");

    let mut st = StartPhase::new("run".to_string());
    st.run_in_image("alpine:3".to_string());
    let ns = NewStartPhase::from_start(st);
    assert_eq!(ns.cmd, Some("run".to_string()));
    assert_eq!(ns.run_image, Some("alpine:3".to_string()));
}

#[test]
fn environment_lookup_finds_first_binding() {
    let env = Environment::new(vec![
        EnvVar { name: "PORT".to_string(), value: "80".to_string() },
        EnvVar { name: "PORT".to_string(), value: "90".to_string() },
    ]);
    assert_eq!(env.get("PORT"), Some("80".to_string()));
    assert_eq!(env.get("HOST"), None);
}

#[test]
fn new_build_plan_holds_phases() {
    let plan = NewBuildPlan::new(vec![NewPhase::new("setup")]);
    assert_eq!(plan.phases.len(), 1);
    assert!(plan.start_phase.is_none());
}

#[test]
fn error_labels_are_stable() {
    assert_eq!(PlanError::NoProviderMatched.label(), "no provider matched");
    assert_eq!(PlanError::PlanGraph.label(), "invalid phase graph");
    assert_eq!(
        PlanError::Config { provider: "deno".to_string() }.label(),
        "malformed manifest"
    );
    assert_eq!(
        PlanError::Detection { provider: "deno".to_string() }.label(),
        "detection failed"
    );
}
