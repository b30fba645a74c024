//! The static-file provider: the add-on (and policy fallback) that serves
//! a tree of plain files. It recognizes a `Staticfile` marker and
//! contributes only a start phase running a simple file server.

use vstd::prelude::*;

use crate::errors::PlanError;
use crate::plan::{NewBuildPlan, NewStartPhase};
use crate::source::{tree_has_file, SourceFile, SourceTree};
use crate::strutil::opt_chars;

verus! {

/// Whether the static-file provider recognizes this tree.
pub open spec fn staticfile_detects(files: Seq<SourceFile>) -> bool {
    tree_has_file(files, "Staticfile"@)
}

/// The command the static-file start phase runs.
pub open spec fn staticfile_serve_cmd() -> Seq<char> {
    "python3 -m http.server"@
}

/// The stateless static-file detector and phase factory.
#[derive(Debug)]
pub struct StaticfileProvider {}

impl StaticfileProvider {
    pub fn name(&self) -> (r: &'static str)
        ensures
            r@ == "staticfile"@,
    {
        "staticfile"
    }

    /// The pure detection predicate over the snapshot.
    pub fn detect(&self, app: &SourceTree, _env: &crate::environment::Environment) -> (r: Result<
        bool,
        PlanError,
    >)
        ensures
            r matches Ok(b) && b == staticfile_detects(app.files@),
    {
        Ok(app.includes_file("Staticfile"))
    }

    /// The whole contribution: one start phase serving the tree. The same
    /// plan doubles as the policy fallback when nothing matched.
    pub fn get_build_plan(&self, _app: &SourceTree, _env: &crate::environment::Environment) -> (r:
        Result<Option<NewBuildPlan>, PlanError>)
        ensures
            r matches Ok(op) && op matches Some(plan),
            ({
                let plan = r->Ok_0->Some_0;
                &&& plan.phases@.len() == 0
                &&& plan.start_phase matches Some(s)
                &&& opt_chars(plan.start_phase->Some_0.cmd) == Some(staticfile_serve_cmd())
                &&& plan.start_phase->Some_0.run_image is None
            }),
    {
        let mut plan = NewBuildPlan::new(Vec::new());
        let mut start = NewStartPhase::new();
        start.cmd = Some("python3 -m http.server".to_owned());
        plan.start_phase = Some(start);
        Ok(Some(plan))
    }
}

} // verus!
