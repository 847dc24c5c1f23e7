//! The command that brings the pull request's branch up to its base.

use crate::script::{fatal_stage, stage_views, Stage, StageView};
use crate::workspace::Workspace;
use vstd::prelude::*;
use vstd::string::*;

verus! {

/// What the command does in its workspace: the base is merged and the
/// branch pushed, each in a stage that must succeed.
pub open spec fn script_of(workspace: &Workspace) -> Seq<StageView> {
    seq![fatal_stage(workspace.spec_merge_with_base()), fatal_stage(workspace.spec_push())]
}

pub fn run(workspace: &Workspace) -> (script: Vec<Stage>)
    ensures
        stage_views(script@) == script_of(workspace),
{
    let mut script: Vec<Stage> = Vec::new();
    script.push(Stage::of(workspace.merge_with_base(), true));
    script.push(Stage::of(workspace.push(), true));
    assert(stage_views(script@) =~= script_of(workspace));
    script
}

/// What is reported of a command that succeeded.
pub fn success(workspace: &Workspace) -> (message: String)
    ensures
        message@ == "Successfully ran mason merge-base in "@ + workspace.workdir@,
{
    let mut message = "Successfully ran mason merge-base in ".to_owned();
    message.append(workspace.workdir.as_str());
    message
}

} // verus!
