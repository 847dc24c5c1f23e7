//! Applying a patch in a workspace that was merged with its base.

use crate::github::action::common::GitApplyPatch;
use crate::mason::workspace::Workspace;
use crate::script::{fatal_stage, stage_views, Stage, StageView};
use crate::spawn::{request_views, ProcessRequest, ProcessRequestView};
use crate::text::str_views;
use vstd::prelude::*;
use vstd::string::*;

verus! {

/// The command that applies `patch`, read from its standard input, to the
/// working tree.
pub open spec fn apply_patch_request(workspace: &Workspace, patch: Seq<char>) -> ProcessRequestView {
    ProcessRequestView {
        program: "git"@,
        args: seq!["apply"@, "--"@, "-"@],
        dir: workspace.workdir@,
        stdin: Some(vstd::utf8::encode_utf8(patch)),
    }
}

pub fn apply_patch(workspace: &Workspace, patch: &GitApplyPatch) -> (request: ProcessRequest)
    ensures
        request@ == apply_patch_request(workspace, patch@),
{
    let args = vec!["apply", "--", "-"];
    let request = workspace.spawn_with_stdin(
        "git",
        args.as_slice(),
        Some(patch.patch.as_str().as_bytes_vec()),
    );
    proof {
        assert(str_views(args@) =~= seq!["apply"@, "--"@, "-"@]);
    }
    request
}

/// What the command does in its workspace: the patch is applied, the
/// result committed and pushed, and whatever fails ends the command.
pub open spec fn script_of(workspace: &Workspace, patch: Seq<char>) -> Seq<StageView> {
    seq![
        fatal_stage(
            seq![apply_patch_request(workspace, patch)] + workspace.spec_commit_and_push(
                "apply diff"@,
            ),
        ),
    ]
}

pub fn run(workspace: &Workspace, patch: &GitApplyPatch) -> (script: Vec<Stage>)
    ensures
        stage_views(script@) == script_of(workspace, patch@),
{
    let mut requests: Vec<ProcessRequest> = Vec::new();
    requests.push(apply_patch(workspace, patch));
    let mut rest = workspace.commit_and_push("apply diff");
    let ghost applying = requests@;
    let ghost finishing = rest@;
    requests.append(&mut rest);
    proof {
        assert(request_views(requests@) =~= request_views(applying) + request_views(finishing));
        assert(request_views(applying) =~= seq![apply_patch_request(workspace, patch@)]);
    }
    let mut script: Vec<Stage> = Vec::new();
    script.push(Stage::of(requests, true));
    assert(stage_views(script@) =~= script_of(workspace, patch@));
    script
}

/// What is reported of a command that succeeded.
pub fn success(workspace: &Workspace) -> (message: String)
    ensures
        message@ == "Successfully ran mason apply in "@ + workspace.workdir@,
{
    let mut message = "Successfully ran mason apply in ".to_owned();
    message.append(workspace.workdir.as_str());
    message
}

} // verus!
