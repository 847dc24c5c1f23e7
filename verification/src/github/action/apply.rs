//! The command that applies a patch to the pull request's branch.

use crate::github::action::common::GitApplyPatch;
use crate::script::{fatal_stage, stage_views, Stage};
use crate::spawn::{request_views, ProcessRequest, ProcessRequestView};
use crate::text::str_views;
use crate::workspace::Workspace;
use vstd::prelude::*;
use vstd::string::*;

verus! {

/// The command that applies `patch`, read from its standard input, to the
/// working tree.
pub open spec fn apply_patch_request(workspace: &Workspace, patch: Seq<char>) -> ProcessRequestView {
    ProcessRequestView {
        program: "git"@,
        args: seq!["apply"@, "--"@, "-"@],
        dir: workspace.workdir@,
        stdin: Some(vstd::utf8::encode_utf8(patch)),
    }
}

pub fn apply_patch(workspace: &Workspace, patch: &GitApplyPatch) -> (request: ProcessRequest)
    ensures
        request@ == apply_patch_request(workspace, patch@),
{
    let args = vec!["apply", "--", "-"];
    let request = workspace.spawn_with_stdin(
        "git",
        args.as_slice(),
        Some(patch.patch.as_str().as_bytes_vec()),
    );
    proof {
        assert(str_views(args@) =~= seq!["apply"@, "--"@, "-"@]);
    }
    request
}

/// The commit message of an applied patch.
pub open spec fn commit_message() -> Seq<char> {
    "apply diff"@
}

/// What the command does in its workspace: the patch is applied, the
/// result committed and pushed. Whatever fails ends the command: a patch
/// that does not apply is not committed, and nothing is pushed.
pub open spec fn script_of(workspace: &Workspace, patch: Seq<char>) -> Seq<crate::script::StageView> {
    seq![
        fatal_stage(
            seq![apply_patch_request(workspace, patch)] + workspace.spec_commit(commit_message())
                + workspace.spec_push(),
        ),
    ]
}

pub fn run(workspace: &Workspace, patch: &GitApplyPatch) -> (script: Vec<Stage>)
    ensures
        stage_views(script@) == script_of(workspace, patch@),
{
    let mut requests: Vec<ProcessRequest> = Vec::new();
    requests.push(apply_patch(workspace, patch));
    let mut commit = workspace.commit("apply diff");
    let mut push = workspace.push();
    let ghost applying = requests@;
    let ghost committing = commit@;
    let ghost pushing = push@;
    requests.append(&mut commit);
    requests.append(&mut push);
    proof {
        assert(request_views(requests@) =~= request_views(applying) + request_views(committing)
            + request_views(pushing));
        assert(request_views(applying) =~= seq![apply_patch_request(workspace, patch@)]);
    }
    let mut script: Vec<Stage> = Vec::new();
    script.push(Stage::of(requests, true));
    assert(stage_views(script@) =~= script_of(workspace, patch@));
    script
}

/// What is reported of a command that succeeded.
pub fn success(workspace: &Workspace) -> (message: String)
    ensures
        message@ == "Successfully ran mason apply in "@ + workspace.workdir@,
{
    let mut message = "Successfully ran mason apply in ".to_owned();
    message.append(workspace.workdir.as_str());
    message
}

} // verus!
