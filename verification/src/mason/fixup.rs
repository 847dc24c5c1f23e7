//! The command that regenerates what is derived, formats the code and pushes
//! the result.

use crate::script::{fatal_stage, optional_stage, stage_views, Stage, StageView};
use crate::spawn::{command, request_views, ProcessRequest, ProcessRequestView};
use crate::text::str_views;
use crate::workspace::{git, upstream_ref, Workspace};
use vstd::prelude::*;
use vstd::string::*;

verus! {

pub open spec fn make_generate_request(workspace: &Workspace) -> ProcessRequestView {
    command(workspace.workdir@, "make"@, seq!["generate"@])
}

pub open spec fn stylua_request(workspace: &Workspace) -> ProcessRequestView {
    command(workspace.workdir@, "stylua"@, seq!["."@])
}

/// The command that takes the generated listing and schemas from the base.
pub open spec fn restore_listing_request(workspace: &Workspace) -> ProcessRequestView {
    git(
        workspace.workdir@,
        seq![
            "checkout"@,
            upstream_ref(workspace.base.git_ref@),
            "--"@,
            "PACKAGES.md"@,
            "lua/mason-schemas"@,
        ],
    )
}

/// The command that removes the editor's settings file.
pub open spec fn remove_settings_request(workspace: &Workspace) -> ProcessRequestView {
    git(workspace.workdir@, seq!["rm"@, ".luarc.json"@])
}

/// Regenerates what is derived.
pub fn make_generate(workspace: &Workspace) -> (request: ProcessRequest)
    ensures
        request@ == make_generate_request(workspace),
{
    let args = vec!["generate"];
    let request = workspace.spawn("make", args.as_slice());
    proof {
        assert(str_views(args@) =~= seq!["generate"@]);
    }
    request
}

/// Formats the code.
pub fn stylua(workspace: &Workspace) -> (request: ProcessRequest)
    ensures
        request@ == stylua_request(workspace),
{
    let args = vec!["."];
    let request = workspace.spawn("stylua", args.as_slice());
    proof {
        assert(str_views(args@) =~= seq!["."@]);
    }
    request
}

/// Puts back what is generated elsewhere. The workspace may not hold these
/// paths: each of the two commands may fail, and the other is tried all the
/// same.
pub fn restore_generated_code(workspace: &Workspace) -> (stages: Vec<Stage>)
    ensures
        stage_views(stages@) == seq![
            optional_stage(seq![restore_listing_request(workspace)]),
            optional_stage(seq![remove_settings_request(workspace)]),
        ],
{
    let mut base_ref = "upstream/".to_owned();
    base_ref.append(workspace.base.git_ref.as_str());
    let checkout = vec!["checkout", base_ref.as_str(), "--", "PACKAGES.md", "lua/mason-schemas"];
    let mut restoring: Vec<ProcessRequest> = Vec::new();
    restoring.push(workspace.spawn("git", checkout.as_slice()));
    let rm = vec!["rm", ".luarc.json"];
    let mut removing: Vec<ProcessRequest> = Vec::new();
    removing.push(workspace.spawn("git", rm.as_slice()));
    proof {
        assert(str_views(checkout@) =~= seq![
            "checkout"@,
            upstream_ref(workspace.base.git_ref@),
            "--"@,
            "PACKAGES.md"@,
            "lua/mason-schemas"@,
        ]);
        assert(str_views(rm@) =~= seq!["rm"@, ".luarc.json"@]);
        assert(request_views(restoring@) =~= seq![restore_listing_request(workspace)]);
        assert(request_views(removing@) =~= seq![remove_settings_request(workspace)]);
    }
    let mut stages: Vec<Stage> = Vec::new();
    stages.push(Stage::of(restoring, false));
    stages.push(Stage::of(removing, false));
    assert(stage_views(stages@) =~= seq![
        optional_stage(seq![restore_listing_request(workspace)]),
        optional_stage(seq![remove_settings_request(workspace)]),
    ]);
    stages
}

/// The commit message of a fixup.
pub open spec fn commit_message() -> Seq<char> {
    "fixup"@
}

/// What the command does in its workspace. The base is merged, what is
/// derived is regenerated and the code formatted: each must succeed.
/// Putting back what is generated elsewhere may fail, and so may the
/// commit, which has nothing to commit where nothing changed. The push at
/// the end must succeed.
pub open spec fn script_of(workspace: &Workspace) -> Seq<StageView> {
    seq![
        fatal_stage(
            workspace.spec_merge_with_base() + seq![
                make_generate_request(workspace),
                stylua_request(workspace),
            ],
        ),
        optional_stage(seq![restore_listing_request(workspace)]),
        optional_stage(seq![remove_settings_request(workspace)]),
        optional_stage(workspace.spec_commit(commit_message())),
        fatal_stage(workspace.spec_push()),
    ]
}

pub fn run(workspace: &Workspace) -> (script: Vec<Stage>)
    ensures
        stage_views(script@) == script_of(workspace),
{
    let mut building = workspace.merge_with_base();
    let ghost merging = building@;
    building.push(make_generate(workspace));
    building.push(stylua(workspace));
    proof {
        assert(request_views(building@) =~= request_views(merging) + seq![
            make_generate_request(workspace),
            stylua_request(workspace),
        ]);
    }
    let mut script: Vec<Stage> = Vec::new();
    script.push(Stage::of(building, true));
    let mut restoring = restore_generated_code(workspace);
    let ghost first = script@;
    let ghost restored = restoring@;
    script.append(&mut restoring);
    assert(stage_views(script@) =~= stage_views(first) + stage_views(restored));
    script.push(Stage::of(workspace.commit("fixup"), false));
    script.push(Stage::of(workspace.push(), true));
    assert(stage_views(script@) =~= script_of(workspace));
    script
}

/// What is reported of a command that succeeded.
pub fn success(workspace: &Workspace) -> (message: String)
    ensures
        message@ == "Successfully ran mason fixup in "@ + workspace.workdir@,
{
    let mut message = "Successfully ran mason fixup in ".to_owned();
    message.append(workspace.workdir.as_str());
    message
}

} // verus!
