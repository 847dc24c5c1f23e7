//! A workspace that is brought up to its base as soon as it is made.

use crate::github::action_parser::{AuthorizedAction, BotCommand};
use crate::github::data::{git_url, GitHubRef};
use crate::spawn::{command, request_views, strings_of, ProcessRequest, ProcessRequestView};
use crate::text::str_views;
use crate::workspace::{
    authorization, authorization_setting, begins, git, upstream_ref, Creation, CreationStep, Setup,
};
use vstd::prelude::*;
use vstd::string::*;

verus! {

/// A checkout of a pull request, merged with its base.
#[derive(Debug)]
pub struct Workspace {
    pub workdir: String,
    pub base: GitHubRef,
    pub head: GitHubRef,
}

pub open spec fn clone_of(dir: Seq<char>, head: GitHubRef, pat: Seq<char>) -> Seq<
    ProcessRequestView,
> {
    seq![
        git(
            dir,
            seq![
                "clone"@,
                "-c"@,
                authorization_setting(pat),
                "--"@,
                git_url(head.repo.full_name.owner@, head.repo.full_name.name@),
                "."@,
            ],
        ),
    ]
}

pub open spec fn checkout_of(dir: Seq<char>, head: GitHubRef) -> Seq<ProcessRequestView> {
    seq![git(dir, seq!["checkout"@, head.git_ref@])]
}

pub open spec fn merge_of(dir: Seq<char>, base: GitHubRef) -> Seq<ProcessRequestView> {
    seq![
        git(
            dir,
            seq![
                "remote"@,
                "add"@,
                "upstream"@,
                git_url(base.repo.full_name.owner@, base.repo.full_name.name@),
            ],
        ),
        git(dir, seq!["fetch"@, "upstream"@, base.git_ref@]),
        git(
            dir,
            seq![
                "merge"@,
                "--no-edit"@,
                "-X"@,
                "ours"@,
                "-m"@,
                "Merge upstream"@,
                upstream_ref(base.git_ref@),
            ],
        ),
    ]
}

/// The commands that set the workspace up: the head is cloned, its branch
/// checked out and the base merged into it.
pub open spec fn setup_of(dir: Seq<char>, base: GitHubRef, head: GitHubRef, pat: Seq<char>) -> Seq<
    ProcessRequestView,
> {
    clone_of(dir, head, pat) + checkout_of(dir, head) + merge_of(dir, base)
}

/// Clones the head repository into the workspace, with the bot's token
/// sent as a header.
pub fn clone_repo(workspace: &Workspace, pat: &str) -> (requests: Vec<ProcessRequest>)
    ensures
        request_views(requests@) == clone_of(workspace.workdir@, workspace.head, pat@),
{
    let setting = authorization(pat);
    let head_url = workspace.head.repo.as_git_url();
    let mut requests: Vec<ProcessRequest> = Vec::new();
    let clone = vec!["clone", "-c", setting.as_str(), "--", head_url.as_str(), "."];
    requests.push(workspace.spawn("git", clone.as_slice()));
    proof {
        assert(str_views(clone@) =~= seq![
            "clone"@,
            "-c"@,
            authorization_setting(pat@),
            "--"@,
            git_url(workspace.head.repo.full_name.owner@, workspace.head.repo.full_name.name@),
            "."@,
        ]);
        assert(request_views(requests@) =~= clone_of(workspace.workdir@, workspace.head, pat@));
    }
    requests
}

/// Checks the head branch out.
pub fn checkout_ref(workspace: &Workspace) -> (requests: Vec<ProcessRequest>)
    ensures
        request_views(requests@) == checkout_of(workspace.workdir@, workspace.head),
{
    let mut requests: Vec<ProcessRequest> = Vec::new();
    let checkout = vec!["checkout", workspace.head.git_ref.as_str()];
    requests.push(workspace.spawn("git", checkout.as_slice()));
    proof {
        assert(str_views(checkout@) =~= seq!["checkout"@, workspace.head.git_ref@]);
        assert(request_views(requests@) =~= checkout_of(workspace.workdir@, workspace.head));
    }
    requests
}

/// Adds the base repository as the remote `upstream`, fetches the base
/// branch and merges it into the current branch. Where the two conflict,
/// the current branch wins.
pub fn merge_with_base(workspace: &Workspace) -> (requests: Vec<ProcessRequest>)
    ensures
        request_views(requests@) == merge_of(workspace.workdir@, workspace.base),
{
    let base_url = workspace.base.repo.as_git_url();
    let mut base_ref = "upstream/".to_owned();
    base_ref.append(workspace.base.git_ref.as_str());
    let mut requests: Vec<ProcessRequest> = Vec::new();
    let remote = vec!["remote", "add", "upstream", base_url.as_str()];
    requests.push(workspace.spawn("git", remote.as_slice()));
    let fetch = vec!["fetch", "upstream", workspace.base.git_ref.as_str()];
    requests.push(workspace.spawn("git", fetch.as_slice()));
    let merge = vec![
        "merge",
        "--no-edit",
        "-X",
        "ours",
        "-m",
        "Merge upstream",
        base_ref.as_str(),
    ];
    requests.push(workspace.spawn("git", merge.as_slice()));
    proof {
        assert(str_views(remote@) =~= seq![
            "remote"@,
            "add"@,
            "upstream"@,
            git_url(workspace.base.repo.full_name.owner@, workspace.base.repo.full_name.name@),
        ]);
        assert(str_views(fetch@) =~= seq!["fetch"@, "upstream"@, workspace.base.git_ref@]);
        assert(str_views(merge@) =~= seq![
            "merge"@,
            "--no-edit"@,
            "-X"@,
            "ours"@,
            "-m"@,
            "Merge upstream"@,
            upstream_ref(workspace.base.git_ref@),
        ]);
        assert(request_views(requests@) =~= merge_of(workspace.workdir@, workspace.base));
    }
    requests
}

impl Workspace {
    pub open spec fn spec_commit_and_push(&self, message: Seq<char>) -> Seq<ProcessRequestView> {
        seq![
            git(self.workdir@, seq!["add"@, "."@]),
            git(self.workdir@, seq!["commit"@, "-m"@, message]),
            git(self.workdir@, seq!["push"@]),
        ]
    }

    /// The workspace that `checkout` was made as.
    pub fn from_checkout(checkout: crate::workspace::Workspace) -> (workspace: Workspace)
        ensures
            workspace.workdir == checkout.workdir,
            workspace.base == checkout.base,
            workspace.head == checkout.head,
    {
        Workspace { workdir: checkout.workdir, base: checkout.base, head: checkout.head }
    }

    /// The commands that set the workspace up.
    pub fn setup(&self, pat: &str) -> (requests: Vec<ProcessRequest>)
        ensures
            request_views(requests@) == setup_of(self.workdir@, self.base, self.head, pat@),
    {
        let mut requests = clone_repo(self, pat);
        let mut checkout = checkout_ref(self);
        let mut merge = merge_with_base(self);
        let ghost cloning = requests@;
        let ghost checking = checkout@;
        let ghost merging = merge@;
        requests.append(&mut checkout);
        requests.append(&mut merge);
        assert(request_views(requests@) =~= request_views(cloning) + request_views(checking)
            + request_views(merging));
        requests
    }

    /// Begins the making of the workspace of an authorized action. The
    /// comment is acknowledged but not hidden, and the base is merged as
    /// part of the setup.
    pub fn create<Command: BotCommand>(action: &AuthorizedAction<Command>) -> (r: (
        Creation,
        CreationStep,
    ))
        ensures
            begins(action, Setup::Merged, r.0, r.1),
    {
        crate::workspace::Workspace::create_with(action, Setup::Merged)
    }

    /// Stages every change, commits it and pushes the branch.
    pub fn commit_and_push(&self, commit_msg: &str) -> (requests: Vec<ProcessRequest>)
        ensures
            request_views(requests@) == self.spec_commit_and_push(commit_msg@),
    {
        let mut requests: Vec<ProcessRequest> = Vec::new();
        let add = vec!["add", "."];
        requests.push(self.spawn("git", add.as_slice()));
        let commit = vec!["commit", "-m", commit_msg];
        requests.push(self.spawn("git", commit.as_slice()));
        let push = vec!["push"];
        requests.push(self.spawn("git", push.as_slice()));
        proof {
            assert(str_views(add@) =~= seq!["add"@, "."@]);
            assert(str_views(commit@) =~= seq!["commit"@, "-m"@, commit_msg@]);
            assert(str_views(push@) =~= seq!["push"@]);
            assert(request_views(requests@) =~= self.spec_commit_and_push(commit_msg@));
        }
        requests
    }

    /// `cmd` with `args`, to run in the workspace.
    pub fn spawn(&self, cmd: &str, args: &[&str]) -> (request: ProcessRequest)
        ensures
            request@ == command(self.workdir@, cmd@, str_views(args@)),
    {
        self.spawn_with_stdin(cmd, args, None)
    }

    /// `cmd` with `args`, to run in the workspace with `stdin` written to its
    /// standard input.
    pub fn spawn_with_stdin(&self, cmd: &str, args: &[&str], stdin: Option<Vec<u8>>) -> (request:
        ProcessRequest)
        ensures
            request@ == (ProcessRequestView {
                program: cmd@,
                args: str_views(args@),
                dir: self.workdir@,
                stdin: match stdin {
                    Some(bytes) => Some(bytes@),
                    None => None,
                },
            }),
    {
        ProcessRequest {
            program: cmd.to_owned(),
            args: strings_of(args),
            dir: self.workdir.clone(),
            stdin,
        }
    }
}

} // verus!
