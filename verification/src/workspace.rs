//! The workspace of a command: a checkout of the pull request's head in a
//! directory of its own, with the base repository as the remote `upstream`.
//!
//! A workspace says which commands to run; it runs none itself. Each of its
//! commands runs in its directory.

use crate::github::action_parser::{
    AuthorizedAction, AuthorizedActionContext, BotCommand, PullRequestLookup, PullRequestSource,
};
use crate::github::client::{
    comment_reactions_url, create_issue_comment_reaction, minimize_comment,
    minimize_comment_mutation, GraphqlQuery, MutationInput, Payload, PostRequest,
    ReportedContentClassifier,
};
use crate::github::data::{git_url, GitHubPullRequest, GitHubReaction, GitHubRef};
use crate::spawn::{
    command, lossy_text, request_views, strings_of, utf8_lossy, ProcessRequest,
    ProcessRequestView,
};
use crate::status::Status;
use crate::text::{
    chars_of, decimal, distinct, find_char, push_decimal, split, str_views, string_of,
    string_views, without_empty,
};
use vstd::prelude::*;
use vstd::string::*;

verus! {

broadcast use vstd::string::group_string_axioms;

/// A checkout of a pull request.
#[derive(Debug)]
pub struct Workspace {
    /// The directory that holds the checkout.
    pub workdir: String,
    /// The branch into which the pull request is to be merged.
    pub base: GitHubRef,
    /// The branch of the pull request.
    pub head: GitHubRef,
}

/// `git` run with `args` in `dir`.
pub open spec fn git(dir: Seq<char>, args: Seq<Seq<char>>) -> ProcessRequestView {
    command(dir, "git"@, args)
}

/// What `base64::encode` makes of `bytes`: their encoding in the standard
/// alphabet, with padding.
pub uninterp spec fn base64_standard(bytes: Seq<u8>) -> Seq<char>;

/// `base64::encode`: the encoding of the bytes in the standard alphabet,
/// with padding.
#[verifier::external_body]
#[allow(deprecated)]
fn base64_encode(bytes: &[u8]) -> (text: String)
    ensures
        text@ == base64_standard(bytes@),
{
    base64::encode(bytes)
}

/// The credentials of the bot as git sends them: a fixed name and the token.
pub open spec fn credentials(pat: Seq<char>) -> Seq<char> {
    "x-access-token:"@ + pat
}

/// The setting that makes git send `encoded`, the encoded credentials, with
/// each request to GitHub, as a header.
pub open spec fn extra_header(encoded: Seq<char>) -> Seq<char> {
    "http.https://github.com/.extraheader=AUTHORIZATION: basic "@ + encoded
}

/// The setting that makes git send the bot's token with each request to
/// GitHub, as a header, so that the token stands in no URL.
pub open spec fn authorization_setting(pat: Seq<char>) -> Seq<char> {
    extra_header(base64_standard(vstd::utf8::encode_utf8(credentials(pat))))
}

pub fn credentials_of(pat: &str) -> (text: String)
    ensures
        text@ == credentials(pat@),
{
    let mut text = "x-access-token:".to_owned();
    text.append(pat);
    text
}

pub fn extra_header_of(encoded: &str) -> (setting: String)
    ensures
        setting@ == extra_header(encoded@),
{
    let mut setting = "http.https://github.com/.extraheader=AUTHORIZATION: basic ".to_owned();
    setting.append(encoded);
    setting
}

pub fn authorization(pat: &str) -> (setting: String)
    ensures
        setting@ == authorization_setting(pat@),
{
    let credentials = credentials_of(pat);
    let encoded = base64_encode(credentials.as_str().as_bytes());
    extra_header_of(encoded.as_str())
}

/// The name under which a branch of the base repository is known.
pub open spec fn upstream_ref(base_ref: Seq<char>) -> Seq<char> {
    "upstream/"@ + base_ref
}

/// The message of the commit that merges the base.
pub open spec fn merge_message(base_ref: Seq<char>) -> Seq<char> {
    "merge "@ + upstream_ref(base_ref)
}

/// The paths that a listing names, one to a line: each line that is not
/// empty, once, in the order in which they first occur.
pub open spec fn listed_paths(listing: Seq<char>) -> Seq<Seq<char>> {
    distinct(without_empty(split(listing, '\n')))
}

/// The paths that the output of the listing command names.
pub open spec fn changed_paths(listing: Seq<u8>) -> Seq<Seq<char>> {
    listed_paths(utf8_lossy(listing))
}

/// Reads the output of the command that lists the changed files: the set
/// of the paths that it names, each relative to the workspace.
pub fn changed_files(listing: &Vec<u8>) -> (paths: Vec<String>)
    ensures
        string_views(paths@) == changed_paths(listing@),
        string_views(paths@).no_duplicates(),
        vstd::utf8::valid_utf8(listing@) ==> string_views(paths@) == listed_paths(
            vstd::utf8::decode_utf8(listing@),
        ),
{
    let text = lossy_text(listing.as_slice());
    paths_listed(text.as_str())
}

/// Reads a listing of paths, one to a line: the set of the paths that it
/// names. No path occurs twice in it.
pub fn paths_listed(text: &str) -> (paths: Vec<String>)
    ensures
        string_views(paths@) == listed_paths(text@),
        string_views(paths@).no_duplicates(),
{
    let chars = chars_of(text);
    let mut paths: Vec<String> = Vec::new();
    let mut pos: usize = 0;
    let ghost mut done: Seq<Seq<char>> = Seq::empty();
    assert(chars@.skip(0) == chars@);
    assert(done + split(chars@.skip(0), '\n') == split(chars@, '\n'));
    loop
        invariant_except_break
            pos <= chars.len(),
            split(chars@, '\n') == done + split(chars@.skip(pos as int), '\n'),
            string_views(paths@) == distinct(without_empty(done)),
        ensures
            string_views(paths@) == distinct(without_empty(split(chars@, '\n'))),
        decreases chars.len() - pos,
    {
        let end = find_char(&chars, pos, '\n');
        let ghost rest = chars@.skip(pos as int);
        let ghost line = chars@.subrange(pos as int, end as int);
        proof {
            crate::text::lemma_index_of(rest, '\n');
            assert(rest.take(end - pos) == line);
            assert(done.push(line).drop_last() == done);
        }
        proof {
            assert(done.push(line).last() == line);
            if line.len() > 0 {
                let kept = without_empty(done.push(line));
                assert(kept.drop_last() == without_empty(done));
                assert(kept.last() == line);
            }
        }
        if end > pos {
            let line_text = string_of(&chars, pos, end);
            if !crate::text::contains_text(&paths, line_text.as_str()) {
                let ghost before = paths@;
                paths.push(line_text);
                assert(string_views(paths@) == string_views(before).push(line));
            }
        }
        assert(string_views(paths@) == distinct(without_empty(done.push(line))));
        if end >= chars.len() {
            proof {
                assert(split(rest, '\n') == seq![line]);
                assert(done + seq![line] == done.push(line));
            }
            break;
        }
        proof {
            assert(rest.skip(end - pos + 1) == chars@.skip(end + 1));
            assert(split(rest, '\n') == seq![line] + split(chars@.skip(end + 1), '\n'));
            assert(done + (seq![line] + split(chars@.skip(end + 1), '\n')) == done.push(line)
                + split(chars@.skip(end + 1), '\n'));
            done = done.push(line);
        }
        pos = end + 1;
    }
    proof {
        crate::text::lemma_distinct(without_empty(split(chars@, '\n')));
    }
    paths
}

impl Workspace {
    pub open spec fn spec_commit(&self, message: Seq<char>) -> Seq<ProcessRequestView> {
        seq![
            git(self.workdir@, seq!["add"@, "."@]),
            git(self.workdir@, seq!["commit"@, "-m"@, message]),
        ]
    }

    pub open spec fn spec_push(&self) -> Seq<ProcessRequestView> {
        seq![git(self.workdir@, seq!["push"@])]
    }

    pub open spec fn spec_get_changed_files(&self) -> ProcessRequestView {
        git(self.workdir@, seq!["diff"@, "--name-only"@, self.base.git_ref@])
    }

    pub open spec fn spec_merge_with_base(&self) -> Seq<ProcessRequestView> {
        seq![
            git(self.workdir@, seq!["fetch"@, "upstream"@, self.base.git_ref@]),
            git(
                self.workdir@,
                seq![
                    "merge"@,
                    "--no-edit"@,
                    "-X"@,
                    "ours"@,
                    "-m"@,
                    merge_message(self.base.git_ref@),
                    upstream_ref(self.base.git_ref@),
                ],
            ),
        ]
    }

    pub open spec fn spec_clone_repo(&self, pat: Seq<char>) -> Seq<ProcessRequestView> {
        seq![
            git(
                self.workdir@,
                seq![
                    "clone"@,
                    "-c"@,
                    authorization_setting(pat),
                    "-c"@,
                    "checkout.defaultRemote=origin"@,
                    "--"@,
                    git_url(self.head.repo.full_name.owner@, self.head.repo.full_name.name@),
                    "."@,
                ],
            ),
            git(
                self.workdir@,
                seq![
                    "remote"@,
                    "add"@,
                    "upstream"@,
                    git_url(self.base.repo.full_name.owner@, self.base.repo.full_name.name@),
                ],
            ),
            git(self.workdir@, seq!["fetch"@, "upstream"@]),
        ]
    }

    pub open spec fn spec_checkout_ref(&self) -> Seq<ProcessRequestView> {
        seq![git(self.workdir@, seq!["checkout"@, self.head.git_ref@])]
    }

    /// The commands that set a new workspace up.
    pub open spec fn spec_setup(&self, pat: Seq<char>) -> Seq<ProcessRequestView> {
        self.spec_clone_repo(pat) + self.spec_checkout_ref()
    }

    /// `cmd` with `args`, to run in the workspace.
    pub fn spawn(&self, cmd: &str, args: &[&str]) -> (request: ProcessRequest)
        ensures
            request@ == command(self.workdir@, cmd@, str_views(args@)),
    {
        self.spawn_with_stdin(cmd, args, None)
    }

    /// `cmd` with `args`, to run in the workspace with `stdin` written to its
    /// standard input.
    pub fn spawn_with_stdin(&self, cmd: &str, args: &[&str], stdin: Option<Vec<u8>>) -> (request:
        ProcessRequest)
        ensures
            request@ == (ProcessRequestView {
                program: cmd@,
                args: str_views(args@),
                dir: self.workdir@,
                stdin: match stdin {
                    Some(bytes) => Some(bytes@),
                    None => None,
                },
            }),
    {
        ProcessRequest {
            program: cmd.to_owned(),
            args: strings_of(args),
            dir: self.workdir.clone(),
            stdin,
        }
    }

    /// Stages every change and commits it.
    pub fn commit(&self, commit_msg: &str) -> (requests: Vec<ProcessRequest>)
        ensures
            request_views(requests@) == self.spec_commit(commit_msg@),
    {
        let mut requests: Vec<ProcessRequest> = Vec::new();
        let add = vec!["add", "."];
        requests.push(self.spawn("git", add.as_slice()));
        let commit = vec!["commit", "-m", commit_msg];
        requests.push(self.spawn("git", commit.as_slice()));
        proof {
            assert(str_views(add@) =~= seq!["add"@, "."@]);
            assert(str_views(commit@) =~= seq!["commit"@, "-m"@, commit_msg@]);
            assert(request_views(requests@) =~= self.spec_commit(commit_msg@));
        }
        requests
    }

    /// Pushes the branch to where it was cloned from.
    pub fn push(&self) -> (requests: Vec<ProcessRequest>)
        ensures
            request_views(requests@) == self.spec_push(),
    {
        let mut requests: Vec<ProcessRequest> = Vec::new();
        let push = vec!["push"];
        requests.push(self.spawn("git", push.as_slice()));
        proof {
            assert(str_views(push@) =~= seq!["push"@]);
            assert(request_views(requests@) =~= self.spec_push());
        }
        requests
    }

    /// The command that lists the files in which the working tree differs
    /// from the base branch, one path to a line.
    pub fn get_changed_files(&self) -> (request: ProcessRequest)
        ensures
            request@ == self.spec_get_changed_files(),
    {
        let diff = vec!["diff", "--name-only", self.base.git_ref.as_str()];
        let request = self.spawn("git", diff.as_slice());
        proof {
            assert(str_views(diff@) =~= seq!["diff"@, "--name-only"@, self.base.git_ref@]);
        }
        request
    }

    /// Fetches the base branch and merges it into the current branch. Where
    /// the two conflict, the current branch wins.
    pub fn merge_with_base(&self) -> (requests: Vec<ProcessRequest>)
        ensures
            request_views(requests@) == self.spec_merge_with_base(),
    {
        let mut base_ref = "upstream/".to_owned();
        base_ref.append(self.base.git_ref.as_str());
        let mut message = "merge ".to_owned();
        message.append(base_ref.as_str());
        let mut requests: Vec<ProcessRequest> = Vec::new();
        let fetch = vec!["fetch", "upstream", self.base.git_ref.as_str()];
        requests.push(self.spawn("git", fetch.as_slice()));
        let merge = vec![
            "merge",
            "--no-edit",
            "-X",
            "ours",
            "-m",
            message.as_str(),
            base_ref.as_str(),
        ];
        requests.push(self.spawn("git", merge.as_slice()));
        proof {
            assert(str_views(fetch@) =~= seq!["fetch"@, "upstream"@, self.base.git_ref@]);
            assert(str_views(merge@) =~= seq![
                "merge"@,
                "--no-edit"@,
                "-X"@,
                "ours"@,
                "-m"@,
                merge_message(self.base.git_ref@),
                upstream_ref(self.base.git_ref@),
            ]);
            assert(request_views(requests@) =~= self.spec_merge_with_base());
        }
        requests
    }

    /// Clones the head repository into the workspace, with the bot's token
    /// sent as a header; adds the base repository as the remote `upstream`
    /// and fetches it.
    pub fn clone_repo(&self, pat: &str) -> (requests: Vec<ProcessRequest>)
        ensures
            request_views(requests@) == self.spec_clone_repo(pat@),
    {
        let setting = authorization(pat);
        let head_url = self.head.repo.as_git_url();
        let base_url = self.base.repo.as_git_url();
        let mut requests: Vec<ProcessRequest> = Vec::new();
        let clone = vec![
            "clone",
            "-c",
            setting.as_str(),
            "-c",
            "checkout.defaultRemote=origin",
            "--",
            head_url.as_str(),
            ".",
        ];
        requests.push(self.spawn("git", clone.as_slice()));
        let remote = vec!["remote", "add", "upstream", base_url.as_str()];
        requests.push(self.spawn("git", remote.as_slice()));
        let fetch = vec!["fetch", "upstream"];
        requests.push(self.spawn("git", fetch.as_slice()));
        proof {
            assert(str_views(clone@) =~= seq![
                "clone"@,
                "-c"@,
                authorization_setting(pat@),
                "-c"@,
                "checkout.defaultRemote=origin"@,
                "--"@,
                git_url(self.head.repo.full_name.owner@, self.head.repo.full_name.name@),
                "."@,
            ]);
            assert(str_views(remote@) =~= seq![
                "remote"@,
                "add"@,
                "upstream"@,
                git_url(self.base.repo.full_name.owner@, self.base.repo.full_name.name@),
            ]);
            assert(str_views(fetch@) =~= seq!["fetch"@, "upstream"@]);
            assert(request_views(requests@) =~= self.spec_clone_repo(pat@));
        }
        requests
    }

    /// Checks the head branch out.
    pub fn checkout_ref(&self) -> (requests: Vec<ProcessRequest>)
        ensures
            request_views(requests@) == self.spec_checkout_ref(),
    {
        let mut requests: Vec<ProcessRequest> = Vec::new();
        let checkout = vec!["checkout", self.head.git_ref.as_str()];
        requests.push(self.spawn("git", checkout.as_slice()));
        proof {
            assert(str_views(checkout@) =~= seq!["checkout"@, self.head.git_ref@]);
            assert(request_views(requests@) =~= self.spec_checkout_ref());
        }
        requests
    }
}

/// Why no workspace could be made.
#[derive(Debug)]
pub enum WorkspaceError {
    /// The pull request could not be had.
    PullRequest(String),
    /// The comment with this number belongs to no pull request.
    NoPullRequest { comment: u64 },
    /// The comment could not be acknowledged with a reaction.
    Reaction(String),
    /// The comment could not be hidden.
    Minimize(String),
    /// No directory could be had.
    Workdir(String),
    /// A command that sets the checkout up failed.
    Setup(String),
}

impl WorkspaceError {
    pub open spec fn text(&self) -> Seq<char> {
        match self {
            WorkspaceError::PullRequest(detail) => detail@,
            WorkspaceError::NoPullRequest { comment } => "Umm\u{2026} there's no pull request associated with comment "@
                + decimal(*comment as nat),
            WorkspaceError::Reaction(detail) => detail@,
            WorkspaceError::Minimize(detail) => detail@,
            WorkspaceError::Workdir(detail) => detail@,
            WorkspaceError::Setup(detail) => detail@,
        }
    }

    pub fn message(&self) -> (m: String)
        ensures
            m@ == self.text(),
    {
        match self {
            WorkspaceError::PullRequest(detail) => detail.clone(),
            WorkspaceError::NoPullRequest { comment } => {
                let mut m = "Umm\u{2026} there's no pull request associated with comment ".to_owned();
                push_decimal(&mut m, *comment);
                m
            },
            WorkspaceError::Reaction(detail) => detail.clone(),
            WorkspaceError::Minimize(detail) => detail.clone(),
            WorkspaceError::Workdir(detail) => detail.clone(),
            WorkspaceError::Setup(detail) => detail.clone(),
        }
    }
}

/// How a workspace is set up.
#[derive(Clone, Copy, Debug, PartialEq, Eq, Structural)]
pub enum Setup {
    /// The comment is hidden; the head is cloned, the base added as
    /// `upstream` and fetched, and the head branch checked out.
    Checkout,
    /// The comment stays as it is; the head is cloned, its branch checked
    /// out, and the base merged into it.
    Merged,
}

impl Setup {
    /// Whether the comment is hidden once it is acknowledged.
    pub open spec fn hides_comment(self) -> bool {
        self == Setup::Checkout
    }

    /// The commands of the setup in `workspace`.
    pub open spec fn commands(self, workspace: &Workspace, pat: Seq<char>) -> Seq<
        ProcessRequestView,
    > {
        match self {
            Setup::Checkout => workspace.spec_setup(pat),
            Setup::Merged => crate::mason::workspace::setup_of(
                workspace.workdir@,
                workspace.base,
                workspace.head,
                pat,
            ),
        }
    }

    /// The number of commands of the setup.
    pub open spec fn spec_len(self) -> usize {
        match self {
            Setup::Checkout => 4,
            Setup::Merged => 5,
        }
    }

    #[verifier::when_used_as_spec(spec_len)]
    pub fn len(self) -> (n: usize)
        ensures
            n == self.spec_len(),
    {
        match self {
            Setup::Checkout => 4,
            Setup::Merged => 5,
        }
    }
}

/// Where the making of a workspace stands: the answer that is awaited.
#[derive(Clone, Copy, Debug, PartialEq, Eq, Structural)]
pub enum CreationStage {
    /// The pull request is being fetched.
    Resolving,
    /// The comment is being acknowledged with a reaction.
    Reacting,
    /// The comment is being hidden.
    Minimizing,
    /// A directory is being made.
    Allocating,
    /// The command of this number of the setup is running.
    Preparing(usize),
    /// The making is over.
    Finished,
}

/// What the caller reports back.
#[derive(Debug)]
pub enum CreationEvent {
    /// The pull request was looked for, and this came of it.
    PullRequest(Option<GitHubPullRequest>),
    /// A directory was made, at this path.
    Workdir(String),
    /// The step asked for was done.
    Done,
    /// The step asked for failed; the text says how.
    Failed(String),
}

/// What the caller is to do next.
#[derive(Debug)]
pub enum CreationStep {
    /// Fetch the pull request from this URL.
    Fetch(String),
    /// Send the reaction that acknowledges the comment.
    React(PostRequest),
    /// Send the query that hides the comment.
    Minimize(GraphqlQuery),
    /// Make a directory that nothing else uses.
    MakeWorkdir,
    /// Run this command.
    Run(ProcessRequest),
    /// The workspace is ready.
    Ready(Workspace),
    /// No workspace could be made.
    Failed(Status, WorkspaceError),
}

/// The making of a workspace.
#[derive(Debug)]
pub struct Creation {
    pub setup: Setup,
    pub stage: CreationStage,
    /// The base and the head of the pull request, once it is known.
    pub refs: Option<(GitHubRef, GitHubRef)>,
    /// The workspace, once its directory is made.
    pub workspace: Option<Workspace>,
}

/// Whether `request` is the reaction that acknowledges the comment that
/// triggered `action`.
pub open spec fn acknowledges<Command: BotCommand>(
    action: &AuthorizedAction<Command>,
    request: PostRequest,
) -> bool {
    &&& request.url@ == comment_reactions_url(
        action.spec_context().repo(),
        action.spec_context().trigger().id,
    )
    &&& request.payload == (Payload::Reaction { content: GitHubReaction::PlusOne })
}

/// Whether `query` hides the comment that triggered `action`.
pub open spec fn hides<Command: BotCommand>(action: &AuthorizedAction<Command>, query: GraphqlQuery)
    -> bool {
    &&& query.query@ == minimize_comment_mutation()
    &&& query.variables matches Some(
        MutationInput::Minimize { classifier, clientMutationId, subjectId },
    ) && classifier == ReportedContentClassifier::RESOLVED && clientMutationId is None
        && subjectId@ == action.spec_context().trigger().node_id@
}

/// The stage that follows `stage` when the step asked for succeeded.
pub open spec fn creation_stage_after(stage: CreationStage, setup: Setup) -> CreationStage {
    match stage {
        CreationStage::Resolving => CreationStage::Reacting,
        CreationStage::Reacting => if setup.hides_comment() {
            CreationStage::Minimizing
        } else {
            CreationStage::Allocating
        },
        CreationStage::Minimizing => CreationStage::Allocating,
        CreationStage::Allocating => CreationStage::Preparing(0),
        CreationStage::Preparing(n) => if n + 1 < setup.spec_len() {
            CreationStage::Preparing((n + 1) as usize)
        } else {
            CreationStage::Finished
        },
        CreationStage::Finished => CreationStage::Finished,
    }
}

/// How far a stage lies from the start of the making.
pub open spec fn creation_rank(stage: CreationStage) -> int {
    match stage {
        CreationStage::Resolving => 0,
        CreationStage::Reacting => 1,
        CreationStage::Minimizing => 2,
        CreationStage::Allocating => 3,
        CreationStage::Preparing(n) => 4 + n,
        CreationStage::Finished => usize::MAX + 5,
    }
}

/// Whether the answer `event` reports that the step asked for succeeded.
pub open spec fn reports_success(event: CreationEvent) -> bool {
    match event {
        CreationEvent::PullRequest(found) => found is Some,
        CreationEvent::Workdir(_) => true,
        CreationEvent::Done => true,
        CreationEvent::Failed(_) => false,
    }
}

/// The making goes forward only: each step that succeeds leads to a later
/// stage. No command runs before the directory is made, no directory is
/// made before the comment is acknowledged, and the comment is not
/// acknowledged before the pull request is known.
pub proof fn creation_order(stage: CreationStage, setup: Setup)
    requires
        stage != CreationStage::Finished,
    ensures
        creation_rank(creation_stage_after(stage, setup)) > creation_rank(stage),
        creation_stage_after(stage, setup) is Preparing ==> stage is Allocating
            || stage is Preparing,
        creation_stage_after(stage, setup) is Allocating ==> stage is Minimizing
            || stage is Reacting,
        creation_stage_after(stage, setup) is Reacting ==> stage is Resolving,
{
}

/// Whether `creation` and `step` are how the making of the workspace of
/// `action` begins. Where the event carries its pull request, the comment
/// is acknowledged at once; where the pull request has to be fetched, that
/// comes first; where the event has none, there is nothing to do, and the
/// making is over before anything is touched.
pub open spec fn begins<Command: BotCommand>(
    action: &AuthorizedAction<Command>,
    setup: Setup,
    creation: Creation,
    step: CreationStep,
) -> bool {
    &&& creation.spec_is_well_formed()
    &&& creation.setup == setup
    &&& creation.workspace is None
    &&& match action.spec_context().pull_request() {
        PullRequestSource::Known(pr) => {
            &&& creation.stage == CreationStage::Reacting
            &&& creation.refs == Some((pr.base, pr.head))
            &&& step matches CreationStep::React(request) && acknowledges(action, request)
        },
        PullRequestSource::Fetch(url) => {
            &&& creation.stage == CreationStage::Resolving
            &&& step matches CreationStep::Fetch(from) && from@ == url
        },
        PullRequestSource::Absent => {
            &&& creation.stage == CreationStage::Finished
            &&& step == CreationStep::Failed(
                Status::NoContent,
                WorkspaceError::NoPullRequest { comment: action.spec_context().trigger().id },
            )
        },
    }
}

impl Creation {
    /// Whether the making holds what its stage needs.
    pub open spec fn spec_is_well_formed(&self) -> bool {
        match self.stage {
            CreationStage::Resolving => true,
            CreationStage::Reacting | CreationStage::Minimizing | CreationStage::Allocating => self.refs is Some,
            CreationStage::Preparing(n) => self.workspace is Some && n < self.setup.spec_len(),
            CreationStage::Finished => true,
        }
    }

    #[verifier::when_used_as_spec(spec_is_well_formed)]
    pub fn is_well_formed(&self) -> (b: bool)
        ensures
            b == self.spec_is_well_formed(),
    {
        match self.stage {
            CreationStage::Resolving => true,
            CreationStage::Reacting | CreationStage::Minimizing | CreationStage::Allocating => self.refs.is_some(),
            CreationStage::Preparing(n) => self.workspace.is_some() && n < self.setup.len(),
            CreationStage::Finished => true,
        }
    }

    /// Whether `event` can be the answer awaited at this stage.
    pub open spec fn spec_expects(&self, event: &CreationEvent) -> bool {
        match self.stage {
            CreationStage::Resolving => event is PullRequest || event is Failed,
            CreationStage::Reacting | CreationStage::Minimizing | CreationStage::Preparing(_) => event is Done
                || event is Failed,
            CreationStage::Allocating => event is Workdir || event is Failed,
            CreationStage::Finished => false,
        }
    }

    #[verifier::when_used_as_spec(spec_expects)]
    pub fn expects(&self, event: &CreationEvent) -> (b: bool)
        ensures
            b == self.spec_expects(event),
    {
        match self.stage {
            CreationStage::Resolving => match event {
                CreationEvent::PullRequest(_) => true,
                CreationEvent::Failed(_) => true,
                _ => false,
            },
            CreationStage::Reacting | CreationStage::Minimizing | CreationStage::Preparing(_) => match event {
                CreationEvent::Done => true,
                CreationEvent::Failed(_) => true,
                _ => false,
            },
            CreationStage::Allocating => match event {
                CreationEvent::Workdir(_) => true,
                CreationEvent::Failed(_) => true,
                _ => false,
            },
            CreationStage::Finished => false,
        }
    }

    fn fail(&mut self, status: Status, error: WorkspaceError) -> (step: CreationStep)
        ensures
            final(self).stage == CreationStage::Finished,
            final(self).setup == old(self).setup,
            final(self).refs == old(self).refs,
            final(self).workspace == old(self).workspace,
            final(self).spec_is_well_formed(),
            step == CreationStep::Failed(status, error),
    {
        self.stage = CreationStage::Finished;
        CreationStep::Failed(status, error)
    }

    fn acknowledge<Command: BotCommand>(
        &mut self,
        action: &AuthorizedAction<Command>,
        base: GitHubRef,
        head: GitHubRef,
    ) -> (step: CreationStep)
        ensures
            final(self).stage == CreationStage::Reacting,
            final(self).setup == old(self).setup,
            final(self).refs == Some((base, head)),
            final(self).workspace == old(self).workspace,
            final(self).spec_is_well_formed(),
            step matches CreationStep::React(request) && acknowledges(action, request),
    {
        self.stage = CreationStage::Reacting;
        self.refs = Some((base, head));
        let context = action.context();
        CreationStep::React(
            create_issue_comment_reaction(
                context.get_repo(),
                context.get_trigger(),
                &GitHubReaction::PlusOne,
            ),
        )
    }

    /// Takes the answer to the step last asked for and says what to do next.
    ///
    /// The pull request comes first: without one there is nothing to do, and
    /// the making ends with `NoContent` before anything is touched. Then the
    /// comment is acknowledged with a reaction and, where the setup asks for
    /// it, hidden; if either fails, the service is unavailable. Then a
    /// directory is made and the setup commands run in it, one after the
    /// other; a failure there is an internal error. Every failure ends the
    /// making at once.
    pub fn advance<Command: BotCommand>(
        &mut self,
        action: &AuthorizedAction<Command>,
        pat: &str,
        event: CreationEvent,
    ) -> (step: CreationStep)
        requires
            old(self).spec_is_well_formed(),
            old(self).spec_expects(&event),
        ensures
            final(self).spec_is_well_formed(),
            final(self).setup == old(self).setup,
            final(self).stage == if reports_success(event) {
                creation_stage_after(old(self).stage, old(self).setup)
            } else {
                CreationStage::Finished
            },
            match (old(self).stage, event) {
                (CreationStage::Resolving, CreationEvent::PullRequest(Some(pr))) => {
                    &&& final(self).stage == CreationStage::Reacting
                    &&& final(self).refs == Some((pr.base, pr.head))
                    &&& step matches CreationStep::React(request) && acknowledges(action, request)
                },
                (CreationStage::Resolving, CreationEvent::PullRequest(None)) => {
                    &&& final(self).stage == CreationStage::Finished
                    &&& step == CreationStep::Failed(
                        Status::NoContent,
                        WorkspaceError::NoPullRequest {
                            comment: action.spec_context().trigger().id,
                        },
                    )
                },
                (CreationStage::Resolving, CreationEvent::Failed(detail)) => {
                    &&& final(self).stage == CreationStage::Finished
                    &&& step == CreationStep::Failed(
                        Status::InternalServerError,
                        WorkspaceError::PullRequest(detail),
                    )
                },
                (CreationStage::Reacting, CreationEvent::Done) => if old(self).setup.hides_comment() {
                    &&& final(self).stage == CreationStage::Minimizing
                    &&& final(self).refs == old(self).refs
                    &&& step matches CreationStep::Minimize(query) && hides(action, query)
                } else {
                    &&& final(self).stage == CreationStage::Allocating
                    &&& final(self).refs == old(self).refs
                    &&& step is MakeWorkdir
                },
                (CreationStage::Reacting, CreationEvent::Failed(detail)) => {
                    &&& final(self).stage == CreationStage::Finished
                    &&& step == CreationStep::Failed(
                        Status::ServiceUnavailable,
                        WorkspaceError::Reaction(detail),
                    )
                },
                (CreationStage::Minimizing, CreationEvent::Done) => {
                    &&& final(self).stage == CreationStage::Allocating
                    &&& final(self).refs == old(self).refs
                    &&& step is MakeWorkdir
                },
                (CreationStage::Minimizing, CreationEvent::Failed(detail)) => {
                    &&& final(self).stage == CreationStage::Finished
                    &&& step == CreationStep::Failed(
                        Status::ServiceUnavailable,
                        WorkspaceError::Minimize(detail),
                    )
                },
                (CreationStage::Allocating, CreationEvent::Workdir(path)) => {
                    &&& final(self).stage == CreationStage::Preparing(0)
                    &&& final(self).workspace matches Some(workspace) && workspace.workdir == path
                        && Some((workspace.base, workspace.head)) == old(self).refs
                    &&& step matches CreationStep::Run(request) && request@
                        == old(self).setup.commands(&final(self).workspace->0, pat@)[0]
                },
                (CreationStage::Allocating, CreationEvent::Failed(detail)) => {
                    &&& final(self).stage == CreationStage::Finished
                    &&& step == CreationStep::Failed(
                        Status::InternalServerError,
                        WorkspaceError::Workdir(detail),
                    )
                },
                (CreationStage::Preparing(n), CreationEvent::Done) => if n + 1
                    < old(self).setup.spec_len() {
                    &&& final(self).stage == CreationStage::Preparing((n + 1) as usize)
                    &&& final(self).workspace == old(self).workspace
                    &&& step matches CreationStep::Run(request) && request@
                        == old(self).setup.commands(&old(self).workspace->0, pat@)[n + 1]
                } else {
                    &&& final(self).stage == CreationStage::Finished
                    &&& step == CreationStep::Ready(old(self).workspace->0)
                },
                (CreationStage::Preparing(_), CreationEvent::Failed(detail)) => {
                    &&& final(self).stage == CreationStage::Finished
                    &&& step == CreationStep::Failed(
                        Status::InternalServerError,
                        WorkspaceError::Setup(detail),
                    )
                },
                _ => false,
            },
    {
        match event {
            CreationEvent::PullRequest(Some(pr)) => self.acknowledge(action, pr.base, pr.head),
            CreationEvent::PullRequest(None) => {
                let comment = action.context().get_trigger().id;
                self.fail(Status::NoContent, WorkspaceError::NoPullRequest { comment })
            },
            CreationEvent::Workdir(path) => {
                let (base, head) = self.refs.take().unwrap();
                let workspace = Workspace { workdir: path, base, head };
                let request = workspace.setup_request(self.setup, pat, 0);
                self.refs = None;
                self.workspace = Some(workspace);
                self.stage = CreationStage::Preparing(0);
                CreationStep::Run(request)
            },
            CreationEvent::Done => match self.stage {
                CreationStage::Reacting => {
                    match self.setup {
                        Setup::Checkout => {
                            self.stage = CreationStage::Minimizing;
                            CreationStep::Minimize(
                                minimize_comment(action.context().get_trigger()),
                            )
                        },
                        Setup::Merged => {
                            self.stage = CreationStage::Allocating;
                            CreationStep::MakeWorkdir
                        },
                    }
                },
                CreationStage::Minimizing => {
                    self.stage = CreationStage::Allocating;
                    CreationStep::MakeWorkdir
                },
                CreationStage::Preparing(n) => {
                    if n + 1 < self.setup.len() {
                        let request = match &self.workspace {
                            Some(workspace) => workspace.setup_request(self.setup, pat, n + 1),
                            None => {
                                assert(false);
                                return CreationStep::MakeWorkdir;
                            },
                        };
                        self.stage = CreationStage::Preparing(n + 1);
                        CreationStep::Run(request)
                    } else {
                        self.stage = CreationStage::Finished;
                        let workspace = self.workspace.take().unwrap();
                        CreationStep::Ready(workspace)
                    }
                },
                _ => {
                    assert(false);
                    CreationStep::MakeWorkdir
                },
            },
            CreationEvent::Failed(detail) => match self.stage {
                CreationStage::Resolving => self.fail(
                    Status::InternalServerError,
                    WorkspaceError::PullRequest(detail),
                ),
                CreationStage::Reacting => self.fail(
                    Status::ServiceUnavailable,
                    WorkspaceError::Reaction(detail),
                ),
                CreationStage::Minimizing => self.fail(
                    Status::ServiceUnavailable,
                    WorkspaceError::Minimize(detail),
                ),
                CreationStage::Allocating => self.fail(
                    Status::InternalServerError,
                    WorkspaceError::Workdir(detail),
                ),
                _ => self.fail(Status::InternalServerError, WorkspaceError::Setup(detail)),
            },
        }
    }
}

impl Workspace {
    /// The command of number `n` of the setup.
    pub fn setup_request(&self, setup: Setup, pat: &str, n: usize) -> (request: ProcessRequest)
        requires
            n < setup.spec_len(),
        ensures
            request@ == setup.commands(self, pat@)[n as int],
    {
        let mut requests = match setup {
            Setup::Checkout => {
                let mut requests = self.clone_repo(pat);
                let mut checkout = self.checkout_ref();
                let ghost cloning = requests@;
                let ghost checking = checkout@;
                requests.append(&mut checkout);
                assert(request_views(requests@) =~= request_views(cloning) + request_views(
                    checking,
                ));
                requests
            },
            Setup::Merged => {
                let merged = crate::mason::workspace::Workspace {
                    workdir: self.workdir.clone(),
                    base: self.base.clone(),
                    head: self.head.clone(),
                };
                merged.setup(pat)
            },
        };
        let ghost all = requests@;
        proof {
            assert(request_views(all) == setup.commands(self, pat@));
            assert(self.spec_clone_repo(pat@).len() == 3);
            assert(self.spec_checkout_ref().len() == 1);
            assert(crate::mason::workspace::clone_of(self.workdir@, self.head, pat@).len() == 1);
            assert(crate::mason::workspace::checkout_of(self.workdir@, self.head).len() == 1);
            assert(crate::mason::workspace::merge_of(self.workdir@, self.base).len() == 3);
            assert(request_views(all).len() == setup.spec_len());
            assert(all.len() == request_views(all).len());
        }
        let request = requests.remove(n);
        assert(request@ == request_views(all)[n as int]);
        request
    }

    /// Begins the making of a workspace with the given setup.
    pub fn create_with<Command: BotCommand>(action: &AuthorizedAction<Command>, setup: Setup) -> (r: (
        Creation,
        CreationStep,
    ))
        ensures
            begins(action, setup, r.0, r.1),
    {
        let mut creation = Creation {
            setup,
            stage: CreationStage::Resolving,
            refs: None,
            workspace: None,
        };
        let context = action.context();
        let step = match context.get_pull_request() {
            PullRequestLookup::Known(pr) => creation.acknowledge(
                action,
                pr.base.clone(),
                pr.head.clone(),
            ),
            PullRequestLookup::Fetch(url) => CreationStep::Fetch(url.to_owned()),
            PullRequestLookup::Absent => {
                let comment = context.get_trigger().id;
                creation.fail(Status::NoContent, WorkspaceError::NoPullRequest { comment })
            },
        };
        (creation, step)
    }

    /// Begins the making of the workspace of an authorized action.
    ///
    /// Where the event carries its pull request, the comment is acknowledged
    /// at once; where the pull request has to be fetched, that comes first;
    /// where the event has none, there is nothing to do.
    pub fn create<Command: BotCommand>(action: &AuthorizedAction<Command>) -> (r: (
        Creation,
        CreationStep,
    ))
        ensures
            begins(action, Setup::Checkout, r.0, r.1),
    {
        Workspace::create_with(action, Setup::Checkout)
    }
}

/// Every command of a workspace runs in its directory, and none is given
/// anything on its standard input.
pub proof fn commands_stay_in_the_workspace(workspace: &Workspace, pat: Seq<char>, message: Seq<char>)
    ensures
        forall|i: int|
            0 <= i < workspace.spec_setup(pat).len() ==> (#[trigger] workspace.spec_setup(
                pat,
            )[i]).dir == workspace.workdir@ && workspace.spec_setup(pat)[i].stdin is None,
        forall|i: int|
            0 <= i < workspace.spec_merge_with_base().len() ==> (
            #[trigger] workspace.spec_merge_with_base()[i]).dir == workspace.workdir@,
        forall|i: int|
            0 <= i < workspace.spec_commit(message).len() ==> (#[trigger] workspace.spec_commit(
                message,
            )[i]).dir == workspace.workdir@,
        forall|i: int|
            0 <= i < workspace.spec_push().len() ==> (#[trigger] workspace.spec_push()[i]).dir
                == workspace.workdir@,
        workspace.spec_get_changed_files().dir == workspace.workdir@,
{
}

} // verus!
