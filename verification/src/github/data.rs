//! The parts of GitHub's webhook payloads and API objects that the bot reads.

use crate::text::{chars_of, find_char, push_char, split_once, str_eq, string_of};
use vstd::prelude::*;
use vstd::string::*;

verus! {

#[derive(Debug)]
pub struct GitHubUser {
    pub id: u64,
    pub login: String,
}

impl Clone for GitHubUser {
    fn clone(&self) -> (copy: Self)
        ensures
            copy == *self,
    {
        GitHubUser { id: self.id, login: self.login.clone() }
    }
}

#[derive(Debug, Clone)]
pub struct GitHubTeam {
    pub id: u64,
    pub name: String,
    pub slug: String,
}

/// A comment on an issue or a pull request, or the body of a review.
#[derive(Debug, Clone)]
pub struct GitHubComment {
    pub id: u64,
    pub node_id: String,
    pub body: Option<String>,
    pub user: GitHubUser,
}

/// A repository's full name, `owner/name`.
#[derive(Debug)]
pub struct GitHubRepoId {
    pub owner: String,
    pub name: String,
}

impl Clone for GitHubRepoId {
    fn clone(&self) -> (copy: Self)
        ensures
            copy == *self,
    {
        GitHubRepoId { owner: self.owner.clone(), name: self.name.clone() }
    }
}

/// Why a text is no repository name.
#[derive(Clone, Copy, Debug, PartialEq, Eq, Structural)]
pub enum GitHubRepoIdError {
    /// The text holds no `/`.
    MissingSeparator,
}

impl GitHubRepoIdError {
    pub fn message(&self) -> (m: String)
        ensures
            m@ == "Failed to parse GitHubRepoId."@,
    {
        "Failed to parse GitHubRepoId.".to_owned()
    }
}

/// `owner/name`.
pub open spec fn full_name(owner: Seq<char>, name: Seq<char>) -> Seq<char> {
    owner + seq!['/'] + name
}

/// The URL from which git clones the repository.
pub open spec fn git_url(owner: Seq<char>, name: Seq<char>) -> Seq<char> {
    "https://github.com/"@ + owner + "/"@ + name + ".git"@
}

/// The URL of the repository in GitHub's REST API.
pub open spec fn api_url(owner: Seq<char>, name: Seq<char>) -> Seq<char> {
    "https://api.github.com/repos/"@ + owner + "/"@ + name
}

impl GitHubRepoId {
    /// Splits `owner/name` at the first `/`.
    pub fn from_str(s: &str) -> (r: Result<GitHubRepoId, GitHubRepoIdError>)
        ensures
            match split_once(s@, '/') {
                Some((owner, name)) => r matches Ok(id) && id.owner@ == owner && id.name@ == name,
                None => r == Err::<GitHubRepoId, _>(GitHubRepoIdError::MissingSeparator),
            },
    {
        let chars = chars_of(s);
        let i = find_char(&chars, 0, '/');
        assert(chars@.skip(0) == chars@);
        if i < chars.len() {
            let owner = string_of(&chars, 0, i);
            let name = string_of(&chars, i + 1, chars.len());
            assert(chars@.subrange(0, i as int) == chars@.take(i as int));
            assert(chars@.subrange(i + 1, chars.len() as int) == chars@.skip(i + 1));
            Ok(GitHubRepoId { owner, name })
        } else {
            Err(GitHubRepoIdError::MissingSeparator)
        }
    }

    /// The full name, `owner/name`.
    pub fn to_string(&self) -> (s: String)
        ensures
            s@ == full_name(self.owner@, self.name@),
    {
        let mut s = self.owner.clone();
        push_char(&mut s, '/');
        s.append(self.name.as_str());
        s
    }
}

#[derive(Debug)]
pub struct GitHubRepo {
    pub id: u64,
    pub full_name: GitHubRepoId,
}

impl Clone for GitHubRepo {
    fn clone(&self) -> (copy: Self)
        ensures
            copy == *self,
    {
        GitHubRepo { id: self.id, full_name: self.full_name.clone() }
    }
}

impl GitHubRepo {
    pub fn as_git_url(&self) -> (url: String)
        ensures
            url@ == git_url(self.full_name.owner@, self.full_name.name@),
    {
        let mut url = "https://github.com/".to_owned();
        url.append(self.full_name.owner.as_str());
        url.append("/");
        url.append(self.full_name.name.as_str());
        url.append(".git");
        url
    }

    pub fn as_api_url(&self) -> (url: String)
        ensures
            url@ == api_url(self.full_name.owner@, self.full_name.name@),
    {
        let mut url = "https://api.github.com/repos/".to_owned();
        url.append(self.full_name.owner.as_str());
        url.append("/");
        url.append(self.full_name.name.as_str());
        url
    }
}

/// One end of a pull request: a branch of a repository at a commit.
#[derive(Debug)]
pub struct GitHubRef {
    /// The branch name.
    pub git_ref: String,
    pub sha: String,
    pub user: GitHubUser,
    pub repo: GitHubRepo,
}

impl Clone for GitHubRef {
    fn clone(&self) -> (copy: Self)
        ensures
            copy == *self,
    {
        GitHubRef {
            git_ref: self.git_ref.clone(),
            sha: self.sha.clone(),
            user: self.user.clone(),
            repo: self.repo.clone(),
        }
    }
}

#[derive(Debug, Clone)]
pub struct GitHubPullRequest {
    pub id: u64,
    pub number: u64,
    pub head: GitHubRef,
    pub base: GitHubRef,
    pub merged: bool,
    pub user: GitHubUser,
    pub requested_teams: Vec<GitHubTeam>,
}

#[derive(Debug, Clone)]
pub enum GitHubPullRequestEventAction {
    Assigned,
    AutoMergeDisabled,
    AutoMergeEnabled,
    /// Closed with `merged` false: closed with unmerged commits; with
    /// `merged` true: merged.
    Closed,
    ConvertedToDraft,
    /// Removed from a merge queue.
    Dequeued,
    Edited,
    /// Added to a merge queue.
    Enqueued,
    Labeled,
    Locked,
    Opened,
    ReadyForReview,
    Reopened,
    ReviewRequestRemoved,
    ReviewRequested,
    /// The head branch was updated.
    Synchronize,
    Unassigned,
    Unlabeled,
    Unlocked,
}

#[derive(Debug, Clone)]
pub struct GitHubPullRequestEvent {
    pub action: GitHubPullRequestEventAction,
    pub repository: GitHubRepo,
    pub pull_request: GitHubPullRequest,
}

#[derive(Debug, Clone)]
pub enum GitHubCheckRunEventAction {
    Completed,
    Created,
    RequestedAction,
    Rerequested,
}

#[derive(Debug, Clone, Copy, PartialEq, Eq, Structural)]
pub enum GitHubCheckRunConclusion {
    ActionRequired,
    Cancelled,
    Failure,
    Neutral,
    Pending,
    Skipped,
    Stale,
    StartupFailure,
    Success,
    TimedOut,
    Waiting,
}

#[derive(Debug, Clone)]
pub enum GitHubCheckRunStatus {
    Completed,
    InProgress,
    Pending,
    Queued,
}

#[derive(Debug, Clone)]
pub struct GitHubCheckRun {
    pub id: u64,
    pub conclusion: Option<GitHubCheckRunConclusion>,
    pub pull_requests: Vec<GitHubCheckRunPullRequest>,
    pub started_at: String,
    pub status: GitHubCheckRunStatus,
}

#[derive(Debug, Clone)]
pub struct GitHubCheckRunRepo {
    pub id: u64,
    pub name: String,
    pub url: String,
}

#[derive(Debug, Clone)]
pub struct GitHubCheckRunRef {
    pub git_ref: String,
    pub repo: GitHubCheckRunRepo,
    pub sha: String,
}

#[derive(Debug, Clone)]
pub struct GitHubCheckRunPullRequest {
    pub id: u64,
    pub number: u64,
    pub url: String,
    pub base: GitHubCheckRunRef,
    pub head: GitHubCheckRunRef,
}

#[derive(Debug, Clone)]
pub struct GitHubCheckRunEvent {
    pub action: GitHubCheckRunEventAction,
    pub repository: GitHubRepo,
    pub check_run: GitHubCheckRun,
}

/// A verified webhook delivery, by the kind of event it reports.
#[derive(Debug)]
pub enum GitHubWebhook {
    IssueComment(GitHubIssueCommentEvent),
    Issues(GitHubIssuesEvent),
    PullRequest(GitHubPullRequestEvent),
    CheckRun(GitHubCheckRunEvent),
}

#[derive(Debug)]
pub enum GitHubPullRequestReviewCommentAction {
    Created,
    Edited,
    Deleted,
}

#[derive(Debug)]
pub struct GitHubPullRequestReviewComment {
    pub action: GitHubPullRequestReviewCommentAction,
    pub comment: GitHubComment,
    pub pull_request: GitHubPullRequest,
}

#[derive(Debug)]
pub enum GitHubPullRequestReviewAction {
    Submitted,
    Edited,
    Dismissed,
}

#[derive(Debug)]
pub struct GitHubPullRequestReview {
    pub action: GitHubPullRequestReviewAction,
    pub review: GitHubComment,
    pub pull_request: GitHubPullRequest,
}

/// A reaction to a comment.
#[derive(Debug, Clone, Copy, PartialEq, Eq, Structural)]
pub enum GitHubReaction {
    PlusOne,
    MinusOne,
    Laugh,
    Confused,
    Heart,
    Hooray,
    Rocket,
    Eyes,
}

impl GitHubReaction {
    /// The name by which GitHub's API knows the reaction.
    pub open spec fn content(self) -> Seq<char> {
        match self {
            GitHubReaction::PlusOne => "+1"@,
            GitHubReaction::MinusOne => "-1"@,
            GitHubReaction::Laugh => "laugh"@,
            GitHubReaction::Confused => "confused"@,
            GitHubReaction::Heart => "heart"@,
            GitHubReaction::Hooray => "hooray"@,
            GitHubReaction::Rocket => "rocket"@,
            GitHubReaction::Eyes => "eyes"@,
        }
    }

    /// The text that stands for the reaction in a request.
    pub fn serialize(&self) -> (s: &'static str)
        ensures
            s@ == self.content(),
    {
        match self {
            GitHubReaction::PlusOne => "+1",
            GitHubReaction::MinusOne => "-1",
            GitHubReaction::Laugh => "laugh",
            GitHubReaction::Confused => "confused",
            GitHubReaction::Heart => "heart",
            GitHubReaction::Hooray => "hooray",
            GitHubReaction::Rocket => "rocket",
            GitHubReaction::Eyes => "eyes",
        }
    }
}

#[derive(Debug)]
pub enum GitHubIssueCommentEventAction {
    Created,
    Edited,
    Deleted,
}

#[derive(Debug)]
pub struct GitHubIssueCommentEvent {
    pub action: GitHubIssueCommentEventAction,
    pub issue: GitHubIssue,
    pub comment: GitHubComment,
    pub repository: GitHubRepo,
}

#[derive(Debug)]
pub enum GitHubIssuesEventAction {
    Opened,
    Edited,
    Deleted,
    Pinned,
    Unpinned,
    Closed,
    Reopened,
    Assigned,
    Unassigned,
    Labeled,
    Unlabeled,
    Locked,
    Unlocked,
    Transferred,
    Milestoned,
    Demilestoned,
}

#[derive(Debug)]
pub struct GitHubIssuesEvent {
    pub action: GitHubIssuesEventAction,
    pub issue: GitHubIssue,
    pub repository: GitHubRepo,
    pub sender: GitHubUser,
}

/// Present on an issue that is a pull request.
#[derive(Debug)]
pub struct GitHubIssuePullRequest {
    pub url: String,
    pub merged_at: Option<String>,
}

#[derive(Debug)]
pub enum GitHubIssueState {
    Open,
}

#[derive(Debug)]
pub struct GitHubIssueLabel {
    pub id: u64,
    pub name: String,
    pub description: String,
}

#[derive(Debug)]
pub struct GitHubIssue {
    pub id: u64,
    pub number: u64,
    pub user: GitHubUser,
    pub title: String,
    pub body: Option<String>,
    pub assignees: Vec<GitHubUser>,
    pub locked: bool,
    pub comments: u64,
    pub labels: Vec<GitHubIssueLabel>,
    pub state: GitHubIssueState,
    pub pull_request: Option<GitHubIssuePullRequest>,
}

impl GitHubIssue {
    /// Whether one of the issue's labels has exactly this name.
    pub open spec fn spec_has_label(&self, label: Seq<char>) -> bool {
        exists|i: int| 0 <= i < self.labels@.len() && (#[trigger] self.labels@[i]).name@ == label
    }

    pub fn has_label(&self, label: &str) -> (found: bool)
        ensures
            found == self.spec_has_label(label@),
    {
        let mut i: usize = 0;
        while i < self.labels.len()
            invariant
                i <= self.labels.len(),
                forall|j: int| 0 <= j < i ==> (#[trigger] self.labels@[j]).name@ != label@,
            decreases self.labels.len() - i,
        {
            if str_eq(self.labels[i].name.as_str(), label) {
                return true;
            }
            i += 1;
        }
        false
    }
}

} // verus!
