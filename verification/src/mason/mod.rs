//! The bot's surface for the package manager's repository: its commands,
//! and what it does about new issues and merged pull requests.

use crate::github::action::common::{patch_of, GitApplyPatch};
use crate::github::action::{handle_issue_comment, is_delivery_of, Delivery};
use crate::github::action_parser::{
    ActionError, ActionErrorView, BotCommand, RawCommand, RawCommandView,
};
use crate::github::client::{
    add_labels_to_issue, column_cards_url, comment_footer, create_column_card,
    create_issue_comment, issue_comments_url, issue_labels_url, Payload, PostRequest,
};
use crate::github::data::{
    GitHubIssuesEvent, GitHubIssuesEventAction, GitHubPullRequestEvent, GitHubWebhook,
};
use crate::hacktober::{day_of, earns_label, hacktoberfest_label, labels_pull_request};
use crate::script::{stage_views, Stage, StageView};
use crate::status::Status;
use crate::text::{str_eq, string_views};
use crate::workspace::Workspace;
use vstd::prelude::*;
use vstd::string::*;

pub mod apply;
pub mod fixup;
pub mod merge_base;
pub mod workspace;

verus! {

/// The commands of this surface.
#[derive(Debug)]
pub enum MasonCommand {
    Fixup,
    MergeBase,
    Apply(GitApplyPatch),
}

pub enum MasonCommandView {
    Fixup,
    MergeBase,
    Apply(Seq<char>),
}

impl View for MasonCommand {
    type V = MasonCommandView;

    open spec fn view(&self) -> MasonCommandView {
        match self {
            MasonCommand::Fixup => MasonCommandView::Fixup,
            MasonCommand::MergeBase => MasonCommandView::MergeBase,
            MasonCommand::Apply(patch) => MasonCommandView::Apply(patch@),
        }
    }
}

/// The patch that the command `apply` carries in its arguments.
pub open spec fn parse_apply(arguments: Option<Seq<char>>) -> Result<Seq<char>, ActionErrorView> {
    match arguments {
        None => Err(ActionErrorView::MissingArguments { name: "apply"@ }),
        Some(text) => match patch_of(text) {
            Ok(patch) => Ok(patch),
            Err(e) => Err(ActionErrorView::Patch(e)),
        },
    }
}

/// Reads the patch of the command `apply`.
pub fn apply_arguments(arguments: Option<String>) -> (r: Result<GitApplyPatch, ActionError>)
    ensures
        match parse_apply(
            match arguments {
                Some(text) => Some(text@),
                None => None,
            },
        ) {
            Ok(patch) => r matches Ok(p) && p@ == patch,
            Err(e) => r matches Err(error) && error@ == e,
        },
{
    match arguments {
        None => Err(ActionError::MissingArguments { name: "apply" }),
        Some(text) => match GitApplyPatch::try_from(text) {
            Ok(patch) => Ok(patch),
            Err(e) => Err(ActionError::Patch(e)),
        },
    }
}

impl BotCommand for MasonCommand {
    open spec fn parse(raw: RawCommandView) -> Result<MasonCommandView, ActionErrorView> {
        if raw.raw_command == "fixup"@ {
            Ok(MasonCommandView::Fixup)
        } else if raw.raw_command == "apply"@ {
            match parse_apply(raw.raw_arguments) {
                Ok(patch) => Ok(MasonCommandView::Apply(patch)),
                Err(e) => Err(e),
            }
        } else if raw.raw_command == "merge-base"@ {
            Ok(MasonCommandView::MergeBase)
        } else {
            Err(ActionErrorView::UnknownCommand { name: raw.raw_command, surface: "mason"@ })
        }
    }

    fn try_from(value: RawCommand) -> (r: Result<Self, ActionError>) {
        if str_eq(value.raw_command.as_str(), "fixup") {
            Ok(MasonCommand::Fixup)
        } else if str_eq(value.raw_command.as_str(), "apply") {
            match apply_arguments(value.raw_arguments) {
                Ok(patch) => Ok(MasonCommand::Apply(patch)),
                Err(e) => Err(e),
            }
        } else if str_eq(value.raw_command.as_str(), "merge-base") {
            Ok(MasonCommand::MergeBase)
        } else {
            Err(ActionError::UnknownCommand { name: value.raw_command, surface: "mason" })
        }
    }
}

impl MasonCommand {
    /// What the command does in its workspace.
    pub open spec fn script(&self, workspace: &Workspace) -> Seq<StageView> {
        match self {
            MasonCommand::Fixup => fixup::script_of(workspace),
            MasonCommand::Apply(patch) => crate::github::action::apply::script_of(
                workspace,
                patch@,
            ),
            MasonCommand::MergeBase => merge_base::script_of(workspace),
        }
    }

    /// The steps that carry the command out in `workspace`.
    pub fn execute(&self, workspace: &Workspace) -> (script: Vec<Stage>)
        ensures
            stage_views(script@) == self.script(workspace),
    {
        match self {
            MasonCommand::Fixup => fixup::run(workspace),
            MasonCommand::Apply(patch) => crate::github::action::apply::run(workspace, patch),
            MasonCommand::MergeBase => merge_base::run(workspace),
        }
    }

    /// What is reported of the command once it has succeeded.
    pub fn success(&self, workspace: &Workspace) -> (message: String)
        ensures
            message@ == match self {
                MasonCommand::Fixup => "Successfully ran mason fixup in "@,
                MasonCommand::Apply(_) => "Successfully ran mason apply in "@,
                MasonCommand::MergeBase => "Successfully ran mason merge-base in "@,
            } + workspace.workdir@,
    {
        match self {
            MasonCommand::Fixup => fixup::success(workspace),
            MasonCommand::Apply(_) => crate::github::action::apply::success(workspace),
            MasonCommand::MergeBase => merge_base::success(workspace),
        }
    }
}

pub const MASON_PROJECT_ID: u64 = 14574269;

pub const MASON_PROJECT_COLUMN_PRIO_ID: u64 = 19009769;

pub const MASON_PROJECT_COLUMN_TRIAGE_ID: u64 = 19009768;

pub const MASON_PROJECT_COLUMN_BACKLOG_ID: u64 = 19009770;

pub const MASON_PROJECT_COLUMN_SUPPORT_ID: u64 = 19114644;

pub const MASON_PROJECT_COLUMN_CLOSED_ID: u64 = 19009772;

/// What the bot answers to a request for a new package.
pub open spec fn new_package_comment() -> Seq<char> {
    "Hello! Pull requests are always very welcomed to add new packages. If the distribution of the package is simple, the installation will most likely be so as well. See [CONTRIBUTING.md](https://github.com/williamboman/mason.nvim/blob/main/CONTRIBUTING.md) and the [API reference](https://github.com/williamboman/mason.nvim/blob/main/doc/reference.md) for more details! You may also use existing packages as reference."@
}

/// Whether `requests` is what a new issue calls for: a request for a new
/// package is answered with a comment, put on the priority column and
/// labelled; any other issue goes to the triage column.
pub open spec fn answers_new_issue(event: GitHubIssuesEvent, requests: Seq<PostRequest>) -> bool {
    if event.issue.spec_has_label("new-package-request"@) {
        &&& requests.len() == 3
        &&& requests[0].url@ == issue_comments_url(event.repository, event.issue.number)
        &&& requests[0].payload matches Payload::Comment { body } && body@ == new_package_comment()
            + comment_footer()
        &&& requests[1].url@ == column_cards_url(MASON_PROJECT_COLUMN_PRIO_ID)
        &&& requests[1].payload matches Payload::ColumnCard { content_type, content_id }
            && content_type@ == "Issue"@ && content_id == event.issue.id
        &&& requests[2].url@ == issue_labels_url(event.repository, event.issue.number)
        &&& requests[2].payload matches Payload::Labels { labels } && string_views(labels@)
            == seq!["help wanted"@]
    } else {
        &&& requests.len() == 1
        &&& requests[0].url@ == column_cards_url(MASON_PROJECT_COLUMN_TRIAGE_ID)
        &&& requests[0].payload matches Payload::ColumnCard { content_type, content_id }
            && content_type@ == "Issue"@ && content_id == event.issue.id
    }
}

/// The requests that an event of an issue calls for. Only an issue that
/// was just opened calls for any. The requests do not depend on each other:
/// each is sent whether or not the others succeed.
pub fn issue_event(event: &GitHubIssuesEvent) -> (requests: Vec<PostRequest>)
    ensures
        match event.action {
            GitHubIssuesEventAction::Opened => answers_new_issue(*event, requests@),
            _ => requests@.len() == 0,
        },
{
    let mut requests: Vec<PostRequest> = Vec::new();
    match event.action {
        GitHubIssuesEventAction::Opened => {
            if event.issue.has_label("new-package-request") {
                requests.push(
                    create_issue_comment(
                        &event.repository,
                        event.issue.number,
                        "Hello! Pull requests are always very welcomed to add new packages. If the distribution of the package is simple, the installation will most likely be so as well. See [CONTRIBUTING.md](https://github.com/williamboman/mason.nvim/blob/main/CONTRIBUTING.md) and the [API reference](https://github.com/williamboman/mason.nvim/blob/main/doc/reference.md) for more details! You may also use existing packages as reference.",
                    ),
                );
                requests.push(create_column_card(MASON_PROJECT_COLUMN_PRIO_ID, event.issue.id));
                let labels = vec!["help wanted"];
                let labelling = add_labels_to_issue(&event.repository, labels, event.issue.number);
                proof {
                    let sent = labelling.payload->labels;
                    assert(string_views(sent@) =~= seq!["help wanted"@]);
                }
                requests.push(labelling);
            } else {
                requests.push(create_column_card(MASON_PROJECT_COLUMN_TRIAGE_ID, event.issue.id));
            }
        },
        _ => {},
    }
    requests
}

/// The request that an event of a pull request calls for: the label of the
/// season, where the pull request earns it at the moment `now`.
pub fn pull_request(event: &GitHubPullRequestEvent, now: i64) -> (request: Option<PostRequest>)
    ensures
        match request {
            Some(request) => earns_label(*event, day_of(now)) && labels_pull_request(
                *event,
                request,
            ),
            None => !earns_label(*event, day_of(now)),
        },
{
    hacktoberfest_label(event, now)
}

/// What a delivery to this surface comes to.
#[derive(Debug)]
pub enum MasonRoute {
    /// A comment on an issue: see the delivery.
    Comment(Delivery<MasonCommand>),
    /// These requests are to be sent, each whatever becomes of the others;
    /// the delivery is answered with `NoContent`.
    Send(Vec<PostRequest>),
    /// The surface has nothing to do with events of this kind.
    NotImplemented,
}

impl MasonRoute {
    /// The status with which the delivery is answered, where it does not
    /// depend on a command.
    pub open spec fn spec_status(&self) -> Option<Status> {
        match self {
            MasonRoute::Comment(Delivery::Ignored(_)) => Some(Status::NoContent),
            MasonRoute::Comment(Delivery::Dispatched(_)) => None,
            MasonRoute::Send(_) => Some(Status::NoContent),
            MasonRoute::NotImplemented => Some(Status::NotImplemented),
        }
    }

    #[verifier::when_used_as_spec(spec_status)]
    pub fn status(&self) -> (status: Option<Status>)
        ensures
            status == self.spec_status(),
    {
        match self {
            MasonRoute::Comment(Delivery::Ignored(_)) => Some(Status::NoContent),
            MasonRoute::Comment(Delivery::Dispatched(_)) => None,
            MasonRoute::Send(_) => Some(Status::NoContent),
            MasonRoute::NotImplemented => Some(Status::NotImplemented),
        }
    }
}

/// Routes a delivery: a comment may hold a command; a new issue and a
/// merged pull request call for requests; a check run is none of this
/// surface's business.
pub fn index(webhook: GitHubWebhook, now: i64) -> (route: MasonRoute)
    ensures
        match webhook {
            GitHubWebhook::IssueComment(event) => route matches MasonRoute::Comment(delivery)
                && is_delivery_of(event, delivery),
            GitHubWebhook::Issues(event) => route matches MasonRoute::Send(requests)
                && match event.action {
                GitHubIssuesEventAction::Opened => answers_new_issue(event, requests@),
                _ => requests@.len() == 0,
            },
            GitHubWebhook::PullRequest(event) => route matches MasonRoute::Send(requests) && (
            if earns_label(event, day_of(now)) {
                requests@.len() == 1 && labels_pull_request(event, requests@[0])
            } else {
                requests@.len() == 0
            }),
            GitHubWebhook::CheckRun(_) => route is NotImplemented,
        },
{
    match webhook {
        GitHubWebhook::IssueComment(event) => MasonRoute::Comment(handle_issue_comment(event)),
        GitHubWebhook::Issues(event) => MasonRoute::Send(issue_event(&event)),
        GitHubWebhook::PullRequest(event) => {
            let mut requests: Vec<PostRequest> = Vec::new();
            match pull_request(&event, now) {
                Some(request) => requests.push(request),
                None => {},
            }
            MasonRoute::Send(requests)
        },
        GitHubWebhook::CheckRun(_) => MasonRoute::NotImplemented,
    }
}

} // verus!
