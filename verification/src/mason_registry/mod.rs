//! The bot's surface for the package registry: its commands, and whom it
//! tells about new issues, new pull requests and failed checks.

use crate::github::action::apply::script_of;
use crate::github::action::{handle_issue_comment, is_delivery_of, Delivery};
use crate::github::action_parser::{
    ActionError, ActionErrorView, BotCommand, RawCommand, RawCommandView,
};
use crate::github::client::{
    comment_footer, create_issue_comment, issue_comments_url, request_review,
    requested_reviewers_url, Payload, PostRequest, RequestReviewersDto,
};
use crate::github::data::{
    GitHubCheckRunConclusion, GitHubCheckRunEvent, GitHubCheckRunStatus, GitHubIssuesEvent,
    GitHubIssuesEventAction, GitHubPullRequest, GitHubPullRequestEvent,
    GitHubPullRequestEventAction, GitHubRepo, GitHubWebhook,
};
use crate::hacktober::{day_of, earns_label, hacktoberfest_label, labels_pull_request};
use crate::mason::{apply_arguments, parse_apply};
use crate::script::{stage_views, Stage, StageView};
use crate::status::Status;
use crate::text::{str_eq, string_views};
use crate::workspace::Workspace;
use vstd::prelude::*;
use vstd::string::*;

pub mod fixup;

verus! {

/// Why the maintainers are told of something.
#[derive(Clone, Copy, Debug, PartialEq, Eq, Structural)]
pub enum NotifyReason {
    RenovateFailedCI,
    NewIssue,
    NewPullRequest,
}

impl NotifyReason {
    pub open spec fn spec_explain(self) -> Seq<char> {
        match self {
            NotifyReason::RenovateFailedCI => "`notify(Reason::RenovateFailedCI)`"@,
            NotifyReason::NewIssue => "`notify(Reason::NewIssue)`"@,
            NotifyReason::NewPullRequest => "`notify(Reason::NewPullRequest)`"@,
        }
    }

    /// The reason as it is written in the comment.
    pub fn explain(&self) -> (text: String)
        ensures
            text@ == self.spec_explain(),
    {
        match self {
            NotifyReason::RenovateFailedCI => "`notify(Reason::RenovateFailedCI)`".to_owned(),
            NotifyReason::NewIssue => "`notify(Reason::NewIssue)`".to_owned(),
            NotifyReason::NewPullRequest => "`notify(Reason::NewPullRequest)`".to_owned(),
        }
    }

    /// Whether a review is asked for as well.
    pub open spec fn asks_for_review(self) -> bool {
        self == NotifyReason::RenovateFailedCI || self == NotifyReason::NewPullRequest
    }
}

/// How the maintainers are told: a review by the triage team is asked for,
/// where the reason calls for one, and a comment mentions the team. The
/// comment is written whether or not the review could be asked for, and
/// once it is written it is hidden.
#[derive(Debug)]
pub struct Notification {
    pub review: Option<PostRequest>,
    pub comment: PostRequest,
}

/// The comment that mentions the triage team.
pub open spec fn triage_comment(reason: NotifyReason) -> Seq<char> {
    "@mason-org/triage "@ + reason.spec_explain()
        + "\n\n<sup>This comment ensures a notification is delivered to maintainers.</sup>"@
}

/// Whether `notification` tells the maintainers of `reason` on the issue or
/// pull request of this number.
pub open spec fn notifies(
    repo: GitHubRepo,
    issue_number: u64,
    reason: NotifyReason,
    notification: Notification,
) -> bool {
    &&& notification.comment.url@ == issue_comments_url(repo, issue_number)
    &&& notification.comment.payload matches Payload::Comment { body } && body@ == triage_comment(
        reason,
    ) + comment_footer()
    &&& if reason.asks_for_review() {
        notification.review matches Some(request) && request.url@ == requested_reviewers_url(
            repo,
            issue_number,
        ) && (request.payload matches Payload::Reviewers { reviewers, team_reviewers }
            && reviewers@.len() == 0 && string_views(team_reviewers@) == seq!["triage"@])
    } else {
        notification.review is None
    }
}

/// Tells the maintainers of `reason`.
pub fn notify_triage(repo: &GitHubRepo, issue_number: u64, reason: NotifyReason) -> (notification:
    Notification)
    ensures
        notifies(*repo, issue_number, reason, notification),
{
    let review = match reason {
        NotifyReason::RenovateFailedCI | NotifyReason::NewPullRequest => {
            let mut team_reviewers: Vec<String> = Vec::new();
            team_reviewers.push("triage".to_owned());
            assert(string_views(team_reviewers@) =~= seq!["triage"@]);
            Some(
                request_review(
                    repo,
                    issue_number,
                    RequestReviewersDto { reviewers: Vec::new(), team_reviewers },
                ),
            )
        },
        NotifyReason::NewIssue => None,
    };
    let mut text = "@mason-org/triage ".to_owned();
    text.append(reason.explain().as_str());
    text.append(
        "\n\n<sup>This comment ensures a notification is delivered to maintainers.</sup>",
    );
    let comment = create_issue_comment(repo, issue_number, text.as_str());
    Notification { review, comment }
}

/// Whether the maintainers are told of an event of an issue: of an issue,
/// not a pull request, that was just opened.
pub open spec fn is_news(event: GitHubIssuesEvent) -> bool {
    event.action is Opened && event.issue.pull_request is None
}

/// Whether `notification` is what the issue of `event` calls for.
pub open spec fn answers_issue(event: GitHubIssuesEvent, notification: Option<Notification>)
    -> bool {
    match notification {
        Some(n) => is_news(event) && notifies(
            event.repository,
            event.issue.number,
            NotifyReason::NewIssue,
            n,
        ),
        None => !is_news(event),
    }
}

/// What an event of an issue calls for.
pub fn issue_event(event: &GitHubIssuesEvent) -> (notification: Option<Notification>)
    ensures
        answers_issue(*event, notification),
{
    match event.action {
        GitHubIssuesEventAction::Opened => {
            if event.issue.pull_request.is_none() {
                Some(notify_triage(&event.repository, event.issue.number, NotifyReason::NewIssue))
            } else {
                None
            }
        },
        _ => None,
    }
}

/// Whether a check run ended badly: it is completed and failed, was
/// cancelled, failed to start or timed out.
pub open spec fn ended_badly(event: GitHubCheckRunEvent) -> bool {
    &&& event.check_run.status is Completed
    &&& event.check_run.conclusion matches Some(conclusion) && (conclusion
        == GitHubCheckRunConclusion::Failure || conclusion == GitHubCheckRunConclusion::Cancelled
        || conclusion == GitHubCheckRunConclusion::StartupFailure || conclusion
        == GitHubCheckRunConclusion::TimedOut)
}

/// The URL of the pull request that an event of a check run calls to look
/// at: the first pull request of a check run that ended badly.
pub fn check_run_event(event: &GitHubCheckRunEvent) -> (url: Option<&str>)
    ensures
        match url {
            Some(url) => ended_badly(*event) && event.check_run.pull_requests@.len() > 0 && url@
                == event.check_run.pull_requests@[0].url@,
            None => !ended_badly(*event) || event.check_run.pull_requests@.len() == 0,
        },
{
    match event.check_run.status {
        GitHubCheckRunStatus::Completed => {
            let bad = match event.check_run.conclusion {
                Some(GitHubCheckRunConclusion::Failure) => true,
                Some(GitHubCheckRunConclusion::Cancelled) => true,
                Some(GitHubCheckRunConclusion::StartupFailure) => true,
                Some(GitHubCheckRunConclusion::TimedOut) => true,
                _ => false,
            };
            if bad && event.check_run.pull_requests.len() > 0 {
                Some(event.check_run.pull_requests[0].url.as_str())
            } else {
                None
            }
        },
        _ => None,
    }
}

/// Whether the maintainers are told of a pull request whose check ended
/// badly: of one by the dependency bot that no team was asked to review.
pub open spec fn is_stranded(pr: GitHubPullRequest) -> bool {
    pr.user.login@ == "renovate[bot]"@ && pr.requested_teams@.len() == 0
}

/// What is done once the pull request of a check run that ended badly was
/// looked at. A pull request that could not be fetched is an internal
/// error.
pub fn check_run_pull_request(event: &GitHubCheckRunEvent, fetched: Option<&GitHubPullRequest>)
    -> (r: (Status, Option<Notification>))
    ensures
        match fetched {
            None => r.0 == Status::InternalServerError && r.1 is None,
            Some(pr) => r.0 == Status::NoContent && match r.1 {
                Some(n) => is_stranded(*pr) && notifies(
                    event.repository,
                    pr.number,
                    NotifyReason::RenovateFailedCI,
                    n,
                ),
                None => !is_stranded(*pr),
            },
        },
{
    match fetched {
        None => (Status::InternalServerError, None),
        Some(pr) => {
            if str_eq(pr.user.login.as_str(), "renovate[bot]") && pr.requested_teams.len() == 0 {
                (
                    Status::NoContent,
                    Some(notify_triage(&event.repository, pr.number, NotifyReason::RenovateFailedCI)),
                )
            } else {
                (Status::NoContent, None)
            }
        },
    }
}

/// Whether the maintainers are told of an event of a pull request: of one
/// that was just opened, and not by the dependency bot.
pub open spec fn is_new_contribution(event: GitHubPullRequestEvent) -> bool {
    event.action is Opened && event.pull_request.user.login@ != "renovate[bot]"@
}

/// What an event of a pull request calls for.
#[derive(Debug)]
pub struct PullRequestAnswer {
    /// The label of the season, where the pull request earns it.
    pub label: Option<PostRequest>,
    /// The notification of the maintainers, where it is a new contribution.
    pub notification: Option<Notification>,
}

/// Whether `answer` is what the pull request of `event` calls for at the
/// moment `now`.
pub open spec fn answers_pull_request(
    event: GitHubPullRequestEvent,
    now: i64,
    answer: PullRequestAnswer,
) -> bool {
    &&& match answer.label {
        Some(request) => earns_label(event, day_of(now)) && labels_pull_request(event, request),
        None => !earns_label(event, day_of(now)),
    }
    &&& match answer.notification {
        Some(n) => is_new_contribution(event) && notifies(
            event.repository,
            event.pull_request.number,
            NotifyReason::NewPullRequest,
            n,
        ),
        None => !is_new_contribution(event),
    }
}

pub fn pull_request(event: &GitHubPullRequestEvent, now: i64) -> (answer: PullRequestAnswer)
    ensures
        answers_pull_request(*event, now, answer),
{
    let label = hacktoberfest_label(event, now);
    let notification = match event.action {
        GitHubPullRequestEventAction::Opened => {
            if !str_eq(event.pull_request.user.login.as_str(), "renovate[bot]") {
                Some(
                    notify_triage(
                        &event.repository,
                        event.pull_request.number,
                        NotifyReason::NewPullRequest,
                    ),
                )
            } else {
                None
            }
        },
        _ => None,
    };
    PullRequestAnswer { label, notification }
}

/// The commands of this surface.
#[derive(Debug)]
pub enum MasonRegistryCommand {
    Apply(crate::github::action::common::GitApplyPatch),
}

pub enum MasonRegistryCommandView {
    Apply(Seq<char>),
}

impl View for MasonRegistryCommand {
    type V = MasonRegistryCommandView;

    open spec fn view(&self) -> MasonRegistryCommandView {
        match self {
            MasonRegistryCommand::Apply(patch) => MasonRegistryCommandView::Apply(patch@),
        }
    }
}

impl BotCommand for MasonRegistryCommand {
    open spec fn parse(raw: RawCommandView) -> Result<MasonRegistryCommandView, ActionErrorView> {
        if raw.raw_command == "apply"@ {
            match parse_apply(raw.raw_arguments) {
                Ok(patch) => Ok(MasonRegistryCommandView::Apply(patch)),
                Err(e) => Err(e),
            }
        } else {
            Err(
                ActionErrorView::UnknownCommand {
                    name: raw.raw_command,
                    surface: "mason-registry"@,
                },
            )
        }
    }

    fn try_from(value: RawCommand) -> (r: Result<Self, ActionError>) {
        if str_eq(value.raw_command.as_str(), "apply") {
            match apply_arguments(value.raw_arguments) {
                Ok(patch) => Ok(MasonRegistryCommand::Apply(patch)),
                Err(e) => Err(e),
            }
        } else {
            Err(ActionError::UnknownCommand { name: value.raw_command, surface: "mason-registry" })
        }
    }
}

impl MasonRegistryCommand {
    /// What the command does in its workspace.
    pub open spec fn script(&self, workspace: &Workspace) -> Seq<StageView> {
        match self {
            MasonRegistryCommand::Apply(patch) => script_of(workspace, patch@),
        }
    }

    /// The steps that carry the command out in `workspace`.
    pub fn execute(&self, workspace: &Workspace) -> (script: Vec<Stage>)
        ensures
            stage_views(script@) == self.script(workspace),
    {
        match self {
            MasonRegistryCommand::Apply(patch) => crate::github::action::apply::run(
                workspace,
                patch,
            ),
        }
    }

    /// What is reported of the command once it has succeeded.
    pub fn success(&self, workspace: &Workspace) -> (message: String)
        ensures
            message@ == "Successfully ran mason apply in "@ + workspace.workdir@,
    {
        match self {
            MasonRegistryCommand::Apply(_) => crate::github::action::apply::success(workspace),
        }
    }
}

/// What a delivery to this surface comes to.
#[derive(Debug)]
pub enum RegistryRoute {
    /// A comment on an issue: see the delivery.
    Comment(Delivery<MasonRegistryCommand>),
    /// An event of an issue; the maintainers may have to be told. The
    /// delivery is answered with `NoContent`.
    Issue(Option<Notification>),
    /// An event of a check run; the pull request at this URL, if there is
    /// one, is to be fetched and looked at. Without one the delivery is
    /// answered with `NoContent`.
    CheckRun(GitHubCheckRunEvent),
    /// An event of a pull request. The delivery is answered with
    /// `NoContent`.
    PullRequest(PullRequestAnswer),
}

/// Routes a delivery.
pub fn index(webhook: GitHubWebhook, now: i64) -> (route: RegistryRoute)
    ensures
        match webhook {
            GitHubWebhook::IssueComment(event) => route matches RegistryRoute::Comment(delivery)
                && is_delivery_of(event, delivery),
            GitHubWebhook::Issues(event) => route matches RegistryRoute::Issue(notification)
                && answers_issue(event, notification),
            GitHubWebhook::CheckRun(event) => route == RegistryRoute::CheckRun(event),
            GitHubWebhook::PullRequest(event) => route matches RegistryRoute::PullRequest(answer)
                && answers_pull_request(event, now, answer),
        },
{
    match webhook {
        GitHubWebhook::IssueComment(event) => RegistryRoute::Comment(handle_issue_comment(event)),
        GitHubWebhook::Issues(event) => RegistryRoute::Issue(issue_event(&event)),
        GitHubWebhook::CheckRun(event) => RegistryRoute::CheckRun(event),
        GitHubWebhook::PullRequest(event) => RegistryRoute::PullRequest(
            pull_request(&event, now),
        ),
    }
}

} // verus!
