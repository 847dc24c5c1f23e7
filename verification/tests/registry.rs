use botman::github::action::Delivery;
use botman::github::client::Payload;
use botman::github::data::{
    GitHubCheckRun, GitHubCheckRunConclusion, GitHubCheckRunEvent, GitHubCheckRunEventAction,
    GitHubCheckRunPullRequest, GitHubCheckRunRef, GitHubCheckRunRepo, GitHubCheckRunStatus,
    GitHubComment, GitHubIssue, GitHubIssueCommentEvent, GitHubIssueCommentEventAction,
    GitHubIssuePullRequest, GitHubIssueState, GitHubIssuesEvent, GitHubIssuesEventAction,
    GitHubPullRequest, GitHubPullRequestEvent, GitHubPullRequestEventAction, GitHubRef,
    GitHubRepo, GitHubRepoId, GitHubTeam, GitHubUser, GitHubWebhook,
};
use botman::mason_registry::{
    check_run_event, check_run_pull_request, index, issue_event, notify_triage, pull_request,
    MasonRegistryCommand, NotifyReason, RegistryRoute,
};
use botman::status::Status;

const FOOTER: &str = "\n\n<sup>` \u{1F916} This is an automated comment. `  [` \u{1F4D6} Source code `](https://github.com/williamboman/botman)</sup>";
const IN_SEASON: i64 = 1697371200;
const OUT_OF_SEASON: i64 = 1709164800;

fn user(login: &str) -> GitHubUser {
    GitHubUser { id: 1, login: login.to_owned() }
}

fn repo() -> GitHubRepo {
    GitHubRepo {
        id: 2,
        full_name: GitHubRepoId { owner: "mason-org".to_owned(), name: "mason-registry".to_owned() },
    }
}

fn git_ref(branch: &str) -> GitHubRef {
    GitHubRef { git_ref: branch.to_owned(), sha: "abc".to_owned(), user: user("x"), repo: repo() }
}

fn pr(login: &str, teams: usize) -> GitHubPullRequest {
    GitHubPullRequest {
        id: 1,
        number: 321,
        head: git_ref("topic"),
        base: git_ref("main"),
        merged: false,
        user: user(login),
        requested_teams: (0..teams)
            .map(|i| GitHubTeam { id: i as u64, name: "Triage".to_owned(), slug: "triage".to_owned() })
            .collect(),
    }
}

fn issue(is_pull_request: bool) -> GitHubIssue {
    GitHubIssue {
        id: 900,
        number: 34,
        user: user("contributor"),
        title: "t".to_owned(),
        body: None,
        assignees: vec![],
        locked: false,
        comments: 0,
        labels: vec![],
        state: GitHubIssueState::Open,
        pull_request: if is_pull_request {
            Some(GitHubIssuePullRequest { url: "https://x/pulls/34".to_owned(), merged_at: None })
        } else {
            None
        },
    }
}

fn check_ref() -> GitHubCheckRunRef {
    GitHubCheckRunRef {
        git_ref: "main".to_owned(),
        repo: GitHubCheckRunRepo { id: 1, name: "mason-registry".to_owned(), url: "https://x".to_owned() },
        sha: "abc".to_owned(),
    }
}

fn check_run(
    status: GitHubCheckRunStatus,
    conclusion: Option<GitHubCheckRunConclusion>,
    prs: &[&str],
) -> GitHubCheckRunEvent {
    GitHubCheckRunEvent {
        action: GitHubCheckRunEventAction::Completed,
        repository: repo(),
        check_run: GitHubCheckRun {
            id: 1,
            conclusion,
            pull_requests: prs
                .iter()
                .map(|url| GitHubCheckRunPullRequest {
                    id: 1,
                    number: 321,
                    url: url.to_string(),
                    base: check_ref(),
                    head: check_ref(),
                })
                .collect(),
            started_at: "2023-10-15T12:00:00Z".to_owned(),
            status,
        },
    }
}

fn pr_event(action: GitHubPullRequestEventAction, login: &str, merged: bool) -> GitHubPullRequestEvent {
    let mut pull_request = pr(login, 0);
    pull_request.merged = merged;
    GitHubPullRequestEvent { action, repository: repo(), pull_request }
}

#[test]
fn reasons_are_explained() {
    assert_eq!(NotifyReason::RenovateFailedCI.explain(), "`notify(Reason::RenovateFailedCI)`");
    assert_eq!(NotifyReason::NewIssue.explain(), "`notify(Reason::NewIssue)`");
    assert_eq!(NotifyReason::NewPullRequest.explain(), "`notify(Reason::NewPullRequest)`");
}

#[test]
fn notification_of_a_new_issue_is_a_comment_alone() {
    let notification = notify_triage(&repo(), 34, NotifyReason::NewIssue);
    assert!(notification.review.is_none());
    assert_eq!(
        notification.comment.url,
        "https://api.github.com/repos/mason-org/mason-registry/issues/34/comments"
    );
    match notification.comment.payload {
        Payload::Comment { body } => assert_eq!(
            body,
            format!(
                "@mason-org/triage `notify(Reason::NewIssue)`\n\n<sup>This comment ensures a notification is delivered to maintainers.</sup>{}",
                FOOTER
            )
        ),
        other => panic!("unexpected {:?}", other),
    }
}

#[test]
fn notification_of_a_pull_request_asks_the_triage_team() {
    for reason in [NotifyReason::NewPullRequest, NotifyReason::RenovateFailedCI] {
        let notification = notify_triage(&repo(), 321, reason);
        let review = notification.review.unwrap();
        assert_eq!(
            review.url,
            "https://api.github.com/repos/mason-org/mason-registry/pulls/321/requested_reviewers"
        );
        match review.payload {
            Payload::Reviewers { reviewers, team_reviewers } => {
                assert!(reviewers.is_empty());
                assert_eq!(team_reviewers, vec!["triage"]);
            }
            other => panic!("unexpected {:?}", other),
        }
        assert!(matches!(notification.comment.payload, Payload::Comment { .. }));
    }
}

#[test]
fn only_new_issues_that_are_no_pull_requests_are_news() {
    let event = |action, is_pr| GitHubIssuesEvent {
        action,
        issue: issue(is_pr),
        repository: repo(),
        sender: user("contributor"),
    };
    assert!(issue_event(&event(GitHubIssuesEventAction::Opened, false)).is_some());
    assert!(issue_event(&event(GitHubIssuesEventAction::Opened, true)).is_none());
    assert!(issue_event(&event(GitHubIssuesEventAction::Reopened, false)).is_none());
    assert!(issue_event(&event(GitHubIssuesEventAction::Edited, false)).is_none());
}

#[test]
fn check_run_that_ended_badly_calls_for_its_first_pull_request() {
    for conclusion in [
        GitHubCheckRunConclusion::Failure,
        GitHubCheckRunConclusion::Cancelled,
        GitHubCheckRunConclusion::StartupFailure,
        GitHubCheckRunConclusion::TimedOut,
    ] {
        let event = check_run(
            GitHubCheckRunStatus::Completed,
            Some(conclusion),
            &["https://x/pulls/321", "https://x/pulls/322"],
        );
        assert_eq!(check_run_event(&event), Some("https://x/pulls/321"));
    }
}

#[test]
fn other_check_runs_call_for_nothing() {
    for conclusion in [
        GitHubCheckRunConclusion::Success,
        GitHubCheckRunConclusion::Neutral,
        GitHubCheckRunConclusion::Skipped,
        GitHubCheckRunConclusion::ActionRequired,
        GitHubCheckRunConclusion::Pending,
        GitHubCheckRunConclusion::Stale,
        GitHubCheckRunConclusion::Waiting,
    ] {
        let event =
            check_run(GitHubCheckRunStatus::Completed, Some(conclusion), &["https://x/pulls/321"]);
        assert_eq!(check_run_event(&event), None);
    }
    let failure = Some(GitHubCheckRunConclusion::Failure);
    assert_eq!(check_run_event(&check_run(GitHubCheckRunStatus::Completed, failure, &[])), None);
    assert_eq!(
        check_run_event(&check_run(GitHubCheckRunStatus::Completed, None, &["https://x"])),
        None
    );
    for status in [
        GitHubCheckRunStatus::InProgress,
        GitHubCheckRunStatus::Pending,
        GitHubCheckRunStatus::Queued,
    ] {
        assert_eq!(check_run_event(&check_run(status, failure, &["https://x"])), None);
    }
}

#[test]
fn stranded_dependency_update_is_reported() {
    let event = check_run(
        GitHubCheckRunStatus::Completed,
        Some(GitHubCheckRunConclusion::Failure),
        &["https://x/pulls/321"],
    );
    let (status, notification) = check_run_pull_request(&event, Some(&pr("renovate[bot]", 0)));
    assert_eq!(status, Status::NoContent);
    let notification = notification.unwrap();
    assert!(notification.review.is_some());
    assert_eq!(
        notification.comment.url,
        "https://api.github.com/repos/mason-org/mason-registry/issues/321/comments"
    );
    match notification.comment.payload {
        Payload::Comment { body } => {
            assert!(body.starts_with("@mason-org/triage `notify(Reason::RenovateFailedCI)`\n\n"))
        }
        other => panic!("unexpected {:?}", other),
    }

    let (status, notification) = check_run_pull_request(&event, Some(&pr("renovate[bot]", 1)));
    assert_eq!(status, Status::NoContent);
    assert!(notification.is_none());
    let (status, notification) = check_run_pull_request(&event, Some(&pr("contributor", 0)));
    assert_eq!(status, Status::NoContent);
    assert!(notification.is_none());
    let (status, notification) = check_run_pull_request(&event, None);
    assert_eq!(status, Status::InternalServerError);
    assert!(notification.is_none());
}

#[test]
fn new_contributions_are_reported() {
    let answer =
        pull_request(&pr_event(GitHubPullRequestEventAction::Opened, "contributor", false), IN_SEASON);
    assert!(answer.label.is_none());
    let notification = answer.notification.unwrap();
    assert!(notification.review.is_some());
    assert_eq!(
        notification.comment.url,
        "https://api.github.com/repos/mason-org/mason-registry/issues/321/comments"
    );

    let answer = pull_request(
        &pr_event(GitHubPullRequestEventAction::Opened, "renovate[bot]", false),
        IN_SEASON,
    );
    assert!(answer.notification.is_none());
    let answer = pull_request(
        &pr_event(GitHubPullRequestEventAction::Synchronize, "contributor", false),
        IN_SEASON,
    );
    assert!(answer.notification.is_none());

    let answer =
        pull_request(&pr_event(GitHubPullRequestEventAction::Closed, "contributor", true), IN_SEASON);
    assert!(answer.label.is_some());
    assert!(answer.notification.is_none());
    let answer = pull_request(
        &pr_event(GitHubPullRequestEventAction::Closed, "contributor", true),
        OUT_OF_SEASON,
    );
    assert!(answer.label.is_none());
}

#[test]
fn registry_index_routes_each_kind_of_event() {
    let comment = GitHubIssueCommentEvent {
        action: GitHubIssueCommentEventAction::Created,
        issue: issue(true),
        comment: GitHubComment {
            id: 5,
            node_id: "IC_5".to_owned(),
            body: Some("@williamboman /apply\n```diff\n+a\n```".to_owned()),
            user: user("williamboman"),
        },
        repository: repo(),
    };
    match index(GitHubWebhook::IssueComment(comment), IN_SEASON) {
        RegistryRoute::Comment(Delivery::Dispatched(action)) => match &action.action().command {
            MasonRegistryCommand::Apply(patch) => assert_eq!(patch.patch, "+a\n"),
        },
        other => panic!("unexpected {:?}", other),
    }
    let issues = GitHubIssuesEvent {
        action: GitHubIssuesEventAction::Opened,
        issue: issue(false),
        repository: repo(),
        sender: user("contributor"),
    };
    assert!(matches!(index(GitHubWebhook::Issues(issues), IN_SEASON), RegistryRoute::Issue(Some(_))));
    let run = check_run(GitHubCheckRunStatus::Completed, None, &[]);
    assert!(matches!(index(GitHubWebhook::CheckRun(run), IN_SEASON), RegistryRoute::CheckRun(_)));
    let opened = pr_event(GitHubPullRequestEventAction::Opened, "contributor", false);
    assert!(matches!(
        index(GitHubWebhook::PullRequest(opened), IN_SEASON),
        RegistryRoute::PullRequest(answer) if answer.notification.is_some() && answer.label.is_none()
    ));
}

#[test]
fn registry_command_runs_the_apply_script() {
    let command = MasonRegistryCommand::Apply(botman::github::action::common::GitApplyPatch {
        patch: "+a\n".to_owned(),
    });
    let workspace = botman::workspace::Workspace {
        workdir: "/w".to_owned(),
        base: git_ref("main"),
        head: git_ref("topic"),
    };
    let script = command.execute(&workspace);
    assert_eq!(script.len(), 1);
    assert_eq!(script[0].operations.len(), 4);
    assert_eq!(command.success(&workspace), "Successfully ran mason apply in /w");
}
