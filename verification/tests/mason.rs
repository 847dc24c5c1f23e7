use botman::github::action::common::GitApplyPatch;
use botman::github::action::{apply, handle_issue_comment, merge_base, settle, Delivery};
use botman::github::client::{MutationInput, Payload, PostRequest};
use botman::github::data::{
    GitHubCheckRun, GitHubCheckRunEvent, GitHubCheckRunEventAction, GitHubCheckRunStatus,
    GitHubComment, GitHubIssue, GitHubIssueCommentEvent, GitHubIssueCommentEventAction,
    GitHubIssueLabel, GitHubIssueState, GitHubIssuesEvent, GitHubIssuesEventAction,
    GitHubPullRequest, GitHubPullRequestEvent, GitHubPullRequestEventAction, GitHubReaction,
    GitHubRef, GitHubRepo, GitHubRepoId, GitHubUser, GitHubWebhook,
};
use botman::mason::{
    fixup, index, issue_event, pull_request, MasonCommand, MasonRoute,
    MASON_PROJECT_COLUMN_BACKLOG_ID, MASON_PROJECT_COLUMN_CLOSED_ID,
    MASON_PROJECT_COLUMN_PRIO_ID, MASON_PROJECT_COLUMN_SUPPORT_ID,
    MASON_PROJECT_COLUMN_TRIAGE_ID, MASON_PROJECT_ID,
};
use botman::script::{Operation, Stage};
use botman::status::Status;
use botman::workspace::Workspace;

const IN_SEASON: i64 = 1697371200;
const OUT_OF_SEASON: i64 = 1709164800;

fn user(login: &str) -> GitHubUser {
    GitHubUser { id: 1, login: login.to_owned() }
}

fn repo() -> GitHubRepo {
    GitHubRepo {
        id: 2,
        full_name: GitHubRepoId { owner: "williamboman".to_owned(), name: "mason.nvim".to_owned() },
    }
}

fn git_ref(owner: &str, branch: &str) -> GitHubRef {
    GitHubRef {
        git_ref: branch.to_owned(),
        sha: "abc".to_owned(),
        user: user(owner),
        repo: GitHubRepo {
            id: 2,
            full_name: GitHubRepoId { owner: owner.to_owned(), name: "mason.nvim".to_owned() },
        },
    }
}

fn checkout() -> Workspace {
    Workspace {
        workdir: "/w".to_owned(),
        base: git_ref("williamboman", "main"),
        head: git_ref("contributor", "topic"),
    }
}

fn issue(labels: &[&str]) -> GitHubIssue {
    GitHubIssue {
        id: 900,
        number: 34,
        user: user("contributor"),
        title: "t".to_owned(),
        body: None,
        assignees: vec![],
        locked: false,
        comments: 0,
        labels: labels
            .iter()
            .enumerate()
            .map(|(i, name)| GitHubIssueLabel {
                id: i as u64,
                name: name.to_string(),
                description: String::new(),
            })
            .collect(),
        state: GitHubIssueState::Open,
        pull_request: None,
    }
}

fn issues_event(action: GitHubIssuesEventAction, labels: &[&str]) -> GitHubIssuesEvent {
    GitHubIssuesEvent { action, issue: issue(labels), repository: repo(), sender: user("contributor") }
}

fn comment_event(
    action: GitHubIssueCommentEventAction,
    login: &str,
    body: &str,
) -> GitHubIssueCommentEvent {
    GitHubIssueCommentEvent {
        action,
        issue: issue(&[]),
        comment: GitHubComment {
            id: 55,
            node_id: "IC_55".to_owned(),
            body: Some(body.to_owned()),
            user: user(login),
        },
        repository: repo(),
    }
}

fn pr_event(merged: bool, login: &str) -> GitHubPullRequestEvent {
    GitHubPullRequestEvent {
        action: GitHubPullRequestEventAction::Closed,
        repository: repo(),
        pull_request: GitHubPullRequest {
            id: 1,
            number: 77,
            head: git_ref("contributor", "topic"),
            base: git_ref("williamboman", "main"),
            merged,
            user: user(login),
            requested_teams: vec![],
        },
    }
}

fn stage_lines(stage: &Stage) -> Vec<String> {
    stage
        .operations
        .iter()
        .map(|operation| match operation {
            Operation::Run(request) => {
                let mut words = vec![request.program.clone()];
                words.extend(request.args.iter().cloned());
                words.join(" ")
            }
            other => panic!("unexpected {:?}", other),
        })
        .collect()
}

fn urls(requests: &[PostRequest]) -> Vec<&str> {
    requests.iter().map(|r| r.url.as_str()).collect()
}

#[test]
fn has_label_looks_for_the_exact_name() {
    let issue = issue(&["bug", "new-package-request"]);
    assert!(issue.has_label("new-package-request"));
    assert!(issue.has_label("bug"));
    assert!(!issue.has_label("new-package"));
    assert!(!issue.has_label("Bug"));
    assert!(!issue.has_label(""));
}

#[test]
fn apply_script_is_one_stage_that_must_succeed() {
    let patch = GitApplyPatch { patch: "+a\n".to_owned() };
    let script = apply::run(&checkout(), &patch);
    assert_eq!(script.len(), 1);
    assert!(script[0].fatal);
    assert_eq!(
        stage_lines(&script[0]),
        vec!["git apply -- -", "git add .", "git commit -m apply diff", "git push"]
    );
    match &script[0].operations[0] {
        Operation::Run(request) => {
            assert_eq!(request.stdin.as_deref(), Some(&b"+a\n"[..]));
            assert_eq!(request.dir, "/w");
        }
        other => panic!("unexpected {:?}", other),
    }
    assert_eq!(apply::apply_patch(&checkout(), &patch).stdin, Some(b"+a\n".to_vec()));
    assert_eq!(apply::success(&checkout()), "Successfully ran mason apply in /w");
}

#[test]
fn merge_base_script_merges_then_pushes() {
    let script = merge_base::run(&checkout());
    assert_eq!(script.len(), 2);
    assert!(script[0].fatal && script[1].fatal);
    assert_eq!(
        stage_lines(&script[0]),
        vec![
            "git fetch upstream main",
            "git merge --no-edit -X ours -m merge upstream/main upstream/main"
        ]
    );
    assert_eq!(stage_lines(&script[1]), vec!["git push"]);
    assert_eq!(merge_base::success(&checkout()), "Successfully ran merge-base in /w");
    assert_eq!(
        botman::mason::merge_base::success(&checkout()),
        "Successfully ran mason merge-base in /w"
    );
    assert_eq!(botman::mason::merge_base::run(&checkout()).len(), 2);
}

#[test]
fn fixup_script_passes_over_what_may_fail() {
    let script = fixup::run(&checkout());
    let fatal: Vec<bool> = script.iter().map(|s| s.fatal).collect();
    assert_eq!(fatal, vec![true, false, false, false, true]);
    assert_eq!(
        stage_lines(&script[0]),
        vec![
            "git fetch upstream main",
            "git merge --no-edit -X ours -m merge upstream/main upstream/main",
            "make generate",
            "stylua .",
        ]
    );
    assert_eq!(
        stage_lines(&script[1]),
        vec!["git checkout upstream/main -- PACKAGES.md lua/mason-schemas"]
    );
    assert_eq!(stage_lines(&script[2]), vec!["git rm .luarc.json"]);
    assert_eq!(stage_lines(&script[3]), vec!["git add .", "git commit -m fixup"]);
    assert_eq!(stage_lines(&script[4]), vec!["git push"]);
    assert_eq!(fixup::success(&checkout()), "Successfully ran mason fixup in /w");
    assert_eq!(fixup::make_generate(&checkout()).program, "make");
    assert_eq!(fixup::stylua(&checkout()).args, vec!["."]);
    assert_eq!(fixup::restore_generated_code(&checkout()).len(), 2);
}

#[test]
fn commands_dispatch_to_their_scripts() {
    let ws = checkout();
    assert_eq!(MasonCommand::Fixup.execute(&ws).len(), 5);
    assert_eq!(MasonCommand::MergeBase.execute(&ws).len(), 2);
    let apply = MasonCommand::Apply(GitApplyPatch { patch: "+x\n".to_owned() });
    assert_eq!(apply.execute(&ws).len(), 1);
    assert_eq!(apply.success(&ws), "Successfully ran mason apply in /w");
    assert_eq!(MasonCommand::Fixup.success(&ws), "Successfully ran mason fixup in /w");
    assert_eq!(MasonCommand::MergeBase.success(&ws), "Successfully ran mason merge-base in /w");
}

#[test]
fn new_package_request_gets_comment_card_and_label() {
    let requests = issue_event(&issues_event(
        GitHubIssuesEventAction::Opened,
        &["new-package-request"],
    ));
    assert_eq!(
        urls(&requests),
        vec![
            "https://api.github.com/repos/williamboman/mason.nvim/issues/34/comments",
            "https://api.github.com/projects/columns/19009769/cards",
            "https://api.github.com/repos/williamboman/mason.nvim/issues/34/labels",
        ]
    );
    match &requests[0].payload {
        Payload::Comment { body } => {
            assert!(body.starts_with("Hello! Pull requests are always very welcomed to add new packages."));
            assert!(body.contains("You may also use existing packages as reference.\n\n<sup>"));
        }
        other => panic!("unexpected {:?}", other),
    }
    assert!(matches!(requests[1].payload, Payload::ColumnCard { content_id: 900, .. }));
    assert!(matches!(&requests[2].payload, Payload::Labels { labels } if labels == &vec!["help wanted".to_owned()]));
}

#[test]
fn other_new_issue_goes_to_triage() {
    let requests = issue_event(&issues_event(GitHubIssuesEventAction::Opened, &["bug"]));
    assert_eq!(urls(&requests), vec!["https://api.github.com/projects/columns/19009768/cards"]);
    assert!(matches!(requests[0].payload, Payload::ColumnCard { content_id: 900, .. }));
    assert!(issue_event(&issues_event(GitHubIssuesEventAction::Closed, &["new-package-request"]))
        .is_empty());
    assert!(issue_event(&issues_event(GitHubIssuesEventAction::Labeled, &[])).is_empty());
}

#[test]
fn project_columns_are_known() {
    assert_eq!(MASON_PROJECT_ID, 14574269);
    assert_eq!(MASON_PROJECT_COLUMN_PRIO_ID, 19009769);
    assert_eq!(MASON_PROJECT_COLUMN_TRIAGE_ID, 19009768);
    assert_eq!(MASON_PROJECT_COLUMN_BACKLOG_ID, 19009770);
    assert_eq!(MASON_PROJECT_COLUMN_SUPPORT_ID, 19114644);
    assert_eq!(MASON_PROJECT_COLUMN_CLOSED_ID, 19009772);
}

#[test]
fn merged_pull_request_is_labelled_in_season() {
    let request = pull_request(&pr_event(true, "contributor"), IN_SEASON).unwrap();
    assert_eq!(
        request.url,
        "https://api.github.com/repos/williamboman/mason.nvim/issues/77/labels"
    );
    assert!(matches!(&request.payload, Payload::Labels { labels } if labels == &vec!["hacktoberfest-accepted".to_owned()]));
    assert!(pull_request(&pr_event(true, "contributor"), OUT_OF_SEASON).is_none());
    assert!(pull_request(&pr_event(false, "contributor"), IN_SEASON).is_none());
}

#[test]
fn index_routes_each_kind_of_event() {
    let route = index(
        GitHubWebhook::IssueComment(comment_event(
            GitHubIssueCommentEventAction::Created,
            "williamboman",
            "@williamboman /fixup",
        )),
        IN_SEASON,
    );
    assert!(matches!(route, MasonRoute::Comment(Delivery::Dispatched(_))));
    assert_eq!(route.status(), None);

    let route = index(
        GitHubWebhook::Issues(issues_event(GitHubIssuesEventAction::Opened, &[])),
        IN_SEASON,
    );
    assert!(matches!(&route, MasonRoute::Send(requests) if requests.len() == 1));
    assert_eq!(route.status(), Some(Status::NoContent));

    let route = index(GitHubWebhook::PullRequest(pr_event(true, "contributor")), IN_SEASON);
    assert!(matches!(&route, MasonRoute::Send(requests) if requests.len() == 1));
    let route = index(GitHubWebhook::PullRequest(pr_event(true, "renovate[bot]")), IN_SEASON);
    assert!(matches!(&route, MasonRoute::Send(requests) if requests.is_empty()));
    assert_eq!(route.status(), Some(Status::NoContent));

    let route = index(
        GitHubWebhook::CheckRun(GitHubCheckRunEvent {
            action: GitHubCheckRunEventAction::Completed,
            repository: repo(),
            check_run: GitHubCheckRun {
                id: 1,
                conclusion: None,
                pull_requests: vec![],
                started_at: "2023-10-15T12:00:00Z".to_owned(),
                status: GitHubCheckRunStatus::Completed,
            },
        }),
        IN_SEASON,
    );
    assert!(matches!(route, MasonRoute::NotImplemented));
    assert_eq!(route.status(), Some(Status::NotImplemented));
}

#[test]
fn only_created_comments_can_ask_for_anything() {
    for action in [GitHubIssueCommentEventAction::Edited, GitHubIssueCommentEventAction::Deleted] {
        let delivery = handle_issue_comment::<MasonCommand>(comment_event(
            action,
            "williamboman",
            "@williamboman /fixup",
        ));
        assert!(matches!(delivery, Delivery::Ignored(None)));
    }
    assert_eq!(Delivery::<MasonCommand>::ignored_status(), Status::NoContent);
}

#[test]
fn comments_that_ask_for_nothing_are_ignored_in_silence() {
    let delivery = handle_issue_comment::<MasonCommand>(comment_event(
        GitHubIssueCommentEventAction::Created,
        "williamboman",
        "Thanks, looks good!",
    ));
    match delivery {
        Delivery::Ignored(Some(reason)) => {
            assert_eq!(reason.message(), "Thanks, is not a valid mention.")
        }
        other => panic!("unexpected {:?}", other),
    }
    let route = index(
        GitHubWebhook::IssueComment(comment_event(
            GitHubIssueCommentEventAction::Created,
            "williamboman",
            "nothing",
        )),
        IN_SEASON,
    );
    assert_eq!(route.status(), Some(Status::NoContent));
}

#[test]
fn same_command_from_an_unlisted_author_is_ignored() {
    let body = "@williamboman /merge-base";
    let listed = handle_issue_comment::<MasonCommand>(comment_event(
        GitHubIssueCommentEventAction::Created,
        "williamboman",
        body,
    ));
    assert!(matches!(listed, Delivery::Dispatched(_)));
    for login in ["octocat", "williambotman", "Williamboman", ""] {
        let unlisted = handle_issue_comment::<MasonCommand>(comment_event(
            GitHubIssueCommentEventAction::Created,
            login,
            body,
        ));
        match unlisted {
            Delivery::Ignored(Some(reason)) => {
                assert_eq!(reason.message(), format!("{} is not an allowed user.", login))
            }
            other => panic!("unexpected {:?}", other),
        }
    }
}

#[test]
fn settling_a_failure_takes_the_acknowledgement_back() {
    let action = match handle_issue_comment::<MasonCommand>(comment_event(
        GitHubIssueCommentEventAction::Created,
        "williamboman",
        "@williamboman /fixup",
    )) {
        Delivery::Dispatched(action) => action,
        other => panic!("unexpected {:?}", other),
    };
    let settlement = settle(&action, None);
    assert_eq!(settlement.status, Status::NoContent);
    assert!(settlement.compensation.is_none());

    let settlement = settle(&action, Some(Status::InternalServerError));
    assert_eq!(settlement.status, Status::InternalServerError);
    let (query, request) = settlement.compensation.unwrap();
    assert!(query.query.contains("unminimizeComment"));
    assert!(matches!(
        query.variables,
        Some(MutationInput::Unminimize { ref subjectId, .. }) if subjectId == "IC_55"
    ));
    assert_eq!(
        request.url,
        "https://api.github.com/repos/williamboman/mason.nvim/issues/comments/55/reactions"
    );
    assert!(matches!(request.payload, Payload::Reaction { content: GitHubReaction::MinusOne }));

    let settlement = settle(&action, Some(Status::NoContent));
    assert_eq!(settlement.status, Status::NoContent);
    assert!(settlement.compensation.is_some());
}
