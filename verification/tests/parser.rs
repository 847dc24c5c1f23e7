use botman::github::action::common::PatchError;
use botman::github::action_parser::{
    authorized_login, Action, ActionError, Actionee, AuthorizedAction, AuthorizedActionContext,
    AuthorizedUser, BotCommand, EventContext, PullRequestLookup, RawCommand,
};
use botman::github::data::{
    GitHubComment, GitHubIssue, GitHubIssueCommentEvent, GitHubIssueCommentEventAction,
    GitHubIssuePullRequest, GitHubIssueState, GitHubPullRequest, GitHubPullRequestReview,
    GitHubPullRequestReviewAction, GitHubPullRequestReviewComment,
    GitHubPullRequestReviewCommentAction, GitHubRef, GitHubRepo, GitHubRepoId, GitHubUser,
};
use botman::mason::MasonCommand;
use botman::mason_registry::MasonRegistryCommand;

fn user(login: &str) -> GitHubUser {
    GitHubUser { id: 1, login: login.to_owned() }
}

fn comment(login: &str, body: Option<&str>) -> GitHubComment {
    GitHubComment {
        id: 42,
        node_id: "IC_kwDOabc".to_owned(),
        body: body.map(|b| b.to_owned()),
        user: user(login),
    }
}

fn repo(owner: &str, name: &str) -> GitHubRepo {
    GitHubRepo { id: 5, full_name: GitHubRepoId { owner: owner.to_owned(), name: name.to_owned() } }
}

fn git_ref(owner: &str, branch: &str) -> GitHubRef {
    GitHubRef {
        git_ref: branch.to_owned(),
        sha: "deadbeef".to_owned(),
        user: user(owner),
        repo: repo(owner, "mason.nvim"),
    }
}

fn pull_request() -> GitHubPullRequest {
    GitHubPullRequest {
        id: 100,
        number: 12,
        head: git_ref("contributor", "feature"),
        base: git_ref("williamboman", "main"),
        merged: false,
        user: user("contributor"),
        requested_teams: vec![],
    }
}

fn issue(pull_request: Option<&str>) -> GitHubIssue {
    GitHubIssue {
        id: 9,
        number: 12,
        user: user("contributor"),
        title: "A title".to_owned(),
        body: None,
        assignees: vec![],
        locked: false,
        comments: 1,
        labels: vec![],
        state: GitHubIssueState::Open,
        pull_request: pull_request
            .map(|url| GitHubIssuePullRequest { url: url.to_owned(), merged_at: None }),
    }
}

fn issue_comment(login: &str, body: Option<&str>, pr: Option<&str>) -> GitHubIssueCommentEvent {
    GitHubIssueCommentEvent {
        action: GitHubIssueCommentEventAction::Created,
        issue: issue(pr),
        comment: comment(login, body),
        repository: repo("williamboman", "mason.nvim"),
    }
}

#[test]
fn mention_of_a_listed_user_is_read() {
    let actionee = Actionee::from_str("@williamboman").unwrap();
    assert_eq!(actionee.0, "williamboman");
    assert_eq!(actionee.mention(), "@williamboman");
}

#[test]
fn mention_of_another_user_is_not_allowed() {
    match Actionee::from_str("@octocat") {
        Err(ActionError::NotAllowedUser(user)) => assert_eq!(user, "octocat"),
        other => panic!("unexpected {:?}", other),
    }
    let err = Actionee::from_str("@").unwrap_err();
    assert_eq!(err.message(), " is not an allowed user.");
    let err = Actionee::from_str("@williamboman ").unwrap_err();
    assert_eq!(err.message(), "williamboman  is not an allowed user.");
    let err = Actionee::from_str("@Williamboman").unwrap_err();
    assert_eq!(err.message(), "Williamboman is not an allowed user.");
}

#[test]
fn mention_without_the_sigil_is_invalid() {
    match Actionee::from_str("williamboman") {
        Err(ActionError::InvalidMention(text)) => assert_eq!(text, "williamboman"),
        other => panic!("unexpected {:?}", other),
    }
    let err = Actionee::from_str("").unwrap_err();
    assert_eq!(err.message(), " is not a valid mention.");
    let err = Actionee::from_str("\u{e9}@williamboman").unwrap_err();
    assert_eq!(err.message(), "\u{e9}@williamboman is not a valid mention.");
}

#[test]
fn only_listed_logins_are_authorized() {
    assert!(authorized_login("williamboman"));
    assert!(!authorized_login("williambotman"));
    assert!(!authorized_login("octocat"));
    assert!(!authorized_login(""));
    assert_eq!(AuthorizedUser::from_str("williamboman").unwrap().0, "williamboman");
    assert_eq!(AuthorizedUser::try_from(&user("williamboman")).unwrap().0, "williamboman");
    match AuthorizedUser::try_from(&user("octocat")) {
        Err(ActionError::NotAllowedUser(login)) => assert_eq!(login, "octocat"),
        other => panic!("unexpected {:?}", other),
    }
    assert_eq!(
        AuthorizedUser::from_str("octocat").unwrap_err().message(),
        "octocat is not an allowed user."
    );
}

#[test]
fn raw_command_without_arguments() {
    let raw = RawCommand::from_str("/fixup").unwrap();
    assert_eq!(raw.raw_command, "fixup");
    assert_eq!(raw.raw_arguments, None);
    let raw = RawCommand::from_str("/").unwrap();
    assert_eq!(raw.raw_command, "");
    assert_eq!(raw.raw_arguments, None);
}

#[test]
fn raw_command_with_arguments() {
    let raw = RawCommand::from_str("/apply one two  three ").unwrap();
    assert_eq!(raw.raw_command, "apply");
    assert_eq!(raw.raw_arguments.as_deref(), Some("one two  three "));
    let raw = RawCommand::from_str("/apply\n```diff\n+a\n```").unwrap();
    assert_eq!(raw.raw_command, "apply");
    assert_eq!(raw.raw_arguments.as_deref(), Some("```diff\n+a\n```"));
}

#[test]
fn raw_command_arguments_start_after_the_whitespace() {
    let raw = RawCommand::from_str("/apply \t\n  x y").unwrap();
    assert_eq!(raw.raw_command, "apply");
    assert_eq!(raw.raw_arguments.as_deref(), Some("x y"));
    let raw = RawCommand::from_str("/apply ").unwrap();
    assert_eq!(raw.raw_command, "apply");
    assert_eq!(raw.raw_arguments.as_deref(), Some(""));
    let raw = RawCommand::from_str("/ apply").unwrap();
    assert_eq!(raw.raw_command, "");
    assert_eq!(raw.raw_arguments.as_deref(), Some("apply"));
}

#[test]
fn raw_command_without_the_sigil_is_invalid() {
    match RawCommand::from_str("fixup") {
        Err(ActionError::InvalidCommand(text)) => assert_eq!(text, "fixup"),
        other => panic!("unexpected {:?}", other),
    }
    assert_eq!(RawCommand::from_str("").unwrap_err().message(), " is not a valid command");
    assert_eq!(
        RawCommand::from_str(" /fixup").unwrap_err().message(),
        " /fixup is not a valid command"
    );
}

#[test]
fn action_round_trips_mention_and_command_name() {
    let action = Action::<MasonCommand>::from_str("@williamboman /merge-base").unwrap();
    assert_eq!(action.actionee.mention(), "@williamboman");
    assert!(matches!(action.command, MasonCommand::MergeBase));
    let action = Action::<MasonCommand>::from_str("@williamboman /fixup please do").unwrap();
    assert_eq!(action.actionee.0, "williamboman");
    assert!(matches!(action.command, MasonCommand::Fixup));
}

#[test]
fn action_without_a_space_is_no_action() {
    match Action::<MasonCommand>::from_str("@williamboman") {
        Err(ActionError::InvalidSyntax(text)) => assert_eq!(text, "@williamboman"),
        other => panic!("unexpected {:?}", other),
    }
    assert_eq!(
        Action::<MasonCommand>::from_str("").unwrap_err().message(),
        " is not valid action syntax."
    );
    assert_eq!(
        Action::<MasonCommand>::from_str("@williamboman\n/fixup").unwrap_err().message(),
        "@williamboman\n/fixup is not valid action syntax."
    );
}

#[test]
fn action_without_sigils_fails() {
    assert!(matches!(
        Action::<MasonCommand>::from_str("williamboman /fixup"),
        Err(ActionError::InvalidMention(_))
    ));
    assert!(matches!(
        Action::<MasonCommand>::from_str("@williamboman fixup"),
        Err(ActionError::InvalidCommand(_))
    ));
    assert!(matches!(
        Action::<MasonCommand>::from_str("@williamboman  /fixup"),
        Err(ActionError::InvalidCommand(_))
    ));
    assert!(matches!(
        Action::<MasonCommand>::from_str(" @williamboman /fixup"),
        Err(ActionError::InvalidMention(_))
    ));
}

#[test]
fn action_of_an_unknown_command_fails() {
    match Action::<MasonCommand>::from_str("@williamboman /deploy now") {
        Err(ActionError::UnknownCommand { name, surface }) => {
            assert_eq!(name, "deploy");
            assert_eq!(surface, "mason");
        }
        other => panic!("unexpected {:?}", other),
    }
    let err = Action::<MasonRegistryCommand>::from_str("@williamboman /fixup").unwrap_err();
    assert_eq!(err.message(), "fixup is not a valid mason-registry command.");
    let err = Action::<MasonCommand>::from_str("@williamboman /Fixup").unwrap_err();
    assert_eq!(err.message(), "Fixup is not a valid mason command.");
}

#[test]
fn apply_needs_a_patch() {
    let err = Action::<MasonCommand>::from_str("@williamboman /apply").unwrap_err();
    assert!(matches!(err, ActionError::MissingArguments { name: "apply" }));
    assert_eq!(err.message(), "apply is missing arguments.");
    let err = Action::<MasonCommand>::from_str("@williamboman /apply ").unwrap_err();
    assert!(matches!(err, ActionError::Patch(PatchError::NoHeader)));
    assert_eq!(err.message(), "No header.");
    let err = Action::<MasonRegistryCommand>::from_str("@williamboman /apply +a").unwrap_err();
    assert!(matches!(err, ActionError::Patch(PatchError::NotADiff)));
    assert_eq!(err.message(), "Not a diff.");
}

#[test]
fn apply_carries_its_patch() {
    let body = "@williamboman /apply\r\n```diff\r\n--- a/x\r\n+++ b/x\r\n@@ -1 +1 @@\r\n-a\r\n+b\r\n```";
    let action = Action::<MasonRegistryCommand>::from_str(body).unwrap();
    match action.command {
        MasonRegistryCommand::Apply(patch) => {
            assert_eq!(patch.patch, "--- a/x\n+++ b/x\n@@ -1 +1 @@\n-a\n+b\n")
        }
    }
    let command = <MasonCommand as BotCommand>::try_from(RawCommand {
        raw_command: "apply".to_owned(),
        raw_arguments: Some("```diff\n+x\n```".to_owned()),
    })
    .unwrap();
    match command {
        MasonCommand::Apply(patch) => assert_eq!(patch.patch, "+x\n"),
        other => panic!("unexpected {:?}", other),
    }
}

#[test]
fn comment_without_a_body_asks_for_nothing() {
    let err = Action::<MasonCommand>::try_from(&comment("williamboman", None)).unwrap_err();
    assert!(matches!(err, ActionError::EmptyBody));
    assert_eq!(err.message(), "Body is empty.");
    let action =
        Action::<MasonCommand>::try_from(&comment("octocat", Some("@williamboman /fixup")))
            .unwrap();
    assert!(matches!(action.command, MasonCommand::Fixup));
}

#[test]
fn authorization_goes_by_the_author_of_the_comment() {
    let event = issue_comment("williamboman", Some("@williamboman /fixup"), None);
    let authorized =
        AuthorizedAction::<MasonCommand>::try_from(EventContext::IssueComment(event)).unwrap();
    assert_eq!(authorized.authorized_by().0, "williamboman");
    assert_eq!(authorized.action().actionee.0, "williamboman");
    assert!(matches!(authorized.action().command, MasonCommand::Fixup));
    assert_eq!(authorized.context().get_trigger().id, 42);

    let event = issue_comment("octocat", Some("@williamboman /fixup"), None);
    match AuthorizedAction::<MasonCommand>::try_from(EventContext::IssueComment(event)) {
        Err(ActionError::NotAllowedUser(login)) => assert_eq!(login, "octocat"),
        other => panic!("unexpected {:?}", other),
    }
}

#[test]
fn authorization_comes_before_the_command_is_read() {
    let event = issue_comment("octocat", Some("no command at all"), None);
    assert!(matches!(
        AuthorizedAction::<MasonCommand>::try_from(EventContext::IssueComment(event)),
        Err(ActionError::NotAllowedUser(_))
    ));
    let event = issue_comment("williamboman", Some("no command at all"), None);
    assert!(matches!(
        AuthorizedAction::<MasonCommand>::try_from(EventContext::IssueComment(event)),
        Err(ActionError::InvalidMention(_))
    ));
    let event = issue_comment("williamboman", None, None);
    assert!(matches!(
        AuthorizedAction::<MasonCommand>::try_from(EventContext::IssueComment(event)),
        Err(ActionError::EmptyBody)
    ));
}

#[test]
fn review_events_carry_their_pull_request() {
    let review = GitHubPullRequestReview {
        action: GitHubPullRequestReviewAction::Submitted,
        review: comment("williamboman", Some("@williamboman /merge-base")),
        pull_request: pull_request(),
    };
    assert!(matches!(review.get_pull_request(), PullRequestLookup::Known(pr) if pr.number == 12));
    assert_eq!(review.get_trigger().id, 42);
    assert_eq!(review.get_repo().full_name.owner, "williamboman");
    let authorized =
        AuthorizedAction::<MasonCommand>::try_from(EventContext::Review(review)).unwrap();
    assert!(matches!(authorized.action().command, MasonCommand::MergeBase));
    assert!(matches!(authorized.context().get_pull_request(), PullRequestLookup::Known(_)));

    let review_comment = GitHubPullRequestReviewComment {
        action: GitHubPullRequestReviewCommentAction::Created,
        comment: comment("williamboman", Some("@williamboman /fixup")),
        pull_request: pull_request(),
    };
    assert!(matches!(review_comment.get_pull_request(), PullRequestLookup::Known(_)));
    assert_eq!(review_comment.get_trigger().node_id, "IC_kwDOabc");
    assert_eq!(review_comment.get_repo().full_name.name, "mason.nvim");
    let context = EventContext::ReviewComment(review_comment);
    assert_eq!(context.get_repo().id, 5);
    assert_eq!(context.get_trigger().user.login, "williamboman");
}

#[test]
fn issue_comment_events_name_where_the_pull_request_is() {
    let with_pr = issue_comment(
        "williamboman",
        Some("@williamboman /fixup"),
        Some("https://api.github.com/repos/williamboman/mason.nvim/pulls/12"),
    );
    assert!(matches!(
        with_pr.get_pull_request(),
        PullRequestLookup::Fetch("https://api.github.com/repos/williamboman/mason.nvim/pulls/12")
    ));
    assert_eq!(with_pr.get_repo().full_name.name, "mason.nvim");
    assert_eq!(with_pr.get_trigger().id, 42);
    let without = issue_comment("williamboman", Some("@williamboman /fixup"), None);
    assert!(matches!(without.get_pull_request(), PullRequestLookup::Absent));
    assert!(matches!(
        EventContext::IssueComment(without).get_pull_request(),
        PullRequestLookup::Absent
    ));
}
