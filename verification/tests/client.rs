use botman::github::client::{
    add_labels_to_issue, create_column_card, create_issue_comment, create_issue_comment_reaction,
    get, graphql, headers, minimize_comment, minimized, post_json, request_review,
    unminimize_comment, unminimized, ClientError, GraphqlError, GraphqlErrorLocation,
    GraphqlResponseEnvelope, GraphqlResponseError, MinimizeComment, MinimizeCommentResponse,
    MinimizedComment, MutationInput, Payload, ReportedContentClassifier, RequestReviewersDto,
    Transport, UnminimizeComment, UnminimizeCommentResponse,
};
use botman::github::data::{GitHubComment, GitHubReaction, GitHubRepo, GitHubRepoId, GitHubUser};

const FOOTER: &str = "\n\n<sup>` \u{1F916} This is an automated comment. `  [` \u{1F4D6} Source code `](https://github.com/williamboman/botman)</sup>";

fn registry() -> GitHubRepo {
    GitHubRepo {
        id: 3,
        full_name: GitHubRepoId { owner: "mason-org".to_owned(), name: "mason-registry".to_owned() },
    }
}

fn a_comment() -> GitHubComment {
    GitHubComment {
        id: 1234567890,
        node_id: "IC_kwDOnode".to_owned(),
        body: Some("@williamboman /fixup".to_owned()),
        user: GitHubUser { id: 1, login: "williamboman".to_owned() },
    }
}

fn graphql_error(message: &str) -> GraphqlResponseError {
    GraphqlResponseError {
        message: message.to_owned(),
        locations: vec![GraphqlErrorLocation { line: 2, column: 5 }],
        path: vec!["minimizeComment".to_owned()],
    }
}

#[test]
fn every_request_carries_three_headers() {
    let headers = headers("ghp_token");
    let pairs: Vec<(&str, &str)> =
        headers.iter().map(|h| (h.name.as_str(), h.value.as_str())).collect();
    assert_eq!(
        pairs,
        vec![
            ("accept", "application/json"),
            ("authorization", "token ghp_token"),
            ("user-agent", "botman (+https://github.com/williamboman/botman)"),
        ]
    );
}

#[test]
fn issue_comment_request_has_url_and_footer() {
    let request = create_issue_comment(&registry(), 4321, "Hello!");
    assert_eq!(
        request.url,
        "https://api.github.com/repos/mason-org/mason-registry/issues/4321/comments"
    );
    match request.payload {
        Payload::Comment { body } => assert_eq!(body, format!("Hello!{}", FOOTER)),
        other => panic!("unexpected {:?}", other),
    }
}

#[test]
fn issue_numbers_are_written_in_decimal() {
    assert_eq!(
        create_issue_comment(&registry(), 0, "").url,
        "https://api.github.com/repos/mason-org/mason-registry/issues/0/comments"
    );
    assert_eq!(
        create_issue_comment(&registry(), 10, "").url,
        "https://api.github.com/repos/mason-org/mason-registry/issues/10/comments"
    );
    assert_eq!(
        create_issue_comment(&registry(), u64::MAX, "").url,
        "https://api.github.com/repos/mason-org/mason-registry/issues/18446744073709551615/comments"
    );
}

#[test]
fn reaction_request_names_the_comment() {
    let request =
        create_issue_comment_reaction(&registry(), &a_comment(), &GitHubReaction::MinusOne);
    assert_eq!(
        request.url,
        "https://api.github.com/repos/mason-org/mason-registry/issues/comments/1234567890/reactions"
    );
    assert!(matches!(request.payload, Payload::Reaction { content: GitHubReaction::MinusOne }));
}

#[test]
fn reactions_have_their_api_names() {
    let names: Vec<&str> = [
        GitHubReaction::PlusOne,
        GitHubReaction::MinusOne,
        GitHubReaction::Laugh,
        GitHubReaction::Confused,
        GitHubReaction::Heart,
        GitHubReaction::Hooray,
        GitHubReaction::Rocket,
        GitHubReaction::Eyes,
    ]
    .iter()
    .map(|r| r.serialize())
    .collect();
    assert_eq!(names, vec!["+1", "-1", "laugh", "confused", "heart", "hooray", "rocket", "eyes"]);
}

#[test]
fn labels_request_lists_the_labels() {
    let request = add_labels_to_issue(&registry(), vec!["help wanted", "bug"], 7);
    assert_eq!(
        request.url,
        "https://api.github.com/repos/mason-org/mason-registry/issues/7/labels"
    );
    match request.payload {
        Payload::Labels { labels } => assert_eq!(labels, vec!["help wanted", "bug"]),
        other => panic!("unexpected {:?}", other),
    }
}

#[test]
fn column_card_request_names_the_issue() {
    let request = create_column_card(19009768, 99);
    assert_eq!(request.url, "https://api.github.com/projects/columns/19009768/cards");
    match request.payload {
        Payload::ColumnCard { content_type, content_id } => {
            assert_eq!(content_type, "Issue");
            assert_eq!(content_id, 99);
        }
        other => panic!("unexpected {:?}", other),
    }
}

#[test]
fn review_request_names_the_pull_request() {
    let request = request_review(
        &registry(),
        55,
        RequestReviewersDto { reviewers: vec![], team_reviewers: vec!["triage".to_owned()] },
    );
    assert_eq!(
        request.url,
        "https://api.github.com/repos/mason-org/mason-registry/pulls/55/requested_reviewers"
    );
    match request.payload {
        Payload::Reviewers { reviewers, team_reviewers } => {
            assert!(reviewers.is_empty());
            assert_eq!(team_reviewers, vec!["triage"]);
        }
        other => panic!("unexpected {:?}", other),
    }
}

#[test]
fn minimize_query_hides_the_comment_as_resolved() {
    let query = minimize_comment(&a_comment());
    assert_eq!(
        query.query,
        "\nmutation minimizeComment($input: MinimizeCommentInput!) {\n    minimizeComment(input: $input) {\n        minimizedComment {\n            isMinimized\n        }\n    }\n}\n"
    );
    match query.variables {
        Some(MutationInput::Minimize { classifier, clientMutationId, subjectId }) => {
            assert_eq!(classifier, ReportedContentClassifier::RESOLVED);
            assert_eq!(clientMutationId, None);
            assert_eq!(subjectId, "IC_kwDOnode");
        }
        other => panic!("unexpected {:?}", other),
    }
}

#[test]
fn unminimize_query_names_the_comment() {
    let query = unminimize_comment(&a_comment());
    assert_eq!(
        query.query,
        "\nmutation unminimizeComment($input: UnminimizeCommentInput!) {\n    unminimizeComment(input: $input) {\n        unminimizedComment {\n            isMinimized\n        }\n    }\n}\n"
    );
    match query.variables {
        Some(MutationInput::Unminimize { clientMutationId, subjectId }) => {
            assert_eq!(clientMutationId, None);
            assert_eq!(subjectId, "IC_kwDOnode");
        }
        other => panic!("unexpected {:?}", other),
    }
}

#[test]
fn minimize_answer_must_report_the_comment_hidden() {
    let hidden = MinimizeCommentResponse {
        minimizeComment: MinimizeComment { minimizedComment: MinimizedComment { isMinimized: true } },
    };
    assert!(minimized(hidden).is_ok());
    let shown = MinimizeCommentResponse {
        minimizeComment: MinimizeComment {
            minimizedComment: MinimizedComment { isMinimized: false },
        },
    };
    let err = minimized(shown).unwrap_err();
    assert!(matches!(err, ClientError::NotMinimized));
    assert_eq!(err.message(), "Failed to minimize comment.");
}

#[test]
fn unminimize_answer_is_accepted_where_it_reports_the_comment_hidden() {
    let hidden = UnminimizeCommentResponse {
        unminimizeComment: UnminimizeComment {
            unminimizedComment: MinimizedComment { isMinimized: true },
        },
    };
    assert!(unminimized(hidden).is_ok());
    let shown = UnminimizeCommentResponse {
        unminimizeComment: UnminimizeComment {
            unminimizedComment: MinimizedComment { isMinimized: false },
        },
    };
    let err = unminimized(shown).unwrap_err();
    assert!(matches!(err, ClientError::NotReported));
    assert_eq!(err.message(), "Failed to minimize comment");
}

#[test]
fn envelope_with_data_alone_is_ok() {
    let envelope = GraphqlResponseEnvelope { data: Some(7u32), errors: None };
    assert_eq!(envelope.ok().unwrap(), 7);
    let envelope = GraphqlResponseEnvelope { data: Some("x".to_owned()), errors: None };
    assert_eq!(graphql(envelope).unwrap(), "x");
}

#[test]
fn envelope_with_errors_fails_even_with_data() {
    let envelope = GraphqlResponseEnvelope { data: Some(7u32), errors: Some(vec![graphql_error("bad")]) };
    match envelope.ok() {
        Err(GraphqlError::Response(errors)) => {
            assert_eq!(errors.len(), 1);
            assert_eq!(errors[0].message, "bad");
        }
        other => panic!("unexpected {:?}", other),
    }
    let envelope: GraphqlResponseEnvelope<u32> =
        GraphqlResponseEnvelope { data: None, errors: Some(vec![]) };
    let err = graphql(envelope).unwrap_err();
    assert!(matches!(err, ClientError::Graphql(GraphqlError::Response(_))));
    assert_eq!(err.message(), "Received GraphQL errors.");
}

#[test]
fn envelope_without_data_or_errors_has_no_data() {
    let envelope: GraphqlResponseEnvelope<u32> = GraphqlResponseEnvelope { data: None, errors: None };
    assert!(matches!(envelope.ok(), Err(GraphqlError::NoData)));
    let envelope: GraphqlResponseEnvelope<u32> = GraphqlResponseEnvelope { data: None, errors: None };
    assert_eq!(graphql(envelope).unwrap_err().message(), "Didn't receive GraphQL data or errors.");
    assert_eq!(
        ClientError::Graphql(GraphqlError::Request("Some(502)".to_owned())).message(),
        "Failed to call GraphQL, response status: Some(502)"
    );
}

#[test]
fn fetch_succeeds_on_statuses_of_success_alone() {
    let ok = |code: u16| Transport::Response { code, status: format!("{} X", code) };
    assert!(get("https://x/y", ok(200)).is_ok());
    assert!(get("https://x/y", ok(204)).is_ok());
    assert!(get("https://x/y", ok(299)).is_ok());
    for code in [100u16, 199, 300, 301, 404, 500] {
        assert!(get("https://x/y", ok(code)).is_err());
    }
    let err = get(
        "https://x/y",
        Transport::Response { code: 404, status: "404 Not Found".to_owned() },
    )
    .unwrap_err();
    assert_eq!(err.message(), "Failed to fetch url https://x/y, response status: 404 Not Found");
    let err = get("https://x/y", Transport::Failed).unwrap_err();
    assert_eq!(err.message(), "Failed to fetch url https://x/y, response status: ");
}

#[test]
fn post_succeeds_on_statuses_of_success_alone() {
    assert!(post_json("https://x/y", Transport::Response { code: 201, status: "201 Created".to_owned() }).is_ok());
    let err = post_json(
        "https://x/y",
        Transport::Response { code: 422, status: "422 Unprocessable Entity".to_owned() },
    )
    .unwrap_err();
    assert!(matches!(err, ClientError::Call { .. }));
    assert_eq!(
        err.message(),
        "Failed to call https://x/y, response status: 422 Unprocessable Entity"
    );
    let err = post_json("https://x/y", Transport::Failed).unwrap_err();
    assert_eq!(err.message(), "Failed to call https://x/y");
}
