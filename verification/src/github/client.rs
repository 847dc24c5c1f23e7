//! The requests that the bot sends to GitHub, and what it makes of the
//! answers. Nothing is sent from here: a request is made ready, and the
//! answer that came back is judged.

use crate::github::data::{api_url, GitHubComment, GitHubReaction, GitHubRepo};
use crate::text::{decimal, push_decimal, str_views, string_views};
use vstd::prelude::*;
use vstd::string::*;

verus! {

/// A header that goes with every request.
#[derive(Debug)]
pub struct Header {
    pub name: String,
    pub value: String,
}

/// The headers that go with every request: JSON is asked for, the token
/// authorizes, and the bot names itself.
pub fn headers(pat: &str) -> (headers: Vec<Header>)
    ensures
        headers@.len() == 3,
        headers@[0].name@ == "accept"@,
        headers@[0].value@ == "application/json"@,
        headers@[1].name@ == "authorization"@,
        headers@[1].value@ == "token "@ + pat@,
        headers@[2].name@ == "user-agent"@,
        headers@[2].value@ == "botman (+https://github.com/williamboman/botman)"@,
{
    let mut token = "token ".to_owned();
    token.append(pat);
    let mut headers: Vec<Header> = Vec::new();
    headers.push(Header { name: "accept".to_owned(), value: "application/json".to_owned() });
    headers.push(Header { name: "authorization".to_owned(), value: token });
    headers.push(
        Header {
            name: "user-agent".to_owned(),
            value: "botman (+https://github.com/williamboman/botman)".to_owned(),
        },
    );
    headers
}

/// What ends every comment that the bot writes.
pub open spec fn comment_footer() -> Seq<char> {
    "\n\n<sup>` \u{1F916} This is an automated comment. `  [` \u{1F4D6} Source code `](https://github.com/williamboman/botman)</sup>"@
}

#[derive(Debug)]
pub struct RequestReviewersDto {
    pub reviewers: Vec<String>,
    pub team_reviewers: Vec<String>,
}

/// What a request carries.
#[derive(Debug)]
pub enum Payload {
    /// `{"body": ..}`
    Comment { body: String },
    /// `{"content": ..}`
    Reaction { content: GitHubReaction },
    /// `{"labels": [..]}`
    Labels { labels: Vec<String> },
    /// `{"content_type": .., "content_id": ..}`
    ColumnCard { content_type: String, content_id: u64 },
    /// The users and the teams that are asked to look at a pull request.
    Reviewers { reviewers: Vec<String>, team_reviewers: Vec<String> },
}

/// A request that posts JSON to GitHub's REST API.
#[derive(Debug)]
pub struct PostRequest {
    pub url: String,
    pub payload: Payload,
}

pub open spec fn issue_comments_url(repo: GitHubRepo, issue_number: u64) -> Seq<char> {
    api_url(repo.full_name.owner@, repo.full_name.name@) + "/issues/"@ + decimal(
        issue_number as nat,
    ) + "/comments"@
}

pub open spec fn comment_reactions_url(repo: GitHubRepo, comment_id: u64) -> Seq<char> {
    api_url(repo.full_name.owner@, repo.full_name.name@) + "/issues/comments/"@ + decimal(
        comment_id as nat,
    ) + "/reactions"@
}

pub open spec fn issue_labels_url(repo: GitHubRepo, issue_number: u64) -> Seq<char> {
    api_url(repo.full_name.owner@, repo.full_name.name@) + "/issues/"@ + decimal(
        issue_number as nat,
    ) + "/labels"@
}

pub open spec fn column_cards_url(column_id: u64) -> Seq<char> {
    "https://api.github.com/projects/columns/"@ + decimal(column_id as nat) + "/cards"@
}

pub open spec fn requested_reviewers_url(repo: GitHubRepo, pull_request_number: u64) -> Seq<char> {
    api_url(repo.full_name.owner@, repo.full_name.name@) + "/pulls/"@ + decimal(
        pull_request_number as nat,
    ) + "/requested_reviewers"@
}

/// The request that writes `comment`, with the bot's footer, on an issue.
pub fn create_issue_comment(repo: &GitHubRepo, issue_number: u64, comment: &str) -> (request:
    PostRequest)
    ensures
        request.url@ == issue_comments_url(*repo, issue_number),
        request.payload matches Payload::Comment { body } && body@ == comment@ + comment_footer(),
{
    let mut url = repo.as_api_url();
    url.append("/issues/");
    push_decimal(&mut url, issue_number);
    url.append("/comments");
    let mut body = comment.to_owned();
    body.append(
        "\n\n<sup>` \u{1F916} This is an automated comment. `  [` \u{1F4D6} Source code `](https://github.com/williamboman/botman)</sup>",
    );
    PostRequest { url, payload: Payload::Comment { body } }
}

/// The request that reacts to a comment.
pub fn create_issue_comment_reaction(
    repo: &GitHubRepo,
    comment: &GitHubComment,
    reaction: &GitHubReaction,
) -> (request: PostRequest)
    ensures
        request.url@ == comment_reactions_url(*repo, comment.id),
        request.payload == (Payload::Reaction { content: *reaction }),
{
    let mut url = repo.as_api_url();
    url.append("/issues/comments/");
    push_decimal(&mut url, comment.id);
    url.append("/reactions");
    PostRequest { url, payload: Payload::Reaction { content: *reaction } }
}

/// The request that adds labels to an issue.
pub fn add_labels_to_issue(repo: &GitHubRepo, labels: Vec<&str>, issue_number: u64) -> (request:
    PostRequest)
    ensures
        request.url@ == issue_labels_url(*repo, issue_number),
        request.payload matches Payload::Labels { labels: sent } && string_views(sent@)
            == str_views(labels@),
{
    let mut url = repo.as_api_url();
    url.append("/issues/");
    push_decimal(&mut url, issue_number);
    url.append("/labels");
    let sent = crate::spawn::strings_of(labels.as_slice());
    PostRequest { url, payload: Payload::Labels { labels: sent } }
}

/// The request that puts an issue on a column of a project board.
pub fn create_column_card(column_id: u64, issue_id: u64) -> (request: PostRequest)
    ensures
        request.url@ == column_cards_url(column_id),
        request.payload matches Payload::ColumnCard { content_type, content_id }
            && content_type@ == "Issue"@ && content_id == issue_id,
{
    let mut url = "https://api.github.com/projects/columns/".to_owned();
    push_decimal(&mut url, column_id);
    url.append("/cards");
    PostRequest {
        url,
        payload: Payload::ColumnCard { content_type: "Issue".to_owned(), content_id: issue_id },
    }
}

/// The request that asks for reviews of a pull request.
pub fn request_review(
    repo: &GitHubRepo,
    pull_request_number: u64,
    reviewers: RequestReviewersDto,
) -> (request: PostRequest)
    ensures
        request.url@ == requested_reviewers_url(*repo, pull_request_number),
        request.payload == (Payload::Reviewers {
            reviewers: reviewers.reviewers,
            team_reviewers: reviewers.team_reviewers,
        }),
{
    let mut url = repo.as_api_url();
    url.append("/pulls/");
    push_decimal(&mut url, pull_request_number);
    url.append("/requested_reviewers");
    PostRequest {
        url,
        payload: Payload::Reviewers {
            reviewers: reviewers.reviewers,
            team_reviewers: reviewers.team_reviewers,
        },
    }
}

#[allow(non_snake_case)]
#[derive(Debug)]
pub struct MinimizedComment {
    pub isMinimized: bool,
}

#[allow(non_snake_case)]
#[derive(Debug)]
pub struct MinimizeComment {
    pub minimizedComment: MinimizedComment,
}

#[allow(non_snake_case)]
#[derive(Debug)]
pub struct MinimizeCommentResponse {
    pub minimizeComment: MinimizeComment,
}

#[allow(non_snake_case)]
#[derive(Debug)]
pub struct UnminimizeComment {
    pub unminimizedComment: MinimizedComment,
}

#[allow(non_snake_case)]
#[derive(Debug)]
pub struct UnminimizeCommentResponse {
    pub unminimizeComment: UnminimizeComment,
}

/// Why a comment is hidden.
#[allow(non_camel_case_types)]
#[derive(Clone, Copy, Debug, PartialEq, Eq, Structural)]
pub enum ReportedContentClassifier {
    ABUSE,
    DUPLICATE,
    OFF_TOPIC,
    OUTDATED,
    RESOLVED,
    SPAM,
}

/// The input of a mutation, sent as the variable `input`.
#[allow(non_snake_case)]
#[derive(Debug)]
pub enum MutationInput {
    Minimize { classifier: ReportedContentClassifier, clientMutationId: Option<String>, subjectId: String },
    Unminimize { clientMutationId: Option<String>, subjectId: String },
}

/// A query for GitHub's GraphQL API.
#[derive(Debug)]
pub struct GraphqlQuery {
    pub query: String,
    pub variables: Option<MutationInput>,
}

pub open spec fn minimize_comment_mutation() -> Seq<char> {
    "\nmutation minimizeComment($input: MinimizeCommentInput!) {\n    minimizeComment(input: $input) {\n        minimizedComment {\n            isMinimized\n        }\n    }\n}\n"@
}

pub open spec fn unminimize_comment_mutation() -> Seq<char> {
    "\nmutation unminimizeComment($input: UnminimizeCommentInput!) {\n    unminimizeComment(input: $input) {\n        unminimizedComment {\n            isMinimized\n        }\n    }\n}\n"@
}

/// The query that hides a comment as resolved.
pub fn minimize_comment(comment: &GitHubComment) -> (query: GraphqlQuery)
    ensures
        query.query@ == minimize_comment_mutation(),
        query.variables matches Some(
            MutationInput::Minimize { classifier, clientMutationId, subjectId },
        ) && classifier == ReportedContentClassifier::RESOLVED && clientMutationId is None
            && subjectId@ == comment.node_id@,
{
    GraphqlQuery {
        query: "\nmutation minimizeComment($input: MinimizeCommentInput!) {\n    minimizeComment(input: $input) {\n        minimizedComment {\n            isMinimized\n        }\n    }\n}\n".to_owned(),
        variables: Some(
            MutationInput::Minimize {
                classifier: ReportedContentClassifier::RESOLVED,
                clientMutationId: None,
                subjectId: comment.node_id.clone(),
            },
        ),
    }
}

/// The query that shows a hidden comment again.
pub fn unminimize_comment(comment: &GitHubComment) -> (query: GraphqlQuery)
    ensures
        query.query@ == unminimize_comment_mutation(),
        query.variables matches Some(MutationInput::Unminimize { clientMutationId, subjectId })
            && clientMutationId is None && subjectId@ == comment.node_id@,
{
    GraphqlQuery {
        query: "\nmutation unminimizeComment($input: UnminimizeCommentInput!) {\n    unminimizeComment(input: $input) {\n        unminimizedComment {\n            isMinimized\n        }\n    }\n}\n".to_owned(),
        variables: Some(
            MutationInput::Unminimize { clientMutationId: None, subjectId: comment.node_id.clone() },
        ),
    }
}

#[derive(Debug)]
pub struct GraphqlErrorLocation {
    pub line: u32,
    pub column: u32,
}

#[derive(Debug)]
pub struct GraphqlResponseError {
    pub message: String,
    pub locations: Vec<GraphqlErrorLocation>,
    pub path: Vec<String>,
}

/// What GitHub's GraphQL API answers: data, errors, or both.
#[derive(Debug)]
pub struct GraphqlResponseEnvelope<Data> {
    pub data: Option<Data>,
    pub errors: Option<Vec<GraphqlResponseError>>,
}

/// Why a query gave no data.
#[derive(Debug)]
pub enum GraphqlError {
    /// The request failed; the text is the status that it failed with.
    Request(String),
    /// The answer reports errors.
    Response(Vec<GraphqlResponseError>),
    /// The answer holds neither data nor errors.
    NoData,
}

impl<Data> GraphqlResponseEnvelope<Data> {
    /// The data of an answer that reports no errors. Errors win over data
    /// that came with them.
    pub fn ok(self) -> (r: Result<Data, GraphqlError>)
        ensures
            match (self.data, self.errors) {
                (Some(data), None) => r == Ok::<Data, GraphqlError>(data),
                (_, Some(errors)) => r == Err::<Data, _>(GraphqlError::Response(errors)),
                (None, None) => r == Err::<Data, _>(GraphqlError::NoData),
            },
    {
        match self.errors {
            Some(errors) => Err(GraphqlError::Response(errors)),
            None => match self.data {
                Some(data) => Ok(data),
                None => Err(GraphqlError::NoData),
            },
        }
    }
}

/// What came back for a request.
#[derive(Debug)]
pub enum Transport {
    /// A response with this status code; the text is the status as it is
    /// shown, code and reason.
    Response { code: u16, status: String },
    /// No response.
    Failed,
}

/// Why a request to GitHub failed.
#[derive(Debug)]
pub enum ClientError {
    /// Fetching the URL failed, with the status shown if there was a response.
    Fetch { url: String, status: Option<String> },
    /// Posting to the URL failed, with the status shown if there was a response.
    Call { url: String, status: Option<String> },
    /// A query failed.
    Graphql(GraphqlError),
    /// The comment that was to be hidden is not reported as hidden.
    NotMinimized,
    /// The comment that was to be shown again is not reported as hidden.
    NotReported,
}

/// The status codes of success.
pub open spec fn is_success(code: u16) -> bool {
    200 <= code < 300
}

impl ClientError {
    pub open spec fn text(&self) -> Seq<char> {
        match self {
            ClientError::Fetch { url, status: Some(status) } => "Failed to fetch url "@ + url@
                + ", response status: "@ + status@,
            ClientError::Fetch { url, status: None } => "Failed to fetch url "@ + url@
                + ", response status: "@,
            ClientError::Call { url, status: Some(status) } => "Failed to call "@ + url@
                + ", response status: "@ + status@,
            ClientError::Call { url, status: None } => "Failed to call "@ + url@,
            ClientError::Graphql(GraphqlError::Request(status)) => "Failed to call GraphQL, response status: "@
                + status@,
            ClientError::Graphql(GraphqlError::Response(_)) => "Received GraphQL errors."@,
            ClientError::Graphql(GraphqlError::NoData) => "Didn't receive GraphQL data or errors."@,
            ClientError::NotMinimized => "Failed to minimize comment."@,
            ClientError::NotReported => "Failed to minimize comment"@,
        }
    }

    pub fn message(&self) -> (m: String)
        ensures
            m@ == self.text(),
    {
        match self {
            ClientError::Fetch { url, status } => {
                let mut m = "Failed to fetch url ".to_owned();
                m.append(url.as_str());
                m.append(", response status: ");
                match status {
                    Some(status) => m.append(status.as_str()),
                    None => {},
                }
                proof {
                    reveal_strlit("");
                    assert(m@ == self.text());
                }
                m
            },
            ClientError::Call { url, status } => {
                let mut m = "Failed to call ".to_owned();
                m.append(url.as_str());
                match status {
                    Some(status) => {
                        m.append(", response status: ");
                        m.append(status.as_str());
                    },
                    None => {},
                }
                m
            },
            ClientError::Graphql(GraphqlError::Request(status)) => {
                let mut m = "Failed to call GraphQL, response status: ".to_owned();
                m.append(status.as_str());
                m
            },
            ClientError::Graphql(GraphqlError::Response(_)) => "Received GraphQL errors.".to_owned(),
            ClientError::Graphql(GraphqlError::NoData) => "Didn't receive GraphQL data or errors.".to_owned(),
            ClientError::NotMinimized => "Failed to minimize comment.".to_owned(),
            ClientError::NotReported => "Failed to minimize comment".to_owned(),
        }
    }
}

/// Judges what came back for a request that fetches `url`: only a response
/// with a status of success will do.
pub fn get(url: &str, outcome: Transport) -> (r: Result<(), ClientError>)
    ensures
        match outcome {
            Transport::Response { code, status } => if is_success(code) {
                r is Ok
            } else {
                r matches Err(ClientError::Fetch { url: failed, status: Some(shown) })
                    && failed@ == url@ && shown == status
            },
            Transport::Failed => r matches Err(ClientError::Fetch { url: failed, status: None })
                && failed@ == url@,
        },
{
    match outcome {
        Transport::Response { code, status } => {
            if 200 <= code && code < 300 {
                Ok(())
            } else {
                Err(ClientError::Fetch { url: url.to_owned(), status: Some(status) })
            }
        },
        Transport::Failed => Err(ClientError::Fetch { url: url.to_owned(), status: None }),
    }
}

/// Judges what came back for a request that posts to `url`: only a
/// response with a status of success will do.
pub fn post_json(url: &str, outcome: Transport) -> (r: Result<(), ClientError>)
    ensures
        match outcome {
            Transport::Response { code, status } => if is_success(code) {
                r is Ok
            } else {
                r matches Err(ClientError::Call { url: failed, status: Some(shown) })
                    && failed@ == url@ && shown == status
            },
            Transport::Failed => r matches Err(ClientError::Call { url: failed, status: None })
                && failed@ == url@,
        },
{
    match outcome {
        Transport::Response { code, status } => {
            if 200 <= code && code < 300 {
                Ok(())
            } else {
                Err(ClientError::Call { url: url.to_owned(), status: Some(status) })
            }
        },
        Transport::Failed => Err(ClientError::Call { url: url.to_owned(), status: None }),
    }
}

/// The data of the answer to a query, or why there is none.
pub fn graphql<Data>(envelope: GraphqlResponseEnvelope<Data>) -> (r: Result<Data, ClientError>)
    ensures
        match (envelope.data, envelope.errors) {
            (Some(data), None) => r == Ok::<Data, ClientError>(data),
            (_, Some(errors)) => r == Err::<Data, _>(
                ClientError::Graphql(GraphqlError::Response(errors)),
            ),
            (None, None) => r == Err::<Data, _>(ClientError::Graphql(GraphqlError::NoData)),
        },
{
    match envelope.ok() {
        Ok(data) => Ok(data),
        Err(e) => Err(ClientError::Graphql(e)),
    }
}

/// Accepts the answer to the query that hides a comment, if it reports the
/// comment as hidden.
pub fn minimized(data: MinimizeCommentResponse) -> (r: Result<MinimizeCommentResponse, ClientError>)
    ensures
        if data.minimizeComment.minimizedComment.isMinimized {
            r == Ok::<_, ClientError>(data)
        } else {
            r == Err::<MinimizeCommentResponse, _>(ClientError::NotMinimized)
        },
{
    if data.minimizeComment.minimizedComment.isMinimized {
        Ok(data)
    } else {
        Err(ClientError::NotMinimized)
    }
}

/// Accepts the answer to the query that shows a comment again, if it
/// reports the comment as hidden.
pub fn unminimized(data: UnminimizeCommentResponse) -> (r: Result<
    UnminimizeCommentResponse,
    ClientError,
>)
    ensures
        if data.unminimizeComment.unminimizedComment.isMinimized {
            r == Ok::<_, ClientError>(data)
        } else {
            r == Err::<UnminimizeCommentResponse, _>(ClientError::NotReported)
        },
{
    if data.unminimizeComment.unminimizedComment.isMinimized {
        Ok(data)
    } else {
        Err(ClientError::NotReported)
    }
}

} // verus!
