//! What becomes of a comment on an issue: whether it asks for anything,
//! and how the delivery is settled once the command has run.

use crate::github::action_parser::{
    authorize, body_text, is_authorized_login, ActionError, AuthorizedAction, AuthorizedActionContext, BotCommand,
    EventContext,
};
use crate::github::client::{
    comment_reactions_url, create_issue_comment_reaction, unminimize_comment,
    unminimize_comment_mutation, GraphqlQuery, MutationInput, Payload, PostRequest,
};
use crate::github::data::{GitHubIssueCommentEvent, GitHubIssueCommentEventAction, GitHubReaction};
use crate::status::Status;
use vstd::prelude::*;

pub mod apply;
pub mod common;
pub mod merge_base;

verus! {

/// What a delivery comes to.
#[derive(Debug)]
pub enum Delivery<Command: BotCommand> {
    /// Nothing is asked for. The delivery is answered with `NoContent` and
    /// nothing is shown to anybody; the reason, if there is one, is for the
    /// log alone.
    Ignored(Option<ActionError>),
    /// A listed user asked for this action: it is to be carried out.
    Dispatched(AuthorizedAction<Command>),
}

impl<Command: BotCommand> Delivery<Command> {
    /// The status with which a delivery that asks for nothing is answered.
    pub fn ignored_status() -> (status: Status)
        ensures
            status == Status::NoContent,
    {
        Status::NoContent
    }
}

/// Whether `delivery` is what the comment of `event` comes to. Only a
/// comment that was just created can ask for anything; it must be written
/// by a listed user and hold a command of the surface.
pub open spec fn is_delivery_of<Command: BotCommand>(
    event: GitHubIssueCommentEvent,
    delivery: Delivery<Command>,
) -> bool {
    match event.action {
        GitHubIssueCommentEventAction::Created => match authorize::<Command>(
            event.comment.user.login@,
            body_text(event.comment),
        ) {
            Ok(action) => delivery matches Delivery::Dispatched(authorized)
                && authorized.spec_action()@ == action && authorized.spec_context()
                == EventContext::IssueComment(event),
            Err(e) => delivery matches Delivery::Ignored(Some(error)) && error@ == e,
        },
        _ => delivery matches Delivery::Ignored(None),
    }
}

/// Decides what a comment on an issue asks for.
pub fn handle_issue_comment<Command: BotCommand>(event: GitHubIssueCommentEvent) -> (delivery:
    Delivery<Command>)
    ensures
        is_delivery_of(event, delivery),
        // A comment whose author is not on the list asks for nothing,
        // whatever it says and whomever it addresses.
        !is_authorized_login(event.comment.user.login@) ==> delivery is Ignored,
{
    match event.action {
        GitHubIssueCommentEventAction::Created => {
            match AuthorizedAction::try_from(EventContext::IssueComment(event)) {
                Ok(action) => Delivery::Dispatched(action),
                Err(e) => Delivery::Ignored(Some(e)),
            }
        },
        _ => Delivery::Ignored(None),
    }
}

/// How a delivery ends once its command has run.
#[derive(Debug)]
pub struct Settlement {
    /// The status with which the delivery is answered.
    pub status: Status,
    /// What is sent to take back the acknowledgement of a command that
    /// failed: the comment is shown again and gets a thumbs-down. Both are
    /// sent whether or not the other succeeds.
    pub compensation: Option<(GraphqlQuery, PostRequest)>,
}

/// Whether `query` shows the comment that triggered `action` again.
pub open spec fn shows_again<Command: BotCommand>(
    action: &AuthorizedAction<Command>,
    query: GraphqlQuery,
) -> bool {
    &&& query.query@ == unminimize_comment_mutation()
    &&& query.variables matches Some(MutationInput::Unminimize { clientMutationId, subjectId })
        && clientMutationId is None && subjectId@ == action.spec_context().trigger().node_id@
}

/// Whether `request` gives the comment that triggered `action` a thumbs-down.
pub open spec fn disapproves<Command: BotCommand>(
    action: &AuthorizedAction<Command>,
    request: PostRequest,
) -> bool {
    &&& request.url@ == comment_reactions_url(
        action.spec_context().repo(),
        action.spec_context().trigger().id,
    )
    &&& request.payload == (Payload::Reaction { content: GitHubReaction::MinusOne })
}

/// Settles a delivery whose command has run. A command that succeeded
/// leaves nothing to do. One that failed, with `failure` as its status, is
/// answered with that status, and what acknowledged it is taken back.
pub fn settle<Command: BotCommand>(action: &AuthorizedAction<Command>, failure: Option<Status>)
    -> (settlement: Settlement)
    ensures
        match failure {
            None => settlement.status == Status::NoContent && settlement.compensation is None,
            Some(status) => settlement.status == status && (settlement.compensation matches Some(
                (query, request),
            ) && shows_again(action, query) && disapproves(action, request)),
        },
{
    match failure {
        None => Settlement { status: Status::NoContent, compensation: None },
        Some(status) => {
            let context = action.context();
            let query = unminimize_comment(context.get_trigger());
            let request = create_issue_comment_reaction(
                context.get_repo(),
                context.get_trigger(),
                &GitHubReaction::MinusOne,
            );
            Settlement { status, compensation: Some((query, request)) }
        },
    }
}

} // verus!
