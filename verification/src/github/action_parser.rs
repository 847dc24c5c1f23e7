//! The command grammar: a comment addresses the bot by a mention and names a
//! command, and only a listed user may have it carried out.
//!
//! A command body reads `@<login> /<name> <arguments>`.

use crate::github::action::common::PatchError;
use crate::github::data::{
    GitHubComment, GitHubIssueCommentEvent, GitHubPullRequest, GitHubPullRequestReview,
    GitHubPullRequestReviewComment, GitHubRepo, GitHubUser,
};
use crate::text::{
    chars_of, find_char, find_whitespace, first_whitespace, is_whitespace,
    lemma_first_whitespace_is, lemma_index_of_is, skip_whitespace, split_once, str_eq, string_of,
    trim_start,
};
use vstd::prelude::*;
use vstd::string::*;

verus! {

broadcast use vstd::string::group_string_axioms;

/// The logins that may address the bot and have commands carried out.
pub open spec fn is_authorized_login(login: Seq<char>) -> bool {
    login == "williamboman"@
}

pub fn authorized_login(login: &str) -> (b: bool)
    ensures
        b == is_authorized_login(login@),
{
    str_eq(login, "williamboman")
}

/// Why a comment is no command to carry out.
#[derive(Debug)]
pub enum ActionError {
    /// The user is not on the list.
    NotAllowedUser(String),
    /// The text does not start with `@`.
    InvalidMention(String),
    /// The text does not start with `/`.
    InvalidCommand(String),
    /// The body holds no space to part the mention from the command.
    InvalidSyntax(String),
    /// The comment has no body.
    EmptyBody,
    /// The surface has no command of this name.
    UnknownCommand { name: String, surface: &'static str },
    /// The command needs arguments and has none.
    MissingArguments { name: &'static str },
    /// The arguments hold no patch.
    Patch(PatchError),
}

pub enum ActionErrorView {
    NotAllowedUser(Seq<char>),
    InvalidMention(Seq<char>),
    InvalidCommand(Seq<char>),
    InvalidSyntax(Seq<char>),
    EmptyBody,
    UnknownCommand { name: Seq<char>, surface: Seq<char> },
    MissingArguments { name: Seq<char> },
    Patch(PatchError),
}

impl View for ActionError {
    type V = ActionErrorView;

    open spec fn view(&self) -> ActionErrorView {
        match self {
            ActionError::NotAllowedUser(user) => ActionErrorView::NotAllowedUser(user@),
            ActionError::InvalidMention(text) => ActionErrorView::InvalidMention(text@),
            ActionError::InvalidCommand(text) => ActionErrorView::InvalidCommand(text@),
            ActionError::InvalidSyntax(text) => ActionErrorView::InvalidSyntax(text@),
            ActionError::EmptyBody => ActionErrorView::EmptyBody,
            ActionError::UnknownCommand { name, surface } => ActionErrorView::UnknownCommand {
                name: name@,
                surface: surface@,
            },
            ActionError::MissingArguments { name } => ActionErrorView::MissingArguments {
                name: name@,
            },
            ActionError::Patch(e) => ActionErrorView::Patch(*e),
        }
    }
}

impl ActionErrorView {
    /// The text of the error.
    pub open spec fn text(self) -> Seq<char> {
        match self {
            ActionErrorView::NotAllowedUser(user) => user + " is not an allowed user."@,
            ActionErrorView::InvalidMention(text) => text + " is not a valid mention."@,
            ActionErrorView::InvalidCommand(text) => text + " is not a valid command"@,
            ActionErrorView::InvalidSyntax(text) => text + " is not valid action syntax."@,
            ActionErrorView::EmptyBody => "Body is empty."@,
            ActionErrorView::UnknownCommand { name, surface } => name + " is not a valid "@
                + surface + " command."@,
            ActionErrorView::MissingArguments { name } => name + " is missing arguments."@,
            ActionErrorView::Patch(e) => e.text(),
        }
    }
}

impl ActionError {
    pub fn message(&self) -> (m: String)
        ensures
            m@ == self@.text(),
    {
        match self {
            ActionError::NotAllowedUser(user) => {
                let mut m = user.clone();
                m.append(" is not an allowed user.");
                m
            },
            ActionError::InvalidMention(text) => {
                let mut m = text.clone();
                m.append(" is not a valid mention.");
                m
            },
            ActionError::InvalidCommand(text) => {
                let mut m = text.clone();
                m.append(" is not a valid command");
                m
            },
            ActionError::InvalidSyntax(text) => {
                let mut m = text.clone();
                m.append(" is not valid action syntax.");
                m
            },
            ActionError::EmptyBody => "Body is empty.".to_owned(),
            ActionError::UnknownCommand { name, surface } => {
                let mut m = name.clone();
                m.append(" is not a valid ");
                m.append(surface);
                m.append(" command.");
                m
            },
            ActionError::MissingArguments { name } => {
                let mut m = (*name).to_owned();
                m.append(" is missing arguments.");
                m
            },
            ActionError::Patch(e) => e.message(),
        }
    }
}

/// The views of a result's two sides.
pub open spec fn result_view<T: View, E: View>(r: Result<T, E>) -> Result<T::V, E::V> {
    match r {
        Ok(value) => Ok(value@),
        Err(error) => Err(error@),
    }
}

/// The user whom a command addresses. It is kept for the record; the user
/// who may have the command carried out is the author of the comment.
#[derive(Debug)]
pub struct Actionee(pub String);

impl View for Actionee {
    type V = Seq<char>;

    open spec fn view(&self) -> Seq<char> {
        self.0@
    }
}

/// The mention that names `login`.
pub open spec fn mention_token(login: Seq<char>) -> Seq<char> {
    seq!['@'] + login
}

/// The login that a mention names.
pub open spec fn parse_mention(s: Seq<char>) -> Result<Seq<char>, ActionErrorView> {
    if s.len() > 0 && s[0] == '@' {
        if is_authorized_login(s.skip(1)) {
            Ok(s.skip(1))
        } else {
            Err(ActionErrorView::NotAllowedUser(s.skip(1)))
        }
    } else {
        Err(ActionErrorView::InvalidMention(s))
    }
}

impl Actionee {
    /// Reads a mention: `@` and a listed login.
    pub fn from_str(s: &str) -> (r: Result<Actionee, ActionError>)
        ensures
            result_view(r) == parse_mention(s@),
    {
        let chars = chars_of(s);
        if chars.len() > 0 && chars[0] == '@' {
            let user = string_of(&chars, 1, chars.len());
            assert(chars@.subrange(1, chars.len() as int) == chars@.skip(1));
            if authorized_login(user.as_str()) {
                Ok(Actionee(user))
            } else {
                Err(ActionError::NotAllowedUser(user))
            }
        } else {
            Err(ActionError::InvalidMention(s.to_owned()))
        }
    }

    /// The mention as it is written in a comment.
    pub fn mention(&self) -> (m: String)
        ensures
            m@ == mention_token(self@),
    {
        let mut m = "@".to_owned();
        proof {
            reveal_strlit("@");
            assert("@"@ == seq!['@']);
        }
        m.append(self.0.as_str());
        m
    }
}

/// A user who may have commands carried out.
#[derive(Debug)]
pub struct AuthorizedUser(pub String);

impl View for AuthorizedUser {
    type V = Seq<char>;

    open spec fn view(&self) -> Seq<char> {
        self.0@
    }
}

/// The listed user with this login.
pub open spec fn parse_authorized_user(login: Seq<char>) -> Result<Seq<char>, ActionErrorView> {
    if is_authorized_login(login) {
        Ok(login)
    } else {
        Err(ActionErrorView::NotAllowedUser(login))
    }
}

impl AuthorizedUser {
    /// Accepts a login that is on the list.
    pub fn from_str(s: &str) -> (r: Result<AuthorizedUser, ActionError>)
        ensures
            result_view(r) == parse_authorized_user(s@),
    {
        if authorized_login(s) {
            Ok(AuthorizedUser(s.to_owned()))
        } else {
            Err(ActionError::NotAllowedUser(s.to_owned()))
        }
    }

    /// Accepts a user whose login is on the list.
    pub fn try_from(value: &GitHubUser) -> (r: Result<AuthorizedUser, ActionError>)
        ensures
            result_view(r) == parse_authorized_user(value.login@),
    {
        AuthorizedUser::from_str(value.login.as_str())
    }
}

/// A command as it is written: its name and what follows it.
#[derive(Debug)]
pub struct RawCommand {
    pub raw_command: String,
    pub raw_arguments: Option<String>,
}

pub struct RawCommandView {
    pub raw_command: Seq<char>,
    pub raw_arguments: Option<Seq<char>>,
}

impl View for RawCommand {
    type V = RawCommandView;

    open spec fn view(&self) -> RawCommandView {
        RawCommandView {
            raw_command: self.raw_command@,
            raw_arguments: match self.raw_arguments {
                Some(arguments) => Some(arguments@),
                None => None,
            },
        }
    }
}

/// The command as it is written in a comment.
pub open spec fn command_token(name: Seq<char>) -> Seq<char> {
    seq!['/'] + name
}

/// The command that a text names. The text starts with `/`; the name runs
/// up to the first whitespace; the arguments are what follows the run of
/// whitespace after the name, kept as they are. A command with no
/// whitespace after its name has no arguments.
pub open spec fn parse_raw_command(s: Seq<char>) -> Result<RawCommandView, ActionErrorView> {
    if s.len() > 0 && s[0] == '/' {
        let body = s.skip(1);
        let end = first_whitespace(body);
        if end < body.len() {
            Ok(
                RawCommandView {
                    raw_command: body.take(end),
                    raw_arguments: Some(trim_start(body.skip(end))),
                },
            )
        } else {
            Ok(RawCommandView { raw_command: body, raw_arguments: None })
        }
    } else {
        Err(ActionErrorView::InvalidCommand(s))
    }
}

impl RawCommand {
    /// Reads a command: `/`, its name and, after whitespace, its arguments.
    pub fn from_str(command_body: &str) -> (r: Result<RawCommand, ActionError>)
        ensures
            result_view(r) == parse_raw_command(command_body@),
    {
        let chars = chars_of(command_body);
        if chars.len() > 0 && chars[0] == '/' {
            let end = find_whitespace(&chars, 1);
            let ghost body = chars@.skip(1);
            if end < chars.len() {
                let start = skip_whitespace(&chars, end);
                let raw_command = string_of(&chars, 1, end);
                let raw_arguments = string_of(&chars, start, chars.len());
                proof {
                    assert(chars@.subrange(1, end as int) == body.take(end - 1));
                    assert(body.skip(end - 1) == chars@.skip(end as int));
                    assert(chars@.subrange(start as int, chars.len() as int) == chars@.skip(
                        end as int,
                    ).skip(start - end));
                }
                Ok(RawCommand { raw_command, raw_arguments: Some(raw_arguments) })
            } else {
                let raw_command = string_of(&chars, 1, chars.len());
                assert(chars@.subrange(1, chars.len() as int) == body);
                Ok(RawCommand { raw_command, raw_arguments: None })
            }
        } else {
            Err(ActionError::InvalidCommand(command_body.to_owned()))
        }
    }
}

/// The commands of one surface of the bot: a closed set, each made from a
/// command as it is written.
pub trait BotCommand: View + Sized {
    /// The command that `raw` names on this surface.
    spec fn parse(raw: RawCommandView) -> Result<Self::V, ActionErrorView>;

    /// Makes the command that `value` names, or says why there is none.
    fn try_from(value: RawCommand) -> (r: Result<Self, ActionError>)
        ensures
            result_view(r) == Self::parse(value@),
    ;
}

/// The mention and the command of a body, before the surface has its say.
pub open spec fn parse_tokens(s: Seq<char>) -> Result<(Seq<char>, RawCommandView), ActionErrorView> {
    match split_once(s, ' ') {
        None => Err(ActionErrorView::InvalidSyntax(s)),
        Some((mention, command)) => match parse_mention(mention) {
            Err(e) => Err(e),
            Ok(actionee) => match parse_raw_command(command) {
                Err(e) => Err(e),
                Ok(raw) => Ok((actionee, raw)),
            },
        },
    }
}

pub struct ActionView<V> {
    pub actionee: Seq<char>,
    pub command: V,
}

/// The action that a comment's body asks for: the body is parted at its
/// first space into a mention and a command, and each is read on its own.
pub open spec fn parse_action<Command: BotCommand>(s: Seq<char>) -> Result<
    ActionView<Command::V>,
    ActionErrorView,
> {
    match parse_tokens(s) {
        Err(e) => Err(e),
        Ok((actionee, raw)) => match Command::parse(raw) {
            Err(e) => Err(e),
            Ok(command) => Ok(ActionView { actionee, command }),
        },
    }
}

/// What a comment asks for, and of whom.
#[derive(Debug)]
pub struct Action<Command: BotCommand> {
    pub actionee: Actionee,
    pub command: Command,
}

impl<Command: BotCommand> View for Action<Command> {
    type V = ActionView<Command::V>;

    open spec fn view(&self) -> ActionView<Command::V> {
        ActionView { actionee: self.actionee@, command: self.command@ }
    }
}

/// The action that a comment asks for.
pub open spec fn parse_comment<Command: BotCommand>(body: Option<Seq<char>>) -> Result<
    ActionView<Command::V>,
    ActionErrorView,
> {
    match body {
        None => Err(ActionErrorView::EmptyBody),
        Some(text) => parse_action::<Command>(text),
    }
}

impl<Command: BotCommand> Action<Command> {
    /// Reads the body of a comment.
    pub fn from_str(s: &str) -> (r: Result<Action<Command>, ActionError>)
        ensures
            result_view(r) == parse_action::<Command>(s@),
    {
        let chars = chars_of(s);
        let at = find_char(&chars, 0, ' ');
        assert(chars@.skip(0) == chars@);
        if at >= chars.len() {
            return Err(ActionError::InvalidSyntax(s.to_owned()));
        }
        let mention = string_of(&chars, 0, at);
        let command = string_of(&chars, at + 1, chars.len());
        proof {
            assert(chars@.subrange(0, at as int) == chars@.take(at as int));
            assert(chars@.subrange(at + 1, chars.len() as int) == chars@.skip(at + 1));
        }
        let actionee = match Actionee::from_str(mention.as_str()) {
            Ok(actionee) => actionee,
            Err(e) => {
                return Err(e);
            },
        };
        let raw = match RawCommand::from_str(command.as_str()) {
            Ok(raw) => raw,
            Err(e) => {
                return Err(e);
            },
        };
        match Command::try_from(raw) {
            Ok(command) => Ok(Action { actionee, command }),
            Err(e) => Err(e),
        }
    }

    /// Reads the action that a comment, or the body of a review, asks for.
    pub fn try_from(value: &GitHubComment) -> (r: Result<Action<Command>, ActionError>)
        ensures
            result_view(r) == parse_comment::<Command>(
                match value.body {
                    Some(body) => Some(body@),
                    None => None,
                },
            ),
    {
        match &value.body {
            Some(body) => Action::from_str(body.as_str()),
            None => Err(ActionError::EmptyBody),
        }
    }
}

/// Where the pull request of an event is to be had.
#[derive(Debug)]
pub enum PullRequestLookup<'a> {
    /// The event carries it.
    Known(&'a GitHubPullRequest),
    /// It has to be fetched from this URL.
    Fetch(&'a str),
    /// The event has none.
    Absent,
}

/// What an event has to offer to the command that it triggers: the
/// repository, the comment that triggered it, and its pull request.
pub trait AuthorizedActionContext {
    /// Where the pull request is to be had. An event of a pull request
    /// carries it; an event of an issue names where it can be fetched, if
    /// the issue is a pull request. An event that does not say otherwise
    /// has none.
    fn get_pull_request(&self) -> (lookup: PullRequestLookup<'_>)
        default_ensures
            lookup is Absent,
    {
        PullRequestLookup::Absent
    }

    fn get_repo(&self) -> &GitHubRepo;

    fn get_trigger(&self) -> &GitHubComment;
}

impl AuthorizedActionContext for GitHubPullRequestReviewComment {
    fn get_pull_request(&self) -> (lookup: PullRequestLookup<'_>)
        ensures
            lookup == PullRequestLookup::Known(&self.pull_request),
    {
        PullRequestLookup::Known(&self.pull_request)
    }

    fn get_trigger(&self) -> (trigger: &GitHubComment)
        ensures
            trigger == &self.comment,
    {
        &self.comment
    }

    fn get_repo(&self) -> (repo: &GitHubRepo)
        ensures
            repo == &self.pull_request.base.repo,
    {
        &self.pull_request.base.repo
    }
}

impl AuthorizedActionContext for GitHubPullRequestReview {
    fn get_pull_request(&self) -> (lookup: PullRequestLookup<'_>)
        ensures
            lookup == PullRequestLookup::Known(&self.pull_request),
    {
        PullRequestLookup::Known(&self.pull_request)
    }

    fn get_trigger(&self) -> (trigger: &GitHubComment)
        ensures
            trigger == &self.review,
    {
        &self.review
    }

    fn get_repo(&self) -> (repo: &GitHubRepo)
        ensures
            repo == &self.pull_request.base.repo,
    {
        &self.pull_request.base.repo
    }
}

impl AuthorizedActionContext for GitHubIssueCommentEvent {
    fn get_pull_request(&self) -> (lookup: PullRequestLookup<'_>)
        ensures
            match self.issue.pull_request {
                Some(pr) => lookup matches PullRequestLookup::Fetch(url) && url@ == pr.url@,
                None => lookup is Absent,
            },
    {
        match &self.issue.pull_request {
            Some(pr) => PullRequestLookup::Fetch(pr.url.as_str()),
            None => PullRequestLookup::Absent,
        }
    }

    fn get_trigger(&self) -> (trigger: &GitHubComment)
        ensures
            trigger == &self.comment,
    {
        &self.comment
    }

    fn get_repo(&self) -> (repo: &GitHubRepo)
        ensures
            repo == &self.repository,
    {
        &self.repository
    }
}

/// The event that triggered a command.
#[derive(Debug)]
pub enum EventContext {
    IssueComment(GitHubIssueCommentEvent),
    Review(GitHubPullRequestReview),
    ReviewComment(GitHubPullRequestReviewComment),
}

impl EventContext {
    /// The comment that triggered the event.
    pub open spec fn trigger(&self) -> GitHubComment {
        match self {
            EventContext::IssueComment(event) => event.comment,
            EventContext::Review(event) => event.review,
            EventContext::ReviewComment(event) => event.comment,
        }
    }

    /// The repository in which the event took place.
    pub open spec fn repo(&self) -> GitHubRepo {
        match self {
            EventContext::IssueComment(event) => event.repository,
            EventContext::Review(event) => event.pull_request.base.repo,
            EventContext::ReviewComment(event) => event.pull_request.base.repo,
        }
    }

    /// Where the pull request of the event is to be had.
    pub open spec fn pull_request(&self) -> PullRequestSource {
        match self {
            EventContext::IssueComment(event) => match event.issue.pull_request {
                Some(pr) => PullRequestSource::Fetch(pr.url@),
                None => PullRequestSource::Absent,
            },
            EventContext::Review(event) => PullRequestSource::Known(event.pull_request),
            EventContext::ReviewComment(event) => PullRequestSource::Known(event.pull_request),
        }
    }
}

/// Where the pull request of an event is to be had: the model of
/// `PullRequestLookup`.
pub enum PullRequestSource {
    Known(GitHubPullRequest),
    Fetch(Seq<char>),
    Absent,
}

impl<'a> View for PullRequestLookup<'a> {
    type V = PullRequestSource;

    open spec fn view(&self) -> PullRequestSource {
        match self {
            PullRequestLookup::Known(pr) => PullRequestSource::Known(**pr),
            PullRequestLookup::Fetch(url) => PullRequestSource::Fetch(url@),
            PullRequestLookup::Absent => PullRequestSource::Absent,
        }
    }
}

impl AuthorizedActionContext for EventContext {
    fn get_pull_request(&self) -> (lookup: PullRequestLookup<'_>)
        ensures
            lookup@ == self.pull_request(),
    {
        match self {
            EventContext::IssueComment(event) => event.get_pull_request(),
            EventContext::Review(event) => event.get_pull_request(),
            EventContext::ReviewComment(event) => event.get_pull_request(),
        }
    }

    fn get_trigger(&self) -> (trigger: &GitHubComment)
        ensures
            *trigger == self.trigger(),
    {
        match self {
            EventContext::IssueComment(event) => event.get_trigger(),
            EventContext::Review(event) => event.get_trigger(),
            EventContext::ReviewComment(event) => event.get_trigger(),
        }
    }

    fn get_repo(&self) -> (repo: &GitHubRepo)
        ensures
            *repo == self.repo(),
    {
        match self {
            EventContext::IssueComment(event) => event.get_repo(),
            EventContext::Review(event) => event.get_repo(),
            EventContext::ReviewComment(event) => event.get_repo(),
        }
    }
}

/// The body of a comment, as a text.
pub open spec fn body_text(comment: GitHubComment) -> Option<Seq<char>> {
    match comment.body {
        Some(body) => Some(body@),
        None => None,
    }
}

/// What becomes of a comment written by `login`: its author must be on the
/// list, whoever the comment addresses, and its body must ask for an action.
pub open spec fn authorize<Command: BotCommand>(login: Seq<char>, body: Option<Seq<char>>)
    -> Result<ActionView<Command::V>, ActionErrorView> {
    if !is_authorized_login(login) {
        Err(ActionErrorView::NotAllowedUser(login))
    } else {
        parse_comment::<Command>(body)
    }
}

/// An action that a listed user asked for. There is no other way to make
/// one than `try_from`, which checks the author of the comment.
#[derive(Debug)]
pub struct AuthorizedAction<Command: BotCommand> {
    action: Action<Command>,
    context: EventContext,
    authorized_by: AuthorizedUser,
}

impl<Command: BotCommand> AuthorizedAction<Command> {
    #[verifier::type_invariant]
    spec fn authorized(&self) -> bool {
        &&& is_authorized_login(self.authorized_by@)
        &&& self.authorized_by@ == self.context.trigger().user.login@
    }

    pub closed spec fn spec_action(&self) -> &Action<Command> {
        &self.action
    }

    pub closed spec fn spec_context(&self) -> &EventContext {
        &self.context
    }

    pub closed spec fn spec_authorized_by(&self) -> &AuthorizedUser {
        &self.authorized_by
    }

    /// The action asked for.
    #[verifier::when_used_as_spec(spec_action)]
    pub fn action(&self) -> (action: &Action<Command>)
        ensures
            action == self.spec_action(),
    {
        &self.action
    }

    /// The event that triggered the action.
    #[verifier::when_used_as_spec(spec_context)]
    pub fn context(&self) -> (context: &EventContext)
        ensures
            context == self.spec_context(),
    {
        &self.context
    }

    /// The user who asked: the author of the comment.
    #[verifier::when_used_as_spec(spec_authorized_by)]
    pub fn authorized_by(&self) -> (user: &AuthorizedUser)
        ensures
            user == self.spec_authorized_by(),
            is_authorized_login(user@),
            user@ == self.spec_context().trigger().user.login@,
    {
        proof {
            use_type_invariant(self);
        }
        &self.authorized_by
    }

    /// Authorizes the action that an event asks for: the author of the
    /// triggering comment must be on the list, and the comment must hold a
    /// command of this surface.
    pub fn try_from(value: EventContext) -> (r: Result<AuthorizedAction<Command>, ActionError>)
        ensures
            match authorize::<Command>(
                value.trigger().user.login@,
                body_text(value.trigger()),
            ) {
                Ok(action) => r matches Ok(authorized) && authorized.spec_action()@ == action
                    && authorized.spec_context() == value && authorized.spec_authorized_by()@
                    == value.trigger().user.login@,
                Err(e) => r matches Err(error) && error@ == e,
            },
    {
        let authorized_by = match AuthorizedUser::try_from(&value.get_trigger().user) {
            Ok(user) => user,
            Err(e) => {
                return Err(e);
            },
        };
        let action = match Action::try_from(value.get_trigger()) {
            Ok(action) => action,
            Err(e) => {
                return Err(e);
            },
        };
        Ok(AuthorizedAction { action, context: value, authorized_by })
    }
}

/// A text without whitespace.
pub open spec fn is_token(text: Seq<char>) -> bool {
    forall|i: int| 0 <= i < text.len() ==> !is_whitespace(#[trigger] text[i])
}

/// No listed login holds whitespace.
pub proof fn lemma_listed_logins_are_tokens(login: Seq<char>)
    requires
        is_authorized_login(login),
    ensures
        is_token(login),
{
    reveal_strlit("williamboman");
    assert(login.len() == 12);
    assert(!is_whitespace(login[0]) && !is_whitespace(login[1]) && !is_whitespace(login[2])
        && !is_whitespace(login[3]) && !is_whitespace(login[4]) && !is_whitespace(login[5])
        && !is_whitespace(login[6]) && !is_whitespace(login[7]) && !is_whitespace(login[8])
        && !is_whitespace(login[9]) && !is_whitespace(login[10]) && !is_whitespace(login[11]));
}

/// A body made of the mention of a listed login, a space, a command's name
/// without whitespace, a space and arguments is read back as it was
/// written: the mention and the name of the command, written out again,
/// are the tokens of the body, and the arguments are what followed the
/// whitespace after the name.
pub proof fn command_round_trip(login: Seq<char>, name: Seq<char>, arguments: Seq<char>)
    requires
        is_authorized_login(login),
        is_token(name),
    ensures
        parse_tokens(
            mention_token(login) + seq![' '] + command_token(name) + seq![' '] + arguments,
        ) matches Ok((actionee, raw)) && mention_token(actionee) == mention_token(login)
            && command_token(raw.raw_command) == command_token(name) && raw.raw_arguments == Some(
            trim_start(arguments),
        ),
{
    lemma_listed_logins_are_tokens(login);
    let mention = mention_token(login);
    let command = command_token(name) + seq![' '] + arguments;
    let body = mention + seq![' '] + command;
    assert(body == mention_token(login) + seq![' '] + command_token(name) + seq![' '] + arguments);
    assert forall|j: int| 0 <= j < mention.len() implies body[j] != ' ' by {
        if j > 0 {
            assert(body[j] == login[j - 1]);
            assert(!is_whitespace(login[j - 1]));
        }
    }
    lemma_index_of_is(body, ' ', mention.len() as int);
    assert(body.take(mention.len() as int) == mention);
    assert(body.skip(mention.len() as int + 1) == command);
    assert(mention.skip(1) == login);
    let rest = command.skip(1);
    assert(rest == name + seq![' '] + arguments);
    assert forall|j: int| 0 <= j < name.len() implies !is_whitespace(rest[j]) by {
        assert(rest[j] == name[j]);
    }
    lemma_first_whitespace_is(rest, name.len() as int);
    assert(rest.take(name.len() as int) == name);
    let tail = rest.skip(name.len() as int);
    assert(tail == seq![' '] + arguments);
    assert(tail.drop_first() == arguments);
    assert(trim_start(tail) == trim_start(arguments)) by {
        assert(tail.skip(1 + crate::text::leading_whitespace(arguments)) == arguments.skip(
            crate::text::leading_whitespace(arguments),
        )) by {
            crate::text::lemma_leading_whitespace(arguments);
        }
    }
}

/// A command's name alone, with nothing after it, has no arguments.
pub proof fn bare_command_round_trip(login: Seq<char>, name: Seq<char>)
    requires
        is_authorized_login(login),
        is_token(name),
    ensures
        parse_tokens(mention_token(login) + seq![' '] + command_token(name)) == Ok::<
            _,
            ActionErrorView,
        >((login, RawCommandView { raw_command: name, raw_arguments: None })),
{
    lemma_listed_logins_are_tokens(login);
    let mention = mention_token(login);
    let command = command_token(name);
    let body = mention + seq![' '] + command;
    assert forall|j: int| 0 <= j < mention.len() implies body[j] != ' ' by {
        if j > 0 {
            assert(body[j] == login[j - 1]);
            assert(!is_whitespace(login[j - 1]));
        }
    }
    lemma_index_of_is(body, ' ', mention.len() as int);
    assert(body.take(mention.len() as int) == mention);
    assert(body.skip(mention.len() as int + 1) == command);
    assert(mention.skip(1) == login);
    assert(command.skip(1) == name);
    lemma_first_whitespace_is(name, name.len() as int);
}

/// A body that does not start with `@`, or whose second half does not start
/// with `/`, asks for nothing, on any surface.
pub proof fn missing_sigil_fails<Command: BotCommand>(body: Seq<char>)
    ensures
        body.len() == 0 || body[0] != '@' ==> parse_tokens(body) is Err && parse_action::<Command>(
            body,
        ) is Err,
        split_once(body, ' ') matches Some((mention, command)) && (command.len() == 0 || command[0]
            != '/') ==> parse_tokens(body) is Err && parse_action::<Command>(body) is Err,
        split_once(body, ' ') is None ==> parse_action::<Command>(body) == Err::<
            ActionView<Command::V>,
            _,
        >(ActionErrorView::InvalidSyntax(body)),
{
    crate::text::lemma_index_of(body, ' ');
    match split_once(body, ' ') {
        Some((mention, _)) => {
            if mention.len() > 0 {
                assert(mention[0] == body[0]);
            }
        },
        None => {},
    }
}

/// Whatever a comment says, it asks for nothing if its author is not on
/// the list: the mention in it counts for nothing.
pub proof fn authorization_is_actor_specific<Command: BotCommand>(
    login: Seq<char>,
    body: Option<Seq<char>>,
)
    requires
        !is_authorized_login(login),
    ensures
        authorize::<Command>(login, body) == Err::<ActionView<Command::V>, _>(
            ActionErrorView::NotAllowedUser(login),
        ),
{
}

} // verus!
