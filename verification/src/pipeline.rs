//! The verification pipeline: from an inbound request and a set of required
//! scopes to an authorized identity, or to the reason why there is none.
//!
//! The pipeline asks the server three questions, one after the other, each
//! only once the answer to the one before is in. It never sends anything
//! itself: [`Pipeline::action`] says what to do next, and [`Pipeline::step`]
//! takes the answer. A failure ends it at once, so that a question which
//! follows a failed one is never asked.

use crate::header::{first_values, presented, read_authorization, AuthHeader, AuthHeaderView};
use crate::session::{
    described_user, Check, Description, DescriptionView, Session, SessionView, CHECK_ENDPOINT,
    DESCRIBE_ENDPOINT,
};
use crate::transport::{plain_get, Request, RequestView};
use crate::user::{holds_all, Scopes, ScopesView, User, UserView, SCOPES_ENDPOINT};
use vstd::prelude::*;

verus! {

/// The cause recorded when a usable session turns out to belong to nobody.
pub const NO_USER: &'static str = "User no longer exists after checking that the session exists";

/// The cause recorded when an answer arrives that was not asked for.
pub const OUT_OF_TURN: &'static str = "The answer does not belong to the pending question";

/// Why a request was turned away.
#[derive(Debug)]
pub enum Error {
    /// The request has no `authorization` header.
    MissingAuthHeader,
    /// The `authorization` header cannot be read as text.
    AuthHeaderNonAscii,
    /// The verification could not be completed: a request failed, an answer
    /// could not be read, or the session has no user. The text is the cause,
    /// kept for diagnostics; callers see one kind of failure only.
    InternalError(String),
    /// The session does not exist, has expired, or is not active.
    InvalidSession,
    /// The user lacks at least one required scope. Which one is not told.
    MissingScopes,
}

/// An [`Error`] as text.
pub enum ErrorView {
    MissingAuthHeader,
    AuthHeaderNonAscii,
    InternalError(Seq<char>),
    InvalidSession,
    MissingScopes,
}

impl View for Error {
    type V = ErrorView;

    open spec fn view(&self) -> ErrorView {
        match self {
            Error::MissingAuthHeader => ErrorView::MissingAuthHeader,
            Error::AuthHeaderNonAscii => ErrorView::AuthHeaderNonAscii,
            Error::InternalError(cause) => ErrorView::InternalError(cause@),
            Error::InvalidSession => ErrorView::InvalidSession,
            Error::MissingScopes => ErrorView::MissingScopes,
        }
    }
}

/// The identity a request was authorized as: its session and the user
/// behind it.
#[derive(Debug)]
pub struct SessionCheck {
    pub session: Session,
    pub user: User,
}

/// A [`SessionCheck`] as text.
pub struct SessionCheckView {
    pub session: SessionView,
    pub user: UserView,
}

impl View for SessionCheck {
    type V = SessionCheckView;

    open spec fn view(&self) -> SessionCheckView {
        SessionCheckView { session: self.session@, user: self.user@ }
    }
}

impl Clone for SessionCheck {
    fn clone(&self) -> (copy: SessionCheck)
        ensures
            copy@ == self@,
    {
        SessionCheck { session: self.session.clone(), user: self.user.clone() }
    }
}

/// How far a verification has come.
#[derive(Debug)]
pub enum State {
    /// Nothing has been looked at yet.
    Start,
    /// The credential was read; whether the server knows it is open.
    HeaderExtracted { session: Session },
    /// The session is valid and active; whose it is is open.
    SessionValidated { session: Session },
    /// The user is known; which scopes it holds is open.
    UserResolved { session: Session, user: User },
    /// Every check passed.
    Authorized(SessionCheck),
    /// A check failed, and nothing further is asked.
    Failed(Error),
}

/// A [`State`] as text.
pub enum StateView {
    Start,
    HeaderExtracted { session: SessionView },
    SessionValidated { session: SessionView },
    UserResolved { session: SessionView, user: UserView },
    Authorized(SessionCheckView),
    Failed(ErrorView),
}

impl View for State {
    type V = StateView;

    open spec fn view(&self) -> StateView {
        match self {
            State::Start => StateView::Start,
            State::HeaderExtracted { session } => StateView::HeaderExtracted { session: session@ },
            State::SessionValidated { session } => StateView::SessionValidated {
                session: session@,
            },
            State::UserResolved { session, user } => StateView::UserResolved {
                session: session@,
                user: user@,
            },
            State::Authorized(granted) => StateView::Authorized(granted@),
            State::Failed(error) => StateView::Failed(error@),
        }
    }
}

/// What came back from the step that was pending. A request that failed, or
/// whose answer could not be read, comes back as `Err` with the cause.
#[derive(Debug)]
pub enum Event {
    /// What the request presents as its credential.
    Header(AuthHeader),
    /// The answer to [`Action::CheckSession`].
    Check(Result<Check, String>),
    /// The answer to [`Action::DescribeSession`].
    Description(Result<Description, String>),
    /// The answer to [`Action::FetchScopes`].
    Scopes(Result<Scopes, String>),
}

/// An [`Event`] as text.
pub enum EventView {
    Header(AuthHeaderView),
    Check(Result<Check, Seq<char>>),
    Description(Result<DescriptionView, Seq<char>>),
    Scopes(Result<ScopesView, Seq<char>>),
}

impl View for Event {
    type V = EventView;

    open spec fn view(&self) -> EventView {
        match self {
            Event::Header(header) => EventView::Header(header@),
            Event::Check(Ok(check)) => EventView::Check(Ok(*check)),
            Event::Check(Err(cause)) => EventView::Check(Err(cause@)),
            Event::Description(Ok(description)) => EventView::Description(Ok(description@)),
            Event::Description(Err(cause)) => EventView::Description(Err(cause@)),
            Event::Scopes(Ok(scopes)) => EventView::Scopes(Ok(scopes@)),
            Event::Scopes(Err(cause)) => EventView::Scopes(Err(cause@)),
        }
    }
}

/// What is to be done next for a verification.
#[derive(Debug)]
pub enum Action {
    /// Read the credential off the request. Nothing is sent.
    ReadHeader,
    /// Send the request and hand back its answer as [`Event::Check`].
    CheckSession(Request),
    /// Send the request and hand back its answer as [`Event::Description`].
    DescribeSession(Request),
    /// Send the request and hand back its answer as [`Event::Scopes`].
    FetchScopes(Request),
    /// Nothing: the verification has ended, see [`Pipeline::outcome`].
    Finish,
}

/// An [`Action`] as text.
pub enum ActionView {
    ReadHeader,
    CheckSession(RequestView),
    DescribeSession(RequestView),
    FetchScopes(RequestView),
    Finish,
}

impl View for Action {
    type V = ActionView;

    open spec fn view(&self) -> ActionView {
        match self {
            Action::ReadHeader => ActionView::ReadHeader,
            Action::CheckSession(request) => ActionView::CheckSession(request@),
            Action::DescribeSession(request) => ActionView::DescribeSession(request@),
            Action::FetchScopes(request) => ActionView::FetchScopes(request@),
            Action::Finish => ActionView::Finish,
        }
    }
}

impl ActionView {
    /// Whether the action sends a request to the server.
    pub open spec fn is_remote_call(self) -> bool {
        self is CheckSession || self is DescribeSession || self is FetchScopes
    }
}

/// One verification: the server it asks, the scopes it requires, and how far
/// it has come.
#[derive(Debug)]
pub struct Pipeline {
    server_uri: String,
    required: Vec<&'static str>,
    state: State,
}

/// A [`Pipeline`] as text.
pub struct PipelineView {
    pub server_uri: Seq<char>,
    pub required: Seq<Seq<char>>,
    pub state: StateView,
}

impl View for Pipeline {
    type V = PipelineView;

    closed spec fn view(&self) -> PipelineView {
        PipelineView {
            server_uri: self.server_uri@,
            required: self.required.deep_view(),
            state: self.state@,
        }
    }
}

impl StateView {
    /// Whether the verification has ended, one way or the other.
    pub open spec fn is_final(self) -> bool {
        self is Authorized || self is Failed
    }

    /// How many steps lie behind: one for each question that was answered in
    /// the verification's favour, and all four once it has ended.
    pub open spec fn progress(self) -> nat {
        match self {
            StateView::Start => 0,
            StateView::HeaderExtracted { .. } => 1,
            StateView::SessionValidated { .. } => 2,
            StateView::UserResolved { .. } => 3,
            StateView::Authorized(_) => 4,
            StateView::Failed(_) => 4,
        }
    }

    /// How the verification ended, if it has.
    pub open spec fn outcome(self) -> Option<Result<SessionCheckView, ErrorView>> {
        match self {
            StateView::Authorized(granted) => Some(Ok(granted)),
            StateView::Failed(error) => Some(Err(error)),
            _ => None,
        }
    }
}

impl PipelineView {
    /// A verification against the server at `server_uri` that has not begun.
    pub open spec fn start(server_uri: Seq<char>, required: Seq<Seq<char>>) -> PipelineView {
        PipelineView { server_uri, required, state: StateView::Start }
    }

    /// The same verification in another state.
    pub open spec fn at(self, state: StateView) -> PipelineView {
        PipelineView { state, ..self }
    }

    /// What is to be done next.
    pub open spec fn action(self) -> ActionView {
        match self.state {
            StateView::Start => ActionView::ReadHeader,
            StateView::HeaderExtracted { session } => ActionView::CheckSession(
                plain_get(session.uri, CHECK_ENDPOINT@, session.id),
            ),
            StateView::SessionValidated { session } => ActionView::DescribeSession(
                plain_get(session.uri, DESCRIBE_ENDPOINT@, session.id),
            ),
            StateView::UserResolved { session, user } => ActionView::FetchScopes(
                plain_get(user.uri, SCOPES_ENDPOINT@, user.id),
            ),
            StateView::Authorized(_) => ActionView::Finish,
            StateView::Failed(_) => ActionView::Finish,
        }
    }

    /// The state that `event` leads to.
    ///
    /// Each state takes one kind of answer. A verification that has ended
    /// stays as it is whatever arrives; one that is under way and receives
    /// an answer of another kind fails with an internal error.
    pub open spec fn next_state(self, event: EventView) -> StateView {
        match (self.state, event) {
            (StateView::Authorized(_), _) => self.state,
            (StateView::Failed(_), _) => self.state,
            (StateView::Start, EventView::Header(AuthHeaderView::Missing)) => StateView::Failed(
                ErrorView::MissingAuthHeader,
            ),
            (StateView::Start, EventView::Header(AuthHeaderView::NonAscii)) => StateView::Failed(
                ErrorView::AuthHeaderNonAscii,
            ),
            (
                StateView::Start,
                EventView::Header(AuthHeaderView::Text(id)),
            ) => StateView::HeaderExtracted { session: SessionView { id, uri: self.server_uri } },
            (StateView::HeaderExtracted { session }, EventView::Check(Ok(check))) => {
                if check.session_valid && check.active {
                    StateView::SessionValidated { session }
                } else {
                    StateView::Failed(ErrorView::InvalidSession)
                }
            },
            (StateView::HeaderExtracted { .. }, EventView::Check(Err(cause))) => StateView::Failed(
                ErrorView::InternalError(cause),
            ),
            (StateView::SessionValidated { session }, EventView::Description(Ok(description))) => {
                match described_user(session.uri, description.user_id) {
                    Some(user) => StateView::UserResolved { session, user },
                    None => StateView::Failed(ErrorView::InternalError(NO_USER@)),
                }
            },
            (
                StateView::SessionValidated { .. },
                EventView::Description(Err(cause)),
            ) => StateView::Failed(ErrorView::InternalError(cause)),
            (StateView::UserResolved { session, user }, EventView::Scopes(Ok(scopes))) => {
                if holds_all(self.required, scopes.scopes) {
                    StateView::Authorized(SessionCheckView { session, user })
                } else {
                    StateView::Failed(ErrorView::MissingScopes)
                }
            },
            (StateView::UserResolved { .. }, EventView::Scopes(Err(cause))) => StateView::Failed(
                ErrorView::InternalError(cause),
            ),
            _ => StateView::Failed(ErrorView::InternalError(OUT_OF_TURN@)),
        }
    }

    /// The verification after `event`.
    pub open spec fn step(self, event: EventView) -> PipelineView {
        self.at(self.next_state(event))
    }

    /// The verification after each of `events` in turn.
    pub open spec fn run(self, events: Seq<EventView>) -> PipelineView
        decreases events.len(),
    {
        if events.len() == 0 {
            self
        } else {
            self.step(events[0]).run(events.drop_first())
        }
    }
}

/// The end of a verification as text.
pub open spec fn outcome_view(outcome: Option<Result<SessionCheck, Error>>) -> Option<
    Result<SessionCheckView, ErrorView>,
> {
    match outcome {
        Some(Ok(granted)) => Some(Ok(granted@)),
        Some(Err(error)) => Some(Err(error@)),
        None => None,
    }
}

impl Pipeline {
    /// A verification against the server at `server_uri` that will require
    /// every scope of `scopes`. Nothing has been looked at yet.
    pub fn new(server_uri: &str, scopes: Vec<&'static str>) -> (pipeline: Pipeline)
        ensures
            pipeline@ == PipelineView::start(server_uri@, scopes.deep_view()),
    {
        Pipeline { server_uri: server_uri.to_owned(), required: scopes, state: State::Start }
    }

    /// How far the verification has come.
    pub fn state(&self) -> (state: &State)
        ensures
            state@ == self@.state,
    {
        &self.state
    }

    /// What is to be done next. A question is asked only while the
    /// verification is under way, and each state asks its own.
    pub fn action(&self) -> (action: Action)
        ensures
            action@ == self@.action(),
    {
        match &self.state {
            State::Start => Action::ReadHeader,
            State::HeaderExtracted { session } => Action::CheckSession(session.check()),
            State::SessionValidated { session } => Action::DescribeSession(session.describe()),
            State::UserResolved { session, user } => Action::FetchScopes(user.get_scopes()),
            State::Authorized(_) => Action::Finish,
            State::Failed(_) => Action::Finish,
        }
    }

    /// Takes what came back from the pending step and moves on.
    pub fn step(self, event: Event) -> (next: Pipeline)
        ensures
            next@ == self@.step(event@),
    {
        let Pipeline { server_uri, required, state } = self;
        let next = match state {
            State::Authorized(granted) => State::Authorized(granted),
            State::Failed(error) => State::Failed(error),
            State::Start => match event {
                Event::Header(AuthHeader::Missing) => State::Failed(Error::MissingAuthHeader),
                Event::Header(AuthHeader::NonAscii) => State::Failed(Error::AuthHeaderNonAscii),
                Event::Header(AuthHeader::Text(id)) => State::HeaderExtracted {
                    session: Session::new(id.as_str(), server_uri.as_str()),
                },
                _ => State::Failed(Error::InternalError(OUT_OF_TURN.to_owned())),
            },
            State::HeaderExtracted { session } => match event {
                Event::Check(Ok(check)) => {
                    if !check.session_valid || !check.active {
                        State::Failed(Error::InvalidSession)
                    } else {
                        State::SessionValidated { session }
                    }
                },
                Event::Check(Err(cause)) => State::Failed(Error::InternalError(cause)),
                _ => State::Failed(Error::InternalError(OUT_OF_TURN.to_owned())),
            },
            State::SessionValidated { session } => match event {
                Event::Description(Ok(description)) => match session.get_user(&description) {
                    Some(user) => State::UserResolved { session, user },
                    None => State::Failed(Error::InternalError(NO_USER.to_owned())),
                },
                Event::Description(Err(cause)) => State::Failed(Error::InternalError(cause)),
                _ => State::Failed(Error::InternalError(OUT_OF_TURN.to_owned())),
            },
            State::UserResolved { session, user } => match event {
                Event::Scopes(Ok(scopes)) => {
                    if scopes.contains_all(&required) {
                        State::Authorized(SessionCheck { session, user })
                    } else {
                        State::Failed(Error::MissingScopes)
                    }
                },
                Event::Scopes(Err(cause)) => State::Failed(Error::InternalError(cause)),
                _ => State::Failed(Error::InternalError(OUT_OF_TURN.to_owned())),
            },
        };
        Pipeline { server_uri, required, state: next }
    }

    /// How the verification ended: the authorized identity or the reason for
    /// its refusal, and `None` while it is still under way.
    pub fn outcome(self) -> (outcome: Option<Result<SessionCheck, Error>>)
        ensures
            outcome_view(outcome) == self@.state.outcome(),
    {
        match self.state {
            State::Authorized(granted) => Some(Ok(granted)),
            State::Failed(error) => Some(Err(error)),
            _ => None,
        }
    }
}

/// Begins the verification of a request with the given `headers` against the
/// server at `server_uri`, for an operation that requires every scope of
/// `scopes`.
///
/// The credential is read here, so the pipeline comes back either failed or
/// with the session check as its next action.
pub fn check_session(
    headers: &actix_web::http::header::HeaderMap,
    server_uri: &str,
    scopes: Vec<&'static str>,
) -> (pipeline: Pipeline)
    ensures
        pipeline@ == PipelineView::start(server_uri@, scopes.deep_view()).step(
            EventView::Header(presented(first_values(*headers))),
        ),
{
    let header = read_authorization(headers);
    Pipeline::new(server_uri, scopes).step(Event::Header(header))
}

} // verus!
