//! Client for an authorization server: sessions, users, and the pipeline that
//! decides whether an inbound request may run a protected operation.
//!
//! Nothing here performs a request. The accessors of [`Session`] and [`User`]
//! describe the GET to send, and [`Pipeline`] decides, answer by answer, what
//! is asked next and how the verification ends.

pub mod header;
pub mod laws;
pub mod pipeline;
pub mod session;
pub mod text;
pub mod transport;
pub mod user;

pub use header::{read_authorization, AuthHeader, AuthHeaderView};
pub use pipeline::{
    check_session, Action, ActionView, Error, ErrorView, Event, EventView, Pipeline, PipelineView,
    SessionCheck, SessionCheckView, State, StateView,
};
pub use session::{Check, Session, SessionView};
pub use transport::{Request, RequestView};
pub use user::{AccessToken, Scopes, ScopesView, User, UserView};
