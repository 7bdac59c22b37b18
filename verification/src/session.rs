//! Sessions: an opaque credential bound to the server that issued it.

use crate::text::{clone_optional_text, same_optional_text};
use crate::transport::{plain_get, Request};
use crate::user::{User, UserView};
use vstd::prelude::*;

verus! {

/// Path under which the server says whether a session is usable.
pub const CHECK_ENDPOINT: &'static str = "/session/check/";

/// Path under which the server describes a session.
pub const DESCRIBE_ENDPOINT: &'static str = "/session/describe/";

/// A session identifier together with the base URI of its server.
///
/// Building one performs no request and says nothing about whether the
/// server knows the session. Two sessions are equal when both parts are.
#[derive(Debug)]
pub struct Session {
    id: String,
    uri: String,
}

/// What a [`Session`] stands for: its identifier and its server, as text.
pub struct SessionView {
    pub id: Seq<char>,
    pub uri: Seq<char>,
}

impl View for Session {
    type V = SessionView;

    closed spec fn view(&self) -> SessionView {
        SessionView { id: self.id@, uri: self.uri@ }
    }
}

/// The server's answer to a session check.
///
/// The two flags are independent: a session can exist and be suspended.
#[derive(Debug, Clone, Copy, PartialEq, Eq, Structural)]
pub struct Check {
    /// The session exists and has not expired.
    pub session_valid: bool,
    /// The session is neither suspended nor logged out.
    pub active: bool,
}

/// The server's description of a session. Every optional field stands alone:
/// none is implied by another.
#[derive(Debug)]
pub struct Description {
    /// Whether the session is active.
    pub active: bool,
    /// The user behind the session, where it has one.
    pub user_id: Option<String>,
    /// When the session expires, in seconds since the Unix epoch.
    pub expiry: Option<i64>,
    /// The user's display name.
    pub name: Option<String>,
    /// The user's picture, base64-encoded.
    pub picture: Option<String>,
    /// The user's e-mail address.
    pub email: Option<String>,
}

/// A session [`Description`] as text.
pub struct DescriptionView {
    pub active: bool,
    pub user_id: Option<Seq<char>>,
    pub expiry: Option<i64>,
    pub name: Option<Seq<char>>,
    pub picture: Option<Seq<char>>,
    pub email: Option<Seq<char>>,
}

impl View for Description {
    type V = DescriptionView;

    open spec fn view(&self) -> DescriptionView {
        DescriptionView {
            active: self.active,
            user_id: self.user_id.deep_view(),
            expiry: self.expiry,
            name: self.name.deep_view(),
            picture: self.picture.deep_view(),
            email: self.email.deep_view(),
        }
    }
}

impl Clone for Description {
    fn clone(&self) -> (copy: Description)
        ensures
            copy@ == self@,
    {
        Description {
            active: self.active,
            user_id: clone_optional_text(&self.user_id),
            expiry: self.expiry,
            name: clone_optional_text(&self.name),
            picture: clone_optional_text(&self.picture),
            email: clone_optional_text(&self.email),
        }
    }
}

impl PartialEq for Description {
    fn eq(&self, other: &Description) -> (same: bool) {
        self.active == other.active && same_optional_text(&self.user_id, &other.user_id)
            && self.expiry == other.expiry && same_optional_text(&self.name, &other.name)
            && same_optional_text(&self.picture, &other.picture) && same_optional_text(
            &self.email,
            &other.email,
        )
    }
}

impl Eq for Description {

}

impl vstd::std_specs::cmp::PartialEqSpecImpl for Description {
    open spec fn obeys_eq_spec() -> bool {
        true
    }

    open spec fn eq_spec(&self, other: &Description) -> bool {
        self@ == other@
    }
}

/// The user that a session on the server at `uri` resolves to, given the
/// identifier its description names: a user on that same server, or none
/// where the description names nobody.
pub open spec fn described_user(uri: Seq<char>, user_id: Option<Seq<char>>) -> Option<UserView> {
    match user_id {
        Some(id) => Some(UserView { id, uri }),
        None => None,
    }
}

impl Session {
    /// Binds the identifier `id` to the server at `server_uri`. Both are kept
    /// as they come: nothing is trimmed and no scheme prefix is removed.
    pub fn new(id: &str, server_uri: &str) -> (session: Session)
        ensures
            session@ == (SessionView { id: id@, uri: server_uri@ }),
    {
        Session { id: id.to_owned(), uri: server_uri.to_owned() }
    }

    /// The session's identifier.
    pub fn id(&self) -> (id: &str)
        ensures
            id@ == self@.id,
    {
        self.id.as_str()
    }

    /// The base URI of the session's server.
    pub fn uri(&self) -> (uri: &str)
        ensures
            uri@ == self@.uri,
    {
        self.uri.as_str()
    }

    /// The request that asks the server whether this session exists and is
    /// active. Its answer is a [`Check`].
    pub fn check(&self) -> (request: Request)
        ensures
            request@ == plain_get(self@.uri, CHECK_ENDPOINT@, self@.id),
    {
        Request::get(self.uri.as_str(), CHECK_ENDPOINT, self.id.as_str())
    }

    /// The request for everything the server knows of this session. Its
    /// answer is a [`Description`].
    pub fn describe(&self) -> (request: Request)
        ensures
            request@ == plain_get(self@.uri, DESCRIBE_ENDPOINT@, self@.id),
    {
        Request::get(self.uri.as_str(), DESCRIBE_ENDPOINT, self.id.as_str())
    }

    /// The user behind this session, read off the server's `description` of
    /// it: the described user on this session's server, or `None` where the
    /// session belongs to nobody.
    pub fn get_user(&self, description: &Description) -> (user: Option<User>)
        ensures
            user.deep_view() == described_user(self@.uri, description@.user_id),
    {
        match &description.user_id {
            Some(user_id) => Some(User::new(user_id.as_str(), self.uri.as_str())),
            None => None,
        }
    }
}

impl Clone for Session {
    fn clone(&self) -> (copy: Session)
        ensures
            copy@ == self@,
    {
        Session { id: self.id.clone(), uri: self.uri.clone() }
    }
}

impl PartialEq for Session {
    fn eq(&self, other: &Session) -> (same: bool) {
        self.id == other.id && self.uri == other.uri
    }
}

impl Eq for Session {

}

impl vstd::std_specs::cmp::PartialEqSpecImpl for Session {
    open spec fn obeys_eq_spec() -> bool {
        true
    }

    open spec fn eq_spec(&self, other: &Session) -> bool {
        self@ == other@
    }
}

} // verus!
