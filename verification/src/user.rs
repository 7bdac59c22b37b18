//! Users: an identifier bound to the server that knows the account.

use crate::text::same_text;
use crate::transport::{authorized_get, plain_get, Request};
use vstd::prelude::*;

verus! {

/// Path under which the server lists a user's scopes.
pub const SCOPES_ENDPOINT: &'static str = "/user/scopes/";

/// Path under which the server describes a user.
pub const DESCRIBE_ENDPOINT: &'static str = "/user/describe/";

/// Path under which the server hands out a delegated access token.
pub const TOKEN_ENDPOINT: &'static str = "/token/get/";

/// A user identifier together with the base URI of its server.
///
/// Building one performs no request: whether the user exists shows only in
/// the answer to the first request made for it.
#[derive(Debug)]
pub struct User {
    id: String,
    uri: String,
}

/// What a [`User`] stands for: its identifier and its server, as text.
pub struct UserView {
    pub id: Seq<char>,
    pub uri: Seq<char>,
}

impl View for User {
    type V = UserView;

    closed spec fn view(&self) -> UserView {
        UserView { id: self.id@, uri: self.uri@ }
    }
}

impl DeepView for User {
    type V = UserView;

    open spec fn deep_view(&self) -> UserView {
        self@
    }
}

/// The scopes a user holds, and whether the account itself is enabled.
///
/// The server promises that no scope is listed twice; nothing here relies on
/// it.
#[derive(Debug)]
pub struct Scopes {
    pub scopes: Vec<String>,
    pub is_active: bool,
}

/// [`Scopes`] as text.
pub struct ScopesView {
    pub scopes: Seq<Seq<char>>,
    pub is_active: bool,
}

impl View for Scopes {
    type V = ScopesView;

    open spec fn view(&self) -> ScopesView {
        ScopesView { scopes: self.scopes.deep_view(), is_active: self.is_active }
    }
}

/// Whether every scope of `required` occurs in `held`. The order of either
/// list and a scope named twice make no difference, and `held` may name
/// scopes that nothing requires.
pub open spec fn holds_all(required: Seq<Seq<char>>, held: Seq<Seq<char>>) -> bool {
    forall|i: int| 0 <= i < required.len() ==> held.contains(#[trigger] required[i])
}

/// Holding every required scope is a matter of the two sets of names alone:
/// the required ones must be among the held ones.
pub proof fn lemma_holds_all_is_subset(required: Seq<Seq<char>>, held: Seq<Seq<char>>)
    ensures
        holds_all(required, held) <==> required.to_set().subset_of(held.to_set()),
{
    if holds_all(required, held) {
        assert forall|name: Seq<char>| required.to_set().contains(name) implies held.to_set().contains(
            name,
        ) by {
            let i = choose|i: int| 0 <= i < required.len() && required[i] == name;
            assert(held.contains(required[i]));
        }
    }
    if required.to_set().subset_of(held.to_set()) {
        assert forall|i: int| 0 <= i < required.len() implies held.contains(
            #[trigger] required[i],
        ) by {
            assert(required.to_set().contains(required[i]));
        }
    }
}

/// Where nothing is required, whatever is held suffices.
pub proof fn lemma_nothing_required(held: Seq<Seq<char>>)
    ensures
        holds_all(Seq::empty(), held),
{
}

/// Requirements that name the same scopes, in whatever order and however
/// often, are met by the same holdings.
pub proof fn lemma_order_and_repeats_are_immaterial(
    first: Seq<Seq<char>>,
    second: Seq<Seq<char>>,
    held: Seq<Seq<char>>,
)
    requires
        first.to_set() == second.to_set(),
    ensures
        holds_all(first, held) == holds_all(second, held),
{
    lemma_holds_all_is_subset(first, held);
    lemma_holds_all_is_subset(second, held);
}

impl Scopes {
    /// Whether the user holds `scope`.
    pub fn contains(&self, scope: &str) -> (found: bool)
        ensures
            found == self@.scopes.contains(scope@),
    {
        let mut at: usize = 0;
        while at < self.scopes.len()
            invariant
                at <= self.scopes.len(),
                forall|i: int| 0 <= i < at ==> self@.scopes[i] != scope@,
            decreases self.scopes.len() - at,
        {
            if same_text(self.scopes[at].as_str(), scope) {
                assert(self@.scopes[at as int] == scope@);
                return true;
            }
            at += 1;
        }
        false
    }

    /// Whether the user holds every scope of `required`.
    pub fn contains_all(&self, required: &Vec<&'static str>) -> (all: bool)
        ensures
            all == holds_all(required.deep_view(), self@.scopes),
    {
        let mut at: usize = 0;
        while at < required.len()
            invariant
                at <= required.len(),
                forall|i: int| 0 <= i < at ==> self@.scopes.contains(#[trigger] required.deep_view()[i]),
            decreases required.len() - at,
        {
            if !self.contains(required[at]) {
                assert(!self@.scopes.contains(required.deep_view()[at as int]));
                return false;
            }
            at += 1;
        }
        true
    }
}

/// The server's description of a user.
#[derive(Debug)]
pub struct Description {
    pub active: bool,
    pub name: Option<String>,
    pub email: Option<String>,
    pub picture: Option<String>,
}

/// A user [`Description`] as text.
pub struct DescriptionView {
    pub active: bool,
    pub name: Option<Seq<char>>,
    pub email: Option<Seq<char>>,
    pub picture: Option<Seq<char>>,
}

impl View for Description {
    type V = DescriptionView;

    open spec fn view(&self) -> DescriptionView {
        DescriptionView {
            active: self.active,
            name: self.name.deep_view(),
            email: self.email.deep_view(),
            picture: self.picture.deep_view(),
        }
    }
}

/// A third-party access token minted by the server on a user's behalf.
///
/// An active answer without `access_token` means that none is issued at the
/// moment.
#[derive(Debug)]
pub struct AccessToken {
    pub access_token: Option<String>,
    /// When the token expires, in seconds since the Unix epoch.
    pub expiry: Option<i64>,
    pub active: bool,
}

/// An [`AccessToken`] as text.
pub struct AccessTokenView {
    pub access_token: Option<Seq<char>>,
    pub expiry: Option<i64>,
    pub active: bool,
}

impl View for AccessToken {
    type V = AccessTokenView;

    open spec fn view(&self) -> AccessTokenView {
        AccessTokenView {
            access_token: self.access_token.deep_view(),
            expiry: self.expiry,
            active: self.active,
        }
    }
}

impl User {
    /// Binds the identifier `id` to the server at `server_uri`, both kept as
    /// they come.
    pub fn new(id: &str, server_uri: &str) -> (user: User)
        ensures
            user@ == (UserView { id: id@, uri: server_uri@ }),
    {
        User { id: id.to_owned(), uri: server_uri.to_owned() }
    }

    /// The user's identifier.
    pub fn id(&self) -> (id: &str)
        ensures
            id@ == self@.id,
    {
        self.id.as_str()
    }

    /// The base URI of the user's server.
    pub fn uri(&self) -> (uri: &str)
        ensures
            uri@ == self@.uri,
    {
        self.uri.as_str()
    }

    /// The request for the scopes this user holds. Its answer is a
    /// [`Scopes`].
    pub fn get_scopes(&self) -> (request: Request)
        ensures
            request@ == plain_get(self@.uri, SCOPES_ENDPOINT@, self@.id),
    {
        Request::get(self.uri.as_str(), SCOPES_ENDPOINT, self.id.as_str())
    }

    /// The request for this user's profile. Its answer is a [`Description`].
    pub fn describe(&self) -> (request: Request)
        ensures
            request@ == plain_get(self@.uri, DESCRIBE_ENDPOINT@, self@.id),
    {
        Request::get(self.uri.as_str(), DESCRIBE_ENDPOINT, self.id.as_str())
    }

    /// The request for a delegated access token of this user. Unlike every
    /// other request it carries a credential: `access_token`, forwarded
    /// verbatim. Its answer is an [`AccessToken`].
    pub fn token(&self, access_token: &str) -> (request: Request)
        ensures
            request@ == authorized_get(self@.uri, TOKEN_ENDPOINT@, self@.id, access_token@),
    {
        Request::get(self.uri.as_str(), TOKEN_ENDPOINT, self.id.as_str()).with_authorization(
            access_token,
        )
    }
}

impl Clone for User {
    fn clone(&self) -> (copy: User)
        ensures
            copy@ == self@,
    {
        User { id: self.id.clone(), uri: self.uri.clone() }
    }
}

impl PartialEq for User {
    fn eq(&self, other: &User) -> (same: bool) {
        self.id == other.id && self.uri == other.uri
    }
}

impl Eq for User {

}

impl vstd::std_specs::cmp::PartialEqSpecImpl for User {
    open spec fn obeys_eq_spec() -> bool {
        true
    }

    open spec fn eq_spec(&self, other: &User) -> bool {
        self@ == other@
    }
}

} // verus!
