//! The one request the client ever sends: a GET to `{base_uri}{endpoint}{id}`.

use vstd::prelude::*;
use vstd::string::*;

verus! {

/// A GET that is still to be sent.
///
/// `authorization`, where present, goes out verbatim as the value of the
/// `Authorization` header; every other request carries no credential.
#[derive(Debug)]
pub struct Request {
    pub url: String,
    pub authorization: Option<String>,
}

/// A [`Request`] as text.
pub struct RequestView {
    pub url: Seq<char>,
    pub authorization: Option<Seq<char>>,
}

impl View for Request {
    type V = RequestView;

    open spec fn view(&self) -> RequestView {
        RequestView { url: self.url@, authorization: self.authorization.deep_view() }
    }
}

/// The address of the resource `id` behind `endpoint` on the server at
/// `base_uri`: the three joined as they are, with nothing put between them
/// and nothing escaped.
pub open spec fn endpoint_url(base_uri: Seq<char>, endpoint: Seq<char>, id: Seq<char>) -> Seq<char> {
    base_uri + endpoint + id
}

/// The request for `endpoint_url(base_uri, endpoint, id)` without credential.
pub open spec fn plain_get(base_uri: Seq<char>, endpoint: Seq<char>, id: Seq<char>) -> RequestView {
    RequestView { url: endpoint_url(base_uri, endpoint, id), authorization: None }
}

/// The same request with `credential` as its `Authorization` header.
pub open spec fn authorized_get(
    base_uri: Seq<char>,
    endpoint: Seq<char>,
    id: Seq<char>,
    credential: Seq<char>,
) -> RequestView {
    RequestView { url: endpoint_url(base_uri, endpoint, id), authorization: Some(credential) }
}

impl Request {
    /// Describes the credential-less GET for the resource `id` behind
    /// `endpoint` on the server at `base_uri`.
    pub fn get(base_uri: &str, endpoint: &str, id: &str) -> (request: Request)
        ensures
            request@ == plain_get(base_uri@, endpoint@, id@),
    {
        let mut url = base_uri.to_owned();
        url.append(endpoint);
        url.append(id);
        Request { url, authorization: None }
    }

    /// Attaches `credential`, replacing one that was attached before.
    pub fn with_authorization(self, credential: &str) -> (request: Request)
        ensures
            request@.url == self@.url,
            request@.authorization == Some(credential@),
    {
        Request { url: self.url, authorization: Some(credential.to_owned()) }
    }
}

impl Clone for Request {
    fn clone(&self) -> (copy: Request)
        ensures
            copy@ == self@,
    {
        let authorization = match &self.authorization {
            Some(credential) => Some(credential.clone()),
            None => None,
        };
        Request { url: self.url.clone(), authorization }
    }
}

} // verus!
