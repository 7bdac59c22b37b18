//! Reading the credential off an inbound request's headers.
//!
//! The header map and its values belong to the host framework. What they
//! hold is named here, and the two calls made into them are believed, not
//! proved; everything built on the two is.

use vstd::prelude::*;

verus! {

/// The header under which a request presents its credential.
pub const AUTHORIZATION: &'static str = "authorization";

/// The host framework's header map, carried through unopened.
#[verifier::external_type_specification]
#[verifier::external_body]
pub struct ExHeaderMap(actix_web::http::header::HeaderMap);

/// One value of a header, carried through unopened.
#[verifier::external_type_specification]
#[verifier::external_body]
pub struct ExHeaderValue(actix_web::http::header::HeaderValue);

/// The error of a header value that cannot be read as text.
#[verifier::external_type_specification]
#[verifier::external_body]
pub struct ExToStrError(actix_web::http::header::ToStrError);

/// For each header name that `headers` holds, written in lower case, the
/// bytes of the first value stored under it.
pub uninterp spec fn first_values(headers: actix_web::http::header::HeaderMap) -> Map<
    Seq<char>,
    Seq<u8>,
>;

/// The bytes that make up `value`.
pub uninterp spec fn value_bytes(value: actix_web::http::header::HeaderValue) -> Seq<u8>;

/// A header name that every lookup takes as it is: at most 64 lower-case
/// letters, digits and hyphens, and at least one.
pub open spec fn is_lowercase_name(name: Seq<char>) -> bool {
    &&& 0 < name.len() <= 64
    &&& forall|i: int|
        0 <= i < name.len() ==> {
            let c = #[trigger] name[i];
            ('a' <= c && c <= 'z') || ('0' <= c && c <= '9') || c == '-'
        }
}

/// A byte that may stand in header text: a printable ASCII character, the
/// space included, or a tab.
pub open spec fn is_visible_ascii(byte: u8) -> bool {
    (32 <= byte && byte < 127) || byte == 9
}

/// Whether `bytes` can be read as header text: every byte is visible ASCII.
pub open spec fn is_visible_text(bytes: Seq<u8>) -> bool {
    forall|i: int| 0 <= i < bytes.len() ==> is_visible_ascii(#[trigger] bytes[i])
}

/// `bytes` read as text, one character for each byte.
pub open spec fn bytes_as_text(bytes: Seq<u8>) -> Seq<char> {
    Seq::new(bytes.len(), |i: int| bytes[i] as char)
}

/// Calls `HeaderMap::get` with a name given as text.
///
/// Believed of it: for a name that is already in lower case it finds the
/// entry stored under exactly that name, hands out the first of the entry's
/// values, and returns `None` only where the map holds no such entry.
#[verifier::external_body]
fn first_value<'a>(headers: &'a actix_web::http::header::HeaderMap, name: &str) -> (value: Option<
    &'a actix_web::http::header::HeaderValue,
>)
    requires
        is_lowercase_name(name@),
    ensures
        match value {
            Some(found) => first_values(*headers).contains_key(name@) && value_bytes(*found)
                == first_values(*headers)[name@],
            None => !first_values(*headers).contains_key(name@),
        },
{
    headers.get(name)
}

/// Calls `HeaderValue::to_str`.
///
/// Believed of it: it succeeds exactly when every byte of the value is
/// visible ASCII, and then yields those bytes as text, unchanged.
#[verifier::external_body]
fn value_text<'a>(value: &'a actix_web::http::header::HeaderValue) -> (text: Result<
    &'a str,
    actix_web::http::header::ToStrError,
>)
    ensures
        match text {
            Ok(read) => is_visible_text(value_bytes(*value)) && read@ == bytes_as_text(
                value_bytes(*value),
            ),
            Err(_) => !is_visible_text(value_bytes(*value)),
        },
{
    value.to_str()
}

/// What a request presents as its credential.
#[derive(Debug)]
pub enum AuthHeader {
    /// The request has no `authorization` header.
    Missing,
    /// It has one, whose bytes cannot be read as text.
    NonAscii,
    /// It has one, and this is its value: verbatim, with no scheme prefix
    /// removed and nothing trimmed.
    Text(String),
}

/// An [`AuthHeader`] as text.
pub enum AuthHeaderView {
    Missing,
    NonAscii,
    Text(Seq<char>),
}

impl View for AuthHeader {
    type V = AuthHeaderView;

    open spec fn view(&self) -> AuthHeaderView {
        match self {
            AuthHeader::Missing => AuthHeaderView::Missing,
            AuthHeader::NonAscii => AuthHeaderView::NonAscii,
            AuthHeader::Text(text) => AuthHeaderView::Text(text@),
        }
    }
}

/// The credential presented by a request whose headers hold `held`, a map
/// from lower-case header names to the bytes of their first value.
pub open spec fn presented(held: Map<Seq<char>, Seq<u8>>) -> AuthHeaderView {
    if !held.contains_key(AUTHORIZATION@) {
        AuthHeaderView::Missing
    } else if !is_visible_text(held[AUTHORIZATION@]) {
        AuthHeaderView::NonAscii
    } else {
        AuthHeaderView::Text(bytes_as_text(held[AUTHORIZATION@]))
    }
}

/// The name looked up is one that the header map takes as it is.
pub proof fn lemma_authorization_is_lowercase()
    ensures
        is_lowercase_name(AUTHORIZATION@),
{
    reveal_strlit("authorization");
}

/// A single byte outside ASCII makes a header value unreadable.
pub proof fn lemma_non_ascii_is_unreadable(held: Map<Seq<char>, Seq<u8>>, at: int)
    requires
        held.contains_key(AUTHORIZATION@),
        0 <= at < held[AUTHORIZATION@].len(),
        held[AUTHORIZATION@][at] >= 128,
    ensures
        presented(held) == AuthHeaderView::NonAscii,
{
}

/// Reads the credential off `headers`: the first value stored under
/// `authorization`, whatever the case in which the request spelled the name.
pub fn read_authorization(headers: &actix_web::http::header::HeaderMap) -> (header: AuthHeader)
    ensures
        header@ == presented(first_values(*headers)),
{
    proof {
        lemma_authorization_is_lowercase();
    }
    match first_value(headers, AUTHORIZATION) {
        None => AuthHeader::Missing,
        Some(value) => match value_text(value) {
            Err(_) => AuthHeader::NonAscii,
            Ok(text) => AuthHeader::Text(text.to_owned()),
        },
    }
}

} // verus!
