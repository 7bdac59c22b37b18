use authlander_client::session::Description;
use authlander_client::text::{clone_optional_text, same_optional_text, same_text};
use authlander_client::{Request, Session, User};

fn described(user_id: Option<&str>) -> Description {
    Description {
        active: true,
        user_id: user_id.map(|id| id.to_string()),
        expiry: Some(1_700_000_000),
        name: Some("Ada".to_string()),
        picture: None,
        email: Some("ada@example.com".to_string()),
    }
}

#[test]
fn session_keeps_identifier_and_server() {
    let session = Session::new("sess-123", "https://auth.example.com");
    assert_eq!(session.id(), "sess-123");
    assert_eq!(session.uri(), "https://auth.example.com");
}

#[test]
fn session_identifier_is_kept_verbatim() {
    let session = Session::new("Bearer  abc ", "https://auth.example.com/");
    assert_eq!(session.id(), "Bearer  abc ");
    assert_eq!(session.uri(), "https://auth.example.com/");
}

#[test]
fn session_equality_is_identifier_and_server() {
    let session = Session::new("s", "http://a");
    assert!(session == Session::new("s", "http://a"));
    assert!(session != Session::new("t", "http://a"));
    assert!(session != Session::new("s", "http://b"));
    assert!(session.clone() == session);
}

#[test]
fn session_check_request() {
    let request = Session::new("sess-123", "https://auth.example.com").check();
    assert_eq!(request.url, "https://auth.example.com/session/check/sess-123");
    assert_eq!(request.authorization, None);
}

#[test]
fn session_describe_request() {
    let request = Session::new("sess-123", "https://auth.example.com").describe();
    assert_eq!(request.url, "https://auth.example.com/session/describe/sess-123");
    assert_eq!(request.authorization, None);
}

#[test]
fn session_requests_do_not_escape_or_separate() {
    let request = Session::new("a b/ü", "http://h/").check();
    assert_eq!(request.url, "http://h//session/check/a b/ü");
}

#[test]
fn session_asks_the_same_question_every_time() {
    let session = Session::new("sess-123", "http://h");
    let first = session.check();
    let second = session.check();
    assert_eq!(first.url, second.url);
    assert_eq!(first.authorization, second.authorization);
    let first = session.describe();
    let second = session.describe();
    assert_eq!(first.url, second.url);
    assert_eq!(first.authorization, second.authorization);
    assert_eq!(session.id(), "sess-123");
    assert_eq!(session.uri(), "http://h");
}

#[test]
fn session_user_is_bound_to_the_same_server() {
    let session = Session::new("sess-123", "http://h");
    let user = session.get_user(&described(Some("u-9"))).unwrap();
    assert_eq!(user.id(), "u-9");
    assert_eq!(user.uri(), "http://h");
}

#[test]
fn session_without_user_resolves_to_none() {
    let session = Session::new("sess-123", "http://h");
    assert!(session.get_user(&described(None)).is_none());
}

#[test]
fn description_equality_reads_every_field() {
    let base = described(Some("u-9"));
    assert!(base.clone() == base);
    let mut other = described(Some("u-9"));
    other.active = false;
    assert!(other != base);
    let mut other = described(Some("u-9"));
    other.user_id = None;
    assert!(other != base);
    let mut other = described(Some("u-9"));
    other.expiry = Some(1);
    assert!(other != base);
    let mut other = described(Some("u-9"));
    other.name = Some("Bob".to_string());
    assert!(other != base);
    let mut other = described(Some("u-9"));
    other.picture = Some(String::new());
    assert!(other != base);
    let mut other = described(Some("u-9"));
    other.email = None;
    assert!(other != base);
}

#[test]
fn user_keeps_identifier_and_server() {
    let user = User::new("u-9", "http://h");
    assert_eq!(user.id(), "u-9");
    assert_eq!(user.uri(), "http://h");
    assert!(user == User::new("u-9", "http://h"));
    assert!(user != User::new("u-8", "http://h"));
    assert!(user != User::new("u-9", "http://i"));
    assert!(user.clone() == user);
}

#[test]
fn user_scopes_request() {
    let request = User::new("u-9", "http://h").get_scopes();
    assert_eq!(request.url, "http://h/user/scopes/u-9");
    assert_eq!(request.authorization, None);
}

#[test]
fn user_describe_request() {
    let request = User::new("u-9", "http://h").describe();
    assert_eq!(request.url, "http://h/user/describe/u-9");
    assert_eq!(request.authorization, None);
}

#[test]
fn user_token_request_forwards_the_credential() {
    let request = User::new("u-9", "http://h").token("delegated secret");
    assert_eq!(request.url, "http://h/token/get/u-9");
    assert_eq!(request.authorization, Some("delegated secret".to_string()));
}

#[test]
fn request_joins_its_parts_in_order() {
    let request = Request::get("base", "/end/", "id");
    assert_eq!(request.url, "base/end/id");
    assert_eq!(request.authorization, None);
    let request = Request::get("", "", "");
    assert_eq!(request.url, "");
}

#[test]
fn request_credential_can_be_replaced() {
    let request = Request::get("b", "/e/", "i").with_authorization("one").with_authorization("two");
    assert_eq!(request.url, "b/e/i");
    assert_eq!(request.authorization, Some("two".to_string()));
    let copy = request.clone();
    assert_eq!(copy.url, request.url);
    assert_eq!(copy.authorization, request.authorization);
}

#[test]
fn same_text_compares_every_character() {
    assert!(same_text("", ""));
    assert!(same_text("read", "read"));
    assert!(!same_text("read", "reap"));
    assert!(!same_text("read", "read "));
    assert!(!same_text("Read", "read"));
    assert!(same_text("grüße", "grüße"));
    assert!(!same_text("grüße", "grüsse"));
}

#[test]
fn optional_text_compares_presence_and_content() {
    let a = Some("a".to_string());
    let b = Some("b".to_string());
    assert!(same_optional_text(&a, &a));
    assert!(!same_optional_text(&a, &b));
    assert!(!same_optional_text(&a, &None));
    assert!(!same_optional_text(&None, &b));
    assert!(same_optional_text(&None, &None));
    assert_eq!(clone_optional_text(&a), a);
    assert_eq!(clone_optional_text(&None), None);
}
