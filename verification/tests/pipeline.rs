use actix_web::http::header::{HeaderMap, HeaderName, HeaderValue};
use authlander_client::pipeline::{NO_USER, OUT_OF_TURN};
use authlander_client::session::Description;
use authlander_client::{
    check_session, Action, AuthHeader, Check, Error, Event, Pipeline, Scopes, SessionCheck, State,
};

const SERVER: &str = "https://auth.example.com";

fn presenting(id: &str) -> Event {
    Event::Header(AuthHeader::Text(id.to_string()))
}

fn checked(session_valid: bool, active: bool) -> Event {
    Event::Check(Ok(Check { session_valid, active }))
}

fn described(user_id: Option<&str>) -> Event {
    Event::Description(Ok(Description {
        active: true,
        user_id: user_id.map(|id| id.to_string()),
        expiry: None,
        name: None,
        picture: None,
        email: None,
    }))
}

fn holding(names: &[&str]) -> Event {
    Event::Scopes(Ok(Scopes {
        scopes: names.iter().map(|name| name.to_string()).collect(),
        is_active: true,
    }))
}

fn run(required: Vec<&'static str>, events: Vec<Event>) -> Pipeline {
    let mut pipeline = Pipeline::new(SERVER, required);
    for event in events {
        pipeline = pipeline.step(event);
    }
    pipeline
}

fn resolved(required: Vec<&'static str>) -> Pipeline {
    run(required, vec![presenting("sess-123"), checked(true, true), described(Some("u-9"))])
}

fn granted(pipeline: Pipeline) -> SessionCheck {
    match pipeline.outcome() {
        Some(Ok(granted)) => granted,
        other => panic!("unexpected {:?}", other),
    }
}

fn refused(pipeline: Pipeline) -> Error {
    match pipeline.outcome() {
        Some(Err(error)) => error,
        other => panic!("unexpected {:?}", other),
    }
}

fn internal_cause(pipeline: Pipeline) -> String {
    match refused(pipeline) {
        Error::InternalError(cause) => cause,
        other => panic!("unexpected {:?}", other),
    }
}

#[test]
fn new_pipeline_reads_the_header_first() {
    let pipeline = Pipeline::new(SERVER, vec!["read"]);
    assert!(matches!(pipeline.state(), State::Start));
    assert!(matches!(pipeline.action(), Action::ReadHeader));
    assert!(pipeline.outcome().is_none());
}

#[test]
fn missing_header_is_refused_without_a_request() {
    let pipeline = run(vec!["read"], vec![Event::Header(AuthHeader::Missing)]);
    assert!(matches!(pipeline.action(), Action::Finish));
    assert!(matches!(refused(pipeline), Error::MissingAuthHeader));
}

#[test]
fn unreadable_header_is_refused_without_a_request() {
    let pipeline = run(vec!["read"], vec![Event::Header(AuthHeader::NonAscii)]);
    assert!(matches!(pipeline.action(), Action::Finish));
    assert!(matches!(refused(pipeline), Error::AuthHeaderNonAscii));
}

#[test]
fn readable_header_leads_to_the_session_check() {
    let pipeline = run(vec![], vec![presenting("sess-123")]);
    match pipeline.state() {
        State::HeaderExtracted { session } => {
            assert_eq!(session.id(), "sess-123");
            assert_eq!(session.uri(), SERVER);
        },
        other => panic!("unexpected {:?}", other),
    }
    match pipeline.action() {
        Action::CheckSession(request) => {
            assert_eq!(request.url, "https://auth.example.com/session/check/sess-123");
            assert_eq!(request.authorization, None);
        },
        other => panic!("unexpected {:?}", other),
    }
    assert!(pipeline.outcome().is_none());
}

#[test]
fn credential_with_scheme_prefix_is_not_stripped() {
    let pipeline = run(vec![], vec![presenting("Bearer sess-123 ")]);
    match pipeline.action() {
        Action::CheckSession(request) => {
            assert_eq!(request.url, "https://auth.example.com/session/check/Bearer sess-123 ");
        },
        other => panic!("unexpected {:?}", other),
    }
}

#[test]
fn valid_but_inactive_session_is_invalid() {
    let pipeline = run(vec![], vec![presenting("s"), checked(true, false)]);
    assert!(matches!(pipeline.action(), Action::Finish));
    assert!(matches!(refused(pipeline), Error::InvalidSession));
}

#[test]
fn active_but_not_valid_session_is_invalid() {
    let pipeline = run(vec![], vec![presenting("s"), checked(false, true)]);
    assert!(matches!(pipeline.action(), Action::Finish));
    assert!(matches!(refused(pipeline), Error::InvalidSession));
}

#[test]
fn neither_valid_nor_active_session_is_invalid() {
    let pipeline = run(vec![], vec![presenting("s"), checked(false, false)]);
    assert!(matches!(pipeline.action(), Action::Finish));
    assert!(matches!(refused(pipeline), Error::InvalidSession));
}

#[test]
fn valid_and_active_session_is_described_next() {
    let pipeline = run(vec![], vec![presenting("sess-123"), checked(true, true)]);
    match pipeline.state() {
        State::SessionValidated { session } => assert_eq!(session.id(), "sess-123"),
        other => panic!("unexpected {:?}", other),
    }
    match pipeline.action() {
        Action::DescribeSession(request) => {
            assert_eq!(request.url, "https://auth.example.com/session/describe/sess-123");
            assert_eq!(request.authorization, None);
        },
        other => panic!("unexpected {:?}", other),
    }
    assert!(pipeline.outcome().is_none());
}

#[test]
fn failed_session_check_is_an_internal_error() {
    let pipeline =
        run(vec![], vec![presenting("s"), Event::Check(Err("connection refused".to_string()))]);
    assert!(matches!(pipeline.action(), Action::Finish));
    assert_eq!(internal_cause(pipeline), "connection refused");
}

#[test]
fn session_without_user_fails_before_scopes_are_asked() {
    let pipeline = run(vec![], vec![presenting("s"), checked(true, true), described(None)]);
    assert!(matches!(pipeline.action(), Action::Finish));
    let error = refused(pipeline);
    assert!(!matches!(error, Error::InvalidSession));
    match error {
        Error::InternalError(cause) => {
            assert_eq!(cause, "User no longer exists after checking that the session exists");
            assert_eq!(cause, NO_USER);
        },
        other => panic!("unexpected {:?}", other),
    }
}

#[test]
fn failed_session_description_is_an_internal_error() {
    let pipeline = run(
        vec![],
        vec![presenting("s"), checked(true, true), Event::Description(Err("bad json".to_string()))],
    );
    assert!(matches!(pipeline.action(), Action::Finish));
    assert_eq!(internal_cause(pipeline), "bad json");
}

#[test]
fn resolved_user_has_its_scopes_fetched_next() {
    let pipeline = resolved(vec!["read"]);
    match pipeline.state() {
        State::UserResolved { session, user } => {
            assert_eq!(session.id(), "sess-123");
            assert_eq!(user.id(), "u-9");
            assert_eq!(user.uri(), SERVER);
        },
        other => panic!("unexpected {:?}", other),
    }
    match pipeline.action() {
        Action::FetchScopes(request) => {
            assert_eq!(request.url, "https://auth.example.com/user/scopes/u-9");
            assert_eq!(request.authorization, None);
        },
        other => panic!("unexpected {:?}", other),
    }
    assert!(pipeline.outcome().is_none());
}

#[test]
fn failed_scope_fetch_is_an_internal_error() {
    let pipeline = resolved(vec![]).step(Event::Scopes(Err("timed out".to_string())));
    assert!(matches!(pipeline.action(), Action::Finish));
    assert_eq!(internal_cause(pipeline), "timed out");
}

#[test]
fn required_subset_of_held_scopes_is_authorized() {
    let pipeline = resolved(vec!["a"]).step(holding(&["a", "b"]));
    assert!(matches!(pipeline.action(), Action::Finish));
    let granted = granted(pipeline);
    assert_eq!(granted.session.id(), "sess-123");
    assert_eq!(granted.user.id(), "u-9");
}

#[test]
fn missing_required_scope_is_refused() {
    let pipeline = resolved(vec!["a", "c"]).step(holding(&["a", "b"]));
    assert!(matches!(pipeline.action(), Action::Finish));
    assert!(matches!(refused(pipeline), Error::MissingScopes));
}

#[test]
fn empty_requirement_is_authorized_whatever_is_held() {
    assert_eq!(granted(resolved(vec![]).step(holding(&["a", "b"]))).user.id(), "u-9");
    assert_eq!(granted(resolved(vec![]).step(holding(&[]))).user.id(), "u-9");
}

#[test]
fn repeated_and_reordered_requirement_is_authorized() {
    let pipeline = resolved(vec!["write", "read", "write"]).step(holding(&["read", "write"]));
    assert_eq!(granted(pipeline).user.id(), "u-9");
}

#[test]
fn end_to_end_example_is_authorized() {
    let mut headers = HeaderMap::new();
    headers.insert(HeaderName::from_static("authorization"), HeaderValue::from_static("sess-123"));
    let pipeline = check_session(&headers, SERVER, vec!["read"]);
    assert!(matches!(pipeline.action(), Action::CheckSession(_)));
    let pipeline = pipeline.step(checked(true, true));
    assert!(matches!(pipeline.action(), Action::DescribeSession(_)));
    let pipeline = pipeline.step(described(Some("u-9")));
    assert!(matches!(pipeline.action(), Action::FetchScopes(_)));
    let pipeline = pipeline.step(holding(&["read", "write"]));
    assert!(matches!(pipeline.action(), Action::Finish));
    let granted = granted(pipeline);
    assert_eq!(granted.session.id(), "sess-123");
    assert_eq!(granted.session.uri(), SERVER);
    assert_eq!(granted.user.id(), "u-9");
    assert_eq!(granted.user.uri(), SERVER);
    let copy = granted.clone();
    assert!(copy.session == granted.session);
    assert!(copy.user == granted.user);
}

#[test]
fn request_without_header_is_refused_at_once() {
    let pipeline = check_session(&HeaderMap::new(), SERVER, vec!["read"]);
    assert!(matches!(pipeline.action(), Action::Finish));
    assert!(matches!(refused(pipeline), Error::MissingAuthHeader));
}

#[test]
fn request_with_non_ascii_header_is_refused_at_once() {
    let mut headers = HeaderMap::new();
    headers.insert(
        HeaderName::from_static("authorization"),
        HeaderValue::from_bytes(&[0x73, 0xe9]).unwrap(),
    );
    let pipeline = check_session(&headers, SERVER, vec![]);
    assert!(matches!(pipeline.action(), Action::Finish));
    assert!(matches!(refused(pipeline), Error::AuthHeaderNonAscii));
}

#[test]
fn request_header_is_found_whatever_its_case() {
    let mut headers = HeaderMap::new();
    headers.insert(
        HeaderName::from_bytes(b"AUTHORIZATION").unwrap(),
        HeaderValue::from_static("sess-123"),
    );
    let pipeline = check_session(&headers, SERVER, vec![]);
    match pipeline.action() {
        Action::CheckSession(request) => {
            assert_eq!(request.url, "https://auth.example.com/session/check/sess-123");
        },
        other => panic!("unexpected {:?}", other),
    }
}

#[test]
fn answer_out_of_turn_is_an_internal_error() {
    assert_eq!(internal_cause(run(vec![], vec![checked(true, true)])), OUT_OF_TURN);
    assert_eq!(internal_cause(run(vec![], vec![presenting("s"), holding(&["a"])])), OUT_OF_TURN);
    assert_eq!(
        internal_cause(run(vec![], vec![presenting("s"), presenting("s")])),
        "The answer does not belong to the pending question"
    );
    assert_eq!(
        internal_cause(run(vec![], vec![presenting("s"), checked(true, true), checked(true, true)])),
        OUT_OF_TURN
    );
    assert_eq!(internal_cause(resolved(vec![]).step(described(Some("u-9")))), OUT_OF_TURN);
}

#[test]
fn scopes_out_of_turn_never_authorize() {
    let pipeline = run(vec![], vec![holding(&["a"])]);
    assert!(matches!(refused(pipeline), Error::InternalError(_)));
    let pipeline = run(vec![], vec![presenting("s"), checked(true, true), holding(&["a"])]);
    assert!(matches!(refused(pipeline), Error::InternalError(_)));
}

#[test]
fn refusal_is_final() {
    let pipeline = run(
        vec![],
        vec![
            presenting("s"),
            checked(false, true),
            checked(true, true),
            described(Some("u-9")),
            holding(&["a"]),
        ],
    );
    assert!(matches!(pipeline.action(), Action::Finish));
    assert!(matches!(refused(pipeline), Error::InvalidSession));
}

#[test]
fn authorization_is_final() {
    let pipeline = resolved(vec!["a"])
        .step(holding(&["a"]))
        .step(holding(&[]))
        .step(checked(false, false))
        .step(Event::Header(AuthHeader::Missing));
    assert!(matches!(pipeline.action(), Action::Finish));
    assert_eq!(granted(pipeline).user.id(), "u-9");
}

#[test]
fn interleaved_verifications_do_not_mix() {
    let mut first = Pipeline::new(SERVER, vec!["a"]);
    let mut second = Pipeline::new("http://other", vec!["b"]);
    let mut third = Pipeline::new(SERVER, vec![]);
    first = first.step(presenting("one"));
    second = second.step(presenting("two"));
    third = third.step(presenting("three"));
    second = second.step(checked(true, true));
    third = third.step(checked(true, false));
    first = first.step(checked(true, true));
    first = first.step(described(Some("u-1")));
    second = second.step(described(Some("u-2")));
    second = second.step(holding(&["a"]));
    first = first.step(holding(&["a"]));
    let one = granted(first);
    assert_eq!(one.session.id(), "one");
    assert_eq!(one.session.uri(), SERVER);
    assert_eq!(one.user.id(), "u-1");
    assert!(matches!(refused(second), Error::MissingScopes));
    assert!(matches!(refused(third), Error::InvalidSession));
}
