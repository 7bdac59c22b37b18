//! What holds of every verification, whatever the request presents and
//! whatever the server answers.

use crate::header::{presented, AuthHeaderView, AUTHORIZATION};
use crate::pipeline::{
    ActionView, ErrorView, EventView, PipelineView, SessionCheckView, StateView, NO_USER,
};
use crate::session::{Check, DescriptionView};
use crate::user::{holds_all, ScopesView};
use vstd::prelude::*;

verus! {

/// A request without an `authorization` header is refused for that reason
/// on the spot: the verification ends before any request is sent.
pub proof fn lemma_missing_header_is_refused_unasked(
    held: Map<Seq<char>, Seq<u8>>,
    server_uri: Seq<char>,
    required: Seq<Seq<char>>,
)
    requires
        !held.contains_key(AUTHORIZATION@),
    ensures
        !PipelineView::start(server_uri, required).action().is_remote_call(),
        PipelineView::start(server_uri, required).step(
            EventView::Header(presented(held)),
        ).state == StateView::Failed(ErrorView::MissingAuthHeader),
        PipelineView::start(server_uri, required).step(
            EventView::Header(presented(held)),
        ).action() == ActionView::Finish,
{
}

/// A request whose `authorization` header holds a byte outside ASCII is
/// refused for that reason on the spot: the verification ends before any
/// request is sent.
pub proof fn lemma_non_ascii_header_is_refused_unasked(
    held: Map<Seq<char>, Seq<u8>>,
    at: int,
    server_uri: Seq<char>,
    required: Seq<Seq<char>>,
)
    requires
        held.contains_key(AUTHORIZATION@),
        0 <= at < held[AUTHORIZATION@].len(),
        held[AUTHORIZATION@][at] >= 128,
    ensures
        !PipelineView::start(server_uri, required).action().is_remote_call(),
        PipelineView::start(server_uri, required).step(
            EventView::Header(presented(held)),
        ).state == StateView::Failed(ErrorView::AuthHeaderNonAscii),
        PipelineView::start(server_uri, required).step(
            EventView::Header(presented(held)),
        ).action() == ActionView::Finish,
{
    crate::header::lemma_non_ascii_is_unreadable(held, at);
}

/// A credential that can be read becomes the session identifier as it is,
/// bound to the configured server, and the session check is asked next.
pub proof fn lemma_credential_is_used_verbatim(
    id: Seq<char>,
    server_uri: Seq<char>,
    required: Seq<Seq<char>>,
)
    ensures
        PipelineView::start(server_uri, required).step(
            EventView::Header(AuthHeaderView::Text(id)),
        ).state == (StateView::HeaderExtracted {
            session: crate::session::SessionView { id, uri: server_uri },
        }),
        PipelineView::start(server_uri, required).step(
            EventView::Header(AuthHeaderView::Text(id)),
        ).action() is CheckSession,
{
}

/// Only a session that is both valid and active proceeds. One that lacks
/// either is refused as invalid, with no word on which of the two it lacks.
pub proof fn lemma_only_usable_sessions_proceed(pipeline: PipelineView, check: Check)
    requires
        pipeline.state is HeaderExtracted,
    ensures
        check.session_valid && check.active ==> pipeline.step(EventView::Check(Ok(check))).state
            == (StateView::SessionValidated { session: pipeline.state->HeaderExtracted_session }),
        !(check.session_valid && check.active) ==> pipeline.step(
            EventView::Check(Ok(check)),
        ).state == StateView::Failed(ErrorView::InvalidSession),
{
}

/// A usable session that belongs to nobody ends the verification with an
/// internal error, not as an invalid session, and the user's scopes are
/// never asked for.
pub proof fn lemma_session_without_user_ends_before_scopes(
    pipeline: PipelineView,
    description: DescriptionView,
    later: Seq<EventView>,
)
    requires
        pipeline.state is SessionValidated,
        description.user_id is None,
    ensures
        pipeline.step(EventView::Description(Ok(description))).state == StateView::Failed(
            ErrorView::InternalError(NO_USER@),
        ),
        pipeline.step(EventView::Description(Ok(description))).run(later).action()
            == ActionView::Finish,
{
    lemma_ended_stays_ended(pipeline.step(EventView::Description(Ok(description))), later);
}

/// Once the user is known, an operation that requires no scope is always
/// authorized, whatever scopes the user holds.
pub proof fn lemma_nothing_required_is_authorized(pipeline: PipelineView, scopes: ScopesView)
    requires
        pipeline.state is UserResolved,
        pipeline.required.len() == 0,
    ensures
        pipeline.step(EventView::Scopes(Ok(scopes))).state == StateView::Authorized(
            SessionCheckView {
                session: pipeline.state->UserResolved_session,
                user: pipeline.state->UserResolved_user,
            },
        ),
{
}

/// Scopes decide by inclusion: the user is authorized exactly when every
/// required scope is among those held, and is otherwise refused for missing
/// scopes.
pub proof fn lemma_scopes_decide_by_inclusion(pipeline: PipelineView, scopes: ScopesView)
    requires
        pipeline.state is UserResolved,
    ensures
        pipeline.required.to_set().subset_of(scopes.scopes.to_set()) ==> pipeline.step(
            EventView::Scopes(Ok(scopes)),
        ).state is Authorized,
        !pipeline.required.to_set().subset_of(scopes.scopes.to_set()) ==> pipeline.step(
            EventView::Scopes(Ok(scopes)),
        ).state == StateView::Failed(ErrorView::MissingScopes),
{
    crate::user::lemma_holds_all_is_subset(pipeline.required, scopes.scopes);
}

/// Whether `event` reports a request that failed or an answer that could
/// not be read.
pub open spec fn is_failed_request(event: EventView) -> bool {
    match event {
        EventView::Check(Err(_)) => true,
        EventView::Description(Err(_)) => true,
        EventView::Scopes(Err(_)) => true,
        _ => false,
    }
}

/// While a verification is under way, a request that fails ends it with an
/// internal error, whichever request it was.
pub proof fn lemma_failed_request_is_internal_error(pipeline: PipelineView, event: EventView)
    requires
        !pipeline.state.is_final(),
        is_failed_request(event),
    ensures
        pipeline.step(event).state matches StateView::Failed(ErrorView::InternalError(_)),
{
}

/// A step never goes back: while the verification is under way each answer
/// takes it further, and the server and the required scopes stay what they
/// were.
pub proof fn lemma_step_advances(pipeline: PipelineView, event: EventView)
    ensures
        pipeline.step(event).server_uri == pipeline.server_uri,
        pipeline.step(event).required == pipeline.required,
        !pipeline.state.is_final() ==> pipeline.step(event).state.progress()
            > pipeline.state.progress(),
        pipeline.state.is_final() ==> pipeline.step(event) == pipeline,
{
}

/// A verification that has ended stays as it ended and asks nothing more,
/// whatever arrives afterwards.
pub proof fn lemma_ended_stays_ended(pipeline: PipelineView, events: Seq<EventView>)
    requires
        pipeline.state.is_final(),
    ensures
        pipeline.run(events) == pipeline,
        pipeline.run(events).action() == ActionView::Finish,
    decreases events.len(),
{
    if events.len() > 0 {
        lemma_step_advances(pipeline, events[0]);
        lemma_ended_stays_ended(pipeline, events.drop_first());
    }
}

/// A run keeps the server and the required scopes, and never falls behind
/// where it began.
pub proof fn lemma_run_advances(pipeline: PipelineView, events: Seq<EventView>)
    ensures
        pipeline.run(events).server_uri == pipeline.server_uri,
        pipeline.run(events).required == pipeline.required,
        pipeline.run(events).state.progress() >= pipeline.state.progress(),
        pipeline.state.progress() + events.len() >= 4 ==> pipeline.run(events).state.is_final(),
    decreases events.len(),
{
    if events.len() > 0 {
        lemma_step_advances(pipeline, events[0]);
        lemma_run_advances(pipeline.step(events[0]), events.drop_first());
    }
}

/// Four answers settle every verification: the credential and the answers
/// to at most three requests.
pub proof fn lemma_four_answers_settle(
    server_uri: Seq<char>,
    required: Seq<Seq<char>>,
    events: Seq<EventView>,
)
    requires
        events.len() >= 4,
    ensures
        PipelineView::start(server_uri, required).run(events).state.is_final(),
{
    lemma_run_advances(PipelineView::start(server_uri, required), events);
}

/// Whether `events` begin with the four answers that authorize `granted`
/// on the server at `server_uri` for an operation that requires `required`:
/// a readable credential, a valid and active session, a description that
/// names the user, and scopes that include every required one.
pub open spec fn authorizes(
    events: Seq<EventView>,
    server_uri: Seq<char>,
    required: Seq<Seq<char>>,
    granted: SessionCheckView,
) -> bool {
    &&& events.len() >= 4
    &&& events[0] == EventView::Header(AuthHeaderView::Text(granted.session.id))
    &&& granted.session.uri == server_uri
    &&& granted.user.uri == server_uri
    &&& events[1] matches EventView::Check(Ok(check)) && check.session_valid && check.active
    &&& events[2] matches EventView::Description(Ok(description)) && description.user_id == Some(
        granted.user.id,
    )
    &&& events[3] matches EventView::Scopes(Ok(scopes)) && holds_all(required, scopes.scopes)
}

/// An identity is authorized only through every check, and through every
/// check it is: a verification ends authorized exactly when the credential
/// was readable, its session valid and active, the session's user known,
/// and every required scope held. The authorized session carries the
/// credential verbatim, and both it and the user are bound to the
/// configured server.
pub proof fn lemma_authorized_exactly_through_every_check(
    server_uri: Seq<char>,
    required: Seq<Seq<char>>,
    events: Seq<EventView>,
    granted: SessionCheckView,
)
    ensures
        PipelineView::start(server_uri, required).run(events).state == StateView::Authorized(
            granted,
        ) <==> authorizes(events, server_uri, required, granted),
{
    let start = PipelineView::start(server_uri, required);
    if events.len() == 0 {
        return;
    }
    let read = start.step(events[0]);
    let after_read = events.drop_first();
    assert(start.run(events) == read.run(after_read));
    if read.state.is_final() {
        lemma_ended_stays_ended(read, after_read);
        return;
    }
    if after_read.len() == 0 {
        return;
    }
    assert(after_read[0] == events[1]);
    let validated = read.step(after_read[0]);
    let after_validated = after_read.drop_first();
    assert(read.run(after_read) == validated.run(after_validated));
    if validated.state.is_final() {
        lemma_ended_stays_ended(validated, after_validated);
        return;
    }
    if after_validated.len() == 0 {
        return;
    }
    assert(after_validated[0] == events[2]);
    let resolved = validated.step(after_validated[0]);
    let after_resolved = after_validated.drop_first();
    assert(validated.run(after_validated) == resolved.run(after_resolved));
    if resolved.state.is_final() {
        lemma_ended_stays_ended(resolved, after_resolved);
        return;
    }
    if after_resolved.len() == 0 {
        return;
    }
    assert(after_resolved[0] == events[3]);
    let decided = resolved.step(after_resolved[0]);
    let after_decided = after_resolved.drop_first();
    assert(resolved.run(after_resolved) == decided.run(after_decided));
    lemma_step_advances(resolved, after_resolved[0]);
    lemma_ended_stays_ended(decided, after_decided);
}

} // verus!
