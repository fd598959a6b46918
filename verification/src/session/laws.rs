//! What holds of every session, whatever it is told: its life goes one way,
//! every failure ends it, nothing happens after the end, and every request
//! carries the session's own key.

use crate::codec::json_form;
use crate::form::{lemma_body_round_trip, post_body, read_body};
use crate::session::{
    failure, goes_on, is_ready, keep_alive, next_phase, reaction, steps, ActionView, Event, Phase,
    PostRequestView, SessionError, SessionView, Signal, STATUS_OK,
};
use vstd::prelude::*;

verus! {

/// Whether the three sequences tell of one session's life: `states[i]` is
/// told of `events[i]`, asks for `actions[i]` and goes on to `states[i + 1]`.
pub open spec fn is_run(
    states: Seq<SessionView>,
    events: Seq<Event>,
    actions: Seq<ActionView>,
) -> bool {
    &&& states.len() == events.len() + 1
    &&& actions.len() == events.len()
    &&& forall|i: int| 0 <= i < events.len() ==> #[trigger] is_step(states, events, actions, i)
}

/// Whether step `i` of a run is one that a session may take.
pub open spec fn is_step(
    states: Seq<SessionView>,
    events: Seq<Event>,
    actions: Seq<ActionView>,
    i: int,
) -> bool {
    exists|signal: Signal| #[trigger] steps(states[i], events[i], signal, states[i + 1], actions[i])
}

/// Whether `action` asks for anything to be read, posted or written.
pub open spec fn touches_the_wire(action: ActionView) -> bool {
    action is Receive || action is Post || action is ReadBody || action is Send
}

/// A session's life goes one way: from initializing into the exchange loop,
/// and from either to the end. It never starts over, and never leaves the
/// end.
pub proof fn lemma_lifecycle(phase: Phase, signal: Signal)
    ensures
        next_phase(phase, signal) != Phase::Initializing,
        phase == Phase::Initializing ==> next_phase(phase, signal) == Phase::Receiving
            || next_phase(phase, signal) == Phase::Terminated,
        is_ready(phase) ==> is_ready(next_phase(phase, signal)) || next_phase(phase, signal)
            == Phase::Terminated,
        phase == Phase::Terminated ==> next_phase(phase, signal) == Phase::Terminated,
{
}

/// Every failure ends the session: a signal that is not the good answer to
/// the pending action leads to the last phase and never to more traffic.
pub proof fn lemma_failure_ends(session: SessionView, signal: Signal)
    requires
        !goes_on(session.phase, signal),
    ensures
        next_phase(session.phase, signal) == Phase::Terminated,
        !touches_the_wire(reaction(session, signal)),
        is_ready(session.phase) ==> reaction(session, signal) == ActionView::Disconnect(
            failure(session.phase, signal),
        ),
{
}

/// One exchange: a session that waits for a request and is told, in turn, of
/// a request, of status 200, of a response and of its delivery, asks for the
/// POST, the body, the delivery and the next request, and waits for a request
/// again.
pub proof fn lemma_exchange(
    session: SessionView,
    body: String,
    message: sip2::Message,
)
    requires
        session.phase == Phase::Receiving,
    ensures
        ({
            let request = Signal::Request(body);
            let status = Signal::Status(STATUS_OK);
            let response = Signal::Response(message);
            let posted = SessionView { phase: next_phase(session.phase, request), ..session };
            let answered = SessionView { phase: next_phase(posted.phase, status), ..session };
            let decoded = SessionView { phase: next_phase(answered.phase, response), ..session };
            &&& reaction(session, request) == ActionView::Post(
                PostRequestView {
                    url: session.config.backend_url(),
                    connection: keep_alive(),
                    body: body@,
                },
            )
            &&& reaction(posted, status) == ActionView::ReadBody
            &&& reaction(answered, response) == ActionView::Send(message)
            &&& reaction(decoded, Signal::Sent) == ActionView::Receive
            &&& next_phase(decoded.phase, Signal::Sent) == Phase::Receiving
        }),
{
}

/// Every request is posted: a session that waits for a request and is told
/// of one asks for exactly one POST, to its endpoint, with the header that
/// keeps the connection, and with the body that carries the request's JSON
/// form under the session's key. It then waits for the status.
pub proof fn lemma_request_is_posted(
    before: SessionView,
    message: sip2::Message,
    signal: Signal,
    after: SessionView,
    action: ActionView,
)
    requires
        before.phase == Phase::Receiving,
        steps(before, Event::Request(message), signal, after, action),
    ensures
        after.phase == Phase::Forwarding,
        action == ActionView::Post(
            PostRequestView {
                url: before.config.backend_url(),
                connection: keep_alive(),
                body: post_body(before.key, json_form(message)),
            },
        ),
        read_body(post_body(before.key, json_form(message))) == Some(
            (before.key, json_form(message)),
        ),
{
    lemma_body_round_trip(before.key, json_form(message));
}

/// Fail closed: when the backend answers a request with any status but 200,
/// the session ends at once and asks for the socket to be disconnected. No
/// response is written for the request.
pub proof fn lemma_fail_closed(
    before: SessionView,
    status: u16,
    signal: Signal,
    after: SessionView,
    action: ActionView,
)
    requires
        before.phase == Phase::Forwarding,
        status != STATUS_OK,
        steps(before, Event::Status(status), signal, after, action),
    ensures
        after.phase == Phase::Terminated,
        action == ActionView::Disconnect(SessionError::Transport { status: Some(status) }),
{
}

/// When the client goes away and the codec cannot read a request, the
/// session ends and asks for the socket to be disconnected.
pub proof fn lemma_receive_failure(
    before: SessionView,
    signal: Signal,
    after: SessionView,
    action: ActionView,
)
    requires
        before.phase == Phase::Receiving,
        steps(before, Event::ReceiveFailed, signal, after, action),
    ensures
        after.phase == Phase::Terminated,
        action == ActionView::Disconnect(SessionError::Receive),
{
}

/// A session that has ended stays ended: in a run, from the first state in
/// the last phase on, every state is in the last phase and every action is
/// [`ActionView::Done`]. Nothing more is read, posted or written.
pub proof fn lemma_ended_is_final(
    states: Seq<SessionView>,
    events: Seq<Event>,
    actions: Seq<ActionView>,
    i: int,
    j: int,
)
    requires
        is_run(states, events, actions),
        0 <= i <= j < events.len(),
        states[i].phase == Phase::Terminated,
    ensures
        states[j].phase == Phase::Terminated,
        states[j + 1].phase == Phase::Terminated,
        actions[j] == ActionView::Done,
    decreases j - i,
{
    if i < j {
        lemma_ended_is_final(states, events, actions, i, j - 1);
    }
    assert(is_step(states, events, actions, j));
}

/// After a bad status nothing more happens on the connection: from the
/// step that is told of a status other than 200 on, no action of the run
/// reads, posts or writes anything.
pub proof fn lemma_nothing_after_bad_status(
    states: Seq<SessionView>,
    events: Seq<Event>,
    actions: Seq<ActionView>,
    i: int,
    j: int,
)
    requires
        is_run(states, events, actions),
        0 <= i <= j < events.len(),
        states[i].phase == Phase::Forwarding,
        events[i] matches Event::Status(status) && status != STATUS_OK,
    ensures
        !touches_the_wire(actions[j]),
        states[j + 1].phase == Phase::Terminated,
{
    assert(is_step(states, events, actions, i));
    if i < j {
        lemma_ended_is_final(states, events, actions, i + 1, j);
    }
}

/// Key and configuration are the same in every state of a run.
pub proof fn lemma_key_is_stable(
    states: Seq<SessionView>,
    events: Seq<Event>,
    actions: Seq<ActionView>,
    i: int,
)
    requires
        is_run(states, events, actions),
        0 <= i <= events.len(),
    ensures
        states[i].key == states[0].key,
        states[i].config == states[0].config,
    decreases i,
{
    if i > 0 {
        lemma_key_is_stable(states, events, actions, i - 1);
        assert(is_step(states, events, actions, i - 1));
    }
}

/// Every POST of a run goes to the session's endpoint, asks for the
/// connection to be kept, and carries the request that was just read: what a
/// backend reads out of its body is the session's own key and the JSON form
/// of that request.
pub proof fn lemma_post_carries_key(
    states: Seq<SessionView>,
    events: Seq<Event>,
    actions: Seq<ActionView>,
    i: int,
)
    requires
        is_run(states, events, actions),
        0 <= i < events.len(),
        actions[i] is Post,
    ensures
        events[i] is Request,
        read_body(actions[i]->Post_0.body) == Some(
            (states[0].key, json_form(events[i]->Request_0)),
        ),
        actions[i]->Post_0.url == states[0].config.backend_url(),
        actions[i]->Post_0.connection == keep_alive(),
{
    lemma_key_is_stable(states, events, actions, i);
    assert(is_step(states, events, actions, i));
    lemma_body_round_trip(states[i].key, json_form(events[i]->Request_0));
}

} // verus!
