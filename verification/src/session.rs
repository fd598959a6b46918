//! One session per admitted connection: the bridge between a SIP2 client and
//! the HTTP backend.
//!
//! A session does no input or output of its own. It names the next thing to
//! do as an [`Action`]; the caller does it and reports the outcome as an
//! [`Event`]. Between the two stand the session's decisions: what is posted to
//! the backend, when an exchange goes on, and when the session ends. A session
//! that has ended stays ended, and every failure ends it; [`laws`] holds the
//! proofs.

use crate::codec::{is_reading, json_form, message_from_json, message_to_json};
use crate::conf::{Config, ConfigView};
use crate::form::{
    form_urlencode, lemma_body_round_trip, lemma_post_body_is_two_pairs, message_field,
    post_body, read_body, session_field,
};
use crate::key::{is_key, key_of_token, new_key, session_key, KEY_LENGTH};
use vstd::prelude::*;

pub mod laws;

verus! {

/// The one status of a backend response that lets an exchange go on.
pub const STATUS_OK: u16 = 200;

/// Where a session stands. A session is ready while it is in one of the four
/// phases of an exchange.
#[derive(Debug, Clone, Copy, PartialEq, Eq)]
pub enum Phase {
    /// The HTTP client is not built yet, and the codec is not bound.
    Initializing,
    /// Waiting for the next request of the SIP2 client.
    Receiving,
    /// A request was posted; waiting for the status of the response.
    Forwarding,
    /// The status was good; waiting for the text of the response.
    ReadingBody,
    /// A response is on its way to the SIP2 client.
    Sending,
    /// The session has ended.
    Terminated,
}

/// Why a session ended.
#[derive(Debug, Clone, Copy, PartialEq, Eq)]
pub enum SessionError {
    /// The HTTP client could not be built.
    Construction,
    /// The codec could not read a request: a read error, a framing error, or
    /// the client went away.
    Receive,
    /// A message could not be turned into its transport form, or back.
    Encoding,
    /// The POST could not be sent (`status` is `None`), or the backend
    /// answered with a status other than 200.
    Transport { status: Option<u16> },
    /// The codec could not write the response.
    Send,
    /// The caller reported an outcome that does not answer the pending
    /// action.
    Unexpected,
}

/// What the caller reports after it performed an [`Action`].
#[derive(Debug, PartialEq)]
pub enum Event {
    /// The HTTP client is built and the codec is bound to the socket.
    Connected,
    /// The HTTP client could not be built.
    ConnectFailed,
    /// The codec read a request.
    Request(sip2::Message),
    /// The codec could not read a request.
    ReceiveFailed,
    /// The backend answered with this status.
    Status(u16),
    /// The request could not be sent.
    TransportFailed,
    /// The text of the backend's response.
    Body(String),
    /// The response could not be read as text.
    BodyFailed,
    /// The codec wrote the response.
    Sent,
    /// The codec could not write the response.
    SendFailed,
}

/// An [`Event`] after its payload went through the codec: a request as the
/// body to post, a response as the message to send.
#[derive(Debug, PartialEq)]
pub enum Signal {
    Connected,
    ConnectFailed,
    /// A request, as the body of the POST that carries it.
    Request(String),
    /// A request for which there is no body to post.
    RequestUnencodable,
    ReceiveFailed,
    Status(u16),
    TransportFailed,
    /// The response, as the message that the body stands for.
    Response(sip2::Message),
    /// A response whose body could not be read, or stands for no message.
    ResponseUnreadable,
    Sent,
    SendFailed,
}

/// A POST to the backend.
#[derive(Debug, PartialEq)]
pub struct PostRequest {
    /// The backend endpoint.
    pub url: String,
    /// Value of the `Connection` header.
    pub connection: String,
    /// The form-encoded body.
    pub body: String,
}

/// What the caller is to do next.
#[derive(Debug, PartialEq)]
pub enum Action {
    /// Build the HTTP client with this trust policy, and bind the codec to
    /// the socket with this ASCII flag.
    Connect { accept_invalid_certs: bool, ascii: bool },
    /// Read the next request from the SIP2 client.
    Receive,
    /// Post this request to the backend and report the status.
    Post(PostRequest),
    /// Read the text of the response.
    ReadBody,
    /// Write this message to the SIP2 client.
    Send(sip2::Message),
    /// Disconnect the socket, ignoring any error, and leave.
    Disconnect(SessionError),
    /// Leave without touching the socket.
    Abandon(SessionError),
    /// Nothing: the session ended before.
    Done,
}

/// The mathematical value of a [`PostRequest`].
pub struct PostRequestView {
    pub url: Seq<char>,
    pub connection: Seq<char>,
    pub body: Seq<char>,
}

/// The mathematical value of an [`Action`].
pub enum ActionView {
    Connect { accept_invalid_certs: bool, ascii: bool },
    Receive,
    Post(PostRequestView),
    ReadBody,
    Send(sip2::Message),
    Disconnect(SessionError),
    Abandon(SessionError),
    Done,
}

impl View for PostRequest {
    type V = PostRequestView;

    open spec fn view(&self) -> PostRequestView {
        PostRequestView { url: self.url@, connection: self.connection@, body: self.body@ }
    }
}

impl View for Action {
    type V = ActionView;

    open spec fn view(&self) -> ActionView {
        match *self {
            Action::Connect { accept_invalid_certs, ascii } => ActionView::Connect {
                accept_invalid_certs,
                ascii,
            },
            Action::Receive => ActionView::Receive,
            Action::Post(request) => ActionView::Post(request@),
            Action::ReadBody => ActionView::ReadBody,
            Action::Send(message) => ActionView::Send(message),
            Action::Disconnect(reason) => ActionView::Disconnect(reason),
            Action::Abandon(reason) => ActionView::Abandon(reason),
            Action::Done => ActionView::Done,
        }
    }
}

/// The mathematical value of a [`Session`].
pub struct SessionView {
    pub config: ConfigView,
    pub key: Seq<char>,
    pub phase: Phase,
}

/// Value of the `Connection` header of every POST: `keep-alive`.
pub open spec fn keep_alive() -> Seq<char> {
    seq!['k', 'e', 'e', 'p', '-', 'a', 'l', 'i', 'v', 'e']
}

/// Text by which a session names itself in logs: `Session <key>`.
pub open spec fn label_text(key: Seq<char>) -> Seq<char> {
    seq!['S', 'e', 's', 's', 'i', 'o', 'n', ' '] + key
}

/// Whether a session in `phase` is inside its exchange loop.
pub open spec fn is_ready(phase: Phase) -> bool {
    phase == Phase::Receiving || phase == Phase::Forwarding || phase == Phase::ReadingBody
        || phase == Phase::Sending
}

/// Whether `signal` is a good answer to what a session in `phase` waits for.
pub open spec fn goes_on(phase: Phase, signal: Signal) -> bool {
    match (phase, signal) {
        (Phase::Initializing, Signal::Connected) => true,
        (Phase::Receiving, Signal::Request(_)) => true,
        (Phase::Forwarding, Signal::Status(status)) => status == STATUS_OK,
        (Phase::ReadingBody, Signal::Response(_)) => true,
        (Phase::Sending, Signal::Sent) => true,
        _ => false,
    }
}

/// The phase after `signal` reached a session in `phase`.
pub open spec fn next_phase(phase: Phase, signal: Signal) -> Phase {
    if goes_on(phase, signal) {
        match phase {
            Phase::Initializing => Phase::Receiving,
            Phase::Receiving => Phase::Forwarding,
            Phase::Forwarding => Phase::ReadingBody,
            Phase::ReadingBody => Phase::Sending,
            _ => Phase::Receiving,
        }
    } else {
        Phase::Terminated
    }
}

/// Why `signal` ends a session in `phase`, given that it does.
pub open spec fn failure(phase: Phase, signal: Signal) -> SessionError {
    match (phase, signal) {
        (Phase::Initializing, Signal::ConnectFailed) => SessionError::Construction,
        (Phase::Receiving, Signal::ReceiveFailed) => SessionError::Receive,
        (Phase::Receiving, Signal::RequestUnencodable) => SessionError::Encoding,
        (Phase::Forwarding, Signal::Status(status)) => SessionError::Transport {
            status: Some(status),
        },
        (Phase::Forwarding, Signal::TransportFailed) => SessionError::Transport { status: None },
        (Phase::ReadingBody, Signal::ResponseUnreadable) => SessionError::Encoding,
        (Phase::Sending, Signal::SendFailed) => SessionError::Send,
        _ => SessionError::Unexpected,
    }
}

/// What a session asks for when `signal` reaches it.
pub open spec fn reaction(session: SessionView, signal: Signal) -> ActionView {
    if session.phase == Phase::Terminated {
        ActionView::Done
    } else if !goes_on(session.phase, signal) {
        if session.phase == Phase::Initializing {
            ActionView::Abandon(failure(session.phase, signal))
        } else {
            ActionView::Disconnect(failure(session.phase, signal))
        }
    } else {
        match signal {
            Signal::Request(body) => ActionView::Post(
                PostRequestView {
                    url: session.config.backend_url(),
                    connection: keep_alive(),
                    body: body@,
                },
            ),
            Signal::Status(_) => ActionView::ReadBody,
            Signal::Response(message) => ActionView::Send(message),
            _ => ActionView::Receive,
        }
    }
}

/// Whether `signal` is what `event` becomes in a session with this key: a
/// request becomes the body that carries its JSON form under the key; a
/// response body becomes the message it stands for, or is found unreadable;
/// every other event stays what it is.
pub open spec fn interprets(key: Seq<char>, event: Event, signal: Signal) -> bool {
    match event {
        Event::Connected => signal == Signal::Connected,
        Event::ConnectFailed => signal == Signal::ConnectFailed,
        Event::Request(message) => signal matches Signal::Request(body) && body@ == post_body(
            key,
            json_form(message),
        ),
        Event::ReceiveFailed => signal == Signal::ReceiveFailed,
        Event::Status(status) => signal == Signal::Status(status),
        Event::TransportFailed => signal == Signal::TransportFailed,
        Event::Body(text) => match signal {
            Signal::Response(message) => is_reading(text@, Some(message)),
            Signal::ResponseUnreadable => is_reading(text@, None),
            _ => false,
        },
        Event::BodyFailed => signal == Signal::ResponseUnreadable,
        Event::Sent => signal == Signal::Sent,
        Event::SendFailed => signal == Signal::SendFailed,
    }
}

/// Whether a session in state `before` that is told of `event` may read it as
/// `signal`, go on to state `after` and ask for `action`.
pub open spec fn steps(
    before: SessionView,
    event: Event,
    signal: Signal,
    after: SessionView,
    action: ActionView,
) -> bool {
    &&& interprets(before.key, event, signal)
    &&& after == (SessionView { phase: next_phase(before.phase, signal), ..before })
    &&& action == reaction(before, signal)
}

impl Signal {
    /// The signal for a request, given what became of its encoding.
    pub fn of_encoded(encoded: Result<String, SessionError>) -> (signal: Signal)
        ensures
            signal == (match encoded {
                Ok(body) => Signal::Request(body),
                Err(_) => Signal::RequestUnencodable,
            }),
    {
        match encoded {
            Ok(body) => Signal::Request(body),
            Err(_) => Signal::RequestUnencodable,
        }
    }

    /// The signal for a response, given what became of its decoding.
    pub fn of_decoded(decoded: Result<sip2::Message, SessionError>) -> (signal: Signal)
        ensures
            signal == (match decoded {
                Ok(message) => Signal::Response(message),
                Err(_) => Signal::ResponseUnreadable,
            }),
    {
        match decoded {
            Ok(message) => Signal::Response(message),
            Err(_) => Signal::ResponseUnreadable,
        }
    }
}

/// The state of one bridge between a SIP2 client and the backend.
pub struct Session {
    config: Config,
    key: String,
    http_url: String,
    phase: Phase,
}

impl View for Session {
    type V = SessionView;

    closed spec fn view(&self) -> SessionView {
        SessionView { config: self.config@, key: self.key@, phase: self.phase }
    }
}

impl Session {
    /// The URL is derived from the configuration, once.
    #[verifier::type_invariant]
    spec fn url_is_derived(&self) -> bool {
        self.http_url@ == self.config@.backend_url()
    }

    /// Starts a session with the key cut from `token`.
    pub fn with_token(config: Config, token: &str) -> (started: (Session, Action))
        requires
            token@.len() >= KEY_LENGTH,
        ensures
            started.0@ == (SessionView {
                config: config@,
                key: key_of_token(token@),
                phase: Phase::Initializing,
            }),
            started.1@ == (ActionView::Connect {
                accept_invalid_certs: config.ignore_ssl_errors,
                ascii: config.ascii,
            }),
    {
        Session::with_key(config, session_key(token))
    }

    /// Starts a session for an admitted connection, with a fresh random key.
    ///
    /// The session is not ready yet: the first action asks for the HTTP
    /// client and the codec.
    pub fn run(config: Config) -> (started: (Session, Action))
        ensures
            started.0@.config == config@,
            is_key(started.0@.key),
            started.0@.phase == Phase::Initializing,
            started.1@ == (ActionView::Connect {
                accept_invalid_certs: config.ignore_ssl_errors,
                ascii: config.ascii,
            }),
    {
        Session::with_key(config, new_key())
    }

    fn with_key(config: Config, key: String) -> (started: (Session, Action))
        ensures
            started.0@ == (SessionView { config: config@, key: key@, phase: Phase::Initializing }),
            started.1@ == (ActionView::Connect {
                accept_invalid_certs: config.ignore_ssl_errors,
                ascii: config.ascii,
            }),
    {
        let first = Action::Connect {
            accept_invalid_certs: config.ignore_ssl_errors,
            ascii: config.ascii,
        };
        let http_url: String = config.backend_url();
        (Session { config, key, http_url, phase: Phase::Initializing }, first)
    }

    /// Encodes the body of the POST that carries a message in its JSON form
    /// `message_json`, under this session's key.
    ///
    /// There always is a body. It is `session=<key>&message=<message_json>`
    /// with both values form-encoded, and a backend reads the key and the
    /// JSON text back from it.
    pub fn body_for(&self, message_json: &str) -> (encoded: Result<String, SessionError>)
        ensures
            encoded matches Ok(body) && body@ == post_body(self@.key, message_json@),
            encoded matches Ok(body) && read_body(body@) == Some((self@.key, message_json@)),
    {
        proof {
            reveal_strlit("session");
            reveal_strlit("message");
            assert("session"@ =~= session_field());
            assert("message"@ =~= message_field());
            lemma_post_body_is_two_pairs(self@.key, message_json@);
            lemma_body_round_trip(self@.key, message_json@);
        }
        match form_urlencode("session", self.key.as_str(), "message", message_json) {
            Ok(body) => Ok(body),
            Err(_) => Err(SessionError::Encoding),
        }
    }

    /// Encodes the body of the POST that carries `message`: its JSON form,
    /// under this session's key. There always is a body.
    pub fn request_body(&self, message: &sip2::Message) -> (encoded: Result<String, SessionError>)
        ensures
            encoded matches Ok(body) && body@ == post_body(self@.key, json_form(*message)),
            encoded matches Ok(body) && read_body(body@) == Some(
                (self@.key, json_form(*message)),
            ),
    {
        let message_json: String = message_to_json(message);
        self.body_for(message_json.as_str())
    }

    /// Decodes the text of a backend response into the message to send.
    ///
    /// The text is read as the codec reads it. Only a text on which the JSON
    /// parser or the codec would break down stands for no message of its
    /// own accord: see [`crate::codec::response_form`].
    pub fn response_message(text: &str) -> (decoded: Result<sip2::Message, SessionError>)
        ensures
            match decoded {
                Ok(message) => is_reading(text@, Some(message)),
                Err(reason) => is_reading(text@, None) && reason == SessionError::Encoding,
            },
    {
        match message_from_json(text) {
            Some(message) => Ok(message),
            None => Err(SessionError::Encoding),
        }
    }

    /// Reads an event through the codec: a request becomes the body to post,
    /// a response body becomes the message to send.
    pub fn interpret(&self, event: Event) -> (signal: Signal)
        ensures
            interprets(self@.key, event, signal),
    {
        match event {
            Event::Connected => Signal::Connected,
            Event::ConnectFailed => Signal::ConnectFailed,
            Event::Request(message) => Signal::of_encoded(self.request_body(&message)),
            Event::ReceiveFailed => Signal::ReceiveFailed,
            Event::Status(status) => Signal::Status(status),
            Event::TransportFailed => Signal::TransportFailed,
            Event::Body(text) => Signal::of_decoded(Session::response_message(text.as_str())),
            Event::BodyFailed => Signal::ResponseUnreadable,
            Event::Sent => Signal::Sent,
            Event::SendFailed => Signal::SendFailed,
        }
    }

    /// Moves the session on by one signal, and says what to do next.
    ///
    /// A good answer to the pending action moves the session to the next
    /// phase of the exchange. Anything else ends it. Once ended, it stays
    /// ended and asks for nothing more.
    pub fn advance(&mut self, signal: Signal) -> (action: Action)
        ensures
            final(self)@ == (SessionView {
                phase: next_phase(old(self)@.phase, signal),
                ..old(self)@
            }),
            action@ == reaction(old(self)@, signal),
    {
        proof {
            use_type_invariant(&*self);
        }
        match self.phase {
            Phase::Terminated => Action::Done,
            Phase::Initializing => match signal {
                Signal::Connected => {
                    self.phase = Phase::Receiving;
                    Action::Receive
                },
                Signal::ConnectFailed => {
                    self.phase = Phase::Terminated;
                    Action::Abandon(SessionError::Construction)
                },
                _ => {
                    self.phase = Phase::Terminated;
                    Action::Abandon(SessionError::Unexpected)
                },
            },
            Phase::Receiving => match signal {
                Signal::Request(body) => {
                    proof {
                        reveal_strlit("keep-alive");
                        assert("keep-alive"@ =~= keep_alive());
                    }
                    self.phase = Phase::Forwarding;
                    Action::Post(
                        PostRequest {
                            url: self.http_url.clone(),
                            connection: String::from_str("keep-alive"),
                            body,
                        },
                    )
                },
                Signal::ReceiveFailed => self.end(SessionError::Receive),
                Signal::RequestUnencodable => self.end(SessionError::Encoding),
                _ => self.end(SessionError::Unexpected),
            },
            Phase::Forwarding => match signal {
                Signal::Status(status) => {
                    if status == STATUS_OK {
                        self.phase = Phase::ReadingBody;
                        Action::ReadBody
                    } else {
                        self.end(SessionError::Transport { status: Some(status) })
                    }
                },
                Signal::TransportFailed => self.end(SessionError::Transport { status: None }),
                _ => self.end(SessionError::Unexpected),
            },
            Phase::ReadingBody => match signal {
                Signal::Response(message) => {
                    self.phase = Phase::Sending;
                    Action::Send(message)
                },
                Signal::ResponseUnreadable => self.end(SessionError::Encoding),
                _ => self.end(SessionError::Unexpected),
            },
            Phase::Sending => match signal {
                Signal::Sent => {
                    self.phase = Phase::Receiving;
                    Action::Receive
                },
                Signal::SendFailed => self.end(SessionError::Send),
                _ => self.end(SessionError::Unexpected),
            },
        }
    }

    /// Ends a ready session: the socket is to be disconnected.
    fn end(&mut self, reason: SessionError) -> (action: Action)
        ensures
            final(self)@ == (SessionView { phase: Phase::Terminated, ..old(self)@ }),
            action@ == ActionView::Disconnect(reason),
    {
        proof {
            use_type_invariant(&*self);
        }
        self.phase = Phase::Terminated;
        Action::Disconnect(reason)
    }

    /// Takes the outcome of the last action and says what to do next.
    ///
    /// The event is read through the codec and the session moves on by the
    /// signal that results. Key and configuration never change.
    pub fn step(&mut self, event: Event) -> (action: Action)
        ensures
            exists|signal: Signal| #[trigger]
                steps(old(self)@, event, signal, final(self)@, action@),
            final(self)@.key == old(self)@.key,
            final(self)@.config == old(self)@.config,
    {
        let signal: Signal = self.interpret(event);
        let action: Action = self.advance(signal);
        assert(steps(old(self)@, event, signal, self@, action@));
        action
    }

    /// The correlation key.
    pub fn key(&self) -> (key: &str)
        ensures
            key@ == self@.key,
    {
        self.key.as_str()
    }

    /// The backend endpoint.
    pub fn http_url(&self) -> (url: &str)
        ensures
            url@ == self@.config.backend_url(),
    {
        proof {
            use_type_invariant(self);
        }
        self.http_url.as_str()
    }

    /// The configuration this session was started with.
    pub fn config(&self) -> (config: &Config)
        ensures
            config@ == self@.config,
    {
        &self.config
    }

    /// Where the session stands.
    pub fn phase(&self) -> (phase: Phase)
        ensures
            phase == self@.phase,
    {
        self.phase
    }

    /// The text by which the session names itself in logs.
    pub fn label(&self) -> (text: String)
        ensures
            text@ == label_text(self@.key),
    {
        proof {
            reveal_strlit("Session ");
        }
        let mut text: String = String::from_str("Session ");
        text.append(self.key.as_str());
        assert(text@ =~= label_text(self@.key));
        text
    }
}

} // verus!
