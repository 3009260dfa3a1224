//! One console session: connect, authenticate, send one command, collect the
//! answer, close.
//!
//! The session is a state machine. The caller owns the connection and does
//! what each [`SessionAction`] says, then reports what happened as a
//! [`SessionEvent`]. A session is used once; it holds no connection over from
//! an earlier one.

use crate::frame::{
    encode_frame, frame_bytes, frame_cause, Frame, FrameError, FrameView, MAX_BODY,
};
use crate::outcome::{endpoint_text, OutcomeView, RconOutcome, ServerAddress, ServerAddressView};
use crate::text::{decode_text, lossy_text};
use vstd::prelude::*;
use vstd::string::StringExecFns;
use vstd::utf8::encode_utf8;

verus! {

/// The request id of the authentication frame.
pub const AUTH_ID: i32 = 1;

/// The request id of the command frame.
pub const COMMAND_ID: i32 = 2;

/// The request id with which a server answers a secret that it refuses.
pub const REJECTED_ID: i32 = -1;

/// The kind of a frame that carries the shared secret.
pub const KIND_AUTH: i32 = 3;

/// The kind of a frame that answers the shared secret.
pub const KIND_AUTH_REPLY: i32 = 2;

/// The kind of a frame that carries a command.
pub const KIND_COMMAND: i32 = 2;

/// The kind of a frame that carries a part of the answer to a command.
pub const KIND_RESPONSE: i32 = 0;

/// The cause of an event that the state does not allow, in words.
pub const UNEXPECTED_EVENT: &'static str = "unexpected event";

/// The cause of a frame that the state does not allow, in words.
pub const UNEXPECTED_FRAME: &'static str = "unexpected frame";

/// Where a session stands.
#[derive(Debug, Clone, PartialEq, Eq)]
pub enum SessionState {
    /// Nothing has happened yet.
    Idle,
    /// The connection is being opened.
    Connecting,
    /// The connection is open and the authentication frame is being sent.
    SendingAuth,
    /// The answer to the secret is awaited. `skipped` says whether the empty
    /// response frame that may come before it has been seen.
    AwaitingAuth { skipped: bool },
    /// The secret was accepted and the command frame is being sent.
    SendingCommand,
    /// The answer to the command is awaited; `collected` holds the bodies
    /// received so far.
    AwaitingResponse { collected: Vec<u8> },
    /// The outcome is decided and the connection is being closed.
    Closing(RconOutcome),
    /// The session is over.
    Finished(RconOutcome),
}

/// The mathematical value of a [`SessionState`].
pub enum StateView {
    Idle,
    Connecting,
    SendingAuth,
    AwaitingAuth { skipped: bool },
    SendingCommand,
    AwaitingResponse { collected: Seq<u8> },
    Closing(OutcomeView),
    Finished(OutcomeView),
}

impl View for SessionState {
    type V = StateView;

    open spec fn view(&self) -> StateView {
        match self {
            SessionState::Idle => StateView::Idle,
            SessionState::Connecting => StateView::Connecting,
            SessionState::SendingAuth => StateView::SendingAuth,
            SessionState::AwaitingAuth { skipped } => StateView::AwaitingAuth {
                skipped: *skipped,
            },
            SessionState::SendingCommand => StateView::SendingCommand,
            SessionState::AwaitingResponse { collected } => StateView::AwaitingResponse {
                collected: collected@,
            },
            SessionState::Closing(outcome) => StateView::Closing(outcome@),
            SessionState::Finished(outcome) => StateView::Finished(outcome@),
        }
    }
}

/// What the caller reports back.
#[derive(Debug, Clone, PartialEq, Eq)]
pub enum SessionEvent {
    /// The session is to start.
    Begin,
    /// The connection is open.
    Connected,
    /// The connection could not be opened.
    Refused(String),
    /// The frame was sent.
    Sent,
    /// A frame arrived.
    Received(Frame),
    /// The bounded wait ran out.
    TimedOut,
    /// The connection broke, or what arrived was no frame.
    Broken(String),
    /// The connection is closed.
    Closed,
}

/// The mathematical value of a [`SessionEvent`].
pub enum EventView {
    Begin,
    Connected,
    Refused(Seq<char>),
    Sent,
    Received(FrameView),
    TimedOut,
    Broken(Seq<char>),
    Closed,
}

impl View for SessionEvent {
    type V = EventView;

    open spec fn view(&self) -> EventView {
        match self {
            SessionEvent::Begin => EventView::Begin,
            SessionEvent::Connected => EventView::Connected,
            SessionEvent::Refused(cause) => EventView::Refused(cause@),
            SessionEvent::Sent => EventView::Sent,
            SessionEvent::Received(frame) => EventView::Received(frame@),
            SessionEvent::TimedOut => EventView::TimedOut,
            SessionEvent::Broken(cause) => EventView::Broken(cause@),
            SessionEvent::Closed => EventView::Closed,
        }
    }
}

/// What the caller is to do next.
#[derive(Debug, Clone, PartialEq, Eq)]
pub enum SessionAction {
    /// Open a connection to this endpoint, then report `Connected`,
    /// `Refused` or `TimedOut`.
    Connect(String),
    /// Send these bytes, then report `Sent`, `TimedOut` or `Broken`.
    Send(Vec<u8>),
    /// Wait for one frame, then report `Received`, `TimedOut` or `Broken`.
    Receive,
    /// Close the connection, then report `Closed`.
    Close,
    /// Hand the outcome to whoever asked for the session.
    Finish(RconOutcome),
}

/// The mathematical value of a [`SessionAction`].
pub enum ActionView {
    Connect(Seq<char>),
    Send(Seq<u8>),
    Receive,
    Close,
    Finish(OutcomeView),
}

impl View for SessionAction {
    type V = ActionView;

    open spec fn view(&self) -> ActionView {
        match self {
            SessionAction::Connect(endpoint) => ActionView::Connect(endpoint@),
            SessionAction::Send(bytes) => ActionView::Send(bytes@),
            SessionAction::Receive => ActionView::Receive,
            SessionAction::Close => ActionView::Close,
            SessionAction::Finish(outcome) => ActionView::Finish(outcome@),
        }
    }
}

/// A session with one server: the address, the command to run (none for a
/// mere test of the connection), and the state.
#[derive(Debug, Clone, PartialEq, Eq)]
pub struct Session {
    pub address: ServerAddress,
    pub command: Option<String>,
    pub state: SessionState,
}

/// The text of an optional command.
pub open spec fn command_text(command: Option<String>) -> Option<Seq<char>> {
    match command {
        Some(c) => Some(c@),
        None => None,
    }
}

/// The state after the decision, with the order to close the connection.
pub open spec fn closing(outcome: OutcomeView) -> (StateView, ActionView) {
    (StateView::Closing(outcome), ActionView::Close)
}

/// The end of a session that has no connection to close.
pub open spec fn finished(outcome: OutcomeView) -> (StateView, ActionView) {
    (StateView::Finished(outcome), ActionView::Finish(outcome))
}

/// The outcome of a session whose open connection did not do what was
/// expected of it.
pub open spec fn fault(event: EventView) -> OutcomeView {
    match event {
        EventView::TimedOut => OutcomeView::Timeout,
        EventView::Broken(cause) => OutcomeView::ProtocolError(cause),
        _ => OutcomeView::ProtocolError(UNEXPECTED_EVENT@),
    }
}

/// The outcome of a session whose connection could not be opened.
pub open spec fn connect_fault(event: EventView) -> OutcomeView {
    match event {
        EventView::Refused(cause) => OutcomeView::ConnectFailed(cause),
        EventView::Broken(cause) => OutcomeView::ConnectFailed(cause),
        EventView::TimedOut => OutcomeView::Timeout,
        _ => OutcomeView::ProtocolError(UNEXPECTED_EVENT@),
    }
}

/// Sending a frame with this body, or giving up where the body does not fit
/// into a frame.
pub open spec fn send_frame(id: i32, kind: i32, body: Seq<u8>, next: StateView) -> (
    StateView,
    ActionView,
) {
    if body.len() <= MAX_BODY {
        (next, ActionView::Send(frame_bytes(FrameView { id, kind, body })))
    } else {
        closing(OutcomeView::ProtocolError(frame_cause(FrameError::TooLong)))
    }
}

/// What follows a frame that arrives while the answer to the secret is
/// awaited.
pub open spec fn on_auth_frame(command: Option<Seq<char>>, skipped: bool, frame: FrameView) -> (
    StateView,
    ActionView,
) {
    if frame.kind == KIND_AUTH_REPLY && frame.id == AUTH_ID {
        match command {
            Some(text) => send_frame(
                COMMAND_ID,
                KIND_COMMAND,
                encode_utf8(text),
                StateView::SendingCommand,
            ),
            None => closing(OutcomeView::Success(Seq::empty())),
        }
    } else if frame.kind == KIND_AUTH_REPLY && frame.id == REJECTED_ID {
        closing(OutcomeView::AuthFailed)
    } else if frame.kind == KIND_RESPONSE && !skipped {
        (StateView::AwaitingAuth { skipped: true }, ActionView::Receive)
    } else {
        closing(OutcomeView::ProtocolError(UNEXPECTED_FRAME@))
    }
}

/// What follows a frame that arrives while the answer to the command is
/// awaited. A full body means that more of the answer follows; any shorter
/// body ends it.
pub open spec fn on_response_frame(collected: Seq<u8>, frame: FrameView) -> (
    StateView,
    ActionView,
) {
    if frame.kind == KIND_RESPONSE && frame.id == COMMAND_ID {
        if frame.body.len() >= MAX_BODY {
            (
                StateView::AwaitingResponse { collected: collected + frame.body },
                ActionView::Receive,
            )
        } else {
            closing(OutcomeView::Success(lossy_text(collected + frame.body)))
        }
    } else {
        closing(OutcomeView::ProtocolError(UNEXPECTED_FRAME@))
    }
}

/// One step of a session: the state after the event, and what to do next.
pub open spec fn session_step(
    address: ServerAddressView,
    command: Option<Seq<char>>,
    state: StateView,
    event: EventView,
) -> (StateView, ActionView) {
    match state {
        StateView::Idle => match event {
            EventView::Begin => (
                StateView::Connecting,
                ActionView::Connect(endpoint_text(address.host, address.port)),
            ),
            _ => finished(OutcomeView::ProtocolError(UNEXPECTED_EVENT@)),
        },
        StateView::Connecting => match event {
            EventView::Connected => send_frame(
                AUTH_ID,
                KIND_AUTH,
                encode_utf8(address.secret),
                StateView::SendingAuth,
            ),
            _ => finished(connect_fault(event)),
        },
        StateView::SendingAuth => match event {
            EventView::Sent => (StateView::AwaitingAuth { skipped: false }, ActionView::Receive),
            _ => closing(fault(event)),
        },
        StateView::AwaitingAuth { skipped } => match event {
            EventView::Received(frame) => on_auth_frame(command, skipped, frame),
            _ => closing(fault(event)),
        },
        StateView::SendingCommand => match event {
            EventView::Sent => (
                StateView::AwaitingResponse { collected: Seq::empty() },
                ActionView::Receive,
            ),
            _ => closing(fault(event)),
        },
        StateView::AwaitingResponse { collected } => match event {
            EventView::Received(frame) => on_response_frame(collected, frame),
            _ => closing(fault(event)),
        },
        StateView::Closing(outcome) => finished(outcome),
        StateView::Finished(outcome) => finished(outcome),
    }
}

fn close_with(outcome: RconOutcome) -> (r: (SessionState, SessionAction))
    ensures
        (r.0@, r.1@) == closing(outcome@),
{
    (SessionState::Closing(outcome), SessionAction::Close)
}

fn finish_with(outcome: RconOutcome) -> (r: (SessionState, SessionAction))
    ensures
        (r.0@, r.1@) == finished(outcome@),
{
    let copy = outcome.duplicate();
    (SessionState::Finished(outcome), SessionAction::Finish(copy))
}

fn unexpected_event() -> (r: RconOutcome)
    ensures
        r@ == OutcomeView::ProtocolError(UNEXPECTED_EVENT@),
{
    RconOutcome::ProtocolError(String::from_str(UNEXPECTED_EVENT))
}

fn unexpected_frame() -> (r: RconOutcome)
    ensures
        r@ == OutcomeView::ProtocolError(UNEXPECTED_FRAME@),
{
    RconOutcome::ProtocolError(String::from_str(UNEXPECTED_FRAME))
}

fn fault_of(event: SessionEvent) -> (r: RconOutcome)
    ensures
        r@ == fault(event@),
{
    match event {
        SessionEvent::TimedOut => RconOutcome::Timeout,
        SessionEvent::Broken(cause) => RconOutcome::ProtocolError(cause),
        _ => unexpected_event(),
    }
}

fn connect_fault_of(event: SessionEvent) -> (r: RconOutcome)
    ensures
        r@ == connect_fault(event@),
{
    match event {
        SessionEvent::Refused(cause) => RconOutcome::ConnectFailed(cause),
        SessionEvent::Broken(cause) => RconOutcome::ConnectFailed(cause),
        SessionEvent::TimedOut => RconOutcome::Timeout,
        _ => unexpected_event(),
    }
}

fn send(id: i32, kind: i32, body: &str, next: SessionState) -> (r: (SessionState, SessionAction))
    ensures
        (r.0@, r.1@) == send_frame(id, kind, encode_utf8(body@), next@),
{
    match encode_frame(id, kind, body.as_bytes()) {
        Ok(bytes) => (next, SessionAction::Send(bytes)),
        Err(e) => close_with(RconOutcome::ProtocolError(e.cause())),
    }
}

fn after_auth_frame(command: &Option<String>, skipped: bool, frame: Frame) -> (r: (
    SessionState,
    SessionAction,
))
    ensures
        (r.0@, r.1@) == on_auth_frame(command_text(*command), skipped, frame@),
{
    if frame.kind == KIND_AUTH_REPLY && frame.id == AUTH_ID {
        match command {
            Some(text) => send(COMMAND_ID, KIND_COMMAND, text.as_str(), SessionState::SendingCommand),
            None => close_with(RconOutcome::Success(String::new())),
        }
    } else if frame.kind == KIND_AUTH_REPLY && frame.id == REJECTED_ID {
        close_with(RconOutcome::AuthFailed)
    } else if frame.kind == KIND_RESPONSE && !skipped {
        (SessionState::AwaitingAuth { skipped: true }, SessionAction::Receive)
    } else {
        close_with(unexpected_frame())
    }
}

fn after_response_frame(collected: Vec<u8>, frame: Frame) -> (r: (SessionState, SessionAction))
    ensures
        (r.0@, r.1@) == on_response_frame(collected@, frame@),
{
    if frame.kind == KIND_RESPONSE && frame.id == COMMAND_ID {
        let full = frame.body.len() >= MAX_BODY;
        let mut all = collected;
        let mut body = frame.body;
        all.append(&mut body);
        if full {
            (SessionState::AwaitingResponse { collected: all }, SessionAction::Receive)
        } else {
            close_with(RconOutcome::Success(decode_text(all.as_slice())))
        }
    } else {
        close_with(unexpected_frame())
    }
}

impl Session {
    /// A session that has not started. Without a command it only tests the
    /// connection: it authenticates and closes.
    pub fn new(address: ServerAddress, command: Option<String>) -> (session: Session)
        ensures
            session.address == address,
            session.command == command,
            session.state@ == StateView::Idle,
    {
        Session { address, command, state: SessionState::Idle }
    }

    /// Takes what happened and says what to do next.
    pub fn step(self, event: SessionEvent) -> (r: (Session, SessionAction))
        ensures
            r.0.address == self.address,
            r.0.command == self.command,
            (r.0.state@, r.1@) == session_step(
                self.address@,
                command_text(self.command),
                self.state@,
                event@,
            ),
    {
        let Session { address, command, state } = self;
        let (next, action) = match state {
            SessionState::Idle => match event {
                SessionEvent::Begin => (
                    SessionState::Connecting,
                    SessionAction::Connect(address.endpoint()),
                ),
                _ => finish_with(unexpected_event()),
            },
            SessionState::Connecting => match event {
                SessionEvent::Connected => send(
                    AUTH_ID,
                    KIND_AUTH,
                    address.secret.as_str(),
                    SessionState::SendingAuth,
                ),
                other => finish_with(connect_fault_of(other)),
            },
            SessionState::SendingAuth => match event {
                SessionEvent::Sent => (
                    SessionState::AwaitingAuth { skipped: false },
                    SessionAction::Receive,
                ),
                other => close_with(fault_of(other)),
            },
            SessionState::AwaitingAuth { skipped } => match event {
                SessionEvent::Received(frame) => after_auth_frame(&command, skipped, frame),
                other => close_with(fault_of(other)),
            },
            SessionState::SendingCommand => match event {
                SessionEvent::Sent => (
                    SessionState::AwaitingResponse { collected: Vec::new() },
                    SessionAction::Receive,
                ),
                other => close_with(fault_of(other)),
            },
            SessionState::AwaitingResponse { collected } => match event {
                SessionEvent::Received(frame) => after_response_frame(collected, frame),
                other => close_with(fault_of(other)),
            },
            SessionState::Closing(outcome) => finish_with(outcome),
            SessionState::Finished(outcome) => finish_with(outcome),
        };
        (Session { address, command, state: next }, action)
    }
}

/// Whether a connection is open in this state and nobody has yet been told
/// to close it.
pub open spec fn holds_connection(state: StateView) -> bool {
    state is SendingAuth || state is AwaitingAuth || state is SendingCommand
        || state is AwaitingResponse
}

/// How far a session has come.
pub open spec fn progress(state: StateView) -> nat {
    match state {
        StateView::Idle => 0,
        StateView::Connecting => 1,
        StateView::SendingAuth => 2,
        StateView::AwaitingAuth { skipped } => if skipped {
            4
        } else {
            3
        },
        StateView::SendingCommand => 5,
        StateView::AwaitingResponse { .. } => 6,
        StateView::Closing(_) => 7,
        StateView::Finished(_) => 8,
    }
}

/// The connection is released on every path. While a connection is held, no
/// step ends the session: it goes on, or it decides the outcome and orders
/// the connection closed. The outcome is handed over only from a state that
/// holds no connection, and it is the outcome that was decided.
pub proof fn lemma_connection_is_released(
    address: ServerAddressView,
    command: Option<Seq<char>>,
    state: StateView,
    event: EventView,
)
    ensures
        ({
            let (next, action) = session_step(address, command, state, event);
            &&& (holds_connection(state) ==> (!(action is Finish) && (holds_connection(next) || (
            next is Closing && action is Close))))
            &&& (next is Closing ==> (action is Close && (holds_connection(state) || state
                is Connecting)))
            &&& (action is Finish <==> next is Finished)
            &&& (next is Finished ==> (action == ActionView::Finish(next->Finished_0)
                && !holds_connection(state)))
            &&& (state is Closing ==> next == StateView::Finished(state->Closing_0))
            &&& (state is Finished ==> next == state)
        }),
{
}

/// One attempt, one command. A session never goes back: no step lowers
/// `progress`, and only the wait for more of an answer and the end keep it
/// where it is. A connection is asked for once, from the start; the command
/// frame is sent at most once, on the accepted secret.
pub proof fn lemma_single_attempt(
    address: ServerAddressView,
    command: Option<Seq<char>>,
    state: StateView,
    event: EventView,
)
    ensures
        ({
            let (next, action) = session_step(address, command, state, event);
            &&& progress(state) <= progress(next)
            &&& (progress(state) == progress(next) ==> (state is AwaitingResponse || state
                is Finished))
            &&& (action is Connect ==> (state is Idle && next is Connecting))
            &&& (next is SendingCommand ==> (state is AwaitingAuth && command is Some && action
                == ActionView::Send(
                frame_bytes(
                    FrameView { id: COMMAND_ID, kind: KIND_COMMAND, body: encode_utf8(command->0) },
                ),
            )))
            &&& (action is Send ==> ((state is Connecting && next is SendingAuth) || (state
                is AwaitingAuth && next is SendingCommand)))
        }),
{
}

/// Each failure has its own cause: a refused secret is reported only for the
/// server's rejection, and a failed connection only while connecting.
pub proof fn lemma_failures_are_told_apart(
    address: ServerAddressView,
    command: Option<Seq<char>>,
    state: StateView,
    event: EventView,
)
    ensures
        ({
            let (next, action) = session_step(address, command, state, event);
            &&& (next == StateView::Closing(OutcomeView::AuthFailed) ==> (state is AwaitingAuth
                && event is Received && event->Received_0.kind == KIND_AUTH_REPLY
                && event->Received_0.id == REJECTED_ID))
            &&& ((!(state is Finished) && !(state is Closing) && next is Finished
                && next->Finished_0 is ConnectFailed) ==> (state is Connecting && (event is Refused
                || event is Broken)))
            &&& !(next is Closing && next->Closing_0 is ConnectFailed)
            &&& ((holds_connection(state) && event is TimedOut) ==> next == StateView::Closing(
                OutcomeView::Timeout,
            ))
            &&& ((state is Connecting && event is TimedOut) ==> next == StateView::Finished(
                OutcomeView::Timeout,
            ))
            &&& ((next is Closing && next->Closing_0 is Success) ==> ((state is AwaitingAuth
                && command is None) || state is AwaitingResponse))
        }),
{
}

/// The state of a session that started fresh and has taken the first `n` of
/// `events`.
pub open spec fn trace_state(
    address: ServerAddressView,
    command: Option<Seq<char>>,
    events: Seq<EventView>,
    n: int,
) -> StateView
    decreases n,
{
    if n <= 0 {
        StateView::Idle
    } else {
        session_step(address, command, trace_state(address, command, events, n - 1), events[n - 1]).0
    }
}

/// What a session that started fresh orders on taking `events[i]`.
pub open spec fn trace_action(
    address: ServerAddressView,
    command: Option<Seq<char>>,
    events: Seq<EventView>,
    i: int,
) -> ActionView {
    session_step(address, command, trace_state(address, command, events, i), events[i]).1
}

/// A session never goes back, however many events it takes.
pub proof fn lemma_trace_progress(
    address: ServerAddressView,
    command: Option<Seq<char>>,
    events: Seq<EventView>,
    a: int,
    b: int,
)
    requires
        0 <= a <= b,
    ensures
        progress(trace_state(address, command, events, a)) <= progress(
            trace_state(address, command, events, b),
        ),
    decreases b - a,
{
    if a < b {
        lemma_trace_progress(address, command, events, a, b - 1);
        lemma_single_attempt(
            address,
            command,
            trace_state(address, command, events, b - 1),
            events[b - 1],
        );
    }
}

/// Whatever happens, a session sends at most two frames: first the secret,
/// on the fresh connection, and then the command, once.
pub proof fn lemma_one_command_per_session(
    address: ServerAddressView,
    command: Option<Seq<char>>,
    events: Seq<EventView>,
    i: int,
    j: int,
)
    requires
        0 <= i < j < events.len(),
        trace_action(address, command, events, i) is Send,
        trace_action(address, command, events, j) is Send,
    ensures
        trace_state(address, command, events, i) is Connecting,
        trace_action(address, command, events, i) == ActionView::Send(
            frame_bytes(
                FrameView { id: AUTH_ID, kind: KIND_AUTH, body: encode_utf8(address.secret) },
            ),
        ),
        command is Some,
        trace_action(address, command, events, j) == ActionView::Send(
            frame_bytes(
                FrameView { id: COMMAND_ID, kind: KIND_COMMAND, body: encode_utf8(command->0) },
            ),
        ),
{
    lemma_single_attempt(address, command, trace_state(address, command, events, i), events[i]);
    lemma_single_attempt(address, command, trace_state(address, command, events, j), events[j]);
    lemma_trace_progress(address, command, events, i + 1, j);
}

/// Whatever happens, a connection that was opened is ordered closed before
/// the outcome is handed over.
pub proof fn lemma_closed_before_finish(
    address: ServerAddressView,
    command: Option<Seq<char>>,
    events: Seq<EventView>,
    i: int,
    j: int,
)
    requires
        0 <= i < j < events.len(),
        trace_state(address, command, events, i) is Connecting,
        events[i] is Connected,
        trace_action(address, command, events, j) is Finish,
    ensures
        exists|k: int| i <= k < j && trace_action(address, command, events, k) is Close,
{
    lemma_held_or_closed(address, command, events, i, j);
    lemma_connection_is_released(
        address,
        command,
        trace_state(address, command, events, j),
        events[j],
    );
}

proof fn lemma_held_or_closed(
    address: ServerAddressView,
    command: Option<Seq<char>>,
    events: Seq<EventView>,
    i: int,
    m: int,
)
    requires
        0 <= i < m <= events.len(),
        trace_state(address, command, events, i) is Connecting,
        events[i] is Connected,
    ensures
        holds_connection(trace_state(address, command, events, m)) || exists|k: int|
            i <= k < m && trace_action(address, command, events, k) is Close,
    decreases m - i,
{
    let before = trace_state(address, command, events, m - 1);
    lemma_connection_is_released(address, command, before, events[m - 1]);
    if m > i + 1 {
        lemma_held_or_closed(address, command, events, i, m - 1);
        if holds_connection(before) && !holds_connection(
            trace_state(address, command, events, m),
        ) {
            assert(trace_action(address, command, events, m - 1) is Close);
        }
    }
}

} // verus!
