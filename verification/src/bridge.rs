//! The connection bridge: owner of the single socket connection.
//!
//! A [`Bridge`] holds at most one handle of a live connection. Its
//! operations decide what happens to that handle; the transport itself is
//! handed in by the caller as a function, so that the bridge never opens,
//! writes to or closes a connection on its own.

use vstd::prelude::*;

use crate::events::{Notice, RustEvent};
use crate::text::text_of;

verus! {

/// Whether the bridge holds a live connection.
#[derive(Clone, Copy, Debug, PartialEq, Eq, Structural)]
pub enum ConnectionState {
    Disconnected,
    Connected,
}

/// The answer to a liveness query.
#[derive(Clone, Copy, Debug, PartialEq, Eq, Structural)]
pub enum Liveness {
    Alive,
    NotAlive,
}

impl Liveness {
    /// The event that stands for the answer.
    pub open spec fn as_event(self) -> RustEvent {
        match self {
            Liveness::Alive => RustEvent::SocketAlive,
            Liveness::NotAlive => RustEvent::SocketNotAlive,
        }
    }

    /// The event by whose name the answer is told to the user interface.
    pub fn event(&self) -> (event: RustEvent)
        ensures
            event == self.as_event(),
    {
        match self {
            Liveness::Alive => RustEvent::SocketAlive,
            Liveness::NotAlive => RustEvent::SocketNotAlive,
        }
    }
}

/// Why a connection was not established.
#[derive(Debug, PartialEq, Eq)]
pub enum ConnectError {
    /// The bridge already holds a connection; nothing was attempted.
    AlreadyConnected,
    /// The transport could not connect, for the given reason.
    SocketConnectionFailed(String),
}

/// The transport failed to close the connection, for the given reason.
#[derive(Debug, PartialEq, Eq)]
pub enum DisconnectError {
    SocketDisconnectionFailed(String),
}

/// The transport failed to write an event, for the given reason.
#[derive(Debug, PartialEq, Eq)]
pub enum SendError {
    SocketSendFailed(String),
}

/// A header presented when the connection is opened.
#[derive(Debug, PartialEq, Eq)]
pub struct Header {
    pub name: String,
    pub value: String,
}

/// What the transport is asked to open.
#[derive(Debug, PartialEq, Eq)]
pub struct ConnectRequest {
    pub address: String,
    /// The session cookie, if the caller supplied one.
    pub header: Option<Header>,
    /// Whether the transport may reconnect by itself. Always `false`: retrying
    /// is the caller's decision.
    pub reconnect: bool,
}

/// The mathematical content of a [`ConnectRequest`].
pub struct ConnectRequestView {
    pub address: Seq<char>,
    pub header: Option<(Seq<char>, Seq<char>)>,
    pub reconnect: bool,
}

impl View for ConnectRequest {
    type V = ConnectRequestView;

    open spec fn view(&self) -> ConnectRequestView {
        ConnectRequestView {
            address: self.address@,
            header: match self.header {
                Some(h) => Some((h.name@, h.value@)),
                None => None,
            },
            reconnect: self.reconnect,
        }
    }
}

/// One event to be written to the connection.
#[derive(Debug, PartialEq, Eq)]
pub struct OutboundEvent {
    pub name: String,
    pub payload: String,
}

impl View for OutboundEvent {
    type V = (Seq<char>, Seq<char>);

    open spec fn view(&self) -> (Seq<char>, Seq<char>) {
        (self.name@, self.payload@)
    }
}

/// The request for a connection to `address`: the cookie, if any, travels in
/// the `cookie` header, and the transport does not reconnect by itself.
pub open spec fn connect_request(address: Seq<char>, cookie: Option<Seq<char>>) -> ConnectRequestView {
    ConnectRequestView {
        address,
        header: match cookie {
            Some(c) => Some(("cookie"@, c)),
            None => None,
        },
        reconnect: false,
    }
}

/// The event that a send writes: absent data is an empty payload.
pub open spec fn outbound_event(name: Seq<char>, data: Option<Seq<char>>) -> (Seq<char>, Seq<char>) {
    (
        name,
        match data {
            Some(d) => d,
            None => Seq::<char>::empty(),
        },
    )
}

/// The state that goes with a held handle, or with none.
pub open spec fn state_of<H>(held: Option<H>) -> ConnectionState {
    if held is Some {
        ConnectionState::Connected
    } else {
        ConnectionState::Disconnected
    }
}

/// The answer to a liveness query in a given state.
pub open spec fn liveness_of<H>(held: Option<H>) -> Liveness {
    if held is Some {
        Liveness::Alive
    } else {
        Liveness::NotAlive
    }
}

/// What the bridge holds after an establish whose transport, if asked,
/// answers `outcome`. A bridge that holds a handle keeps it and asks nothing.
pub open spec fn after_establish<H>(held: Option<H>, outcome: Result<H, String>) -> Option<H> {
    match held {
        Some(_) => held,
        None => match outcome {
            Ok(handle) => Some(handle),
            Err(_) => None,
        },
    }
}

/// The handle that an establish turns away: the one that the transport
/// opened for a bridge that holds a handle already.
pub open spec fn turned_away<H>(held: Option<H>, outcome: Result<H, String>) -> Option<H> {
    match held {
        Some(_) => match outcome {
            Ok(handle) => Some(handle),
            Err(_) => None,
        },
        None => None,
    }
}

/// What the bridge holds after a disconnect: nothing, whatever it held and
/// however closing ended.
pub open spec fn after_disconnect<H>(held: Option<H>) -> Option<H> {
    None
}

/// Whether `result` is what an establish returns from `held` when the
/// transport, if asked, answers `outcome`.
pub open spec fn establish_reports<H>(
    held: Option<H>,
    outcome: Result<H, String>,
    result: Result<(), ConnectError>,
) -> bool {
    match held {
        Some(_) => result matches Err(ConnectError::AlreadyConnected),
        None => match outcome {
            Ok(_) => result is Ok,
            Err(reason) => result matches Err(ConnectError::SocketConnectionFailed(text))
                && text@ == reason@,
        },
    }
}

/// Whether `result` is what a disconnect returns when closing ends in `outcome`.
pub open spec fn disconnect_reports(
    outcome: Result<(), String>,
    result: Result<(), DisconnectError>,
) -> bool {
    match outcome {
        Ok(_) => result is Ok,
        Err(reason) => result matches Err(DisconnectError::SocketDisconnectionFailed(text))
            && text@ == reason@,
    }
}

/// Whether `result` is what a send returns when writing ends in `outcome`.
pub open spec fn send_reports(outcome: Result<(), String>, result: Result<(), SendError>) -> bool {
    match outcome {
        Ok(_) => result is Ok,
        Err(reason) => result matches Err(SendError::SocketSendFailed(text)) && text@ == reason@,
    }
}

/// The owner of the socket connection, over handles of type `H`.
///
/// The bridge is connected exactly when it holds a handle, and it never
/// holds more than one.
#[derive(Debug)]
pub struct Bridge<H> {
    handle: Option<H>,
}

impl<H> View for Bridge<H> {
    type V = Option<H>;

    /// The handle that the bridge holds, if any.
    closed spec fn view(&self) -> Option<H> {
        self.handle
    }
}

impl<H> Bridge<H> {
    /// A bridge in its initial state, disconnected.
    pub fn new() -> (bridge: Self)
        ensures
            bridge@ is None,
    {
        Bridge { handle: None }
    }

    /// The state of the connection.
    pub fn state(&self) -> (state: ConnectionState)
        ensures
            state == state_of(self@),
    {
        if self.handle.is_some() {
            ConnectionState::Connected
        } else {
            ConnectionState::Disconnected
        }
    }

    /// Reads whether the connection is alive. The bridge is left as it is.
    pub fn query_alive(&self) -> (liveness: Liveness)
        ensures
            liveness == liveness_of(self@),
    {
        if self.handle.is_some() {
            Liveness::Alive
        } else {
            Liveness::NotAlive
        }
    }

    /// Establishes the connection to `address`, presenting `cookie` if there
    /// is one.
    ///
    /// A connected bridge rejects the call: `connect` is not asked and the
    /// handle that the bridge holds stays in place. A disconnected bridge
    /// hands `connect` the request; it keeps the handle that comes back, or
    /// stays disconnected and reports the reason of the failure.
    pub fn establish<F>(&mut self, address: &str, cookie: Option<&str>, connect: F) -> (result: Result<
        (),
        ConnectError,
    >) where F: FnOnce(ConnectRequest) -> Result<H, String>
        requires
            old(self)@ is None ==> forall|request: ConnectRequest|
                request@ == connect_request(address@, text_of(cookie)) ==> call_requires(
                    connect,
                    (request,),
                ),
        ensures
            old(self)@ is Some ==> final(self)@ == old(self)@ && result matches Err(
                ConnectError::AlreadyConnected,
            ),
            old(self)@ is None ==> exists|request: ConnectRequest, outcome: Result<H, String>|
                {
                    &&& request@ == connect_request(address@, text_of(cookie))
                    &&& #[trigger] call_ensures(connect, (request,), outcome)
                    &&& final(self)@ == after_establish(old(self)@, outcome)
                    &&& establish_reports(old(self)@, outcome, result)
                },
    {
        if self.handle.is_some() {
            return Err(ConnectError::AlreadyConnected);
        }
        let request = request_for(address, cookie);
        let ghost asked = request;
        let outcome = connect(request);
        let ghost answered = outcome;
        let (result, _) = self.accept(outcome);
        assert(call_ensures(connect, (asked,), answered));
        result
    }

    /// Takes in what the transport answered to a connection attempt.
    ///
    /// A disconnected bridge keeps the handle of an attempt that succeeded,
    /// and reports the reason of one that failed. A bridge that holds a
    /// handle keeps that one: the call is rejected, and a handle that the
    /// attempt brought is given back, for the caller to close.
    pub fn accept(&mut self, outcome: Result<H, String>) -> (settled: (
        Result<(), ConnectError>,
        Option<H>,
    ))
        ensures
            final(self)@ == after_establish(old(self)@, outcome),
            establish_reports(old(self)@, outcome, settled.0),
            settled.1 == turned_away(old(self)@, outcome),
    {
        if self.handle.is_some() {
            let spare = match outcome {
                Ok(handle) => Some(handle),
                Err(_) => None,
            };
            return (Err(ConnectError::AlreadyConnected), spare);
        }
        match ConnectError::from_transport(outcome) {
            Ok(handle) => {
                self.handle = Some(handle);
                (Ok(()), None)
            },
            Err(error) => (Err(error), None),
        }
    }

    /// Closes the connection.
    ///
    /// On a disconnected bridge this does nothing and succeeds. A connected
    /// bridge gives its handle to `close` and is disconnected afterwards,
    /// whether or not closing succeeded; a failure to close is reported.
    pub fn disconnect<F>(&mut self, close: F) -> (result: Result<(), DisconnectError>) where
        F: FnOnce(H) -> Result<(), String>,

        requires
            old(self)@ matches Some(handle) ==> call_requires(close, (handle,)),
        ensures
            final(self)@ == after_disconnect(old(self)@),
            old(self)@ is None ==> result is Ok,
            old(self)@ matches Some(handle) ==> exists|outcome: Result<(), String>|
                #[trigger] call_ensures(close, (handle,), outcome) && disconnect_reports(
                    outcome,
                    result,
                ),
    {
        match self.handle.take() {
            None => Ok(()),
            Some(handle) => {
                let ghost given = handle;
                let outcome = close(handle);
                assert(call_ensures(close, (given,), outcome));
                DisconnectError::from_transport(outcome)
            },
        }
    }

    /// Writes one event to the connection; absent `data` is an empty payload.
    ///
    /// On a disconnected bridge this does nothing and succeeds. The bridge
    /// is left as it is, also when writing fails.
    pub fn send<F>(&self, event_name: &str, data: Option<&str>, emit: F) -> (result: Result<
        (),
        SendError,
    >) where F: FnOnce(&H, OutboundEvent) -> Result<(), String>
        requires
            self@ matches Some(handle) ==> forall|event: OutboundEvent|
                event@ == outbound_event(event_name@, text_of(data)) ==> call_requires(
                    emit,
                    (&handle, event),
                ),
        ensures
            self@ is None ==> result is Ok,
            self@ matches Some(handle) ==> exists|event: OutboundEvent, outcome: Result<(), String>|
                {
                    &&& event@ == outbound_event(event_name@, text_of(data))
                    &&& #[trigger] call_ensures(emit, (&handle, event), outcome)
                    &&& send_reports(outcome, result)
                },
    {
        match &self.handle {
            None => Ok(()),
            Some(handle) => {
                let event = event_for(event_name, data);
                let ghost written = event;
                let outcome = emit(handle, event);
                assert(call_ensures(emit, (handle, written), outcome));
                SendError::from_transport(outcome)
            },
        }
    }
}

/// Builds the request that `establish` hands to the transport.
pub fn request_for(address: &str, cookie: Option<&str>) -> (request: ConnectRequest)
    ensures
        request@ == connect_request(address@, text_of(cookie)),
{
    let header = match cookie {
        Some(value) => Some(Header { name: "cookie".to_owned(), value: value.to_owned() }),
        None => None,
    };
    ConnectRequest { address: address.to_owned(), header, reconnect: false }
}

/// Builds the event that `send` hands to the transport.
pub fn event_for(event_name: &str, data: Option<&str>) -> (event: OutboundEvent)
    ensures
        event@ == outbound_event(event_name@, text_of(data)),
{
    let payload = match data {
        Some(text) => text.to_owned(),
        None => String::new(),
    };
    OutboundEvent { name: event_name.to_owned(), payload }
}

impl ConnectError {
    /// Turns the transport's answer to a connection attempt into the
    /// bridge's own terms: the handle, or the failure with its reason.
    pub fn from_transport<H>(outcome: Result<H, String>) -> (settled: Result<H, ConnectError>)
        ensures
            match outcome {
                Ok(handle) => settled == Ok::<H, ConnectError>(handle),
                Err(reason) => settled matches Err(ConnectError::SocketConnectionFailed(text))
                    && text@ == reason@,
            },
    {
        match outcome {
            Ok(handle) => Ok(handle),
            Err(reason) => Err(ConnectError::SocketConnectionFailed(reason)),
        }
    }
}

impl DisconnectError {
    /// Turns the transport's answer to a close into the result of a disconnect.
    pub fn from_transport(outcome: Result<(), String>) -> (result: Result<(), DisconnectError>)
        ensures
            disconnect_reports(outcome, result),
    {
        match outcome {
            Ok(()) => Ok(()),
            Err(reason) => Err(DisconnectError::SocketDisconnectionFailed(reason)),
        }
    }
}

impl SendError {
    /// Turns the transport's answer to a write into the result of a send.
    pub fn from_transport(outcome: Result<(), String>) -> (result: Result<(), SendError>)
        ensures
            send_reports(outcome, result),
    {
        match outcome {
            Ok(()) => Ok(()),
            Err(reason) => Err(SendError::SocketSendFailed(reason)),
        }
    }
}

/// The notice that the user interface gets for the result of an establish.
/// Only a failure of the transport is reported; a rejected call changes
/// nothing and is not.
pub fn connect_notice(result: &Result<(), ConnectError>) -> (notice: Option<Notice>)
    ensures
        match *result {
            Err(ConnectError::SocketConnectionFailed(reason)) => notice matches Some(n)
                && n.event == RustEvent::SocketConnectionFailed && n.reason@ == reason@,
            _ => notice is None,
        },
{
    match result {
        Err(ConnectError::SocketConnectionFailed(reason)) => Some(
            Notice { event: RustEvent::SocketConnectionFailed, reason: reason.clone() },
        ),
        _ => None,
    }
}

/// The notice that the user interface gets for the result of a disconnect:
/// none for a success.
pub fn disconnect_notice(result: &Result<(), DisconnectError>) -> (notice: Option<Notice>)
    ensures
        match *result {
            Err(DisconnectError::SocketDisconnectionFailed(reason)) => notice matches Some(n)
                && n.event == RustEvent::SocketDisconnectionFailed && n.reason@ == reason@,
            Ok(_) => notice is None,
        },
{
    match result {
        Err(DisconnectError::SocketDisconnectionFailed(reason)) => Some(
            Notice { event: RustEvent::SocketDisconnectionFailed, reason: reason.clone() },
        ),
        Ok(_) => None,
    }
}

/// The notice that the user interface gets for the result of a send: none
/// for a success.
pub fn send_notice(result: &Result<(), SendError>) -> (notice: Option<Notice>)
    ensures
        match *result {
            Err(SendError::SocketSendFailed(reason)) => notice matches Some(n) && n.event
                == RustEvent::SocketSendFailed && n.reason@ == reason@,
            Ok(_) => notice is None,
        },
{
    match result {
        Err(SendError::SocketSendFailed(reason)) => Some(
            Notice { event: RustEvent::SocketSendFailed, reason: reason.clone() },
        ),
        Ok(_) => None,
    }
}

/// One call on the bridge, together with what the transport answers if the
/// call reaches it.
pub enum Call<H> {
    Establish(Result<H, String>),
    Disconnect(Result<(), String>),
}

/// What the bridge holds after one call.
pub open spec fn after_call<H>(held: Option<H>, call: Call<H>) -> Option<H> {
    match call {
        Call::Establish(outcome) => after_establish(held, outcome),
        Call::Disconnect(_) => after_disconnect(held),
    }
}

/// What the bridge holds after a sequence of calls, made one after another.
pub open spec fn after_calls<H>(held: Option<H>, calls: Seq<Call<H>>) -> Option<H>
    decreases calls.len(),
{
    if calls.len() == 0 {
        held
    } else {
        after_call(after_calls(held, calls.drop_last()), calls.last())
    }
}

/// The connections that one call opens: one, where an establish reaches the
/// transport and the transport connects.
pub open spec fn opened_by<H>(held: Option<H>, call: Call<H>) -> int {
    match call {
        Call::Establish(Ok(_)) => if held is None {
            1
        } else {
            0
        },
        _ => 0,
    }
}

/// The connections that one call gives up: one, where a disconnect finds a
/// handle.
pub open spec fn released_by<H>(held: Option<H>, call: Call<H>) -> int {
    match call {
        Call::Disconnect(_) => if held is Some {
            1
        } else {
            0
        },
        _ => 0,
    }
}

/// The connections that are open after a sequence of calls: the one held at
/// the start, if any, and those opened since, less those given up.
pub open spec fn live_connections<H>(held: Option<H>, calls: Seq<Call<H>>) -> int
    decreases calls.len(),
{
    if calls.len() == 0 {
        if held is Some {
            1
        } else {
            0
        }
    } else {
        let before = after_calls(held, calls.drop_last());
        live_connections(held, calls.drop_last()) + opened_by(before, calls.last()) - released_by(
            before,
            calls.last(),
        )
    }
}

/// What a liveness query answers after an establish that returned `result`.
pub open spec fn liveness_reported(result: Result<(), ConnectError>) -> Liveness {
    match result {
        Ok(_) => Liveness::Alive,
        Err(ConnectError::AlreadyConnected) => Liveness::Alive,
        Err(ConnectError::SocketConnectionFailed(_)) => Liveness::NotAlive,
    }
}

/// However establish and disconnect calls follow one another, and whatever
/// the transport answers, there is never more than one open connection, and
/// there is one exactly when the bridge holds a handle.
pub proof fn lemma_never_two_connections<H>(held: Option<H>, calls: Seq<Call<H>>)
    ensures
        0 <= live_connections(held, calls) <= 1,
        live_connections(held, calls) == 1 <==> after_calls(held, calls) is Some,
    decreases calls.len(),
{
    if calls.len() > 0 {
        lemma_never_two_connections(held, calls.drop_last());
    }
}

/// After any sequence of establish and disconnect calls, a liveness query
/// answers by the last of them alone: not alive after a disconnect, and
/// after an establish what the result of that establish says.
pub proof fn lemma_liveness_follows_last_call<H>(held: Option<H>, calls: Seq<Call<H>>)
    requires
        calls.len() > 0,
    ensures
        match calls.last() {
            Call::Establish(outcome) => forall|result: Result<(), ConnectError>| #[trigger]
                establish_reports(after_calls(held, calls.drop_last()), outcome, result)
                    ==> liveness_of(after_calls(held, calls)) == liveness_reported(result),
            Call::Disconnect(_) => liveness_of(after_calls(held, calls)) == Liveness::NotAlive,
        },
{
}

} // verus!
