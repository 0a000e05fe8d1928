//! The client of the meeting service: who it says it is, where it connects
//! to, and what it decides while it runs.
//!
//! The client itself performs no input or output. Its driver connects,
//! sends, receives and sleeps; the client decides what is to happen next.
//! It supervises the connection, hands out queued messages in the order in
//! which they were queued, and merges what the service sends into the state.

use crate::state::{ConnectionState, TeamsState, TeamsStateModel};
use crate::teams_json::{decode_parsed, json_parsed, JsonError};
use crate::teams_messages::{ClientMessage, ServerMessage};
use vstd::prelude::*;
use vstd::string::StringExecFns;

verus! {

/// Why the client failed.
#[derive(Debug, Clone, PartialEq, Eq)]
pub enum WebSocketError {
    Connection(String),
    Send(String),
    Receive(String),
    /// A message could not be read or written as JSON.
    Json(String),
    /// The connection itself failed; the text is the transport's message.
    WebSocket(String),
    Stopped,
}

impl WebSocketError {
    /// The text of the error.
    pub open spec fn text(&self) -> Seq<char> {
        match self {
            WebSocketError::Connection(m) => "Connection error: "@ + m@,
            WebSocketError::Send(m) => "Send error: "@ + m@,
            WebSocketError::Receive(m) => "Receive error: "@ + m@,
            WebSocketError::Json(m) => "JSON error: "@ + m@,
            WebSocketError::WebSocket(m) => "WebSocket error: "@ + m@,
            WebSocketError::Stopped => "Client stopped"@,
        }
    }

    /// The display form of the error.
    pub fn to_string(&self) -> (s: String)
        ensures
            s@ == self.text(),
    {
        match self {
            WebSocketError::Connection(m) => String::from_str("Connection error: ").concat(
                m.as_str(),
            ),
            WebSocketError::Send(m) => String::from_str("Send error: ").concat(m.as_str()),
            WebSocketError::Receive(m) => String::from_str("Receive error: ").concat(m.as_str()),
            WebSocketError::Json(m) => String::from_str("JSON error: ").concat(m.as_str()),
            WebSocketError::WebSocket(m) => String::from_str("WebSocket error: ").concat(
                m.as_str(),
            ),
            WebSocketError::Stopped => String::from_str("Client stopped"),
        }
    }
}

/// Who the client says it is when it connects.
#[derive(Debug, Clone)]
pub struct Identifier {
    pub protocol_version: String,
    pub manufacturer: String,
    pub device: String,
    pub app: String,
    pub app_version: String,
    pub token: String,
}

/// What an identifier holds, as plain values.
pub struct IdentifierModel {
    pub protocol_version: Seq<char>,
    pub manufacturer: Seq<char>,
    pub device: Seq<char>,
    pub app: Seq<char>,
    pub app_version: Seq<char>,
    pub token: Seq<char>,
}

impl IdentifierModel {
    /// The address with the identifier as its query: the fields are put
    /// behind the base address as they are.
    pub open spec fn uri(self, base_uri: Seq<char>) -> Seq<char> {
        base_uri + "?protocol-version="@ + self.protocol_version + "&manufacturer="@
            + self.manufacturer + "&device="@ + self.device + "&app="@ + self.app
            + "&app-version="@ + self.app_version + "&token="@ + self.token
    }
}

impl View for Identifier {
    type V = IdentifierModel;

    open spec fn view(&self) -> IdentifierModel {
        IdentifierModel {
            protocol_version: self.protocol_version@,
            manufacturer: self.manufacturer@,
            device: self.device@,
            app: self.app@,
            app_version: self.app_version@,
            token: self.token@,
        }
    }
}

impl Identifier {
    /// An identifier for version 2.0.0 of the protocol, without a token.
    pub fn new(manufacturer: &str, device: &str, app: &str, app_version: &str) -> (r: Self)
        ensures
            r@ == (IdentifierModel {
                protocol_version: "2.0.0"@,
                manufacturer: manufacturer@,
                device: device@,
                app: app@,
                app_version: app_version@,
                token: Seq::empty(),
            }),
    {
        Identifier {
            protocol_version: String::from_str("2.0.0"),
            manufacturer: String::from_str(manufacturer),
            device: String::from_str(device),
            app: String::from_str(app),
            app_version: String::from_str(app_version),
            token: String::new(),
        }
    }

    /// The same identifier with the given token.
    pub fn with_token(self, token: &str) -> (r: Self)
        ensures
            r@ == (IdentifierModel { token: token@, ..self@ }),
    {
        Identifier {
            protocol_version: self.protocol_version,
            manufacturer: self.manufacturer,
            device: self.device,
            app: self.app,
            app_version: self.app_version,
            token: String::from_str(token),
        }
    }

    /// Builds the address to connect to: the base address with the
    /// identifier as its query.
    pub fn build_uri(&self, base_uri: &str) -> (uri: String)
        ensures
            uri@ == self@.uri(base_uri@),
    {
        let mut uri = String::from_str(base_uri);
        uri.append("?protocol-version=");
        uri.append(self.protocol_version.as_str());
        uri.append("&manufacturer=");
        uri.append(self.manufacturer.as_str());
        uri.append("&device=");
        uri.append(self.device.as_str());
        uri.append("&app=");
        uri.append(self.app.as_str());
        uri.append("&app-version=");
        uri.append(self.app_version.as_str());
        uri.append("&token=");
        uri.append(self.token.as_str());
        uri
    }
}

/// What an address parses to as a URL: the address as the parser writes
/// it, or the parser's message if it is not a URL.
pub uninterp spec fn parsed_url(text: Seq<char>) -> Result<Seq<char>, Seq<char>>;

/// Parses an address with `url::Url::parse` and writes it as `Url::as_str`
/// does.
///
/// Believed of `url`: what the parser returns depends on the text alone.
/// Nothing else is claimed: the result is named, not described.
#[verifier::external_body]
fn parse_url(text: &str) -> (r: Result<String, String>)
    ensures
        match r {
            Ok(address) => parsed_url(text@) == Ok::<Seq<char>, Seq<char>>(address@),
            Err(message) => parsed_url(text@) == Err::<Seq<char>, Seq<char>>(message@),
        },
{
    match url::Url::parse(text) {
        Ok(parsed) => Ok(parsed.as_str().to_string()),
        Err(error) => Err(error.to_string()),
    }
}

/// The address to connect to, from what the client's address has parsed to:
/// the parsed address, or a connection error that says why it is invalid.
pub open spec fn target_of(parsed: Result<Seq<char>, Seq<char>>) -> Result<Seq<char>, Seq<char>> {
    match parsed {
        Ok(address) => Ok(address),
        Err(message) => Err("Invalid URL: "@ + message),
    }
}

/// Whether a result of looking for the target is the one that the rules
/// give.
pub open spec fn is_target(
    r: Result<String, WebSocketError>,
    expected: Result<Seq<char>, Seq<char>>,
) -> bool {
    match r {
        Ok(address) => expected == Ok::<Seq<char>, Seq<char>>(address@),
        Err(WebSocketError::Connection(message)) => expected == Err::<Seq<char>, Seq<char>>(
            message@,
        ),
        Err(_) => false,
    }
}

/// The address to connect to, from what the client's address has parsed
/// to.
pub fn connection_target(parsed: Result<String, String>) -> (r: Result<String, WebSocketError>)
    ensures
        is_target(
            r,
            target_of(
                match parsed {
                    Ok(address) => Ok(address@),
                    Err(message) => Err(message@),
                },
            ),
        ),
{
    match parsed {
        Ok(address) => Ok(address),
        Err(message) => Err(
            WebSocketError::Connection(String::from_str("Invalid URL: ").concat(message.as_str())),
        ),
    }
}

/// How long the driver waits before it connects again, in milliseconds.
pub const RETRY_INTERVAL_MILLIS: u64 = 250;

/// How long the driver waits for a frame, in milliseconds.
pub const RECEIVE_TIMEOUT_MILLIS: u64 = 1000;

/// How long the sender pauses when nothing is queued, in milliseconds.
pub const SEND_SLEEP_MILLIS: u64 = 200;

/// Where the client stands.
#[derive(Debug, Clone, Copy, PartialEq, Eq, Structural)]
pub enum ClientPhase {
    /// No connection, and none is being made.
    Disconnected,
    /// A connection is being made.
    Connecting,
    /// The connection stands; messages are sent and received.
    Connected,
    /// The last attempt has failed; the client waits before the next.
    Waiting,
}

/// What has happened to the connection.
#[derive(Debug)]
pub enum ClientEvent {
    /// The client is to run.
    Start,
    /// The connection was made.
    Connected,
    /// The connection could not be made.
    ConnectFailed(WebSocketError),
    /// The sender or the receiver has ended, with an error or without.
    ConnectionEnded,
    /// The pause is over.
    SleepDone,
}

/// What the driver is to do for the connection.
#[derive(Debug, PartialEq, Eq)]
pub enum ClientAction {
    /// Connect to the address.
    Connect(String),
    /// Run the sender and the receiver until one of them ends.
    RunLoops,
    /// Pause for the given number of milliseconds.
    Sleep(u64),
    /// Stop: the client has ended with this result.
    Finish(Result<(), WebSocketError>),
    /// The event was not the one waited for; nothing has changed.
    Ignored,
}

/// What the sender is to do.
#[derive(Debug, PartialEq, Eq)]
pub enum SendAction {
    /// Send the text.
    Transmit(String),
    /// Nothing is queued: pause for the given number of milliseconds.
    Sleep(u64),
    /// The client no longer runs: end.
    Stop,
}

/// What the receiver has got.
#[derive(Debug)]
pub enum Frame {
    /// A frame of text.
    Text(String),
    /// A frame of another kind.
    Other,
    /// Nothing came in time.
    TimedOut,
    /// The connection was closed.
    Closed,
    /// Receiving failed; the text is the transport's message.
    Failed(String),
}

/// What the receiver is to do.
#[derive(Debug)]
pub enum ReceiveAction {
    /// Hand the message to the callback, if one is registered, and go on.
    Deliver { message: ServerMessage, callback: Option<u64> },
    /// The frame could not be read as a message: drop it and go on.
    Dropped(JsonError),
    /// Go on.
    Continue,
    /// The client no longer runs: end.
    Stop,
    /// End with the error.
    Fail(WebSocketError),
}

/// What the client holds, as plain values.
pub struct ClientModel {
    pub state: TeamsStateModel,
    pub uri: Seq<char>,
    pub queue: Seq<ClientMessage>,
    pub running: bool,
    pub phase: ClientPhase,
    /// The callback that is registered, if there is one.
    pub callback: Option<u64>,
    pub next_callback: u64,
}

impl ClientModel {
    /// The client with the given connection status.
    pub open spec fn with_status(self, status: ConnectionState) -> ClientModel {
        ClientModel { state: TeamsStateModel { connection_status: status, ..self.state }, ..self }
    }

    /// The client begins an attempt to connect: it is disconnected and
    /// asks for a connection to its address. An address that is not valid
    /// counts as an attempt that has failed.
    pub open spec fn attempts(self, post: ClientModel, action: ClientAction) -> bool {
        match target_of(parsed_url(self.uri)) {
            Ok(address) => {
                &&& post == (ClientModel {
                    phase: ClientPhase::Connecting,
                    ..self.with_status(ConnectionState::Disconnected)
                })
                &&& action matches ClientAction::Connect(target)
                &&& target@ == address
            },
            Err(_) => self.with_status(ConnectionState::Disconnected).fails(post, action),
        }
    }

    /// An attempt has failed: the client waits before it looks again.
    pub open spec fn fails(self, post: ClientModel, action: ClientAction) -> bool {
        &&& post == (ClientModel { phase: ClientPhase::Waiting, ..self })
        &&& action == ClientAction::Sleep(RETRY_INTERVAL_MILLIS)
    }

    /// The client ends.
    pub open spec fn ends(self, post: ClientModel, action: ClientAction) -> bool {
        &&& post == (ClientModel { phase: ClientPhase::Disconnected, ..self })
        &&& action == ClientAction::Finish(Ok(()))
    }

    /// One step of the connection's supervision: the state before, the
    /// event, the state after and the action that is asked for.
    pub open spec fn step(self, event: ClientEvent, post: ClientModel, action: ClientAction) -> bool {
        match (self.phase, event) {
            (ClientPhase::Disconnected, ClientEvent::Start) => (ClientModel {
                running: true,
                ..self
            }).attempts(post, action),
            (ClientPhase::Connecting, ClientEvent::Connected) => {
                &&& post == (ClientModel {
                    phase: ClientPhase::Connected,
                    ..self.with_status(ConnectionState::Connected)
                })
                &&& action == ClientAction::RunLoops
            },
            (ClientPhase::Connecting, ClientEvent::ConnectFailed(_)) => self.fails(post, action),
            (ClientPhase::Connected, ClientEvent::ConnectionEnded) => {
                let ended = self.with_status(ConnectionState::Disconnected);
                if self.running {
                    ended.attempts(post, action)
                } else {
                    ended.ends(post, action)
                }
            },
            (ClientPhase::Waiting, ClientEvent::SleepDone) => if self.running {
                self.attempts(post, action)
            } else {
                self.ends(post, action)
            },
            _ => post == self && action is Ignored,
        }
    }

    /// What the sender does next: while the client runs it sends the
    /// message that was queued first, or pauses if none is queued.
    pub open spec fn sends(self, post: ClientModel, action: SendAction) -> bool {
        if !self.running {
            post == self && action is Stop
        } else if self.queue.len() == 0 {
            post == self && action == SendAction::Sleep(SEND_SLEEP_MILLIS)
        } else {
            &&& post == (ClientModel { queue: self.queue.drop_first(), ..self })
            &&& action matches SendAction::Transmit(text)
            &&& text@ == self.queue[0].json()
        }
    }

    /// What the receiver does with a frame that came at the given time:
    /// a message is merged into the state, which notes the time, and is
    /// handed on; text that is no message is dropped; a closed or failed
    /// connection ends the receiver with an error.
    pub open spec fn receives(
        self,
        frame: Frame,
        now_millis: u64,
        post: ClientModel,
        action: ReceiveAction,
    ) -> bool {
        if !self.running {
            post == self && action is Stop
        } else {
            match frame {
                Frame::Text(text) => match decode_parsed(json_parsed(text@)) {
                    Ok(message) => {
                        &&& post == (ClientModel {
                            state: TeamsStateModel {
                                state: self.state.state.merged(message),
                                last_received_timestamp: Some(now_millis),
                                ..self.state
                            },
                            ..self
                        })
                        &&& action matches ReceiveAction::Deliver { message: delivered, callback }
                        &&& delivered@ == message
                        &&& callback == self.callback
                    },
                    Err(error) => {
                        &&& post == self
                        &&& action matches ReceiveAction::Dropped(e)
                        &&& e == error
                    },
                },
                Frame::Other => post == self && action is Continue,
                Frame::TimedOut => post == self && action is Continue,
                Frame::Closed => {
                    &&& post == self
                    &&& action matches ReceiveAction::Fail(WebSocketError::Receive(message))
                    &&& message@ == "Connection closed"@
                },
                Frame::Failed(reason) => {
                    &&& post == self
                    &&& action == ReceiveAction::Fail(WebSocketError::Receive(reason))
                },
            }
        }
    }
}

/// The client of the meeting service.
pub struct TeamsWebSocketClient {
    state: TeamsState,
    uri: String,
    queue: Vec<ClientMessage>,
    running: bool,
    phase: ClientPhase,
    callback: Option<u64>,
    next_callback: u64,
}

impl View for TeamsWebSocketClient {
    type V = ClientModel;

    closed spec fn view(&self) -> ClientModel {
        ClientModel {
            state: self.state@,
            uri: self.uri@,
            queue: self.queue@,
            running: self.running,
            phase: self.phase,
            callback: self.callback,
            next_callback: self.next_callback,
        }
    }
}

impl TeamsWebSocketClient {
    /// Creates a client for the service at the given address. The
    /// identifier becomes the query of the address, once and for all. The
    /// client does not run yet, and its queue is empty.
    pub fn new(state: TeamsState, uri: &str, identifier: Identifier) -> (r: Self)
        ensures
            r@ == (ClientModel {
                state: state@,
                uri: identifier@.uri(uri@),
                queue: Seq::empty(),
                running: false,
                phase: ClientPhase::Disconnected,
                callback: None,
                next_callback: 0,
            }),
    {
        let uri = identifier.build_uri(uri);
        TeamsWebSocketClient {
            state,
            uri,
            queue: Vec::new(),
            running: false,
            phase: ClientPhase::Disconnected,
            callback: None,
            next_callback: 0,
        }
    }

    /// Registers the callback for the messages of the service and returns
    /// the number that stands for it. There is one callback at most: a
    /// callback that was registered before is replaced.
    pub fn register_callback(&mut self) -> (id: u64)
        ensures
            id == old(self)@.next_callback,
            final(self)@ == (ClientModel {
                callback: Some(id),
                next_callback: if id == u64::MAX {
                    0
                } else {
                    (id + 1) as u64
                },
                ..old(self)@
            }),
    {
        let id = self.next_callback;
        self.next_callback = id.wrapping_add(1);
        self.callback = Some(id);
        id
    }

    /// The callback that is registered, if there is one.
    pub fn callback(&self) -> (r: Option<u64>)
        ensures
            r == self@.callback,
    {
        self.callback
    }

    /// Queues a message for the service. The queue has no bound, and the
    /// message is accepted whether or not the client is connected.
    pub fn send_message(&mut self, message: ClientMessage) -> (r: Result<(), WebSocketError>)
        ensures
            r is Ok,
            final(self)@ == (ClientModel { queue: old(self)@.queue.push(message), ..old(self)@ }),
    {
        self.queue.push(message);
        Ok(())
    }

    /// Checks whether the client runs.
    pub fn is_running(&self) -> (b: bool)
        ensures
            b == self@.running,
    {
        self.running
    }

    /// Asks the client to stop. The sender, the receiver and the
    /// supervision see it at their next step.
    pub fn stop(&mut self)
        ensures
            final(self)@ == (ClientModel { running: false, ..old(self)@ }),
    {
        self.running = false;
    }

    /// Whether the client is connected.
    pub fn connection_status(&self) -> (s: ConnectionState)
        ensures
            s == self@.state.connection_status,
    {
        self.state.connection_status()
    }

    /// A copy of what the service has reported so far.
    pub fn state(&self) -> (m: ServerMessage)
        ensures
            m@ == self@.state.state,
    {
        self.state.state()
    }

    /// When the last message came, in milliseconds since the start of 1970.
    pub fn last_received_timestamp(&self) -> (t: Option<u64>)
        ensures
            t == self@.state.last_received_timestamp,
    {
        self.state.last_received_timestamp()
    }

    /// The address that the client connects to.
    pub fn uri(&self) -> (uri: &String)
        ensures
            uri@ == self@.uri,
    {
        &self.uri
    }

    /// Number of messages that wait to be sent.
    pub fn queued(&self) -> (n: usize)
        ensures
            n == self@.queue.len(),
    {
        self.queue.len()
    }

    /// Where the client stands.
    pub fn phase(&self) -> (p: ClientPhase)
        ensures
            p == self@.phase,
    {
        self.phase
    }

    /// Begins an attempt to connect.
    fn attempt(&mut self) -> (action: ClientAction)
        ensures
            old(self)@.attempts(final(self)@, action),
    {
        self.state.set_connection_status(ConnectionState::Disconnected);
        match connection_target(parse_url(self.uri.as_str())) {
            Ok(address) => {
                self.phase = ClientPhase::Connecting;
                ClientAction::Connect(address)
            },
            Err(_) => self.fail(),
        }
    }

    /// Handles a failed attempt to connect.
    fn fail(&mut self) -> (action: ClientAction)
        ensures
            old(self)@.fails(final(self)@, action),
    {
        self.phase = ClientPhase::Waiting;
        ClientAction::Sleep(RETRY_INTERVAL_MILLIS)
    }

    /// Ends the client.
    fn end(&mut self) -> (action: ClientAction)
        ensures
            old(self)@.ends(final(self)@, action),
    {
        self.phase = ClientPhase::Disconnected;
        ClientAction::Finish(Ok(()))
    }

    /// Takes what has happened to the connection and returns what the
    /// driver is to do next. An event that the client does not wait for
    /// changes nothing.
    pub fn step(&mut self, event: ClientEvent) -> (action: ClientAction)
        ensures
            old(self)@.step(event, final(self)@, action),
    {
        match (self.phase, event) {
            (ClientPhase::Disconnected, ClientEvent::Start) => {
                self.running = true;
                self.attempt()
            },
            (ClientPhase::Connecting, ClientEvent::Connected) => {
                self.state.set_connection_status(ConnectionState::Connected);
                self.phase = ClientPhase::Connected;
                ClientAction::RunLoops
            },
            (ClientPhase::Connecting, ClientEvent::ConnectFailed(_)) => self.fail(),
            (ClientPhase::Connected, ClientEvent::ConnectionEnded) => {
                self.state.set_connection_status(ConnectionState::Disconnected);
                if self.running {
                    self.attempt()
                } else {
                    self.end()
                }
            },
            (ClientPhase::Waiting, ClientEvent::SleepDone) => {
                if self.running {
                    self.attempt()
                } else {
                    self.end()
                }
            },
            _ => ClientAction::Ignored,
        }
    }

    /// Decides what the sender does next.
    pub fn next_send(&mut self) -> (action: SendAction)
        ensures
            old(self)@.sends(final(self)@, action),
    {
        if !self.running {
            SendAction::Stop
        } else if self.queue.len() == 0 {
            SendAction::Sleep(SEND_SLEEP_MILLIS)
        } else {
            let message = self.queue.remove(0);
            SendAction::Transmit(message.to_json())
        }
    }

    /// Decides what the receiver does with a frame that came at the given
    /// time, in milliseconds since the start of 1970.
    pub fn on_frame(&mut self, frame: Frame, now_millis: u64) -> (action: ReceiveAction)
        ensures
            old(self)@.receives(frame, now_millis, final(self)@, action),
    {
        if !self.running {
            return ReceiveAction::Stop;
        }
        match frame {
            Frame::Text(text) => match ServerMessage::from_json(text.as_str()) {
                Ok(message) => {
                    self.state.update_state(&message);
                    self.state.set_last_received_timestamp(now_millis);
                    ReceiveAction::Deliver { message, callback: self.callback }
                },
                Err(error) => ReceiveAction::Dropped(error),
            },
            Frame::Other => ReceiveAction::Continue,
            Frame::TimedOut => ReceiveAction::Continue,
            Frame::Closed => ReceiveAction::Fail(
                WebSocketError::Receive(String::from_str("Connection closed")),
            ),
            Frame::Failed(reason) => ReceiveAction::Fail(WebSocketError::Receive(reason)),
        }
    }
}

/// The error with which the sender ends when a message could not be sent.
pub fn send_failure(reason: String) -> (e: WebSocketError)
    ensures
        e == WebSocketError::Send(reason),
{
    WebSocketError::Send(reason)
}

/// Messages leave the queue in the order in which they were queued: the
/// sender takes the message that was queued first, and a message that is
/// queued while others wait is sent after them.
pub proof fn lemma_queue_is_fifo(
    client: ClientModel,
    message: ClientMessage,
    post: ClientModel,
    action: SendAction,
)
    requires
        client.running,
        client.queue.len() > 0,
        (ClientModel { queue: client.queue.push(message), ..client }).sends(post, action),
    ensures
        action matches SendAction::Transmit(text) && text@ == client.queue[0].json(),
        post.queue == client.queue.drop_first().push(message),
{
    assert(client.queue.push(message).drop_first() =~= client.queue.drop_first().push(message));
}

/// The connection status follows the phase: after any step the client is
/// connected exactly if it stands in the phase of that name, provided that
/// this held before.
pub proof fn lemma_status_follows_phase(
    pre: ClientModel,
    event: ClientEvent,
    post: ClientModel,
    action: ClientAction,
)
    requires
        pre.step(event, post, action),
        pre.state.connection_status == ConnectionState::Connected <==> pre.phase
            == ClientPhase::Connected,
    ensures
        post.state.connection_status == ConnectionState::Connected <==> post.phase
            == ClientPhase::Connected,
        action is RunLoops ==> post.phase == ClientPhase::Connected,
        action is Connect ==> post.phase == ClientPhase::Connecting,
{
}

} // verus!
