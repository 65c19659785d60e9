//! The life cycle of the relay connection: connecting, the heartbeat, the
//! liveness deadline and the retry after every loss. The decisions are
//! taken here; the socket, the timers and the channels belong to the
//! caller, which reports what happened as a `SocketEvent` and carries out
//! the `Command`s it gets back.

use vstd::prelude::*;
use crate::clock::now_millis;
use crate::websocket::{
    endpoint_text, history_request_text, message_outcome, outcome_view, update_text, FrameError,
    WebSocketClient, WsEvent, WsEventView,
};

verus! {

/// The time between two pings, in milliseconds.
pub const PING_INTERVAL_MS: u64 = 5000;

/// How long the connection may stay without an inbound frame before it
/// counts as dead, in milliseconds.
pub const LIVENESS_TIMEOUT_MS: u64 = 10000;

/// The pause before the next attempt to connect, in milliseconds.
pub const RETRY_DELAY_MS: u64 = 5000;

/// The time between two checks of the liveness deadline, in milliseconds.
pub const WAKE_INTERVAL_MS: u64 = 100;

/// Where the connection stands.
#[derive(Clone, Copy, Debug, PartialEq, Eq, Structural)]
pub enum ConnectionState {
    Disconnected,
    Connecting,
    Connected,
}

/// What the caller reports. Times are milliseconds on a clock that never
/// runs backwards.
#[derive(Clone, Debug, PartialEq, Eq)]
pub enum SocketEvent {
    /// The attempt to connect succeeded at the given time.
    ConnectSucceeded(u64),
    /// The attempt to connect failed, with the reason.
    ConnectFailed(String),
    /// A text frame arrived at the given time.
    Text(String, u64),
    /// A ping frame arrived at the given time.
    Ping(u64),
    /// A pong frame arrived at the given time.
    Pong(u64),
    /// The relay closed the connection, or the stream ended.
    Closed,
    /// Reading from the socket failed.
    ReadError,
    /// Writing an update or a ping to the socket failed.
    SendFailed,
    /// A content to deliver, copied at the given time since the epoch.
    Outbound(String, i64),
    /// The ping timer fired.
    PingDue,
    /// The wake-up timer fired at the given time.
    Tick(u64),
    /// The pause before the next attempt is over.
    RetryDue,
}

/// A report as a mathematical value.
pub enum SocketEventView {
    ConnectSucceeded(u64),
    ConnectFailed(Seq<char>),
    Text(Seq<char>, u64),
    Ping(u64),
    Pong(u64),
    Closed,
    ReadError,
    SendFailed,
    Outbound(Seq<char>, i64),
    PingDue,
    Tick(u64),
    RetryDue,
}

impl View for SocketEvent {
    type V = SocketEventView;

    open spec fn view(&self) -> SocketEventView {
        match self {
            SocketEvent::ConnectSucceeded(now) => SocketEventView::ConnectSucceeded(*now),
            SocketEvent::ConnectFailed(reason) => SocketEventView::ConnectFailed(reason@),
            SocketEvent::Text(text, now) => SocketEventView::Text(text@, *now),
            SocketEvent::Ping(now) => SocketEventView::Ping(*now),
            SocketEvent::Pong(now) => SocketEventView::Pong(*now),
            SocketEvent::Closed => SocketEventView::Closed,
            SocketEvent::ReadError => SocketEventView::ReadError,
            SocketEvent::SendFailed => SocketEventView::SendFailed,
            SocketEvent::Outbound(content, timestamp) => SocketEventView::Outbound(
                content@,
                *timestamp,
            ),
            SocketEvent::PingDue => SocketEventView::PingDue,
            SocketEvent::Tick(now) => SocketEventView::Tick(*now),
            SocketEvent::RetryDue => SocketEventView::RetryDue,
        }
    }
}

/// What the caller is asked to do.
#[derive(Clone, Debug, PartialEq, Eq)]
pub enum Command {
    /// Open a connection to the address.
    Connect(String),
    /// Hand the event to the coordinator.
    Emit(WsEvent),
    /// Send the frame that asks for the relay's history. A failure of this
    /// write is not reported back.
    RequestHistory(String),
    /// Send the frame; report a failure as `SendFailed`.
    SendUpdate(String),
    /// Send a ping; report a failure as `SendFailed`.
    SendPing,
    /// Drop the socket, wait that many milliseconds, then report
    /// `RetryDue`.
    RetryAfter(u64),
    /// The content cannot be delivered now: it is the caller's to queue.
    Reject(String),
    /// Log that an inbound frame was dropped, and why.
    Dropped(FrameError),
}

/// A command as a mathematical value.
pub enum CommandView {
    Connect(Seq<char>),
    Emit(WsEventView),
    RequestHistory(Seq<char>),
    SendUpdate(Seq<char>),
    SendPing,
    RetryAfter(u64),
    Reject(Seq<char>),
    Dropped(FrameError),
}

impl View for Command {
    type V = CommandView;

    open spec fn view(&self) -> CommandView {
        match self {
            Command::Connect(address) => CommandView::Connect(address@),
            Command::Emit(event) => CommandView::Emit(event@),
            Command::RequestHistory(frame) => CommandView::RequestHistory(frame@),
            Command::SendUpdate(frame) => CommandView::SendUpdate(frame@),
            Command::SendPing => CommandView::SendPing,
            Command::RetryAfter(delay) => CommandView::RetryAfter(*delay),
            Command::Reject(content) => CommandView::Reject(content@),
            Command::Dropped(error) => CommandView::Dropped(*error),
        }
    }
}

/// The views of a sequence of commands, in the same order.
pub open spec fn command_views(commands: Seq<Command>) -> Seq<CommandView> {
    commands.map_values(|command: Command| command@)
}

/// The connection as a mathematical value.
pub struct ConnectionView {
    /// The relay's address.
    pub url: Seq<char>,
    /// The token sent with it.
    pub token: Seq<char>,
    pub state: ConnectionState,
    /// When the last inbound frame arrived; meaningful while connected.
    pub last_inbound: u64,
}

/// The time that has passed between `since` and `now`; none where the
/// clock reads less than before.
pub open spec fn elapsed(since: u64, now: u64) -> int {
    if now >= since {
        now - since
    } else {
        0
    }
}

/// Whether a connection whose last inbound frame came at `since` counts
/// as dead at `now`.
pub open spec fn is_dead(since: u64, now: u64) -> bool {
    elapsed(since, now) > LIVENESS_TIMEOUT_MS
}

/// What every loss of the connection asks for: tell the coordinator, and
/// try again after the pause.
pub open spec fn loss_commands() -> Seq<CommandView> {
    seq![CommandView::Emit(WsEventView::Disconnected), CommandView::RetryAfter(RETRY_DELAY_MS)]
}

/// The connection with another state.
pub open spec fn in_state(connection: ConnectionView, state: ConnectionState) -> ConnectionView {
    ConnectionView { state, ..connection }
}

/// The connection after an inbound frame arrived at `now`.
pub open spec fn heard_at(connection: ConnectionView, now: u64) -> ConnectionView {
    ConnectionView { last_inbound: now, ..connection }
}

/// The connection after `event`. A report that does not fit the state (a
/// frame while not connected, a second success) changes nothing.
pub open spec fn next_connection(connection: ConnectionView, event: SocketEventView) -> ConnectionView {
    match event {
        SocketEventView::ConnectSucceeded(now) => if connection.state
            == ConnectionState::Connecting {
            heard_at(in_state(connection, ConnectionState::Connected), now)
        } else {
            connection
        },
        SocketEventView::ConnectFailed(_) => if connection.state == ConnectionState::Connecting {
            in_state(connection, ConnectionState::Disconnected)
        } else {
            connection
        },
        SocketEventView::Text(_, now) | SocketEventView::Ping(now) | SocketEventView::Pong(now) => {
            if connection.state == ConnectionState::Connected {
                heard_at(connection, now)
            } else {
                connection
            }
        },
        SocketEventView::Closed | SocketEventView::ReadError | SocketEventView::SendFailed => {
            if connection.state == ConnectionState::Connected {
                in_state(connection, ConnectionState::Disconnected)
            } else {
                connection
            }
        },
        SocketEventView::Outbound(_, _) | SocketEventView::PingDue => connection,
        SocketEventView::Tick(now) => if connection.state == ConnectionState::Connected && is_dead(
            connection.last_inbound,
            now,
        ) {
            in_state(connection, ConnectionState::Disconnected)
        } else {
            connection
        },
        SocketEventView::RetryDue => if connection.state == ConnectionState::Disconnected {
            in_state(connection, ConnectionState::Connecting)
        } else {
            connection
        },
    }
}

/// What the caller is to do after `event`, in order.
pub open spec fn commands_for(connection: ConnectionView, event: SocketEventView) -> Seq<
    CommandView,
> {
    match event {
        SocketEventView::ConnectSucceeded(_) => if connection.state
            == ConnectionState::Connecting {
            seq![
                CommandView::Emit(WsEventView::Connected),
                CommandView::RequestHistory(history_request_text()),
            ]
        } else {
            Seq::empty()
        },
        SocketEventView::ConnectFailed(reason) => if connection.state
            == ConnectionState::Connecting {
            seq![CommandView::Emit(WsEventView::Error(reason))] + loss_commands()
        } else {
            Seq::empty()
        },
        SocketEventView::Text(text, _) => if connection.state == ConnectionState::Connected {
            match message_outcome(text) {
                Ok(Some(inbound)) => seq![CommandView::Emit(inbound)],
                Ok(None) => Seq::empty(),
                Err(error) => seq![CommandView::Dropped(error)],
            }
        } else {
            Seq::empty()
        },
        SocketEventView::Ping(_) | SocketEventView::Pong(_) => Seq::empty(),
        SocketEventView::Closed | SocketEventView::ReadError | SocketEventView::SendFailed => {
            if connection.state == ConnectionState::Connected {
                loss_commands()
            } else {
                Seq::empty()
            }
        },
        SocketEventView::Outbound(content, timestamp) => if connection.state
            == ConnectionState::Connected {
            seq![CommandView::SendUpdate(update_text(content, timestamp))]
        } else {
            seq![CommandView::Reject(content)]
        },
        SocketEventView::PingDue => if connection.state == ConnectionState::Connected {
            seq![CommandView::SendPing]
        } else {
            Seq::empty()
        },
        SocketEventView::Tick(now) => if connection.state == ConnectionState::Connected && is_dead(
            connection.last_inbound,
            now,
        ) {
            loss_commands()
        } else {
            Seq::empty()
        },
        SocketEventView::RetryDue => if connection.state == ConnectionState::Disconnected {
            seq![CommandView::Connect(endpoint_text(connection.url, connection.token))]
        } else {
            Seq::empty()
        },
    }
}

/// What the caller is to do with a content to deliver that was copied at
/// `timestamp`.
pub open spec fn outbound_commands(
    connection: ConnectionView,
    content: Seq<char>,
    timestamp: i64,
) -> Seq<CommandView> {
    commands_for(connection, SocketEventView::Outbound(content, timestamp))
}

/// The relay connection's state between two reports.
pub struct Connection {
    client: WebSocketClient,
    state: ConnectionState,
    last_inbound: u64,
}

impl View for Connection {
    type V = ConnectionView;

    closed spec fn view(&self) -> ConnectionView {
        ConnectionView {
            url: self.client.url_text(),
            token: self.client.token_text(),
            state: self.state,
            last_inbound: self.last_inbound,
        }
    }
}

/// The two commands that follow every loss of the connection.
fn loss() -> (commands: Vec<Command>)
    ensures
        command_views(commands@) == loss_commands(),
{
    let commands = vec![Command::Emit(WsEvent::Disconnected), Command::RetryAfter(RETRY_DELAY_MS)];
    assert(command_views(commands@) =~= loss_commands());
    commands
}

/// No command.
fn nothing() -> (commands: Vec<Command>)
    ensures
        command_views(commands@) == Seq::<CommandView>::empty(),
{
    let commands: Vec<Command> = Vec::new();
    assert(command_views(commands@) =~= Seq::<CommandView>::empty());
    commands
}

/// One command.
fn only(command: Command) -> (commands: Vec<Command>)
    ensures
        command_views(commands@) == seq![command@],
{
    let commands = vec![command];
    assert(command_views(commands@) =~= seq![command@]);
    commands
}

impl Connection {
    /// A connection for `client`, not yet connected. The first `RetryDue`
    /// starts the first attempt.
    pub fn new(client: WebSocketClient) -> (connection: Connection)
        ensures
            connection@ == (ConnectionView {
                url: client.url_text(),
                token: client.token_text(),
                state: ConnectionState::Disconnected,
                last_inbound: 0,
            }),
    {
        Connection { client, state: ConnectionState::Disconnected, last_inbound: 0 }
    }

    /// Where the connection stands.
    pub fn state(&self) -> (state: ConnectionState)
        ensures
            state == self@.state,
    {
        self.state
    }

    /// The connected signal that observers are shown.
    pub fn is_connected(&self) -> (connected: bool)
        ensures
            connected == (self@.state == ConnectionState::Connected),
    {
        match self.state {
            ConnectionState::Connected => true,
            _ => false,
        }
    }

    /// Whether the liveness deadline has passed at `now`: more than ten
    /// seconds since the last inbound frame.
    pub fn timed_out(&self, now: u64) -> (dead: bool)
        ensures
            dead == is_dead(self@.last_inbound, now),
    {
        now >= self.last_inbound && now - self.last_inbound > LIVENESS_TIMEOUT_MS
    }

    /// Takes a report and decides what follows.
    pub fn step(&mut self, event: SocketEvent) -> (commands: Vec<Command>)
        ensures
            final(self)@ == next_connection(old(self)@, event@),
            command_views(commands@) == commands_for(old(self)@, event@),
    {
        let connected = self.is_connected();
        match event {
            SocketEvent::ConnectSucceeded(now) => match self.state {
                ConnectionState::Connecting => {
                    self.state = ConnectionState::Connected;
                    self.last_inbound = now;
                    let commands = vec![
                        Command::Emit(WsEvent::Connected),
                        Command::RequestHistory(WebSocketClient::history_request()),
                    ];
                    assert(command_views(commands@) =~= commands_for(old(self)@, event@));
                    commands
                },
                _ => nothing(),
            },
            SocketEvent::ConnectFailed(reason) => match self.state {
                ConnectionState::Connecting => {
                    self.state = ConnectionState::Disconnected;
                    let commands = vec![
                        Command::Emit(WsEvent::Error(reason)),
                        Command::Emit(WsEvent::Disconnected),
                        Command::RetryAfter(RETRY_DELAY_MS),
                    ];
                    assert(command_views(commands@) =~= commands_for(old(self)@, event@));
                    commands
                },
                _ => nothing(),
            },
            SocketEvent::Text(text, now) => {
                if connected {
                    self.last_inbound = now;
                    let outcome = self.client.handle_message(text.as_str());
                    assert(outcome_view(outcome) == message_outcome(text@));
                    match outcome {
                        Ok(Some(inbound)) => only(Command::Emit(inbound)),
                        Ok(None) => nothing(),
                        Err(error) => only(Command::Dropped(error)),
                    }
                } else {
                    nothing()
                }
            },
            SocketEvent::Ping(now) => {
                if connected {
                    self.last_inbound = now;
                }
                nothing()
            },
            SocketEvent::Pong(now) => {
                if connected {
                    self.last_inbound = now;
                }
                nothing()
            },
            SocketEvent::Closed => self.lose(),
            SocketEvent::ReadError => self.lose(),
            SocketEvent::SendFailed => self.lose(),
            SocketEvent::Outbound(content, timestamp) => {
                if connected {
                    only(
                        Command::SendUpdate(
                            WebSocketClient::update_message(content.as_str(), timestamp),
                        ),
                    )
                } else {
                    only(Command::Reject(content))
                }
            },
            SocketEvent::PingDue => {
                if connected {
                    only(Command::SendPing)
                } else {
                    nothing()
                }
            },
            SocketEvent::Tick(now) => {
                if connected && self.timed_out(now) {
                    self.lose()
                } else {
                    nothing()
                }
            },
            SocketEvent::RetryDue => match self.state {
                ConnectionState::Disconnected => {
                    self.state = ConnectionState::Connecting;
                    only(Command::Connect(self.client.endpoint()))
                },
                _ => nothing(),
            },
        }
    }

    /// Takes a content to deliver, stamps it with the current time and
    /// decides what follows: the update frame while connected, else the
    /// content handed back for queueing.
    pub fn outbound(&mut self, content: String) -> (commands: Vec<Command>)
        ensures
            final(self)@ == old(self)@,
            exists|timestamp: i64|
                command_views(commands@) == #[trigger] outbound_commands(
                    old(self)@,
                    content@,
                    timestamp,
                ),
    {
        let timestamp = now_millis();
        let commands = self.step(SocketEvent::Outbound(content, timestamp));
        assert(command_views(commands@) == outbound_commands(old(self)@, content@, timestamp));
        commands
    }

    /// Gives the connection up, where there is one.
    fn lose(&mut self) -> (commands: Vec<Command>)
        ensures
            old(self)@.state == ConnectionState::Connected ==> final(self)@ == in_state(
                old(self)@,
                ConnectionState::Disconnected,
            ) && command_views(commands@) == loss_commands(),
            old(self)@.state != ConnectionState::Connected ==> final(self)@ == old(self)@
                && command_views(commands@) == Seq::<CommandView>::empty(),
    {
        match self.state {
            ConnectionState::Connected => {
                self.state = ConnectionState::Disconnected;
                loss()
            },
            _ => nothing(),
        }
    }
}

/// A connection that hears nothing for more than ten seconds is given up
/// at the next wake-up: the coordinator is told and a new attempt is due
/// five seconds later, which then connects to the relay's address. Up to
/// the deadline the wake-up changes nothing.
pub proof fn law_heartbeat_timeout(connection: ConnectionView, now: u64)
    requires
        connection.state == ConnectionState::Connected,
    ensures
        now - connection.last_inbound > 10000 ==> {
            let lost = next_connection(connection, SocketEventView::Tick(now));
            &&& lost.state == ConnectionState::Disconnected
            &&& commands_for(connection, SocketEventView::Tick(now)) == seq![
                CommandView::Emit(WsEventView::Disconnected),
                CommandView::RetryAfter(5000),
            ]
            &&& next_connection(lost, SocketEventView::RetryDue).state
                == ConnectionState::Connecting
            &&& commands_for(lost, SocketEventView::RetryDue) == seq![
                CommandView::Connect(endpoint_text(connection.url, connection.token)),
            ]
        },
        now - connection.last_inbound <= 10000 ==> {
            &&& next_connection(connection, SocketEventView::Tick(now)) == connection
            &&& commands_for(connection, SocketEventView::Tick(now)) == Seq::<CommandView>::empty()
        },
{
}

/// Every inbound frame of a live connection, be it text, ping or pong,
/// moves the liveness deadline to ten seconds after its arrival.
pub proof fn law_inbound_frame_renews_deadline(
    connection: ConnectionView,
    text: Seq<char>,
    now: u64,
    later: u64,
)
    requires
        connection.state == ConnectionState::Connected,
        later >= now,
    ensures
        next_connection(connection, SocketEventView::Text(text, now)).last_inbound == now,
        next_connection(connection, SocketEventView::Ping(now)).last_inbound == now,
        next_connection(connection, SocketEventView::Pong(now)).last_inbound == now,
        next_connection(connection, SocketEventView::Pong(now)).state == ConnectionState::Connected,
        is_dead(now, later) <==> later - now > 10000,
{
}

/// Whatever is reported, the connection never stays without a next step:
/// every loss of a live connection asks for a retry after five seconds.
pub proof fn law_every_loss_retries(connection: ConnectionView, event: SocketEventView)
    requires
        connection.state == ConnectionState::Connected,
        next_connection(connection, event).state != ConnectionState::Connected,
    ensures
        next_connection(connection, event).state == ConnectionState::Disconnected,
        commands_for(connection, event) == loss_commands(),
{
}

} // verus!
