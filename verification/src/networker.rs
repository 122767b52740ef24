use vstd::prelude::*;

use crate::codec::{
    check_uid_request, encode_check_uid, encode_get_audio, encode_ping, get_audio_request,
    ping_request,
};
use crate::state::{ConnectOutcome, ConnectionState, Event};
use crate::types::{
    CheckUidResponse, CheckUidResponseView, ConnectionConfig, NetworkerCommand, NetworkerStatus,
};

verus! {

/// Whose certificates the transport accepts.
#[derive(Debug, Clone, Copy, PartialEq, Eq, Structural)]
pub enum TrustPolicy {
    /// Only chains that lead to a root of the public web.
    PublicRoots,
    /// Any certificate at all: for development and trusted private networks.
    AcceptAny,
}

/// What the driver has to do for a command.
#[derive(Debug, PartialEq, Eq)]
pub enum CommandAction {
    /// Write the credentials to the configuration store and wait for its
    /// acknowledgement. Any transport still open belongs to the old
    /// credentials and is to be closed.
    Persist { connection_config: ConnectionConfig },
    /// Send `request` over the session, read the response and report it
    /// with `check_uid_finished`.
    CheckUid { request: Vec<u8> },
    /// Send `request` over the session, read the response and report it
    /// with `get_audio_finished`.
    GetAudio { request: Vec<u8> },
    /// Answer the caller at once; nothing goes over the wire.
    ReplyCheckUid { response: CheckUidResponse },
    /// Answer the caller at once; nothing goes over the wire.
    ReplyAudio { data: Option<Vec<u8>> },
}

/// What the driver has to do on a timer tick.
#[derive(Debug, PartialEq, Eq)]
pub enum TickAction {
    /// Nothing.
    Idle,
    /// Send `request` over the session, read the answer and report with
    /// `ping_finished`.
    Ping { request: Vec<u8> },
    /// Publish `announce`, try to bring a session up with the credentials
    /// at hand, and report with `connect_finished`.
    Connect { announce: NetworkerStatus },
}

/// The end of an exchange: what observers of the status are told first,
/// if anything, and what the caller is told then.
#[derive(Debug, PartialEq, Eq)]
pub struct Completion<T> {
    pub reply: T,
    pub announce: Option<NetworkerStatus>,
}

enum Link {
    Down,
    Up,
    Suppressed,
}

/// The connection state machine and command service of the device. It
/// does no I/O itself: each method takes what happened and says what the
/// driver has to do next. The driver owns the transport, and keeps it open
/// exactly while `has_session` holds.
pub struct Networker {
    connection_config: Option<ConnectionConfig>,
    link: Link,
    disable_cert_validation: bool,
}

/// The mathematical content of a [`Networker`].
pub struct NetworkerView {
    pub state: ConnectionState,
    pub trust: TrustPolicy,
}

impl View for Networker {
    type V = NetworkerView;

    closed spec fn view(&self) -> NetworkerView {
        NetworkerView {
            state: match self.connection_config {
                None => ConnectionState::NoConfig,
                Some(config) => match self.link {
                    Link::Down => ConnectionState::Disconnected { credentials: config@ },
                    Link::Up => ConnectionState::Connected { credentials: config@ },
                    Link::Suppressed => ConnectionState::InvalidCredentials {
                        credentials: config@,
                    },
                },
            },
            trust: if self.disable_cert_validation {
                TrustPolicy::AcceptAny
            } else {
                TrustPolicy::PublicRoots
            },
        }
    }
}

/// The view of optional credentials.
pub open spec fn stored_view(stored: Option<ConnectionConfig>) -> Option<
    crate::types::ConnectionConfigView,
> {
    match stored {
        Some(config) => Some(config@),
        None => None,
    }
}

impl Networker {
    /// A machine at start: `stored` is what the configuration store holds,
    /// and `disable_cert_validation` picks the trust policy for good. The
    /// status to publish first is `status()`.
    pub fn new(stored: Option<ConnectionConfig>, disable_cert_validation: bool) -> (networker:
        Self)
        ensures
            networker@.state == ConnectionState::initial(stored_view(stored)),
            networker@.trust == if disable_cert_validation {
                TrustPolicy::AcceptAny
            } else {
                TrustPolicy::PublicRoots
            },
    {
        Networker { connection_config: stored, link: Link::Down, disable_cert_validation }
    }

    /// The current status.
    pub fn status(&self) -> (status: NetworkerStatus)
        ensures
            status == self@.state.status(),
    {
        match &self.connection_config {
            None => NetworkerStatus::NoConfig,
            Some(_) => match self.link {
                Link::Down => NetworkerStatus::Disconnected,
                Link::Up => NetworkerStatus::Connected,
                Link::Suppressed => NetworkerStatus::InvalidCredentials,
            },
        }
    }

    /// Whether an authenticated session is up.
    pub fn has_session(&self) -> (up: bool)
        ensures
            up == (self@.state is Connected),
    {
        match self.status() {
            NetworkerStatus::Connected => true,
            _ => false,
        }
    }

    /// The credentials at hand, if any.
    pub fn connection_config(&self) -> (config: Option<&ConnectionConfig>)
        ensures
            stored_view_ref(config) == self@.state.credentials(),
    {
        self.connection_config.as_ref()
    }

    /// The trust policy that the transport has to follow.
    pub fn trust_policy(&self) -> (policy: TrustPolicy)
        ensures
            policy == self@.trust,
    {
        if self.disable_cert_validation {
            TrustPolicy::AcceptAny
        } else {
            TrustPolicy::PublicRoots
        }
    }

    /// Takes a command from the queue. New credentials replace the old
    /// ones, end the session and lift a suppression. A request is turned
    /// into the bytes to send if a session is up; if none is, it is
    /// answered at once with its negative result, and the state stays.
    pub fn handle_command<const N: usize>(&mut self, command: NetworkerCommand<N>) -> (action:
        CommandAction)
        ensures
            final(self)@.trust == old(self)@.trust,
            final(self)@.state == old(self)@.state.step(event_of(command)),
            match command {
                NetworkerCommand::SetConnection { connection_config } => {
                    &&& action matches CommandAction::Persist { connection_config: persisted }
                    &&& persisted@ == connection_config@
                },
                NetworkerCommand::CheckUid { uid } => {
                    if old(self)@.state.uses_session(Event::Request) {
                        &&& action matches CommandAction::CheckUid { request }
                        &&& request@ == check_uid_request(uid@)
                    } else {
                        &&& action matches CommandAction::ReplyCheckUid { response }
                        &&& response@ == CheckUidResponseView::Error
                    }
                },
                NetworkerCommand::GetAudio { id } => {
                    if old(self)@.state.uses_session(Event::Request) {
                        &&& action matches CommandAction::GetAudio { request }
                        &&& request@ == get_audio_request(id@)
                    } else {
                        &&& action matches CommandAction::ReplyAudio { data }
                        &&& data is None
                    }
                },
            },
    {
        match command {
            NetworkerCommand::SetConnection { connection_config } => {
                let persisted = connection_config.clone();
                self.connection_config = Some(connection_config);
                self.link = Link::Down;
                CommandAction::Persist { connection_config: persisted }
            },
            NetworkerCommand::CheckUid { uid } => {
                if self.has_session() {
                    CommandAction::CheckUid { request: encode_check_uid(uid.as_slice()) }
                } else {
                    CommandAction::ReplyCheckUid { response: CheckUidResponse::Error {  } }
                }
            },
            NetworkerCommand::GetAudio { id } => {
                if self.has_session() {
                    CommandAction::GetAudio { request: encode_get_audio(&id) }
                } else {
                    CommandAction::ReplyAudio { data: None }
                }
            },
        }
    }

    /// Drops the session if one is up, and says what to publish.
    fn lose_session(&mut self) -> (announce: Option<NetworkerStatus>)
        ensures
            final(self)@.trust == old(self)@.trust,
            final(self)@.state == old(self)@.state.session_lost(),
            announce == if old(self)@.state is Connected {
                Some(NetworkerStatus::Disconnected)
            } else {
                None
            },
    {
        if self.has_session() {
            self.link = Link::Down;
            Some(NetworkerStatus::Disconnected)
        } else {
            None
        }
    }

    /// Takes the end of an identity check exchange: the decoded response,
    /// or `None` where writing, reading or framing failed. A response is
    /// passed on as it is. A failure ends the session, is published as
    /// `Disconnected`, and the caller is told `Error`; nothing is retried.
    pub fn check_uid_finished(&mut self, outcome: Option<CheckUidResponse>) -> (completion:
        Completion<CheckUidResponse>)
        ensures
            final(self)@.trust == old(self)@.trust,
            final(self)@.state == old(self)@.state.step(exchange_finished(outcome is Some)),
            completion.announce == old(self)@.state.announced(exchange_finished(outcome is Some)),
            match outcome {
                Some(response) => completion.reply == response,
                None => completion.reply@ == CheckUidResponseView::Error,
            },
    {
        match outcome {
            Some(response) => Completion { reply: response, announce: None },
            None => {
                let announce = self.lose_session();
                Completion { reply: CheckUidResponse::Error {  }, announce }
            },
        }
    }

    /// Takes the end of a content fetch exchange: the decoded response, or
    /// `None` where writing, reading or framing failed. A response is
    /// passed on as it is. A failure ends the session, is published as
    /// `Disconnected`, and the caller is told that there is no audio;
    /// nothing is retried.
    pub fn get_audio_finished(&mut self, outcome: Option<Option<Vec<u8>>>) -> (completion:
        Completion<Option<Vec<u8>>>)
        ensures
            final(self)@.trust == old(self)@.trust,
            final(self)@.state == old(self)@.state.step(exchange_finished(outcome is Some)),
            completion.announce == old(self)@.state.announced(exchange_finished(outcome is Some)),
            match outcome {
                Some(data) => completion.reply == data,
                None => completion.reply is None,
            },
    {
        match outcome {
            Some(data) => Completion { reply: data, announce: None },
            None => {
                let announce = self.lose_session();
                Completion { reply: None, announce }
            },
        }
    }

    /// Takes a timer tick. With a session up the peer is probed. Without
    /// one, and with credentials that were not rejected, `Disconnected` is
    /// published again and a connection attempt is due. Without
    /// credentials, or after a rejection, nothing happens.
    pub fn tick(&self) -> (action: TickAction)
        ensures
            match action {
                TickAction::Idle => {
                    &&& !self@.state.uses_session(Event::Tick)
                    &&& !self@.state.attempts_connection(Event::Tick)
                },
                TickAction::Ping { request } => {
                    &&& self@.state.uses_session(Event::Tick)
                    &&& request@ == ping_request()
                },
                TickAction::Connect { announce } => {
                    &&& self@.state.attempts_connection(Event::Tick)
                    &&& Some(announce) == self@.state.announced(Event::Tick)
                },
            },
    {
        match self.status() {
            NetworkerStatus::Connected => TickAction::Ping { request: encode_ping() },
            NetworkerStatus::Disconnected => TickAction::Connect {
                announce: NetworkerStatus::Disconnected,
            },
            _ => TickAction::Idle,
        }
    }

    /// Takes the end of a keepalive probe. A peer that answered changes
    /// nothing. One that did not ends the session, which is published as
    /// `Disconnected`.
    pub fn ping_finished(&mut self, alive: bool) -> (announce: Option<NetworkerStatus>)
        ensures
            final(self)@.trust == old(self)@.trust,
            final(self)@.state == old(self)@.state.step(Event::PingFinished { alive }),
            announce == old(self)@.state.announced(Event::PingFinished { alive }),
    {
        if alive {
            None
        } else {
            self.lose_session()
        }
    }

    /// Takes the end of a connection attempt. In `Disconnected`, where
    /// alone an attempt is due, an accepted attempt leads to `Connected`
    /// and a rejected one to `InvalidCredentials`, each published; a failed
    /// one changes and publishes nothing. In any other state the outcome
    /// is not taken: the state stays, nothing is published, and the driver
    /// sees from `has_session` that a transport it opened is not wanted.
    pub fn connect_finished(&mut self, outcome: ConnectOutcome) -> (announce: Option<
        NetworkerStatus,
    >)
        ensures
            final(self)@.trust == old(self)@.trust,
            final(self)@.state == old(self)@.state.step(Event::ConnectFinished { outcome }),
            announce == old(self)@.state.announced(Event::ConnectFinished { outcome }),
    {
        match self.status() {
            NetworkerStatus::Disconnected => match outcome {
                ConnectOutcome::Established => {
                    self.link = Link::Up;
                    Some(NetworkerStatus::Connected)
                },
                ConnectOutcome::Rejected => {
                    self.link = Link::Suppressed;
                    Some(NetworkerStatus::InvalidCredentials)
                },
                ConnectOutcome::Failed => None,
            },
            _ => None,
        }
    }
}

/// The event that a command is to the state machine.
pub open spec fn event_of<const N: usize>(command: NetworkerCommand<N>) -> Event {
    match command {
        NetworkerCommand::SetConnection { connection_config } => Event::SetConnection {
            credentials: connection_config@,
        },
        _ => Event::Request,
    }
}

/// The event that the end of an exchange is to the state machine.
pub open spec fn exchange_finished(delivered: bool) -> Event {
    Event::ExchangeFinished { delivered }
}

/// The view of optional borrowed credentials.
pub open spec fn stored_view_ref(stored: Option<&ConnectionConfig>) -> Option<
    crate::types::ConnectionConfigView,
> {
    match stored {
        Some(config) => Some(config@),
        None => None,
    }
}

} // verus!
