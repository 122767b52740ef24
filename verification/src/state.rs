use vstd::prelude::*;

use crate::types::{ConnectionConfigView, NetworkerStatus};

verus! {

/// How a connection attempt ended.
#[derive(Debug, Clone, Copy, PartialEq, Eq, Structural)]
pub enum ConnectOutcome {
    /// The transport is up and the server accepted the credentials.
    Established,
    /// The transport came up, and the server turned the credentials down.
    Rejected,
    /// Resolution, the connection, the handshake or the exchange of
    /// credentials failed before the server gave a verdict.
    Failed,
}

/// The states of the connection, each with the credentials it works with.
pub enum ConnectionState {
    NoConfig,
    Disconnected { credentials: ConnectionConfigView },
    Connected { credentials: ConnectionConfigView },
    InvalidCredentials { credentials: ConnectionConfigView },
}

/// What can happen to the connection: a command from the queue, a timer
/// tick, or the end of outside work that an earlier step asked for.
pub enum Event {
    /// New credentials were handed in.
    SetConnection { credentials: ConnectionConfigView },
    /// An identity check or a content fetch was asked for.
    Request,
    /// The exchange for such a request ended: a whole response was
    /// `delivered`, or reading or writing failed.
    ExchangeFinished { delivered: bool },
    /// The periodic timer fired.
    Tick,
    /// The keepalive probe ended: the peer is `alive`, or reading or
    /// writing failed.
    PingFinished { alive: bool },
    /// The connection attempt ended.
    ConnectFinished { outcome: ConnectOutcome },
}

impl ConnectionState {
    /// The status that observers are told in this state.
    pub open spec fn status(self) -> NetworkerStatus {
        match self {
            ConnectionState::NoConfig => NetworkerStatus::NoConfig,
            ConnectionState::Disconnected { .. } => NetworkerStatus::Disconnected,
            ConnectionState::Connected { .. } => NetworkerStatus::Connected,
            ConnectionState::InvalidCredentials { .. } => NetworkerStatus::InvalidCredentials,
        }
    }

    /// The credentials at hand, if any.
    pub open spec fn credentials(self) -> Option<ConnectionConfigView> {
        match self {
            ConnectionState::NoConfig => None,
            ConnectionState::Disconnected { credentials } => Some(credentials),
            ConnectionState::Connected { credentials } => Some(credentials),
            ConnectionState::InvalidCredentials { credentials } => Some(credentials),
        }
    }

    /// The state at start, given what the configuration store holds.
    pub open spec fn initial(stored: Option<ConnectionConfigView>) -> ConnectionState {
        match stored {
            Some(credentials) => ConnectionState::Disconnected { credentials },
            None => ConnectionState::NoConfig,
        }
    }

    /// New credentials always lead to `Disconnected`: a session under the
    /// old ones is dropped, and a rejection of the old ones is forgotten.
    pub open spec fn set_connection(self, credentials: ConnectionConfigView) -> ConnectionState {
        ConnectionState::Disconnected { credentials }
    }

    /// The session, if there was one, is gone; the credentials stay.
    pub open spec fn session_lost(self) -> ConnectionState {
        match self {
            ConnectionState::Connected { credentials } => ConnectionState::Disconnected {
                credentials,
            },
            _ => self,
        }
    }

    /// A connection attempt is under way only in `Disconnected`; there its
    /// outcome decides, and elsewhere it changes nothing.
    pub open spec fn connect_finished(self, outcome: ConnectOutcome) -> ConnectionState {
        match self {
            ConnectionState::Disconnected { credentials } => match outcome {
                ConnectOutcome::Established => ConnectionState::Connected { credentials },
                ConnectOutcome::Rejected => ConnectionState::InvalidCredentials { credentials },
                ConnectOutcome::Failed => self,
            },
            _ => self,
        }
    }

    /// The state after `event`.
    pub open spec fn step(self, event: Event) -> ConnectionState {
        match event {
            Event::SetConnection { credentials } => self.set_connection(credentials),
            Event::Request => self,
            Event::ExchangeFinished { delivered } => if delivered {
                self
            } else {
                self.session_lost()
            },
            Event::Tick => self,
            Event::PingFinished { alive } => if alive {
                self
            } else {
                self.session_lost()
            },
            Event::ConnectFinished { outcome } => self.connect_finished(outcome),
        }
    }

    /// The status that is published while `event` is handled, if any.
    pub open spec fn announced(self, event: Event) -> Option<NetworkerStatus> {
        match event {
            Event::SetConnection { .. } => None,
            Event::Request => None,
            Event::ExchangeFinished { delivered } => if !delivered && self is Connected {
                Some(NetworkerStatus::Disconnected)
            } else {
                None
            },
            Event::Tick => if self is Disconnected {
                Some(NetworkerStatus::Disconnected)
            } else {
                None
            },
            Event::PingFinished { alive } => if !alive && self is Connected {
                Some(NetworkerStatus::Disconnected)
            } else {
                None
            },
            Event::ConnectFinished { outcome } => if self is Disconnected {
                match outcome {
                    ConnectOutcome::Established => Some(NetworkerStatus::Connected),
                    ConnectOutcome::Rejected => Some(NetworkerStatus::InvalidCredentials),
                    ConnectOutcome::Failed => None,
                }
            } else {
                None
            },
        }
    }

    /// Whether handling `event` starts a connection attempt: only a tick
    /// does, and only in `Disconnected`.
    pub open spec fn attempts_connection(self, event: Event) -> bool {
        event is Tick && self is Disconnected
    }

    /// Whether handling `event` puts bytes on the wire of the session: only
    /// a request or a tick does, and only in `Connected`.
    pub open spec fn uses_session(self, event: Event) -> bool {
        (event is Request || event is Tick) && self is Connected
    }

    /// The state after all of `events`, first to last.
    pub open spec fn run(self, events: Seq<Event>) -> ConnectionState
        decreases events.len(),
    {
        if events.len() == 0 {
            self
        } else {
            self.run(events.drop_last()).step(events.last())
        }
    }
}

} // verus!
