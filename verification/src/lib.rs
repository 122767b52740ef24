//! The network control plane of an NFC-triggered audio box, as a library
//! without I/O: the wire protocol as functions on bytes, and the connection
//! state machine as transitions that tell the driver what to do next.

pub mod auth;
pub mod codec;
pub mod framing;
pub mod laws;
pub mod networker;
pub mod state;
pub mod transport;
pub mod types;

pub use crate::types::{
    AchievementId, CheckUidResponse, CheckUidResponseView, ConnectionConfig,
    ConnectionConfigView, NetworkerCommand, NetworkerStatus, ACHIEVEMENT_ID_LEN,
};
pub use crate::codec::Decoded;
pub use crate::networker::{CommandAction, Completion, Networker, TickAction, TrustPolicy};
pub use crate::state::{ConnectOutcome, ConnectionState, Event};
pub use crate::transport::ConnectError;
