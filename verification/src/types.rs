use vstd::prelude::*;

verus! {

/// Length in bytes of an achievement identifier.
pub const ACHIEVEMENT_ID_LEN: usize = 20;

/// An opaque, content-addressed token naming one achievement.
pub type AchievementId = [u8; ACHIEVEMENT_ID_LEN];

/// What the rest of the device is told about the link to the server.
#[derive(Debug, Clone, Copy, PartialEq, Eq, Structural)]
pub enum NetworkerStatus {
    /// No credentials are known.
    NoConfig,
    /// The server rejected the last authentication; nothing is retried
    /// until the credentials change.
    InvalidCredentials,
    /// Credentials are known, no session is up.
    Disconnected,
    /// An authenticated session is up.
    Connected,
}

/// Where the server is and who we are to it.
#[derive(Debug, PartialEq, Eq)]
pub struct ConnectionConfig {
    pub host: String,
    pub port: u16,
    pub user: String,
    pub secret: String,
}

/// The mathematical content of a [`ConnectionConfig`].
pub struct ConnectionConfigView {
    pub host: Seq<char>,
    pub port: u16,
    pub user: Seq<char>,
    pub secret: Seq<char>,
}

impl View for ConnectionConfig {
    type V = ConnectionConfigView;

    open spec fn view(&self) -> ConnectionConfigView {
        ConnectionConfigView {
            host: self.host@,
            port: self.port,
            user: self.user@,
            secret: self.secret@,
        }
    }
}

impl Clone for ConnectionConfig {
    fn clone(&self) -> (copy: Self)
        ensures
            copy@ == self@,
    {
        ConnectionConfig {
            host: self.host.clone(),
            port: self.port,
            user: self.user.clone(),
            secret: self.secret.clone(),
        }
    }
}

/// The server's answer to an identity check.
#[derive(Debug, Clone, PartialEq, Eq)]
pub enum CheckUidResponse {
    /// The request failed, or there was no session to send it over.
    Error {},
    /// The server is rate limiting this device.
    Throttle {},
    /// The achievements unlocked by the tag, in the server's order.
    Success { achievements: Vec<AchievementId> },
}

/// The mathematical content of a [`CheckUidResponse`]: every identifier as
/// its sequence of bytes.
pub enum CheckUidResponseView {
    Error,
    Throttle,
    Success { achievements: Seq<Seq<u8>> },
}

/// The identifiers of `ids`, each as its sequence of bytes.
pub open spec fn ids_view(ids: Seq<AchievementId>) -> Seq<Seq<u8>> {
    Seq::new(ids.len(), |i: int| ids[i]@)
}

impl View for CheckUidResponse {
    type V = CheckUidResponseView;

    open spec fn view(&self) -> CheckUidResponseView {
        match self {
            CheckUidResponse::Error {  } => CheckUidResponseView::Error,
            CheckUidResponse::Throttle {  } => CheckUidResponseView::Throttle,
            CheckUidResponse::Success { achievements } => CheckUidResponseView::Success {
                achievements: ids_view(achievements@),
            },
        }
    }
}

/// A request from another part of the device. `N` is the length of the tag
/// identifiers that the reader produces.
#[derive(Debug)]
pub enum NetworkerCommand<const N: usize> {
    /// Replace the credentials.
    SetConnection { connection_config: ConnectionConfig },
    /// Ask the server which achievements a tag unlocks.
    CheckUid { uid: [u8; N] },
    /// Fetch the audio that belongs to an achievement.
    GetAudio { id: AchievementId },
}

} // verus!
