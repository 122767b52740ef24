use tokio_rustls::rustls::client::InvalidDnsNameError;
use tokio_rustls::rustls::ServerName;
use vstd::prelude::*;

use crate::auth::{auth_fits, auth_request, encode_auth};
use crate::state::ConnectOutcome;
use crate::types::ConnectionConfig;

verus! {

/// Seconds between two timer ticks: the pace of keepalive probes and of
/// connection attempts.
pub const TICK_INTERVAL_SECS: u64 = 3;

/// Seconds after which each step that brings the transport up is given
/// up: resolution, the TCP connection, the TLS handshake.
pub const CONNECT_TIMEOUT_SECS: u64 = 2;

/// Seconds after which a read on the session is given up.
pub const READ_TIMEOUT_SECS: u64 = 2;

/// Seconds after which a write on the session is given up.
pub const WRITE_TIMEOUT_SECS: u64 = 2;

/// How many commands may wait in the inbound queue before senders are
/// held back.
pub const COMMAND_QUEUE_CAPACITY: usize = 8;

/// Why a connection attempt did not end in a session.
#[derive(Debug, Clone, Copy, PartialEq, Eq, Structural)]
pub enum ConnectError {
    /// The host did not resolve to an address.
    Unresolved,
    /// No TCP connection could be opened.
    Unreachable,
    /// The host is neither a DNS name nor an IP address, so there is
    /// nobody to check the certificate against.
    InvalidServerName,
    /// The TLS handshake failed.
    Handshake,
    /// The credentials are too long to be framed; nothing was sent.
    CredentialsTooLong,
    /// Reading or writing failed while the credentials were exchanged.
    Io,
    /// The server turned the credentials down.
    Rejected,
}

/// rustls's `ServerName`, carried through as it is: nothing is claimed
/// of what is inside.
#[verifier::external_type_specification]
#[verifier::external_body]
pub struct ExServerName(ServerName);

/// rustls's `InvalidDnsNameError`, the refusal of `ServerName::try_from`:
/// nothing is claimed of what is inside.
#[verifier::external_type_specification]
#[verifier::external_body]
pub struct ExInvalidDnsNameError(InvalidDnsNameError);

/// Whether rustls takes `host` for the name of a server: a syntactically
/// valid DNS name, or an IP address.
pub uninterp spec fn is_server_name(host: Seq<char>) -> bool;

/// Calls rustls's `ServerName::try_from` on `host`. The contract claims
/// only that success depends on the text alone.
#[verifier::external_body]
fn parse_server_name(host: &str) -> (parsed: Result<ServerName, InvalidDnsNameError>)
    ensures
        parsed is Ok <==> is_server_name(host@),
{
    ServerName::try_from(host)
}

/// Turns what rustls made of a host into the library's own terms: a name
/// is passed on as it is, and the refusal becomes `InvalidServerName`.
pub fn checked_name(parsed: Result<ServerName, InvalidDnsNameError>) -> (name: Result<
    ServerName,
    ConnectError,
>)
    ensures
        match parsed {
            Ok(parsed_name) => name == Ok::<ServerName, ConnectError>(parsed_name),
            Err(_) => name == Err::<ServerName, ConnectError>(ConnectError::InvalidServerName),
        },
{
    match parsed {
        Ok(parsed_name) => Ok(parsed_name),
        Err(_) => Err(ConnectError::InvalidServerName),
    }
}

/// The name by which the server `host` is held to its certificate in the
/// TLS handshake, or `InvalidServerName` where the text names no server.
pub fn server_name(host: &str) -> (name: Result<ServerName, ConnectError>)
    ensures
        name is Ok <==> is_server_name(host@),
        name is Err ==> name == Err::<ServerName, ConnectError>(ConnectError::InvalidServerName),
{
    checked_name(parse_server_name(host))
}

/// How an attempt that ended in `result` counts: a session is
/// `Established`; credentials that the server turned down are `Rejected`,
/// which suppresses further attempts; every other error is `Failed`, and
/// the next tick tries again. Credentials too long to be framed count as
/// `Failed` too: the server gave no verdict on them, so the status stays
/// `Disconnected` until other credentials are handed in.
pub open spec fn outcome_of(result: Result<(), ConnectError>) -> ConnectOutcome {
    match result {
        Ok(_) => ConnectOutcome::Established,
        Err(ConnectError::Rejected) => ConnectOutcome::Rejected,
        Err(_) => ConnectOutcome::Failed,
    }
}

/// Classifies the end of a connection attempt for the state machine.
pub fn connect_outcome(result: Result<(), ConnectError>) -> (outcome: ConnectOutcome)
    ensures
        outcome == outcome_of(result),
        outcome == ConnectOutcome::Established <==> result is Ok,
        outcome == ConnectOutcome::Rejected <==> result == Err::<(), ConnectError>(
            ConnectError::Rejected,
        ),
        result == Err::<(), ConnectError>(ConnectError::CredentialsTooLong) ==> outcome
            == ConnectOutcome::Failed,
{
    match result {
        Ok(_) => ConnectOutcome::Established,
        Err(ConnectError::Rejected) => ConnectOutcome::Rejected,
        Err(_) => ConnectOutcome::Failed,
    }
}

/// The authentication request for the credentials in `config`, or
/// `CredentialsTooLong` where they cannot be framed; the attempt then ends
/// with nothing written.
pub fn framed_credentials(config: &ConnectionConfig) -> (request: Result<Vec<u8>, ConnectError>)
    ensures
        request is Ok <==> auth_fits(config@.user, config@.secret),
        match request {
            Ok(bytes) => Some(bytes@) == auth_request(config@.user, config@.secret),
            Err(error) => error == ConnectError::CredentialsTooLong,
        },
{
    match encode_auth(config) {
        Some(bytes) => Ok(bytes),
        None => Err(ConnectError::CredentialsTooLong),
    }
}

/// How the server's verdict on the credentials ends the attempt: admitted
/// is success, turned away is `Rejected`.
pub fn verdict(accepted: bool) -> (result: Result<(), ConnectError>)
    ensures
        result == if accepted {
            Ok::<(), ConnectError>(())
        } else {
            Err::<(), ConnectError>(ConnectError::Rejected)
        },
{
    if accepted {
        Ok(())
    } else {
        Err(ConnectError::Rejected)
    }
}

} // verus!
