use networker::state::ConnectOutcome;
use networker::transport::{
    checked_name, connect_outcome, server_name, verdict, ConnectError, COMMAND_QUEUE_CAPACITY,
    CONNECT_TIMEOUT_SECS, READ_TIMEOUT_SECS, TICK_INTERVAL_SECS, WRITE_TIMEOUT_SECS,
};
use tokio_rustls::rustls::ServerName;

#[test]
fn dns_name_is_a_server_name() {
    match server_name("example.com") {
        Ok(ServerName::DnsName(name)) => assert_eq!(name.as_ref(), "example.com"),
        other => panic!("unexpected {:?}", other),
    }
}

#[test]
fn ip_address_is_a_server_name() {
    match server_name("192.0.2.7") {
        Ok(ServerName::IpAddress(address)) => assert_eq!(format!("{}", address), "192.0.2.7"),
        other => panic!("unexpected {:?}", other),
    }
}

#[test]
fn text_that_names_no_server_is_refused() {
    assert!(matches!(server_name("not a name!"), Err(ConnectError::InvalidServerName)));
    assert!(matches!(server_name(""), Err(ConnectError::InvalidServerName)));
}

#[test]
fn only_rejection_and_success_are_not_transient() {
    assert_eq!(connect_outcome(Ok(())), ConnectOutcome::Established);
    assert_eq!(connect_outcome(Err(ConnectError::Rejected)), ConnectOutcome::Rejected);
    for error in [
        ConnectError::Unresolved,
        ConnectError::Unreachable,
        ConnectError::InvalidServerName,
        ConnectError::Handshake,
        ConnectError::CredentialsTooLong,
        ConnectError::Io,
    ] {
        assert_eq!(connect_outcome(Err(error)), ConnectOutcome::Failed);
    }
}

#[test]
fn verdict_of_the_server_ends_the_attempt() {
    assert_eq!(verdict(true), Ok(()));
    assert_eq!(verdict(false), Err(ConnectError::Rejected));
}

#[test]
fn timing_and_queue_constants() {
    assert_eq!(TICK_INTERVAL_SECS, 3);
    assert_eq!(CONNECT_TIMEOUT_SECS, 2);
    assert_eq!(READ_TIMEOUT_SECS, 2);
    assert_eq!(WRITE_TIMEOUT_SECS, 2);
    assert_eq!(COMMAND_QUEUE_CAPACITY, 8);
}

#[test]
fn refusal_by_the_parser_becomes_the_library_error() {
    assert!(matches!(
        checked_name(ServerName::try_from("bad name")),
        Err(ConnectError::InvalidServerName)
    ));
    match checked_name(ServerName::try_from("box.example.org")) {
        Ok(ServerName::DnsName(name)) => assert_eq!(name.as_ref(), "box.example.org"),
        other => panic!("unexpected {:?}", other),
    }
}
