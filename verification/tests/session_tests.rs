use tabletop_net::{
    parse_endpoint, ClientId, ClientNetState, ClientSession, Endpoint, HostNetState, HostSession,
    Player, SessionError, DEFAULT_PORT,
};

fn fresh_session() -> ClientSession {
    ClientSession::new(ClientId(7), Player::default())
}

#[test]
fn parse_empty_defaults_to_loopback() {
    let ep = parse_endpoint("").unwrap();
    assert_eq!(ep, Endpoint { host: b"127.0.0.1".to_vec(), port: DEFAULT_PORT });
}

#[test]
fn parse_blank_defaults_to_loopback() {
    let ep = parse_endpoint("   \t ").unwrap();
    assert_eq!(ep.host, b"127.0.0.1".to_vec());
    assert_eq!(ep.port, 27007);
}

#[test]
fn parse_bare_host_uses_default_port() {
    let ep = parse_endpoint("example.org").unwrap();
    assert_eq!(ep, Endpoint { host: b"example.org".to_vec(), port: DEFAULT_PORT });
}

#[test]
fn parse_host_and_port() {
    let ep = parse_endpoint("example.org:4242").unwrap();
    assert_eq!(ep, Endpoint { host: b"example.org".to_vec(), port: 4242 });
}

#[test]
fn parse_trims_surrounding_blanks() {
    let ep = parse_endpoint("  myhost:80  ").unwrap();
    assert_eq!(ep, Endpoint { host: b"myhost".to_vec(), port: 80 });
}

#[test]
fn parse_dotted_quad_host() {
    let ep = parse_endpoint("10.0.0.2:9000").unwrap();
    assert_eq!(ep, Endpoint { host: b"10.0.0.2".to_vec(), port: 9000 });
}

#[test]
fn parse_port_allows_leading_zeros() {
    let ep = parse_endpoint("h:070").unwrap();
    assert_eq!(ep.port, 70);
}

#[test]
fn parse_port_largest_value() {
    let ep = parse_endpoint("h:65535").unwrap();
    assert_eq!(ep.port, 65535);
}

#[test]
fn parse_rejects_empty_host() {
    assert!(parse_endpoint(":80").is_none());
}

#[test]
fn parse_rejects_empty_port() {
    assert!(parse_endpoint("host:").is_none());
}

#[test]
fn parse_rejects_port_out_of_range() {
    assert!(parse_endpoint("host:65536").is_none());
    assert!(parse_endpoint("host:99999").is_none());
}

#[test]
fn parse_rejects_port_with_letters() {
    assert!(parse_endpoint("host:12a").is_none());
}

#[test]
fn parse_rejects_port_too_long() {
    assert!(parse_endpoint("host:123456").is_none());
}

#[test]
fn parse_splits_at_last_colon() {
    // The part after the last colon must be the port.
    assert!(parse_endpoint("a:b:c").is_none());
    let ep = parse_endpoint("a:b:1234").unwrap();
    assert_eq!(ep, Endpoint { host: b"a:b".to_vec(), port: 1234 });
}

#[test]
fn connect_moves_to_connecting() {
    let mut session = fresh_session();
    assert!(matches!(session.state, ClientNetState::Disconnected));
    let ok = session.connect("");
    assert!(ok);
    assert!(matches!(session.state, ClientNetState::Connecting));
    let server = session.server.clone().unwrap();
    assert_eq!(server, Endpoint { host: b"127.0.0.1".to_vec(), port: DEFAULT_PORT });
}

#[test]
fn connect_bad_address_keeps_state_and_reports() {
    let mut session = fresh_session();
    let ok = session.connect(":nope");
    assert!(!ok);
    assert!(matches!(session.state, ClientNetState::Disconnected));
    assert_eq!(session.error, Some(SessionError::BadAddress));
    assert_eq!(session.error_message(), "Incorrect IP adress");
}

#[test]
fn accept_announces_local_player_once() {
    let mut session = fresh_session();
    session.connect("");
    let announce = session.on_accepted();
    assert!(matches!(session.state, ClientNetState::Connected));
    let player = announce.unwrap();
    assert_eq!(player.name, "Player");
    assert_eq!(player.color, [255, 255, 255]);
    // A second accept in the connected state announces nothing.
    assert!(session.on_accepted().is_none());
}

#[test]
fn connect_failures_record_distinct_reasons() {
    let mut session = fresh_session();
    session.connect("");
    session.on_connect_failed(SessionError::TokenExpired);
    assert!(matches!(session.state, ClientNetState::Disconnected));
    assert_eq!(session.error_message(), "Connection token expired");

    session.connect("");
    session.on_connect_failed(SessionError::TimedOut);
    assert_eq!(session.error_message(), "Connection timed out");

    session.connect("");
    session.on_connect_failed(SessionError::Denied);
    assert_eq!(session.error_message(), "Connection denied");
}

#[test]
fn disconnect_clears_error_and_state() {
    let mut session = fresh_session();
    session.connect("");
    session.on_accepted();
    session.disconnect();
    assert!(matches!(session.state, ClientNetState::Disconnected));
    assert!(session.error.is_none());
    assert_eq!(session.error_message(), "");
}

#[test]
fn host_cannot_start_while_connecting() {
    let mut host = HostSession::new();
    assert!(matches!(host.state, HostNetState::Stopped));
    assert!(!host.start(ClientNetState::Connecting));
    assert!(matches!(host.state, HostNetState::Stopped));
}

#[test]
fn host_starts_when_disconnected_or_self_hosting() {
    let mut host = HostSession::new();
    assert!(host.start(ClientNetState::Disconnected));
    assert!(matches!(host.state, HostNetState::Started));
    host.stop();
    assert!(matches!(host.state, HostNetState::Stopped));
    // Self-host topology: connected to one's own host, starting is allowed.
    assert!(host.start(ClientNetState::Connected));
    assert!(matches!(host.state, HostNetState::Started));
}
