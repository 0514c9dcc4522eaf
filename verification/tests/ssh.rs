use ilo4_fan_control::ssh::{
    algorithms, decode_password, join_with_commas, latin1_string, preference, secret_from,
    CommandFault, MethodKind, SessionAction, SessionEvent, SessionState, SshClient, SshError,
};

fn logged_in(host: &str, user: &str, password: &str) -> SshClient {
    let mut client = SshClient::new(host.to_string(), user.to_string(), password.to_string());
    assert_eq!(client.connect(), SessionAction::OpenTransport);
    assert_eq!(client.advance(SessionEvent::TransportOpened), SessionAction::Negotiate);
    assert_eq!(client.advance(SessionEvent::HandshakeDone), SessionAction::Authenticate);
    assert_eq!(client.advance(SessionEvent::AuthAccepted), SessionAction::Ready);
    client
}

#[test]
fn test_ssh_connect() {
    let ssh_user = "test".to_string();
    let ssh_password = "password".to_string();

    let mut client = SshClient::new("localhost".to_string(), ssh_user, ssh_password);
    assert_eq!(client.state(), SessionState::Disconnected);
    assert_eq!(client.address(), "localhost:22");
    assert_eq!(client.connect(), SessionAction::OpenTransport);
    assert_eq!(client.state(), SessionState::Opening);
    assert_eq!(client.advance(SessionEvent::TransportOpened), SessionAction::Negotiate);
    assert_eq!(client.state(), SessionState::Handshaking);
    assert_eq!(client.advance(SessionEvent::HandshakeDone), SessionAction::Authenticate);
    assert_eq!(client.state(), SessionState::Connected);
    assert_eq!(client.user(), "test");
    assert_eq!(client.advance(SessionEvent::AuthAccepted), SessionAction::Ready);
    assert_eq!(client.state(), SessionState::Authenticated);
}

#[test]
fn test_ssh_exec_cmd() {
    let mut client = logged_in("localhost", "test", "password");

    let commands = vec!["echo hello".to_string(), "echo world".to_string()];
    assert_eq!(client.exec(commands), SessionAction::Run(0));
    assert_eq!(client.state(), SessionState::Executing);
    assert_eq!(client.command(0), Some("echo hello"));
    assert_eq!(
        client.advance(SessionEvent::CommandFinished("hello\n".to_string())),
        SessionAction::Run(1)
    );
    assert_eq!(client.command(1), Some("echo world"));
    assert_eq!(client.command(2), None);
    assert_eq!(
        client.advance(SessionEvent::CommandFinished("world\n".to_string())),
        SessionAction::Done
    );
    assert_eq!(client.state(), SessionState::Authenticated);
    let results = client.outputs();

    assert_eq!(results.len(), 2);
    assert_eq!(results[0].trim(), "hello");
    assert_eq!(results[1].trim(), "world");
}

#[test]
fn a_failure_reports_the_commands_already_run() {
    let mut client = logged_in("ilo", "admin", "secret");
    let commands = vec![
        "fan p 0 max 128".to_string(),
        "fan p 1 max 128".to_string(),
        "fan p 2 max 128".to_string(),
    ];
    assert_eq!(client.exec(commands), SessionAction::Run(0));
    assert_eq!(client.advance(SessionEvent::CommandFinished(String::new())), SessionAction::Run(1));
    assert_eq!(
        client.advance(SessionEvent::CommandFailed(CommandFault::Command)),
        SessionAction::Fail(SshError::Command { completed: 1 })
    );
    assert_eq!(client.state(), SessionState::Closed);
    assert_eq!(client.completed(), 1);
    assert_eq!(client.outputs().len(), 1);
}

#[test]
fn a_channel_that_does_not_open_is_told_apart() {
    let mut client = logged_in("ilo", "admin", "secret");
    assert_eq!(client.exec(vec!["fan p 0 max 1".to_string()]), SessionAction::Run(0));
    assert_eq!(
        client.advance(SessionEvent::CommandFailed(CommandFault::ChannelOpen)),
        SessionAction::Fail(SshError::ChannelOpen { completed: 0 })
    );
    assert_eq!(client.state(), SessionState::Closed);
}

#[test]
fn each_step_of_connecting_can_fail() {
    let mut refused = SshClient::new("a".to_string(), "u".to_string(), "p".to_string());
    refused.connect();
    assert_eq!(
        refused.advance(SessionEvent::TransportFailed),
        SessionAction::Fail(SshError::Transport)
    );
    assert_eq!(refused.state(), SessionState::Disconnected);

    let mut no_handshake = SshClient::new("a".to_string(), "u".to_string(), "p".to_string());
    no_handshake.connect();
    no_handshake.advance(SessionEvent::TransportOpened);
    assert_eq!(
        no_handshake.advance(SessionEvent::HandshakeFailed),
        SessionAction::Fail(SshError::Handshake)
    );
    assert_eq!(no_handshake.state(), SessionState::Disconnected);

    let mut rejected = SshClient::new("a".to_string(), "u".to_string(), "p".to_string());
    rejected.connect();
    rejected.advance(SessionEvent::TransportOpened);
    rejected.advance(SessionEvent::HandshakeDone);
    assert_eq!(
        rejected.advance(SessionEvent::AuthRejected),
        SessionAction::Fail(SshError::Authentication)
    );
    assert_eq!(rejected.state(), SessionState::Disconnected);
}

#[test]
fn a_refused_transport_leaves_the_client_as_it_was() {
    let mut client = SshClient::new("ilo".to_string(), "admin".to_string(), "secret".to_string());
    assert_eq!(client.connect(), SessionAction::OpenTransport);
    assert_eq!(
        client.advance(SessionEvent::TransportFailed),
        SessionAction::Fail(SshError::Transport)
    );
    assert_eq!(client.state(), SessionState::Disconnected);
    assert_eq!(client.address(), "ilo:22");
    assert_eq!(client.user(), "admin");
    assert_eq!(client.password(), "secret");
    assert_eq!(client.completed(), 0);
    assert_eq!(client.command(0), None);
    // No command is taken, and nothing of a session is under way.
    assert_eq!(
        client.exec(vec!["fan p 0 max 1".to_string()]),
        SessionAction::Fail(SshError::OutOfOrder)
    );
    assert_eq!(client.advance(SessionEvent::HandshakeDone), SessionAction::Fail(SshError::OutOfOrder));
    assert_eq!(client.advance(SessionEvent::AuthAccepted), SessionAction::Fail(SshError::OutOfOrder));
    assert_eq!(client.state(), SessionState::Disconnected);
    // It can be connected again.
    assert_eq!(client.connect(), SessionAction::OpenTransport);
    assert_eq!(client.advance(SessionEvent::TransportOpened), SessionAction::Negotiate);
    assert_eq!(client.advance(SessionEvent::HandshakeDone), SessionAction::Authenticate);
    assert_eq!(client.advance(SessionEvent::AuthAccepted), SessionAction::Ready);
    assert_eq!(client.state(), SessionState::Authenticated);
}

#[test]
fn commands_are_refused_before_the_login() {
    let mut client = SshClient::new("a".to_string(), "u".to_string(), "p".to_string());
    assert_eq!(
        client.exec(vec!["fan p 0 max 1".to_string()]),
        SessionAction::Fail(SshError::OutOfOrder)
    );
    assert_eq!(client.state(), SessionState::Disconnected);
    assert_eq!(
        client.advance(SessionEvent::CommandFinished(String::new())),
        SessionAction::Fail(SshError::OutOfOrder)
    );
    assert_eq!(client.advance(SessionEvent::AuthAccepted), SessionAction::Fail(SshError::OutOfOrder));
    assert_eq!(client.state(), SessionState::Disconnected);
    client.connect();
    assert_eq!(client.connect(), SessionAction::Fail(SshError::OutOfOrder));
    assert_eq!(client.state(), SessionState::Opening);
    assert_eq!(
        client.exec(vec!["fan p 0 max 1".to_string()]),
        SessionAction::Fail(SshError::OutOfOrder)
    );
}

#[test]
fn an_empty_list_is_done_at_once() {
    let mut client = logged_in("ilo", "admin", "secret");
    assert_eq!(client.exec(vec![]), SessionAction::Done);
    assert_eq!(client.state(), SessionState::Authenticated);
    assert_eq!(client.completed(), 0);
}

#[test]
fn a_second_list_starts_afresh() {
    let mut client = logged_in("ilo", "admin", "secret");
    client.exec(vec!["one".to_string()]);
    assert_eq!(client.advance(SessionEvent::CommandFinished("1".to_string())), SessionAction::Done);
    assert_eq!(client.exec(vec!["two".to_string(), "three".to_string()]), SessionAction::Run(0));
    assert_eq!(client.completed(), 0);
    assert_eq!(client.command(0), Some("two"));
}

#[test]
fn a_closed_session_stays_closed() {
    let mut client = logged_in("ilo", "admin", "secret");
    client.close();
    assert_eq!(client.state(), SessionState::Closed);
    assert_eq!(client.connect(), SessionAction::Fail(SshError::OutOfOrder));
    assert_eq!(client.exec(vec![]), SessionAction::Fail(SshError::OutOfOrder));
    assert_eq!(client.advance(SessionEvent::TransportOpened), SessionAction::Fail(SshError::OutOfOrder));
    assert_eq!(client.state(), SessionState::Closed);
}

#[test]
fn an_encoded_password_is_decoded() {
    assert_eq!(decode_password("cGFzc3dvcmQ="), "password");
    assert_eq!(decode_password("c2VjcmV0"), "secret");
}

#[test]
fn a_client_keeps_the_secret_as_given() {
    let client = SshClient::new("localhost".to_string(), "test".to_string(), "password".to_string());
    assert_eq!(client.password(), "password");
    assert_eq!(client.user(), "test");
    assert_eq!(client.address(), "localhost:22");
    assert_eq!(client.state(), SessionState::Disconnected);
    let encoded = SshClient::new("h".to_string(), "u".to_string(), "cGFzc3dvcmQ=".to_string());
    assert_eq!(encoded.password(), "cGFzc3dvcmQ=");
    let decoded = SshClient::new("h".to_string(), "u".to_string(), decode_password("cGFzc3dvcmQ="));
    assert_eq!(decoded.password(), "password");
}

#[test]
fn a_password_that_is_no_base64_is_taken_as_written() {
    assert_eq!(decode_password("p@ss word!"), "p@ss word!");
    // Without its padding the text is no standard base64.
    assert_eq!(decode_password("cGFzc3dvcmQ"), "cGFzc3dvcmQ");
    assert_eq!(decode_password(""), "");
}

#[test]
fn bytes_become_characters_one_by_one() {
    assert_eq!(latin1_string(&vec![0x41, 0xe9, 0xff]), "A\u{e9}\u{ff}");
    assert_eq!(latin1_string(&vec![]), "");
    // "/+8=" decodes to the two bytes 0xff 0xef.
    assert_eq!(decode_password("/+8="), "\u{ff}\u{ef}");
    // A password that is not base64 is taken byte by byte as well.
    assert_eq!(decode_password("\u{e9}!"), "\u{c3}\u{a9}!");
    assert_eq!(secret_from("abc", Some(vec![0x78])), "x");
    assert_eq!(secret_from("abc", None), "abc");
}

#[test]
fn legacy_algorithms_are_offered_after_the_modern_ones() {
    assert_eq!(
        preference(MethodKind::Kex),
        "diffie-hellman-group-exchange-sha256,diffie-hellman-group-exchange-sha1,diffie-hellman-group14-sha1,diffie-hellman-group1-sha1"
    );
    assert_eq!(
        preference(MethodKind::HostKey),
        "ssh-ed25519,ecdsa-sha2-nistp256,ecdsa-sha2-nistp384,ecdsa-sha2-nistp521,ssh-rsa"
    );
    let ciphers = "aes128-ctr,aes192-ctr,aes256-ctr,3des-cbc,aes128-cbc,aes192-cbc,aes256-cbc";
    assert_eq!(preference(MethodKind::CryptCs), ciphers);
    assert_eq!(preference(MethodKind::CryptSc), ciphers);
    assert_eq!(algorithms(MethodKind::Kex).len(), 4);
    assert_eq!(algorithms(MethodKind::HostKey)[4], "ssh-rsa");
}

#[test]
fn names_are_joined_with_commas() {
    assert_eq!(join_with_commas(&vec![]), "");
    assert_eq!(join_with_commas(&vec!["one"]), "one");
    assert_eq!(join_with_commas(&vec!["one", "two", "three"]), "one,two,three");
}
