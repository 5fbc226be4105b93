use lightyear::handshake::{
    channels_usable, next_client_state, ClientConnectionState, ClientEvent, ConnectionToken,
    HandshakeRejected, TokenVerifier,
};

fn token(protocol_id: u64, expiry: u64, nonce: u64) -> ConnectionToken {
    ConnectionToken { client_id: 4, protocol_id, expiry, nonce }
}

#[test]
fn token_accepted_once_then_rejected() {
    let mut v = TokenVerifier::new(9);
    let t = token(9, 100, 1);
    assert_eq!(v.accept(&t, true, 50), Ok(4));
    assert_eq!(v.accept(&t, true, 51), Err(HandshakeRejected::AlreadyUsed));
    assert_eq!(v.accept(&token(9, 100, 2), true, 52), Ok(4));
}

#[test]
fn expired_token_rejected() {
    let mut v = TokenVerifier::new(9);
    assert_eq!(v.accept(&token(9, 100, 1), true, 100), Err(HandshakeRejected::Expired));
    assert_eq!(v.accept(&token(9, 100, 1), true, 500), Err(HandshakeRejected::Expired));
    assert!(v.used.is_empty());
}

#[test]
fn bad_signature_and_protocol_mismatch_rejected() {
    let mut v = TokenVerifier::new(9);
    assert_eq!(v.accept(&token(9, 100, 1), false, 0), Err(HandshakeRejected::BadSignature));
    assert_eq!(v.accept(&token(8, 100, 1), true, 0), Err(HandshakeRejected::ProtocolMismatch));
    assert_eq!(v.accept(&token(9, 100, 1), true, 0), Ok(4));
}

#[test]
fn client_state_machine_full_path() {
    let mut s = ClientConnectionState::Disconnected;
    assert!(!channels_usable(s));
    s = next_client_state(s, ClientEvent::Connect);
    assert_eq!(s, ClientConnectionState::SendingToken);
    s = next_client_state(s, ClientEvent::TokenSent);
    assert_eq!(s, ClientConnectionState::AwaitingChallenge);
    s = next_client_state(s, ClientEvent::KeepAliveReceived);
    assert_eq!(s, ClientConnectionState::AwaitingChallenge);
    s = next_client_state(s, ClientEvent::ChallengeReceived);
    assert_eq!(s, ClientConnectionState::ConnectedPendingKeepAlive);
    assert!(!channels_usable(s));
    s = next_client_state(s, ClientEvent::KeepAliveReceived);
    assert_eq!(s, ClientConnectionState::Connected);
    assert!(channels_usable(s));
    s = next_client_state(s, ClientEvent::TimedOut);
    assert_eq!(s, ClientConnectionState::Disconnected);
}

#[test]
fn client_disconnect_from_any_state() {
    let s = next_client_state(ClientConnectionState::AwaitingChallenge, ClientEvent::Disconnect);
    assert_eq!(s, ClientConnectionState::Disconnected);
}
