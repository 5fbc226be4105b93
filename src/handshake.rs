//! Connection handshake: acceptance of connection tokens on the server, and
//! the client's connection state machine.

use vstd::prelude::*;
use crate::client_set::ClientId;

verus! {

/// The fields of a connection token that the server checks. Its signature is
/// checked by the caller, which hands the outcome in.
#[derive(Debug, Clone, Copy, PartialEq, Eq, Structural)]
pub struct ConnectionToken {
    pub client_id: ClientId,
    pub protocol_id: u64,
    /// The token is valid strictly before this timestamp.
    pub expiry: u64,
    /// Unique number of the token; each is accepted at most once.
    pub nonce: u64,
}

/// Why a connection attempt is dropped.
#[derive(Debug, Clone, Copy, PartialEq, Eq, Structural)]
pub enum HandshakeRejected {
    BadSignature,
    Expired,
    ProtocolMismatch,
    AlreadyUsed,
}

/// The outcome of presenting `token` to a server of protocol `protocol_id`
/// that has already accepted the nonces of `used`, at time `now`.
pub open spec fn token_outcome(
    protocol_id: u64,
    used: Set<u64>,
    token: ConnectionToken,
    signature_ok: bool,
    now: u64,
) -> Result<ClientId, HandshakeRejected> {
    if !signature_ok {
        Err(HandshakeRejected::BadSignature)
    } else if token.expiry <= now {
        Err(HandshakeRejected::Expired)
    } else if token.protocol_id != protocol_id {
        Err(HandshakeRejected::ProtocolMismatch)
    } else if used.contains(token.nonce) {
        Err(HandshakeRejected::AlreadyUsed)
    } else {
        Ok(token.client_id)
    }
}

/// Server-side checker of connection tokens.
pub struct TokenVerifier {
    pub protocol_id: u64,
    /// Nonces of the tokens accepted so far.
    pub used: Vec<u64>,
}

impl TokenVerifier {
    pub fn new(protocol_id: u64) -> (r: TokenVerifier)
        ensures
            r.protocol_id == protocol_id,
            r.used@.len() == 0,
    {
        TokenVerifier { protocol_id, used: Vec::new() }
    }

    /// Checks `token` at time `now`, given whether its signature verified.
    /// An accepted token's nonce is recorded, so that it is never accepted again.
    pub fn accept(&mut self, token: &ConnectionToken, signature_ok: bool, now: u64) -> (r: Result<
        ClientId,
        HandshakeRejected,
    >)
        ensures
            r == token_outcome(old(self).protocol_id, old(self).used@.to_set(), *token, signature_ok, now),
            final(self).protocol_id == old(self).protocol_id,
            r is Ok ==> final(self).used@.to_set() == old(self).used@.to_set().insert(token.nonce),
            r is Err ==> final(self).used@ == old(self).used@,
    {
        if !signature_ok {
            return Err(HandshakeRejected::BadSignature);
        }
        if token.expiry <= now {
            return Err(HandshakeRejected::Expired);
        }
        if token.protocol_id != self.protocol_id {
            return Err(HandshakeRejected::ProtocolMismatch);
        }
        let mut i: usize = 0;
        while i < self.used.len()
            invariant
                i <= self.used@.len(),
                self.used@ == old(self).used@,
                self.protocol_id == old(self).protocol_id,
                signature_ok,
                now < token.expiry,
                token.protocol_id == self.protocol_id,
                forall|k: int| 0 <= k < i ==> self.used@[k] != token.nonce,
            decreases self.used.len() - i,
        {
            if self.used[i] == token.nonce {
                proof {
                    assert(old(self).used@[i as int] == token.nonce);
                    assert(old(self).used@.contains(token.nonce));
                    assert(old(self).used@.to_set().contains(token.nonce));
                }
                return Err(HandshakeRejected::AlreadyUsed);
            }
            i = i + 1;
        }
        proof {
            old(self).used@.lemma_push_to_set_commute(token.nonce);
        }
        self.used.push(token.nonce);
        Ok(token.client_id)
    }
}

/// An expired token is rejected whatever else holds; a valid, unused token is
/// accepted; and once it has been accepted, presenting it again is rejected.
pub proof fn lemma_token_single_use(
    protocol_id: u64,
    used: Set<u64>,
    token: ConnectionToken,
    signature_ok: bool,
    now: u64,
    later: u64,
)
    ensures
        token.expiry <= now ==> token_outcome(protocol_id, used, token, signature_ok, now) is Err,
        signature_ok && now < token.expiry && token.protocol_id == protocol_id && !used.contains(
            token.nonce,
        ) ==> token_outcome(protocol_id, used, token, signature_ok, now) == Ok::<
            ClientId,
            HandshakeRejected,
        >(token.client_id),
        token_outcome(protocol_id, used, token, signature_ok, now) is Ok ==> token_outcome(
            protocol_id,
            used.insert(token.nonce),
            token,
            signature_ok,
            later,
        ) is Err,
{
}

/// Connection state of a client.
#[derive(Debug, Clone, Copy, PartialEq, Eq, Structural)]
pub enum ClientConnectionState {
    Disconnected,
    SendingToken,
    AwaitingChallenge,
    ConnectedPendingKeepAlive,
    Connected,
}

/// What happens to a client during the handshake and the session.
#[derive(Debug, Clone, Copy, PartialEq, Eq, Structural)]
pub enum ClientEvent {
    /// The application asks to connect.
    Connect,
    /// The token has been sent to the server.
    TokenSent,
    /// The server's challenge arrived and was echoed.
    ChallengeReceived,
    /// A keep-alive arrived from the server.
    KeepAliveReceived,
    /// No packet arrived within the configured window.
    TimedOut,
    /// The application or the server ends the connection.
    Disconnect,
}

/// The state that follows `state` on `event`; an event that does not apply
/// to the state leaves it as it is.
pub open spec fn next_client_state_spec(
    state: ClientConnectionState,
    event: ClientEvent,
) -> ClientConnectionState {
    match (state, event) {
        (_, ClientEvent::TimedOut) => ClientConnectionState::Disconnected,
        (_, ClientEvent::Disconnect) => ClientConnectionState::Disconnected,
        (ClientConnectionState::Disconnected, ClientEvent::Connect) => ClientConnectionState::SendingToken,
        (ClientConnectionState::SendingToken, ClientEvent::TokenSent) => ClientConnectionState::AwaitingChallenge,
        (ClientConnectionState::AwaitingChallenge, ClientEvent::ChallengeReceived) => ClientConnectionState::ConnectedPendingKeepAlive,
        (ClientConnectionState::ConnectedPendingKeepAlive, ClientEvent::KeepAliveReceived) => ClientConnectionState::Connected,
        _ => state,
    }
}

/// Advances the client's connection state on `event`.
pub fn next_client_state(state: ClientConnectionState, event: ClientEvent) -> (r: ClientConnectionState)
    ensures
        r == next_client_state_spec(state, event),
{
    match event {
        ClientEvent::TimedOut | ClientEvent::Disconnect => ClientConnectionState::Disconnected,
        ClientEvent::Connect => match state {
            ClientConnectionState::Disconnected => ClientConnectionState::SendingToken,
            _ => state,
        },
        ClientEvent::TokenSent => match state {
            ClientConnectionState::SendingToken => ClientConnectionState::AwaitingChallenge,
            _ => state,
        },
        ClientEvent::ChallengeReceived => match state {
            ClientConnectionState::AwaitingChallenge => ClientConnectionState::ConnectedPendingKeepAlive,
            _ => state,
        },
        ClientEvent::KeepAliveReceived => match state {
            ClientConnectionState::ConnectedPendingKeepAlive => ClientConnectionState::Connected,
            _ => state,
        },
    }
}

/// Whether game channels may carry packets in this state: only once the
/// session is established.
pub fn channels_usable(state: ClientConnectionState) -> (r: bool)
    ensures
        r == (state == ClientConnectionState::Connected),
{
    match state {
        ClientConnectionState::Connected => true,
        _ => false,
    }
}

} // verus!
