//! The per-connection authentication handshake: identify, challenge, signed
//! response, authenticated session.

use vstd::prelude::*;

use crate::registry::{Session, SessionView};
use crate::base64_text::{base64_standard_decode, base64_standard_encode, lemma_base64_round_trip};
use crate::trusted::{base64_decode, base64_encode, ed25519_strict_verification, ed25519_verify_strict, push_char, signature_from_slice};
use crate::wire::{
    auth_signature_payload, hex_digit, signature_payload, AuthFailureReason, ClientMessage, ServerMessage,
    UserUid, AUTH_NONCE_BYTES,
};

verus! {

/// The only protocol version this server speaks.
pub const PROTOCOL_VERSION: u16 = 1;

/// How long an issued challenge stays valid, in seconds.
pub const AUTH_CHALLENGE_TTL_SECS: u64 = 5;

/// How long an issued challenge stays valid, in nanoseconds.
pub const AUTH_CHALLENGE_TTL_NANOS: u128 = 5000000000;

/// A challenge issued to a connection that identified itself.
#[derive(Clone, Copy, Debug, PartialEq, Eq)]
pub struct AuthChallenge {
    pub client_uid: UserUid,
    pub protocol_version: u16,
    pub nonce: [u8; AUTH_NONCE_BYTES],
    pub server_timestamp: u64,
    /// The monotonic clock's reading, in nanoseconds, when the challenge was issued.
    pub issued_at: u128,
}

#[derive(Debug)]
enum AuthenticationState {
    Connected,
    ChallengeIssued(AuthChallenge),
    Authenticated(Session),
}

/// The abstract phase of a connection's handshake.
pub enum AuthPhase {
    Connected,
    ChallengeIssued(AuthChallenge),
    Authenticated(SessionView),
}

/// The abstract state of an authenticator.
pub struct AuthenticatorView {
    pub server_name: Seq<char>,
    pub phase: AuthPhase,
}

/// Tracks the authentication state of one WebSocket connection.
#[derive(Debug)]
pub struct ConnectionAuthenticator {
    server_name: String,
    state: AuthenticationState,
}

impl View for ConnectionAuthenticator {
    type V = AuthenticatorView;

    closed spec fn view(&self) -> AuthenticatorView {
        AuthenticatorView {
            server_name: self.server_name@,
            phase: match self.state {
                AuthenticationState::Connected => AuthPhase::Connected,
                AuthenticationState::ChallengeIssued(challenge) => AuthPhase::ChallengeIssued(challenge),
                AuthenticationState::Authenticated(session) => AuthPhase::Authenticated(session@),
            },
        }
    }
}

/// The server reply produced by one authentication request.
#[derive(Debug, PartialEq)]
pub enum AuthenticationResult {
    Reply(ServerMessage),
    Authenticated(ServerMessage),
}

/// Two lower-case hexadecimal digits of a byte.
pub open spec fn hex_byte(byte: u8) -> Seq<char> {
    seq![hex_digit(byte / 16), hex_digit(byte % 16)]
}

/// The default display name "Guest-" followed by the hex of the key's first four bytes.
pub open spec fn guest_name(uid: UserUid) -> Seq<char> {
    seq!['G', 'u', 'e', 's', 't', '-'] + hex_byte(uid.0[0]) + hex_byte(uid.0[1]) + hex_byte(uid.0[2])
        + hex_byte(uid.0[3])
}

/// The response signature decodes from Base64 to 64 bytes that verify strictly
/// against the challenge's canonical payload under the claimed public key.
pub open spec fn signature_accepted(challenge: AuthChallenge, signature_base64: Seq<char>) -> bool {
    match base64_standard_decode(signature_base64) {
        Some(signature) => signature.len() == 64 && ed25519_strict_verification(
            challenge.client_uid.0@,
            signature_payload(
                challenge.protocol_version,
                challenge.nonce@,
                challenge.server_timestamp,
                challenge.client_uid.0@,
            ),
            signature,
        ),
        None => false,
    }
}

/// `result` replies with a handshake failure for `reason`.
pub open spec fn is_failure(result: AuthenticationResult, reason: AuthFailureReason) -> bool {
    result == AuthenticationResult::Reply(ServerMessage::AuthFailure { reason })
}

/// The age of a challenge issued at `issued_at` when the monotonic clock reads
/// `now`, both in nanoseconds; zero for a reading before the issue.
pub open spec fn challenge_age(issued_at: u128, now: u128) -> u128 {
    if now >= issued_at {
        (now - issued_at) as u128
    } else {
        0
    }
}

/// One step of the handshake: the state after `message` and the reply, given the
/// monotonic clock's reading `now` in nanoseconds.
pub open spec fn handshake_step(
    before: AuthenticatorView,
    message: ClientMessage,
    nonce: [u8; AUTH_NONCE_BYTES],
    server_timestamp: u64,
    now: u128,
    after: AuthenticatorView,
    result: AuthenticationResult,
) -> bool {
    &&& after.server_name == before.server_name
    &&& match (before.phase, message) {
        (
            AuthPhase::Connected,
            ClientMessage::AuthIdentify { protocol_version, client_uid },
        ) => if protocol_version == PROTOCOL_VERSION {
            &&& after.phase == AuthPhase::ChallengeIssued(
                AuthChallenge {
                    client_uid,
                    protocol_version,
                    nonce,
                    server_timestamp,
                    issued_at: now,
                },
            )
            &&& result matches AuthenticationResult::Reply(
                ServerMessage::AuthChallenge { nonce_base64, server_timestamp: t },
            )
            &&& nonce_base64@ == base64_standard_encode(nonce@)
            &&& t == server_timestamp
        } else {
            &&& after.phase == AuthPhase::Connected
            &&& is_failure(result, AuthFailureReason::UnsupportedProtocolVersion)
        },
        (
            AuthPhase::ChallengeIssued(challenge),
            ClientMessage::AuthResponse { signature_base64 },
        ) => if challenge_age(challenge.issued_at, now) > AUTH_CHALLENGE_TTL_NANOS {
            &&& after.phase == AuthPhase::Connected
            &&& is_failure(result, AuthFailureReason::RequestExpired)
        } else if !signature_accepted(challenge, signature_base64@) {
            &&& after.phase == AuthPhase::Connected
            &&& is_failure(result, AuthFailureReason::InvalidCredentials)
        } else {
            &&& after.phase matches AuthPhase::Authenticated(session)
            &&& session.user_uid == challenge.client_uid
            &&& session.display_name == guest_name(challenge.client_uid)
            &&& session.active_voice_room_id == None::<u128>
            &&& result matches AuthenticationResult::Authenticated(
                ServerMessage::AuthSuccess { verified_uid, assigned_name, server_name },
            )
            &&& verified_uid == challenge.client_uid
            &&& assigned_name@ == guest_name(challenge.client_uid)
            &&& server_name@ == before.server_name
        },
        _ => {
            &&& after.phase == before.phase
            &&& is_failure(result, AuthFailureReason::InvalidCredentials)
        },
    }
}

fn hex_digit_char(value: u8) -> (c: char)
    requires
        value < 16,
    ensures
        c == hex_digit(value),
{
    if value < 10 {
        (48u8 + value) as char
    } else {
        (87u8 + value) as char
    }
}

fn push_hex_byte(text: &mut String, byte: u8)
    ensures
        final(text)@ == old(text)@ + hex_byte(byte),
{
    push_char(text, hex_digit_char(byte / 16));
    push_char(text, hex_digit_char(byte % 16));
    assert(text@ =~= old(text)@ + hex_byte(byte));
}

impl ConnectionAuthenticator {
    pub fn new(server_name: String) -> (authenticator: Self)
        ensures
            authenticator@.server_name == server_name@,
            authenticator@.phase == AuthPhase::Connected,
    {
        ConnectionAuthenticator { server_name, state: AuthenticationState::Connected }
    }

    pub fn authenticated_session(&self) -> (session: Option<&Session>)
        ensures
            match self@.phase {
                AuthPhase::Authenticated(view) => session matches Some(s) && s@ == view,
                _ => session is None,
            },
    {
        match &self.state {
            AuthenticationState::Authenticated(session) => Some(session),
            _ => None,
        }
    }

    /// Transfers the authenticated session to the connection runtime, which leaves
    /// the authenticator in the connected state.
    pub fn take_authenticated_session(&mut self) -> (session: Option<Session>)
        ensures
            final(self)@.server_name == old(self)@.server_name,
            match old(self)@.phase {
                AuthPhase::Authenticated(view) => {
                    &&& session matches Some(s)
                    &&& s@ == view
                    &&& final(self)@.phase == AuthPhase::Connected
                },
                _ => session is None && final(self)@.phase == old(self)@.phase,
            },
    {
        let mut previous_state = AuthenticationState::Connected;
        std::mem::swap(&mut previous_state, &mut self.state);
        match previous_state {
            AuthenticationState::Authenticated(session) => Some(session),
            other => {
                self.state = other;
                None
            },
        }
    }

    /// The display name given to a newly authenticated user.
    pub fn default_display_name(user_uid: UserUid) -> (name: String)
        ensures
            name@ == guest_name(user_uid),
    {
        let mut name = String::new();
        push_char(&mut name, 'G');
        push_char(&mut name, 'u');
        push_char(&mut name, 'e');
        push_char(&mut name, 's');
        push_char(&mut name, 't');
        push_char(&mut name, '-');
        push_hex_byte(&mut name, user_uid.0[0]);
        push_hex_byte(&mut name, user_uid.0[1]);
        push_hex_byte(&mut name, user_uid.0[2]);
        push_hex_byte(&mut name, user_uid.0[3]);
        assert(name@ =~= guest_name(user_uid));
        name
    }

    /// Checks a Base64 response signature against a challenge.
    pub fn verify_signature(challenge: AuthChallenge, signature_base64: &str) -> (accepted: bool)
        ensures
            accepted == signature_accepted(challenge, signature_base64@),
    {
        let signature_bytes = match base64_decode(signature_base64) {
            Some(bytes) => bytes,
            None => return false,
        };
        let signature = match signature_from_slice(signature_bytes.as_slice()) {
            Some(signature) => signature,
            None => return false,
        };
        let payload = auth_signature_payload(
            challenge.protocol_version,
            challenge.nonce,
            challenge.server_timestamp,
            challenge.client_uid,
        );
        ed25519_verify_strict(challenge.client_uid.as_bytes(), payload.as_slice(), &signature)
    }

    fn failure(reason: AuthFailureReason) -> (result: AuthenticationResult)
        ensures
            is_failure(result, reason),
    {
        AuthenticationResult::Reply(ServerMessage::AuthFailure { reason })
    }

    /// Advances the handshake by one client message received when the monotonic
    /// clock reads `now` (nanoseconds): an identify with the supported version issues
    /// a challenge for `nonce`; a signed response to a challenge not older than the
    /// TTL authenticates the connection; anything else is refused.
    pub fn handle_message(
        &mut self,
        message: ClientMessage,
        nonce: [u8; AUTH_NONCE_BYTES],
        server_timestamp: u64,
        now: u128,
    ) -> (result: AuthenticationResult)
        ensures
            handshake_step(old(self)@, message, nonce, server_timestamp, now, final(self)@, result),
    {
        match (&self.state, message) {
            (
                AuthenticationState::Connected,
                ClientMessage::AuthIdentify { protocol_version, client_uid },
            ) => {
                if protocol_version == PROTOCOL_VERSION {
                    self.state = AuthenticationState::ChallengeIssued(
                        AuthChallenge {
                            client_uid,
                            protocol_version,
                            nonce,
                            server_timestamp,
                            issued_at: now,
                        },
                    );
                    AuthenticationResult::Reply(
                        ServerMessage::AuthChallenge {
                            nonce_base64: base64_encode(nonce.as_slice()),
                            server_timestamp,
                        },
                    )
                } else {
                    Self::failure(AuthFailureReason::UnsupportedProtocolVersion)
                }
            },
            (
                AuthenticationState::ChallengeIssued(challenge),
                ClientMessage::AuthResponse { signature_base64 },
            ) => {
                let challenge = *challenge;
                self.state = AuthenticationState::Connected;
                let age: u128 = if now >= challenge.issued_at {
                    now - challenge.issued_at
                } else {
                    0
                };
                if age > AUTH_CHALLENGE_TTL_NANOS {
                    return Self::failure(AuthFailureReason::RequestExpired);
                }
                if !Self::verify_signature(challenge, signature_base64.as_str()) {
                    return Self::failure(AuthFailureReason::InvalidCredentials);
                }
                let assigned_name = Self::default_display_name(challenge.client_uid);
                self.state = AuthenticationState::Authenticated(
                    Session::new(challenge.client_uid, assigned_name.clone()),
                );
                AuthenticationResult::Authenticated(
                    ServerMessage::AuthSuccess {
                        verified_uid: challenge.client_uid,
                        assigned_name,
                        server_name: self.server_name.clone(),
                    },
                )
            },
            _ => Self::failure(AuthFailureReason::InvalidCredentials),
        }
    }

}


/// A connection becomes authenticated only by answering its pending challenge,
/// within the TTL, with a signature that verifies for the identified key; the
/// session then belongs to that key.
pub proof fn law_authentication_requires_a_valid_signature(
    before: AuthenticatorView,
    message: ClientMessage,
    nonce: [u8; AUTH_NONCE_BYTES],
    server_timestamp: u64,
    now: u128,
    after: AuthenticatorView,
    result: AuthenticationResult,
)
    requires
        handshake_step(before, message, nonce, server_timestamp, now, after, result),
        !(before.phase is Authenticated),
        after.phase is Authenticated,
    ensures
        before.phase matches AuthPhase::ChallengeIssued(challenge) && message matches ClientMessage::AuthResponse {
            signature_base64,
        } && challenge_age(challenge.issued_at, now) <= AUTH_CHALLENGE_TTL_NANOS && signature_accepted(
            challenge,
            signature_base64@,
        ) && after.phase->Authenticated_0.user_uid == challenge.client_uid,
        result is Authenticated,
{
}

/// A challenge is answered at most once: any response to it, accepted or not,
/// discards the pending challenge.
pub proof fn law_challenge_is_single_use(
    before: AuthenticatorView,
    signature_base64: String,
    nonce: [u8; AUTH_NONCE_BYTES],
    server_timestamp: u64,
    now: u128,
    after: AuthenticatorView,
    result: AuthenticationResult,
)
    requires
        before.phase is ChallengeIssued,
        handshake_step(
            before,
            ClientMessage::AuthResponse { signature_base64 },
            nonce,
            server_timestamp,
            now,
            after,
            result,
        ),
    ensures
        !(after.phase is ChallengeIssued),
{
}

/// Room, text and signaling messages are never processed by the handshake: they
/// are refused with `InvalidCredentials` and leave the phase unchanged, before and
/// after authentication alike.
pub proof fn law_room_messages_are_refused_by_the_handshake(
    before: AuthenticatorView,
    message: ClientMessage,
    nonce: [u8; AUTH_NONCE_BYTES],
    server_timestamp: u64,
    now: u128,
    after: AuthenticatorView,
    result: AuthenticationResult,
)
    requires
        handshake_step(before, message, nonce, server_timestamp, now, after, result),
        !(message is AuthIdentify),
        !(message is AuthResponse),
    ensures
        after.phase == before.phase,
        is_failure(result, AuthFailureReason::InvalidCredentials),
{
}

/// Once authenticated, a connection stays authenticated with the same session:
/// further handshake messages are refused.
pub proof fn law_authenticated_connection_is_final(
    before: AuthenticatorView,
    message: ClientMessage,
    nonce: [u8; AUTH_NONCE_BYTES],
    server_timestamp: u64,
    now: u128,
    after: AuthenticatorView,
    result: AuthenticationResult,
)
    requires
        handshake_step(before, message, nonce, server_timestamp, now, after, result),
        before.phase is Authenticated,
    ensures
        after.phase == before.phase,
        is_failure(result, AuthFailureReason::InvalidCredentials),
{
}

/// The challenge a connection must answer is the one it was sent: after an
/// accepted identify, the reply carries the server's nonce in Base64 and the
/// server time, and the pending challenge holds exactly the bytes that Base64
/// decodes to, for the identified key, version and time.
pub proof fn law_challenge_holds_the_nonce_sent(
    before: AuthenticatorView,
    client_uid: UserUid,
    nonce: [u8; AUTH_NONCE_BYTES],
    server_timestamp: u64,
    now: u128,
    after: AuthenticatorView,
    result: AuthenticationResult,
)
    requires
        before.phase is Connected,
        handshake_step(
            before,
            ClientMessage::AuthIdentify { protocol_version: PROTOCOL_VERSION, client_uid },
            nonce,
            server_timestamp,
            now,
            after,
            result,
        ),
    ensures
        ({
            &&& result matches AuthenticationResult::Reply(
                ServerMessage::AuthChallenge { nonce_base64, server_timestamp: sent_at },
            )
            &&& sent_at == server_timestamp
            &&& after.phase matches AuthPhase::ChallengeIssued(challenge)
            &&& base64_standard_decode(nonce_base64@) == Some(challenge.nonce@)
            &&& challenge.nonce@ == nonce@
            &&& challenge.client_uid == client_uid
            &&& challenge.protocol_version == PROTOCOL_VERSION
            &&& challenge.server_timestamp == server_timestamp
            &&& challenge.issued_at == now
        }),
{
    lemma_base64_round_trip(nonce@);
}

/// An honest client authenticates: answering an issued challenge in time with a
/// signature that verifies, under the identified key, over the payload built from
/// the nonce decoded from the challenge's Base64 and the server time it carried
/// authenticates the connection as that key, with its guest name.
pub proof fn law_honest_response_authenticates(
    before: AuthenticatorView,
    client_uid: UserUid,
    nonce: [u8; AUTH_NONCE_BYTES],
    server_timestamp: u64,
    issued_at: u128,
    challenged: AuthenticatorView,
    challenge_reply: AuthenticationResult,
    signature_base64: String,
    next_nonce: [u8; AUTH_NONCE_BYTES],
    next_server_timestamp: u64,
    now: u128,
    after: AuthenticatorView,
    result: AuthenticationResult,
)
    requires
        before.phase is Connected,
        handshake_step(
            before,
            ClientMessage::AuthIdentify { protocol_version: PROTOCOL_VERSION, client_uid },
            nonce,
            server_timestamp,
            issued_at,
            challenged,
            challenge_reply,
        ),
        ({
            &&& challenge_reply matches AuthenticationResult::Reply(
                ServerMessage::AuthChallenge { nonce_base64, server_timestamp: sent_at },
            )
            &&& base64_standard_decode(nonce_base64@) matches Some(sent_nonce)
            &&& base64_standard_decode(signature_base64@) matches Some(signature)
            &&& signature.len() == 64
            &&& ed25519_strict_verification(
                client_uid.0@,
                signature_payload(PROTOCOL_VERSION, sent_nonce, sent_at, client_uid.0@),
                signature,
            )
        }),
        handshake_step(
            challenged,
            ClientMessage::AuthResponse { signature_base64 },
            next_nonce,
            next_server_timestamp,
            now,
            after,
            result,
        ),
        now >= issued_at,
        now - issued_at <= AUTH_CHALLENGE_TTL_NANOS,
    ensures
        ({
            &&& result matches AuthenticationResult::Authenticated(
                ServerMessage::AuthSuccess { verified_uid, assigned_name, .. },
            )
            &&& verified_uid == client_uid
            &&& assigned_name@ == guest_name(client_uid)
        }),
        after.phase matches AuthPhase::Authenticated(session) && session.user_uid == client_uid,
{
    lemma_base64_round_trip(nonce@);
}

/// Refusals of the handshake: an identify with another protocol version is refused
/// as unsupported; a response more than the TTL after its challenge was issued is
/// refused as expired, whatever it holds; a timely response whose signature does
/// not verify over the challenge's payload is refused as invalid. Each refusal
/// leaves the connection unauthenticated with no pending challenge.
pub proof fn law_handshake_refusals(
    before: AuthenticatorView,
    message: ClientMessage,
    nonce: [u8; AUTH_NONCE_BYTES],
    server_timestamp: u64,
    now: u128,
    after: AuthenticatorView,
    result: AuthenticationResult,
)
    requires
        handshake_step(before, message, nonce, server_timestamp, now, after, result),
    ensures
        match (before.phase, message) {
            (AuthPhase::Connected, ClientMessage::AuthIdentify { protocol_version, .. }) => (protocol_version
                != PROTOCOL_VERSION <==> result == AuthenticationResult::Reply(
                ServerMessage::AuthFailure { reason: AuthFailureReason::UnsupportedProtocolVersion },
            )),
            (AuthPhase::ChallengeIssued(challenge), ClientMessage::AuthResponse { signature_base64 }) => {
                if now > challenge.issued_at && now - challenge.issued_at > AUTH_CHALLENGE_TTL_NANOS {
                    &&& after.phase is Connected
                    &&& result == AuthenticationResult::Reply(
                        ServerMessage::AuthFailure { reason: AuthFailureReason::RequestExpired },
                    )
                } else {
                    &&& (result is Authenticated) == (base64_standard_decode(signature_base64@) matches Some(
                        signature,
                    ) && signature.len() == 64 && ed25519_strict_verification(
                        challenge.client_uid.0@,
                        signature_payload(
                            challenge.protocol_version,
                            challenge.nonce@,
                            challenge.server_timestamp,
                            challenge.client_uid.0@,
                        ),
                        signature,
                    ))
                    &&& !(result is Authenticated) ==> after.phase is Connected && result
                        == AuthenticationResult::Reply(
                        ServerMessage::AuthFailure { reason: AuthFailureReason::InvalidCredentials },
                    )
                }
            },
            _ => true,
        },
{
}

} // verus!
