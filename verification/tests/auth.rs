use std::time::Duration;

use base64::engine::general_purpose::STANDARD;
use base64::Engine;
use ed25519_dalek::{Signer, SigningKey};
use vtnet::auth::{
    AuthenticationResult, ConnectionAuthenticator, AUTH_CHALLENGE_TTL_SECS, PROTOCOL_VERSION,
};
use vtnet::wire::{
    auth_signature_payload, AuthFailureReason, ClientMessage, ServerMessage, UserUid,
    AUTH_NONCE_BYTES,
};

fn identify_message(signing_key: &SigningKey) -> ClientMessage {
    ClientMessage::AuthIdentify {
        protocol_version: PROTOCOL_VERSION,
        client_uid: UserUid::from_bytes(signing_key.verifying_key().to_bytes()),
    }
}

/// A reading of the monotonic clock, in nanoseconds.
fn clock_reading() -> u128 {
    1_000_000_000
}

fn failure(reason: AuthFailureReason) -> AuthenticationResult {
    AuthenticationResult::Reply(ServerMessage::AuthFailure { reason })
}

#[test]
fn supported_identify_issues_a_challenge() {
    let signing_key = SigningKey::from_bytes(&[1; 32]);
    let mut authenticator = ConnectionAuthenticator::new("VTNet".to_owned());
    let nonce = [2; AUTH_NONCE_BYTES];
    let timestamp = 123;

    let result = authenticator.handle_message(identify_message(&signing_key), nonce, timestamp, clock_reading());

    assert_eq!(
        result,
        AuthenticationResult::Reply(ServerMessage::AuthChallenge {
            nonce_base64: STANDARD.encode(nonce),
            server_timestamp: timestamp,
        })
    );
}

#[test]
fn valid_response_authenticates_the_connection() {
    let signing_key = SigningKey::from_bytes(&[1; 32]);
    let user_uid = UserUid::from_bytes(signing_key.verifying_key().to_bytes());
    let mut authenticator = ConnectionAuthenticator::new("VTNet".to_owned());
    let nonce = [2; AUTH_NONCE_BYTES];
    let timestamp = 123;
    let now = clock_reading();
    authenticator.handle_message(identify_message(&signing_key), nonce, timestamp, now);
    let payload = auth_signature_payload(PROTOCOL_VERSION, nonce, timestamp, user_uid);
    let signature_base64 = STANDARD.encode(signing_key.sign(&payload).to_bytes());

    let result = authenticator.handle_message(
        ClientMessage::AuthResponse { signature_base64 },
        [0; AUTH_NONCE_BYTES],
        0,
        now,
    );

    assert_eq!(
        result,
        AuthenticationResult::Authenticated(ServerMessage::AuthSuccess {
            verified_uid: user_uid,
            assigned_name: "Guest-8a88e3dd".to_owned(),
            server_name: "VTNet".to_owned(),
        })
    );
    assert_eq!(authenticator.authenticated_session().unwrap().user_uid(), user_uid);
}

#[test]
fn expired_challenge_rejects_the_response() {
    let signing_key = SigningKey::from_bytes(&[1; 32]);
    let mut authenticator = ConnectionAuthenticator::new("VTNet".to_owned());
    let now = clock_reading();
    authenticator.handle_message(identify_message(&signing_key), [2; AUTH_NONCE_BYTES], 123, now);

    let result = authenticator.handle_message(
        ClientMessage::AuthResponse {
            signature_base64: "invalid".to_owned(),
        },
        [0; AUTH_NONCE_BYTES],
        0,
        now + (Duration::from_secs(AUTH_CHALLENGE_TTL_SECS) + Duration::from_millis(1)).as_nanos(),
    );

    assert_eq!(
        result,
        AuthenticationResult::Reply(ServerMessage::AuthFailure {
            reason: AuthFailureReason::RequestExpired,
        })
    );
}

#[test]
fn unsupported_protocol_version_is_refused() {
    let mut authenticator = ConnectionAuthenticator::new("VTNet".to_owned());

    let result = authenticator.handle_message(
        ClientMessage::AuthIdentify { protocol_version: 2, client_uid: UserUid([1; 32]) },
        [0; AUTH_NONCE_BYTES],
        0,
        clock_reading(),
    );

    assert_eq!(result, failure(AuthFailureReason::UnsupportedProtocolVersion));
    assert!(authenticator.authenticated_session().is_none());
}

#[test]
fn a_bad_signature_is_refused_and_the_challenge_discarded() {
    let signing_key = SigningKey::from_bytes(&[1; 32]);
    let user_uid = UserUid::from_bytes(signing_key.verifying_key().to_bytes());
    let mut authenticator = ConnectionAuthenticator::new("VTNet".to_owned());
    let nonce = [2; AUTH_NONCE_BYTES];
    let now = clock_reading();
    authenticator.handle_message(identify_message(&signing_key), nonce, 123, now);
    // Signed with the wrong timestamp.
    let payload = auth_signature_payload(PROTOCOL_VERSION, nonce, 124, user_uid);
    let wrong = STANDARD.encode(signing_key.sign(&payload).to_bytes());
    let right_payload = auth_signature_payload(PROTOCOL_VERSION, nonce, 123, user_uid);
    let right = STANDARD.encode(signing_key.sign(&right_payload).to_bytes());

    let first = authenticator.handle_message(
        ClientMessage::AuthResponse { signature_base64: wrong },
        [0; AUTH_NONCE_BYTES],
        0,
        now,
    );
    let replay = authenticator.handle_message(
        ClientMessage::AuthResponse { signature_base64: right },
        [0; AUTH_NONCE_BYTES],
        0,
        now,
    );

    assert_eq!(first, failure(AuthFailureReason::InvalidCredentials));
    assert_eq!(replay, failure(AuthFailureReason::InvalidCredentials));
    assert!(authenticator.authenticated_session().is_none());
}

#[test]
fn malformed_signatures_are_refused() {
    let signing_key = SigningKey::from_bytes(&[1; 32]);
    for signature_base64 in ["not base64!", &STANDARD.encode([0; 63])] {
        let mut authenticator = ConnectionAuthenticator::new("VTNet".to_owned());
        let now = clock_reading();
        authenticator.handle_message(identify_message(&signing_key), [2; AUTH_NONCE_BYTES], 1, now);

        let result = authenticator.handle_message(
            ClientMessage::AuthResponse { signature_base64: signature_base64.to_owned() },
            [0; AUTH_NONCE_BYTES],
            0,
            now,
        );

        assert_eq!(result, failure(AuthFailureReason::InvalidCredentials));
    }
}

#[test]
fn room_messages_before_authentication_are_refused() {
    let mut authenticator = ConnectionAuthenticator::new("VTNet".to_owned());

    let result = authenticator.handle_message(
        ClientMessage::JoinVoiceRoom { room_id: 1 },
        [0; AUTH_NONCE_BYTES],
        0,
        clock_reading(),
    );

    assert_eq!(result, failure(AuthFailureReason::InvalidCredentials));
    assert!(authenticator.take_authenticated_session().is_none());
}

#[test]
fn the_authenticated_session_is_handed_over_once() {
    let signing_key = SigningKey::from_bytes(&[3; 32]);
    let user_uid = UserUid::from_bytes(signing_key.verifying_key().to_bytes());
    let mut authenticator = ConnectionAuthenticator::new("VTNet".to_owned());
    let nonce = [5; AUTH_NONCE_BYTES];
    let now = clock_reading();
    authenticator.handle_message(identify_message(&signing_key), nonce, 9, now);
    let payload = auth_signature_payload(PROTOCOL_VERSION, nonce, 9, user_uid);
    let signature_base64 = STANDARD.encode(signing_key.sign(&payload).to_bytes());
    authenticator.handle_message(ClientMessage::AuthResponse { signature_base64 }, nonce, 0, now);

    let session = authenticator.take_authenticated_session().unwrap();

    assert_eq!(session.user_uid(), user_uid);
    assert_eq!(session.active_voice_room_id(), None);
    assert!(authenticator.take_authenticated_session().is_none());
}

#[test]
fn default_display_name_uses_the_first_four_key_bytes() {
    let mut bytes = [0; 32];
    bytes[..4].copy_from_slice(&[0x00, 0x0f, 0xa0, 0xff]);

    assert_eq!(ConnectionAuthenticator::default_display_name(UserUid(bytes)), "Guest-000fa0ff");
}

#[test]
fn a_second_identify_while_challenged_is_refused() {
    let signing_key = SigningKey::from_bytes(&[1; 32]);
    let mut authenticator = ConnectionAuthenticator::new("VTNet".to_owned());
    let now = clock_reading();
    authenticator.handle_message(identify_message(&signing_key), [2; AUTH_NONCE_BYTES], 1, now);

    let result = authenticator.handle_message(identify_message(&signing_key), [3; AUTH_NONCE_BYTES], 1, now);

    assert_eq!(result, failure(AuthFailureReason::InvalidCredentials));
}

#[test]
fn a_response_at_the_end_of_the_ttl_is_still_accepted() {
    let signing_key = SigningKey::from_bytes(&[1; 32]);
    let user_uid = UserUid::from_bytes(signing_key.verifying_key().to_bytes());
    let nonce = [2; AUTH_NONCE_BYTES];
    let payload = auth_signature_payload(PROTOCOL_VERSION, nonce, 123, user_uid);
    let signature_base64 = STANDARD.encode(signing_key.sign(&payload).to_bytes());
    let issued = clock_reading();
    for (now, authenticated) in [
        (issued + Duration::from_secs(AUTH_CHALLENGE_TTL_SECS).as_nanos(), true),
        (issued + Duration::from_secs(AUTH_CHALLENGE_TTL_SECS).as_nanos() + 1, false),
        (issued - 1, true),
    ] {
        let mut authenticator = ConnectionAuthenticator::new("VTNet".to_owned());
        authenticator.handle_message(identify_message(&signing_key), nonce, 123, issued);
        let result = authenticator.handle_message(
            ClientMessage::AuthResponse { signature_base64: signature_base64.clone() },
            [0; AUTH_NONCE_BYTES],
            0,
            now,
        );
        assert_eq!(matches!(result, AuthenticationResult::Authenticated(_)), authenticated);
    }
}
