use base64::engine::general_purpose::STANDARD;
use base64::Engine;
use ed25519_dalek::{Signer, SigningKey, VerifyingKey};
use vtnet::identity::{
    decode_nonce, decode_seed, encode_seed, identity_from_seed, sign_auth_challenge_with_seed,
    SignAuthChallengeRequest, ED25519_SEED_BYTES,
};
use vtnet::wire::{auth_signature_payload, UserUid, AUTH_NONCE_BYTES};

#[test]
fn encoded_seed_restores_the_same_ed25519_identity() {
    let seed = [7; ED25519_SEED_BYTES];
    let restored_key = SigningKey::from_bytes(&decode_seed(&STANDARD.encode(seed)).unwrap());

    assert_eq!(restored_key.to_bytes(), seed);
}

#[test]
fn nonce_decoder_rejects_an_incorrect_length() {
    let result = decode_nonce(&STANDARD.encode([0; AUTH_NONCE_BYTES - 1]));

    assert!(result.is_err());
}

#[test]
fn auth_signature_can_be_verified_by_the_public_identity() {
    let signing_key = SigningKey::from_bytes(&[9; ED25519_SEED_BYTES]);
    let user_uid = UserUid::from_bytes(signing_key.verifying_key().to_bytes());
    let nonce = [4; AUTH_NONCE_BYTES];
    let payload = auth_signature_payload(1, nonce, 42, user_uid);
    let signature = signing_key.sign(&payload);
    let verifying_key = VerifyingKey::from_bytes(user_uid.as_bytes()).unwrap();

    assert!(verifying_key.verify_strict(&payload, &signature).is_ok());
}

#[test]
fn decoders_report_their_errors() {
    assert_eq!(decode_seed("??"), Err("stored identity is not valid Base64".to_owned()));
    assert_eq!(
        decode_seed(&STANDARD.encode([1; 8])),
        Err("stored identity has an invalid length".to_owned())
    );
    assert_eq!(decode_nonce("??"), Err("authentication nonce is not valid Base64".to_owned()));
    assert_eq!(
        decode_nonce(&STANDARD.encode([1; 33])),
        Err("authentication nonce must contain exactly 32 bytes".to_owned())
    );
    assert_eq!(decode_nonce(&STANDARD.encode([6; 32])), Ok([6; 32]));
}

#[test]
fn identity_is_the_public_key_of_the_seed() {
    let seed = [11; ED25519_SEED_BYTES];

    let identity = identity_from_seed(&seed);

    assert_eq!(identity.user_uid.0, SigningKey::from_bytes(&seed).verifying_key().to_bytes());
}

#[test]
fn signed_challenge_verifies_against_the_canonical_payload() {
    let seed = [12; ED25519_SEED_BYTES];
    let nonce = [13; AUTH_NONCE_BYTES];
    let request = SignAuthChallengeRequest {
        protocol_version: 1,
        nonce_base64: STANDARD.encode(nonce),
        server_timestamp: 77,
    };

    let signature_base64 = sign_auth_challenge_with_seed(&request, &seed).unwrap();

    let signing_key = SigningKey::from_bytes(&seed);
    let user_uid = UserUid::from_bytes(signing_key.verifying_key().to_bytes());
    let payload = auth_signature_payload(1, nonce, 77, user_uid);
    assert_eq!(signature_base64, STANDARD.encode(signing_key.sign(&payload).to_bytes()));
}

#[test]
fn signing_refuses_a_malformed_nonce() {
    let request = SignAuthChallengeRequest {
        protocol_version: 1,
        nonce_base64: STANDARD.encode([0; 4]),
        server_timestamp: 0,
    };

    assert_eq!(
        sign_auth_challenge_with_seed(&request, &[1; ED25519_SEED_BYTES]),
        Err("authentication nonce must contain exactly 32 bytes".to_owned())
    );
}

#[test]
fn a_seed_is_kept_as_standard_base64_and_restored() {
    let seed = [0xfe; ED25519_SEED_BYTES];
    let text = encode_seed(seed);
    assert_eq!(text, STANDARD.encode(seed));
    assert_eq!(decode_seed(&text), Ok(seed));
}
