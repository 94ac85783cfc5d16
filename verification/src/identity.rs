//! The client side of the cryptographic identity: restoring the key seed,
//! deriving the public identity, and signing only the canonical handshake payload.

use vstd::prelude::*;

use crate::auth::{signature_accepted, AuthChallenge};
use crate::base64_text::{base64_standard_decode, base64_standard_encode, lemma_base64_round_trip};
use crate::trusted::{ed25519_strict_verification, base64_decode, base64_encode, ed25519_public_key, ed25519_public_key_of, ed25519_sign, ed25519_signature_of};
use crate::wire::{auth_signature_payload, bytes32_from_vec, signature_payload, UserUid, AUTH_NONCE_BYTES};

verus! {

/// Number of bytes of an Ed25519 secret seed.
pub const ED25519_SEED_BYTES: usize = 32;

/// The public identity of this client.
pub struct IdentityInfo {
    pub user_uid: UserUid,
}

/// A challenge that the frontend asks the identity to sign.
pub struct SignAuthChallengeRequest {
    pub protocol_version: u16,
    pub nonce_base64: String,
    pub server_timestamp: u64,
}

/// The outcome of decoding a Base64 text that must hold exactly 32 bytes, with the
/// two error messages of its caller.
pub open spec fn decoded_32_bytes(
    text: Seq<char>,
    result: Result<[u8; 32], String>,
    invalid_base64: Seq<char>,
    invalid_length: Seq<char>,
) -> bool {
    match base64_standard_decode(text) {
        None => result matches Err(message) && message@ == invalid_base64,
        Some(bytes) => if bytes.len() == 32 {
            result matches Ok(array) && array@ == bytes
        } else {
            result matches Err(message) && message@ == invalid_length
        },
    }
}

/// The Base64 text under which a secret seed is kept in the OS keyring; it decodes
/// back to the seed.
pub fn encode_seed(seed: [u8; ED25519_SEED_BYTES]) -> (text: String)
    ensures
        text@ == base64_standard_encode(seed@),
        decoded_32_bytes(
            text@,
            Ok(seed),
            "stored identity is not valid Base64"@,
            "stored identity has an invalid length"@,
        ),
{
    let text = base64_encode(seed.as_slice());
    proof {
        lemma_base64_round_trip(seed@);
    }
    text
}

/// Every seed reads back from the text it is kept under.
pub proof fn law_seed_text_round_trip(seed: [u8; ED25519_SEED_BYTES])
    ensures
        decoded_32_bytes(
            base64_standard_encode(seed@),
            Ok(seed),
            "stored identity is not valid Base64"@,
            "stored identity has an invalid length"@,
        ),
{
    lemma_base64_round_trip(seed@);
}

/// Restores the secret seed kept in the OS keyring as Base64.
pub fn decode_seed(encoded_seed: &str) -> (result: Result<[u8; ED25519_SEED_BYTES], String>)
    ensures
        decoded_32_bytes(
            encoded_seed@,
            result,
            "stored identity is not valid Base64"@,
            "stored identity has an invalid length"@,
        ),
{
    let seed = match base64_decode(encoded_seed) {
        Some(seed) => seed,
        None => {
            let message = String::from_str("stored identity is not valid Base64");
            proof {
                reveal_strlit("stored identity is not valid Base64");
            }
            return Err(message);
        },
    };
    match bytes32_from_vec(&seed) {
        Some(array) => Ok(array),
        None => {
            let message = String::from_str("stored identity has an invalid length");
            proof {
                reveal_strlit("stored identity has an invalid length");
            }
            Err(message)
        },
    }
}

/// Decodes the Base64 nonce of a server challenge.
pub fn decode_nonce(encoded_nonce: &str) -> (result: Result<[u8; AUTH_NONCE_BYTES], String>)
    ensures
        decoded_32_bytes(
            encoded_nonce@,
            result,
            "authentication nonce is not valid Base64"@,
            "authentication nonce must contain exactly 32 bytes"@,
        ),
{
    let nonce = match base64_decode(encoded_nonce) {
        Some(nonce) => nonce,
        None => {
            let message = String::from_str("authentication nonce is not valid Base64");
            proof {
                reveal_strlit("authentication nonce is not valid Base64");
            }
            return Err(message);
        },
    };
    match bytes32_from_vec(&nonce) {
        Some(array) => Ok(array),
        None => {
            let message = String::from_str("authentication nonce must contain exactly 32 bytes");
            proof {
                reveal_strlit("authentication nonce must contain exactly 32 bytes");
            }
            Err(message)
        },
    }
}

/// The public identity belonging to a secret seed.
pub fn identity_from_seed(seed: &[u8; ED25519_SEED_BYTES]) -> (identity: IdentityInfo)
    ensures
        identity.user_uid.0@ == ed25519_public_key_of(seed@),
{
    IdentityInfo { user_uid: UserUid::from_bytes(ed25519_public_key(seed)) }
}

/// Signs the canonical handshake payload for a server challenge with the key of
/// `seed`, and returns the signature in Base64. Only this payload is ever signed.
pub fn sign_auth_challenge_with_seed(
    request: &SignAuthChallengeRequest,
    seed: &[u8; ED25519_SEED_BYTES],
) -> (result: Result<String, String>)
    ensures
        match base64_standard_decode(request.nonce_base64@) {
            Some(nonce) if nonce.len() == 32 => {
                let signature = ed25519_signature_of(
                    seed@,
                    signature_payload(
                        request.protocol_version,
                        nonce,
                        request.server_timestamp,
                        ed25519_public_key_of(seed@),
                    ),
                );
                &&& result matches Ok(signature_base64)
                &&& signature_base64@ == base64_standard_encode(signature)
                &&& base64_standard_decode(signature_base64@) == Some(signature)
                &&& signature.len() == 64
            },
            _ => result is Err && decoded_32_bytes(
                request.nonce_base64@,
                Err(result->Err_0),
                "authentication nonce is not valid Base64"@,
                "authentication nonce must contain exactly 32 bytes"@,
            ),
        },
{
    let nonce = match decode_nonce(request.nonce_base64.as_str()) {
        Ok(nonce) => nonce,
        Err(message) => return Err(message),
    };
    let identity = identity_from_seed(seed);
    let payload = auth_signature_payload(
        request.protocol_version,
        nonce,
        request.server_timestamp,
        identity.user_uid,
    );
    let signature = ed25519_sign(seed, payload.as_slice());
    proof {
        lemma_base64_round_trip(signature@);
    }
    Ok(base64_encode(signature.as_slice()))
}


/// The client signs exactly the bytes the server verifies: a response produced by
/// `sign_auth_challenge_with_seed` for a challenge issued to the seed's public key
/// passes the server's check whenever Ed25519 strict verification accepts the
/// seed's own signature of the canonical payload.
pub proof fn law_client_signature_meets_server_check(
    challenge: AuthChallenge,
    seed: Seq<u8>,
    signature_base64: Seq<char>,
)
    requires
        challenge.client_uid.0@ == ed25519_public_key_of(seed),
        ({
            let signature = ed25519_signature_of(
                seed,
                signature_payload(
                    challenge.protocol_version,
                    challenge.nonce@,
                    challenge.server_timestamp,
                    ed25519_public_key_of(seed),
                ),
            );
            base64_standard_decode(signature_base64) == Some(signature) && signature.len() == 64
        }),
    ensures
        signature_accepted(challenge, signature_base64) == ed25519_strict_verification(
            ed25519_public_key_of(seed),
            signature_payload(
                challenge.protocol_version,
                challenge.nonce@,
                challenge.server_timestamp,
                ed25519_public_key_of(seed),
            ),
            ed25519_signature_of(
                seed,
                signature_payload(
                    challenge.protocol_version,
                    challenge.nonce@,
                    challenge.server_timestamp,
                    ed25519_public_key_of(seed),
                ),
            ),
        ),
{
}

} // verus!
