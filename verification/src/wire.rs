//! The wire contract shared by client and server: identities, validated text,
//! and the canonical bytes signed during the authentication handshake.

use vstd::prelude::*;

use crate::base64_text::{base64_standard_decode, base64_standard_encode, lemma_base64_length, lemma_base64_round_trip};
use crate::trusted::{base64_decode, base64_encode};

verus! {

/// Domain separator that prefixes every signed authentication payload ("VTNET_AUTH_v1").
pub const AUTH_DOMAIN_SEPARATOR: [u8; 13] = [86, 84, 78, 69, 84, 95, 65, 85, 84, 72, 95, 118, 49];

/// Number of random bytes in an authentication nonce.
pub const AUTH_NONCE_BYTES: usize = 32;

/// An Ed25519 public key, the cryptographic identity of a user.
#[derive(Clone, Copy, Debug, PartialEq, Eq, Hash)]
pub struct UserUid(pub [u8; 32]);

impl UserUid {
    pub fn from_bytes(bytes: [u8; 32]) -> (uid: Self)
        ensures
            uid.0 == bytes,
    {
        UserUid(bytes)
    }

    pub fn as_bytes(&self) -> (bytes: &[u8; 32])
        ensures
            *bytes == self.0,
    {
        &self.0
    }
}

/// Lower-case hexadecimal digit of a value below 16.
pub open spec fn hex_digit(value: u8) -> char {
    if value < 10 {
        ((48 + value) as u8) as char
    } else {
        ((87 + value) as u8) as char
    }
}

/// Copies exactly 32 bytes into an array; any other length is refused.
pub fn bytes32_from_vec(bytes: &Vec<u8>) -> (array: Option<[u8; 32]>)
    ensures
        array is Some <==> bytes@.len() == 32,
        array matches Some(a) ==> a@ == bytes@,
{
    broadcast use vstd::array::group_array_axioms;

    if bytes.len() != 32 {
        return None;
    }
    let mut array = [0u8; 32];
    let mut i: usize = 0;
    while i < 32
        invariant
            i <= 32,
            bytes@.len() == 32,
            forall|j: int| 0 <= j < i ==> array[j] == bytes@[j],
        decreases 32 - i,
    {
        array[i] = bytes[i];
        i = i + 1;
    }
    assert(array@ =~= bytes@);
    Some(array)
}

/// Why a Base64 text is not a user identity.
#[derive(Clone, Copy, Debug, PartialEq, Eq)]
pub enum UserUidDecodeError {
    InvalidBase64,
    InvalidLength,
}

/// The outcome of reading a user identity from its Base64 text.
pub open spec fn uid_decoding_outcome(text: Seq<char>, result: Result<UserUid, UserUidDecodeError>) -> bool {
    match base64_standard_decode(text) {
        None => result == Err::<UserUid, UserUidDecodeError>(UserUidDecodeError::InvalidBase64),
        Some(bytes) => if bytes.len() == 32 {
            result matches Ok(uid) && uid.0@ == bytes
        } else {
            result == Err::<UserUid, UserUidDecodeError>(UserUidDecodeError::InvalidLength)
        },
    }
}

impl UserUid {
    /// The compact wire form of an identity: the Base64 text of its 32 bytes.
    pub fn to_base64(&self) -> (text: String)
        ensures
            text@ == base64_standard_encode(self.0@),
            base64_standard_decode(text@) == Some(self.0@),
            text@.len() == 44,
    {
        proof {
            lemma_base64_length(self.0@);
            lemma_base64_round_trip(self.0@);
        }
        base64_encode(self.0.as_slice())
    }

    /// Reads an identity from Base64 text that must decode to exactly 32 bytes.
    pub fn from_base64(text: &str) -> (result: Result<UserUid, UserUidDecodeError>)
        ensures
            uid_decoding_outcome(text@, result),
    {
        let decoded = match base64_decode(text) {
            Some(bytes) => bytes,
            None => return Err(UserUidDecodeError::InvalidBase64),
        };
        match bytes32_from_vec(&decoded) {
            Some(bytes) => Ok(UserUid(bytes)),
            None => Err(UserUidDecodeError::InvalidLength),
        }
    }
}

/// An identity written in its wire form reads back as the same identity.
pub proof fn law_uid_wire_form_round_trip(
    uid: UserUid,
    text: Seq<char>,
    result: Result<UserUid, UserUidDecodeError>,
)
    requires
        text == base64_standard_encode(uid.0@),
        uid_decoding_outcome(text, result),
    ensures
        result == Ok::<UserUid, UserUidDecodeError>(uid),
{
    broadcast use vstd::array::group_array_axioms;

    lemma_base64_round_trip(uid.0@);

    let decoded = result->Ok_0;
    assert(decoded.0 =~= uid.0) by {
        assert forall|i: int| 0 <= i < 32 implies decoded.0[i] == uid.0[i] by {
            assert(decoded.0@[i] == uid.0@[i]);
        }
    }
}

/// Compares two texts character by character.
pub fn same_text(a: &str, b: &str) -> (equal: bool)
    ensures
        equal == (a@ == b@),
{
    let length = a.unicode_len();
    if length != b.unicode_len() {
        return false;
    }
    let mut i: usize = 0;
    while i < length
        invariant
            i <= length,
            length == a@.len(),
            length == b@.len(),
            forall|j: int| 0 <= j < i ==> a@[j] == b@[j],
        decreases length - i,
    {
        if a.get_char(i) != b.get_char(i) {
            return false;
        }
        i = i + 1;
    }
    assert(a@ =~= b@);
    true
}

/// Compares two identities byte by byte.
pub fn same_uid(a: &UserUid, b: &UserUid) -> (equal: bool)
    ensures
        equal == (*a == *b),
{
    broadcast use vstd::array::group_array_axioms;

    let mut i: usize = 0;
    while i < 32
        invariant
            i <= 32,
            forall|j: int| 0 <= j < i ==> a.0[j] == b.0[j],
        decreases 32 - i,
    {
        if a.0[i] != b.0[i] {
            return false;
        }
        i = i + 1;
    }
    assert(a.0 =~= b.0);
    true
}

/// Big-endian encoding of a `u16`.
pub open spec fn be_u16(value: u16) -> Seq<u8> {
    seq![(value >> 8u16) as u8, value as u8]
}

/// Big-endian encoding of a `u64`.
pub open spec fn be_u64(value: u64) -> Seq<u8> {
    seq![
        (value >> 56u64) as u8,
        (value >> 48u64) as u8,
        (value >> 40u64) as u8,
        (value >> 32u64) as u8,
        (value >> 24u64) as u8,
        (value >> 16u64) as u8,
        (value >> 8u64) as u8,
        value as u8,
    ]
}

/// The canonical byte sequence that a client signs and the server verifies:
/// domain separator, protocol version, nonce, server timestamp, client public key.
pub open spec fn signature_payload(
    protocol_version: u16,
    nonce: Seq<u8>,
    server_timestamp: u64,
    client_key: Seq<u8>,
) -> Seq<u8> {
    AUTH_DOMAIN_SEPARATOR@ + be_u16(protocol_version) + nonce + be_u64(server_timestamp)
        + client_key
}

proof fn lemma_be_u16_injective(a: u16, b: u16)
    requires
        be_u16(a) == be_u16(b),
    ensures
        a == b,
{
    assert(be_u16(a)[0] == be_u16(b)[0] && be_u16(a)[1] == be_u16(b)[1]);
    assert(a == b) by (bit_vector)
        requires
            (a >> 8u16) as u8 == (b >> 8u16) as u8,
            a as u8 == b as u8,
    ;
}

proof fn lemma_be_u64_injective(a: u64, b: u64)
    requires
        be_u64(a) == be_u64(b),
    ensures
        a == b,
{
    assert(be_u64(a)[0] == be_u64(b)[0] && be_u64(a)[1] == be_u64(b)[1] && be_u64(a)[2] == be_u64(b)[2]
        && be_u64(a)[3] == be_u64(b)[3] && be_u64(a)[4] == be_u64(b)[4] && be_u64(a)[5] == be_u64(b)[5]
        && be_u64(a)[6] == be_u64(b)[6] && be_u64(a)[7] == be_u64(b)[7]);
    assert(a == b) by (bit_vector)
        requires
            (a >> 56u64) as u8 == (b >> 56u64) as u8,
            (a >> 48u64) as u8 == (b >> 48u64) as u8,
            (a >> 40u64) as u8 == (b >> 40u64) as u8,
            (a >> 32u64) as u8 == (b >> 32u64) as u8,
            (a >> 24u64) as u8 == (b >> 24u64) as u8,
            (a >> 16u64) as u8 == (b >> 16u64) as u8,
            (a >> 8u64) as u8 == (b >> 8u64) as u8,
            a as u8 == b as u8,
    ;
}

/// A signed payload determines what it was built from: protocol version, nonce,
/// server timestamp and client key, for nonces of the protocol's length.
pub proof fn law_signature_payload_is_injective(
    protocol_version: u16,
    nonce: Seq<u8>,
    server_timestamp: u64,
    client_key: Seq<u8>,
    other_protocol_version: u16,
    other_nonce: Seq<u8>,
    other_server_timestamp: u64,
    other_client_key: Seq<u8>,
)
    requires
        nonce.len() == AUTH_NONCE_BYTES,
        other_nonce.len() == AUTH_NONCE_BYTES,
        signature_payload(protocol_version, nonce, server_timestamp, client_key) == signature_payload(
            other_protocol_version,
            other_nonce,
            other_server_timestamp,
            other_client_key,
        ),
    ensures
        protocol_version == other_protocol_version,
        nonce == other_nonce,
        server_timestamp == other_server_timestamp,
        client_key == other_client_key,
{
    let payload = signature_payload(protocol_version, nonce, server_timestamp, client_key);
    let other = signature_payload(other_protocol_version, other_nonce, other_server_timestamp, other_client_key);
    let start: int = AUTH_DOMAIN_SEPARATOR@.len() as int;
    assert(payload.subrange(start, start + 2) =~= be_u16(protocol_version));
    assert(other.subrange(start, start + 2) =~= be_u16(other_protocol_version));
    assert(payload.subrange(start + 2, start + 34) =~= nonce);
    assert(other.subrange(start + 2, start + 34) =~= other_nonce);
    assert(payload.subrange(start + 34, start + 42) =~= be_u64(server_timestamp));
    assert(other.subrange(start + 34, start + 42) =~= be_u64(other_server_timestamp));
    assert(payload.subrange(start + 42, payload.len() as int) =~= client_key);
    assert(other.subrange(start + 42, other.len() as int) =~= other_client_key);
    lemma_be_u16_injective(protocol_version, other_protocol_version);
    lemma_be_u64_injective(server_timestamp, other_server_timestamp);
}

/// The signed payload's layout, byte by byte: the 13-byte domain separator, the
/// protocol version most significant byte first, the 32-byte nonce as given, the
/// server timestamp most significant byte first, then the client key as given.
pub proof fn law_signature_payload_layout(
    protocol_version: u16,
    nonce: Seq<u8>,
    server_timestamp: u64,
    client_key: Seq<u8>,
)
    requires
        nonce.len() == AUTH_NONCE_BYTES,
    ensures
        ({
            let payload = signature_payload(protocol_version, nonce, server_timestamp, client_key);
            &&& payload.len() == 55 + client_key.len()
            &&& payload.subrange(0, 13) == seq![86u8, 84, 78, 69, 84, 95, 65, 85, 84, 72, 95, 118, 49]
            &&& payload[13] == (protocol_version >> 8u16) as u8
            &&& payload[14] == protocol_version as u8
            &&& payload.subrange(15, 47) == nonce
            &&& payload[47] == (server_timestamp >> 56u64) as u8
            &&& payload[48] == (server_timestamp >> 48u64) as u8
            &&& payload[49] == (server_timestamp >> 40u64) as u8
            &&& payload[50] == (server_timestamp >> 32u64) as u8
            &&& payload[51] == (server_timestamp >> 24u64) as u8
            &&& payload[52] == (server_timestamp >> 16u64) as u8
            &&& payload[53] == (server_timestamp >> 8u64) as u8
            &&& payload[54] == server_timestamp as u8
            &&& payload.subrange(55, payload.len() as int) == client_key
        }),
{
    let payload = signature_payload(protocol_version, nonce, server_timestamp, client_key);
    assert(AUTH_DOMAIN_SEPARATOR@ =~= seq![86u8, 84, 78, 69, 84, 95, 65, 85, 84, 72, 95, 118, 49]);
    assert(payload.subrange(0, 13) =~= AUTH_DOMAIN_SEPARATOR@);
    assert(payload.subrange(15, 47) =~= nonce);
    assert(payload.subrange(55, payload.len() as int) =~= client_key);
    assert(payload.subrange(47, 55) =~= be_u64(server_timestamp));
}

fn push_slice(out: &mut Vec<u8>, bytes: &[u8])
    ensures
        final(out)@ == old(out)@ + bytes@,
{
    let mut i: usize = 0;
    while i < bytes.len()
        invariant
            i <= bytes@.len(),
            out@ == old(out)@ + bytes@.subrange(0, i as int),
        decreases bytes@.len() - i,
    {
        out.push(bytes[i]);
        i = i + 1;
        assert(out@ =~= old(out)@ + bytes@.subrange(0, i as int));
    }
    assert(bytes@.subrange(0, i as int) =~= bytes@);
}

/// Builds the canonical byte sequence signed by the client and verified by the server.
pub fn auth_signature_payload(
    protocol_version: u16,
    nonce: [u8; AUTH_NONCE_BYTES],
    server_timestamp: u64,
    client_uid: UserUid,
) -> (payload: Vec<u8>)
    ensures
        payload@ == signature_payload(protocol_version, nonce@, server_timestamp, client_uid.0@),
{
    let mut payload: Vec<u8> = Vec::new();
    let separator = AUTH_DOMAIN_SEPARATOR;
    push_slice(&mut payload, separator.as_slice());
    payload.push((protocol_version >> 8u16) as u8);
    payload.push(protocol_version as u8);
    push_slice(&mut payload, nonce.as_slice());
    payload.push((server_timestamp >> 56u64) as u8);
    payload.push((server_timestamp >> 48u64) as u8);
    payload.push((server_timestamp >> 40u64) as u8);
    payload.push((server_timestamp >> 32u64) as u8);
    payload.push((server_timestamp >> 24u64) as u8);
    payload.push((server_timestamp >> 16u64) as u8);
    payload.push((server_timestamp >> 8u64) as u8);
    payload.push(server_timestamp as u8);
    push_slice(&mut payload, client_uid.as_bytes().as_slice());
    assert(payload@ =~= signature_payload(protocol_version, nonce@, server_timestamp, client_uid.0@));
    payload
}


/// Validated WebRTC Session Description type.
#[derive(Clone, Copy, Debug, PartialEq, Eq)]
pub enum SdpType {
    Offer,
    Answer,
}

/// Publicly safe reasons for a failed handshake; no internal check details are revealed.
#[derive(Clone, Copy, Debug, PartialEq, Eq)]
pub enum AuthFailureReason {
    InvalidCredentials,
    UnsupportedProtocolVersion,
    RequestExpired,
    RateLimited,
}

/// Why the server refused a voice-room join request.
#[derive(Clone, Copy, Debug, PartialEq, Eq)]
pub enum VoiceRoomJoinFailureReason {
    RoomNotFound,
    NotAVoiceRoom,
    Unavailable,
}

/// Largest accepted RAM-room text message, in UTF-8 bytes (4 KiB).
pub const MAX_TEXT_CONTENT_BYTES: usize = 4096;

/// Characters with the Unicode `White_Space` property, which `char::is_whitespace`
/// and `str::trim` recognise.
pub open spec fn is_unicode_whitespace(c: char) -> bool {
    ||| '\u{9}' <= c <= '\u{d}'
    ||| c == ' '
    ||| c == '\u{85}'
    ||| c == '\u{a0}'
    ||| c == '\u{1680}'
    ||| '\u{2000}' <= c <= '\u{200a}'
    ||| c == '\u{2028}'
    ||| c == '\u{2029}'
    ||| c == '\u{202f}'
    ||| c == '\u{205f}'
    ||| c == '\u{3000}'
}

/// A text is blank when trimming its whitespace leaves nothing.
pub open spec fn is_blank(text: Seq<char>) -> bool {
    forall|i: int| 0 <= i < text.len() ==> is_unicode_whitespace(#[trigger] text[i])
}

/// Number of bytes of the UTF-8 encoding of a text.
pub open spec fn utf8_len(text: Seq<char>) -> nat {
    vstd::utf8::encode_utf8(text).len()
}

fn is_whitespace_char(c: char) -> (b: bool)
    ensures
        b == is_unicode_whitespace(c),
{
    ('\u{9}' <= c && c <= '\u{d}') || c == ' ' || c == '\u{85}' || c == '\u{a0}' || c == '\u{1680}'
        || ('\u{2000}' <= c && c <= '\u{200a}') || c == '\u{2028}' || c == '\u{2029}' || c
        == '\u{202f}' || c == '\u{205f}' || c == '\u{3000}'
}

fn text_is_blank(text: &str) -> (b: bool)
    ensures
        b == is_blank(text@),
{
    broadcast use vstd::string::group_string_axioms;

    let mut blank = true;
    for c in it: text.chars()
        invariant
            it.seq() == text@,
            blank == (forall|j: int| 0 <= j < it.index() ==> is_unicode_whitespace(#[trigger] text@[j])),
    {
        if !is_whitespace_char(c) {
            blank = false;
        }
    }
    blank
}

/// A RAM-room text message that is neither blank nor larger than 4 KiB.
#[derive(Clone, Debug, PartialEq, Eq)]
pub struct RoomTextContent(pub String);

impl RoomTextContent {
    pub fn new(value: String) -> (result: Result<Self, &'static str>)
        ensures
            is_blank(value@) ==> (result matches Err(e) && e@ == "text message must not be empty"@),
            !is_blank(value@) && utf8_len(value@) > MAX_TEXT_CONTENT_BYTES ==> (result matches Err(e)
                && e@ == "text message exceeds 4 KiB"@),
            !is_blank(value@) && utf8_len(value@) <= MAX_TEXT_CONTENT_BYTES ==> result == Ok::<
                Self,
                &'static str,
            >(RoomTextContent(value)),
    {
        if text_is_blank(value.as_str()) {
            let reason = "text message must not be empty";
            proof {
                reveal_strlit("text message must not be empty");
            }
            return Err(reason);
        }
        if value.as_str().as_bytes().len() > MAX_TEXT_CONTENT_BYTES {
            let reason = "text message exceeds 4 KiB";
            proof {
                reveal_strlit("text message exceeds 4 KiB");
            }
            return Err(reason);
        }
        Ok(RoomTextContent(value))
    }
}


/// Identifier of a room (the 128-bit value of its UUID).
pub type RoomId = u128;

/// What a client is allowed to send to the server.
#[derive(Clone, Debug, PartialEq)]
pub enum ClientMessage {
    /// Step 1 of the handshake: protocol version and claimed public key.
    AuthIdentify { protocol_version: u16, client_uid: UserUid },
    /// Step 2 of the handshake: Base64 Ed25519 signature of the canonical payload.
    AuthResponse { signature_base64: String },
    /// Join a voice room (and its bound text chat), leaving any previous one.
    JoinVoiceRoom { room_id: RoomId },
    /// Leave the given voice room.
    LeaveVoiceRoom { room_id: RoomId },
    /// Text for the members of a room; the server adds the sender.
    SendTextMessage { room_id: RoomId, text_content: RoomTextContent },
    /// WebRTC session description for one peer; the server adds the sender.
    SendWebRtcSdp { room_id: RoomId, target_uid: UserUid, sdp_type: SdpType, sdp_raw: String },
    /// WebRTC ICE candidate for one peer.
    SendWebRtcIce { room_id: RoomId, target_uid: UserUid, candidate: serde_json::Value },
}

/// What the server replies, broadcasts or forwards.
#[derive(Clone, Debug, PartialEq)]
pub enum ServerMessage {
    /// Step 1 of the handshake: Base64 nonce and server time.
    AuthChallenge { nonce_base64: String, server_timestamp: u64 },
    /// Step 2 of the handshake: the verified identity and its session details.
    AuthSuccess { verified_uid: UserUid, assigned_name: String, server_name: String },
    /// The handshake failed.
    AuthFailure { reason: AuthFailureReason },
    /// The requesting session entered a voice room.
    VoiceRoomJoined { room_id: RoomId },
    /// The requesting session left a voice room.
    VoiceRoomLeft { room_id: RoomId },
    /// A join request was refused.
    VoiceRoomJoinFailure { room_id: RoomId, reason: VoiceRoomJoinFailureReason },
    /// Broadcast: a peer entered the room.
    PeerJoinedRoom { room_id: RoomId, peer_uid: UserUid, peer_name: String },
    /// Broadcast: a peer left the room or disconnected.
    PeerLeftRoom { room_id: RoomId, peer_uid: UserUid },
    /// Broadcast: a text message with the authenticated sender added by the server.
    BroadcastTextMessage {
        room_id: RoomId,
        sender_uid: UserUid,
        sender_name: String,
        text_content: RoomTextContent,
        server_timestamp: u64,
    },
    /// Forwarded: a session description from the verified sender.
    ForwardWebRtcSdp { room_id: RoomId, sender_uid: UserUid, sdp_type: SdpType, sdp_raw: String },
    /// Forwarded: an ICE candidate from the verified sender.
    ForwardWebRtcIce { room_id: RoomId, sender_uid: UserUid, candidate: serde_json::Value },
}

} // verus!
