use base64::engine::general_purpose::STANDARD;
use base64::Engine;
use vtnet::wire::{
    auth_signature_payload, same_text, same_uid, RoomTextContent, UserUid, UserUidDecodeError,
    AUTH_DOMAIN_SEPARATOR, AUTH_NONCE_BYTES, MAX_TEXT_CONTENT_BYTES,
};

#[test]
fn user_uid_serializes_as_base64_string_and_round_trips() {
    let user_uid = UserUid([42; 32]);

    let json = format!("\"{}\"", user_uid.to_base64());
    let deserialized = UserUid::from_base64(&user_uid.to_base64()).unwrap();

    assert_eq!(json, format!("\"{}\"", STANDARD.encode([42; 32])));
    assert_eq!(deserialized, user_uid);
}

#[test]
fn user_uid_rejects_invalid_base64() {
    let result = UserUid::from_base64("not valid base64!");

    assert!(result.is_err());
}

#[test]
fn user_uid_rejects_invalid_byte_length() {
    let encoded = STANDARD.encode([0; 31]);
    let result = UserUid::from_base64(&encoded);

    assert!(result.is_err());
}

#[test]
fn room_text_content_deserializes_valid_text() {
    let text_content = RoomTextContent::new("Hello, VTNet!".to_owned()).unwrap();

    assert_eq!(text_content, RoomTextContent("Hello, VTNet!".to_owned()));
}

#[test]
fn room_text_content_rejects_whitespace_only_text() {
    let result = RoomTextContent::new("   \n\t".to_owned());

    assert!(result.is_err());
}

#[test]
fn room_text_content_rejects_text_larger_than_four_kib() {
    let oversized_text = "a".repeat(MAX_TEXT_CONTENT_BYTES + 1);
    let result = RoomTextContent::new(oversized_text);

    assert!(result.is_err());
}

#[test]
fn auth_signature_payload_has_canonical_binary_layout() {
    let nonce = [0xAA; AUTH_NONCE_BYTES];
    let user_uid = UserUid([0xBB; 32]);
    let payload = auth_signature_payload(0x0102, nonce, 0x0102_0304_0506_0708, user_uid);

    let mut expected = AUTH_DOMAIN_SEPARATOR.to_vec();
    expected.extend_from_slice(&[0x01, 0x02]);
    expected.extend_from_slice(&nonce);
    expected.extend_from_slice(&[0x01, 0x02, 0x03, 0x04, 0x05, 0x06, 0x07, 0x08]);
    expected.extend_from_slice(&user_uid.0);

    assert_eq!(payload, expected);
}

#[test]
fn auth_domain_separator_spells_the_protocol_tag() {
    assert_eq!(&AUTH_DOMAIN_SEPARATOR[..], b"VTNET_AUTH_v1");
}

#[test]
fn auth_signature_payload_has_fixed_length() {
    let payload = auth_signature_payload(1, [0; AUTH_NONCE_BYTES], 0, UserUid([0; 32]));

    assert_eq!(payload.len(), 13 + 2 + 32 + 8 + 32);
}

#[test]
fn room_text_content_accepts_exactly_four_kib() {
    let text = "a".repeat(MAX_TEXT_CONTENT_BYTES);

    assert_eq!(RoomTextContent::new(text.clone()), Ok(RoomTextContent(text)));
}

#[test]
fn room_text_content_counts_utf8_bytes() {
    // 1366 three-byte characters make 4098 bytes, above the limit.
    let text = "\u{20ac}".repeat(1366);

    assert_eq!(RoomTextContent::new(text), Err("text message exceeds 4 KiB"));
}

#[test]
fn room_text_content_reports_blank_text() {
    assert_eq!(RoomTextContent::new(String::new()), Err("text message must not be empty"));
    assert_eq!(RoomTextContent::new("\u{3000}\u{a0}".to_owned()), Err("text message must not be empty"));
}

#[test]
fn room_text_content_keeps_surrounding_whitespace() {
    let text = "  hi  ".to_owned();

    assert_eq!(RoomTextContent::new(text.clone()), Ok(RoomTextContent(text)));
}

#[test]
fn user_uid_decoding_distinguishes_its_errors() {
    assert_eq!(UserUid::from_base64("###"), Err(UserUidDecodeError::InvalidBase64));
    assert_eq!(
        UserUid::from_base64(&STANDARD.encode([1; 33])),
        Err(UserUidDecodeError::InvalidLength)
    );
}

#[test]
fn user_uid_round_trips_every_byte_value() {
    let mut bytes = [0u8; 32];
    for (index, byte) in bytes.iter_mut().enumerate() {
        *byte = (index * 8) as u8;
    }
    let user_uid = UserUid::from_bytes(bytes);

    assert_eq!(user_uid.as_bytes(), &bytes);
    assert_eq!(UserUid::from_base64(&user_uid.to_base64()), Ok(user_uid));
}

#[test]
fn identities_and_texts_compare_by_content() {
    assert!(same_uid(&UserUid([3; 32]), &UserUid([3; 32])));
    let mut other = [3; 32];
    other[31] = 4;
    assert!(!same_uid(&UserUid([3; 32]), &UserUid(other)));
    assert!(same_text("ram_voice", "ram_voice"));
    assert!(!same_text("ram_voice", "ram_voic"));
}

#[test]
fn identity_text_is_padded_standard_base64() {
    let user_uid = UserUid([1; 32]);
    let text = user_uid.to_base64();
    assert_eq!(text.len(), 44);
    assert_eq!(text, "AQEBAQEBAQEBAQEBAQEBAQEBAQEBAQEBAQEBAQEBAQE=");
    assert_eq!(UserUid([0xfb; 32]).to_base64(), STANDARD.encode([0xfb; 32]));
}
