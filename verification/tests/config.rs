use std::path::PathBuf;

use base64::engine::general_purpose::STANDARD;
use base64::Engine;
use vtnet::config::{
    decode_user_uid, ServerConfig, DEFAULT_ADMIN_NAME, DEFAULT_BIND_ADDRESS, DEFAULT_DATABASE_PATH,
    DEFAULT_SERVER_NAME,
};
use vtnet::wire::UserUid;

#[test]
fn defaults_keep_the_server_local_without_an_administrator() {
    let config = ServerConfig::from_values(None, None, None, None, None, None).unwrap();

    assert_eq!(config.bind_address, DEFAULT_BIND_ADDRESS);
    assert_eq!(PathBuf::from(&config.database_path), PathBuf::from(DEFAULT_DATABASE_PATH));
    assert!(config.initial_administrator.is_none());
    assert!(config.initial_ram_voice_room_name.is_none());
}

#[test]
fn configured_administrator_uses_the_given_identity_and_name() {
    let encoded_uid = STANDARD.encode([1; 32]);
    let config = ServerConfig::from_values(
        None,
        None,
        None,
        Some(encoded_uid),
        Some("Ada".to_owned()),
        None,
    )
    .unwrap();
    let administrator = config.initial_administrator.unwrap();

    assert_eq!(administrator.user_uid, UserUid::from_bytes([1; 32]));
    assert_eq!(administrator.display_name, "Ada");
}

#[test]
fn configured_initial_voice_room_name_is_preserved() {
    let config = ServerConfig::from_values(
        None,
        None,
        None,
        None,
        None,
        Some("General".to_owned()),
    )
    .unwrap();

    assert_eq!(config.initial_ram_voice_room_name.as_deref(), Some("General"));
}

#[test]
fn default_values_are_the_local_development_settings() {
    let config = ServerConfig::from_values(None, None, None, None, None, None).unwrap();

    assert_eq!(config.bind_address, "127.0.0.1:3000");
    assert_eq!(config.database_path, "vtnet.sqlite3");
    assert_eq!(config.server_name, DEFAULT_SERVER_NAME);
    assert_eq!(config.server_name, "VTNet Server");
}

#[test]
fn configured_values_override_the_defaults() {
    let config = ServerConfig::from_values(
        Some("0.0.0.0:4000".to_owned()),
        Some("/tmp/other.sqlite3".to_owned()),
        Some("Hub".to_owned()),
        None,
        None,
        None,
    )
    .unwrap();

    assert_eq!(config.bind_address, "0.0.0.0:4000");
    assert_eq!(config.database_path, "/tmp/other.sqlite3");
    assert_eq!(config.server_name, "Hub");
}

#[test]
fn empty_administrator_identity_and_room_name_count_as_absent() {
    let config = ServerConfig::from_values(
        None,
        None,
        None,
        Some(String::new()),
        Some("Ada".to_owned()),
        Some(String::new()),
    )
    .unwrap();

    assert!(config.initial_administrator.is_none());
    assert!(config.initial_ram_voice_room_name.is_none());
}

#[test]
fn administrator_name_defaults_when_absent_or_empty() {
    let encoded_uid = STANDARD.encode([2; 32]);
    for name in [None, Some(String::new())] {
        let config =
            ServerConfig::from_values(None, None, None, Some(encoded_uid.clone()), name, None).unwrap();

        assert_eq!(config.initial_administrator.unwrap().display_name, DEFAULT_ADMIN_NAME);
    }
}

#[test]
fn malformed_administrator_identity_is_an_error() {
    let not_base64 = ServerConfig::from_values(None, None, None, Some("%%".to_owned()), None, None);
    let too_short =
        ServerConfig::from_values(None, None, None, Some(STANDARD.encode([1; 16])), None, None);

    assert_eq!(not_base64.err(), Some("VTNET_INITIAL_ADMIN_UID must be valid Base64".to_owned()));
    assert_eq!(
        too_short.err(),
        Some("VTNET_INITIAL_ADMIN_UID must decode to exactly 32 bytes".to_owned())
    );
}

#[test]
fn administrator_identity_decodes_from_base64() {
    assert_eq!(decode_user_uid(&STANDARD.encode([9; 32])), Ok(UserUid([9; 32])));
}
