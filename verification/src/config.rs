//! Startup settings, resolved from optional configuration values with safe
//! local defaults.

use vstd::prelude::*;

use crate::base64_text::{base64_standard_decode};
use crate::trusted::{base64_decode};
use crate::wire::{bytes32_from_vec, UserUid};

verus! {

pub const DEFAULT_BIND_ADDRESS: &'static str = "127.0.0.1:3000";

pub const DEFAULT_DATABASE_PATH: &'static str = "vtnet.sqlite3";

pub const DEFAULT_SERVER_NAME: &'static str = "VTNet Server";

pub const DEFAULT_ADMIN_NAME: &'static str = "Administrator";

/// Startup settings of the server.
pub struct ServerConfig {
    pub bind_address: String,
    pub database_path: String,
    pub server_name: String,
    pub initial_administrator: Option<InitialAdministrator>,
    pub initial_ram_voice_room_name: Option<String>,
}

/// The identity seeded as administrator on first start.
pub struct InitialAdministrator {
    pub user_uid: UserUid,
    pub display_name: String,
}

/// A configured text, or the default when it is absent.
pub open spec fn value_or(value: Option<String>, default: Seq<char>) -> Seq<char> {
    match value {
        Some(text) => text@,
        None => default,
    }
}

/// A configured text that is present and not empty.
pub open spec fn non_empty(value: Option<String>) -> bool {
    value matches Some(text) && text@.len() > 0
}

/// The outcome of decoding the configured administrator identity.
pub open spec fn admin_uid_outcome(encoded: Seq<char>, result: Result<UserUid, String>) -> bool {
    match base64_standard_decode(encoded) {
        None => result matches Err(message) && message@
            == "VTNET_INITIAL_ADMIN_UID must be valid Base64"@,
        Some(bytes) => if bytes.len() == 32 {
            result matches Ok(uid) && uid.0@ == bytes
        } else {
            result matches Err(message) && message@
                == "VTNET_INITIAL_ADMIN_UID must decode to exactly 32 bytes"@
        },
    }
}

/// The configured administrator identity is Base64 of exactly 32 bytes.
pub open spec fn admin_uid_decodes(encoded: Seq<char>) -> bool {
    base64_standard_decode(encoded) matches Some(bytes) && bytes.len() == 32
}

/// Decodes the Base64 identity of the initial administrator.
pub fn decode_user_uid(encoded_uid: &str) -> (result: Result<UserUid, String>)
    ensures
        admin_uid_outcome(encoded_uid@, result),
{
    let bytes = match base64_decode(encoded_uid) {
        Some(bytes) => bytes,
        None => {
            let message = String::from_str("VTNET_INITIAL_ADMIN_UID must be valid Base64");
            proof {
                reveal_strlit("VTNET_INITIAL_ADMIN_UID must be valid Base64");
            }
            return Err(message);
        },
    };
    match bytes32_from_vec(&bytes) {
        Some(array) => Ok(UserUid::from_bytes(array)),
        None => {
            let message = String::from_str("VTNET_INITIAL_ADMIN_UID must decode to exactly 32 bytes");
            proof {
                reveal_strlit("VTNET_INITIAL_ADMIN_UID must decode to exactly 32 bytes");
            }
            Err(message)
        },
    }
}

fn text_or_default(value: Option<String>, default: &str) -> (text: String)
    ensures
        text@ == value_or(value, default@),
{
    match value {
        Some(text) => text,
        None => String::from_str(default),
    }
}

fn present_and_non_empty(value: Option<String>) -> (kept: Option<String>)
    ensures
        kept is Some <==> non_empty(value),
        kept matches Some(text) ==> value == Some(text),
{
    match value {
        Some(text) => if text.as_str().is_empty() {
            None
        } else {
            Some(text)
        },
        None => None,
    }
}

impl ServerConfig {
    /// Resolves the settings. An administrator is configured only by a non-empty
    /// identity, whose display name defaults when absent or empty; an empty initial
    /// room name counts as absent. A malformed administrator identity is an error.
    pub fn from_values(
        bind_address: Option<String>,
        database_path: Option<String>,
        server_name: Option<String>,
        administrator_uid: Option<String>,
        administrator_name: Option<String>,
        initial_ram_voice_room_name: Option<String>,
    ) -> (result: Result<Self, String>)
        ensures
            result matches Err(message) ==> non_empty(administrator_uid) && admin_uid_outcome(
                administrator_uid->Some_0@,
                Err(message),
            ),
            !non_empty(administrator_uid) || admin_uid_decodes(administrator_uid->Some_0@)
                ==> result is Ok,
            result matches Ok(config) ==> {
                &&& config.bind_address@ == value_or(bind_address, DEFAULT_BIND_ADDRESS@)
                &&& config.database_path@ == value_or(database_path, DEFAULT_DATABASE_PATH@)
                &&& config.server_name@ == value_or(server_name, DEFAULT_SERVER_NAME@)
                &&& if non_empty(administrator_uid) {
                    &&& config.initial_administrator matches Some(administrator)
                    &&& admin_uid_outcome(
                        administrator_uid->Some_0@,
                        Ok(administrator.user_uid),
                    )
                    &&& administrator.display_name@ == if non_empty(administrator_name) {
                        administrator_name->Some_0@
                    } else {
                        DEFAULT_ADMIN_NAME@
                    }
                } else {
                    config.initial_administrator is None
                }
                &&& if non_empty(initial_ram_voice_room_name) {
                    config.initial_ram_voice_room_name == initial_ram_voice_room_name
                } else {
                    config.initial_ram_voice_room_name is None
                }
            },
    {
        let initial_administrator = match present_and_non_empty(administrator_uid) {
            Some(encoded_uid) => {
                let user_uid = match decode_user_uid(encoded_uid.as_str()) {
                    Ok(user_uid) => user_uid,
                    Err(message) => return Err(message),
                };
                let display_name = match present_and_non_empty(administrator_name) {
                    Some(name) => name,
                    None => String::from_str(DEFAULT_ADMIN_NAME),
                };
                Some(InitialAdministrator { user_uid, display_name })
            },
            None => None,
        };
        Ok(
            ServerConfig {
                bind_address: text_or_default(bind_address, DEFAULT_BIND_ADDRESS),
                database_path: text_or_default(database_path, DEFAULT_DATABASE_PATH),
                server_name: text_or_default(server_name, DEFAULT_SERVER_NAME),
                initial_administrator,
                initial_ram_voice_room_name: present_and_non_empty(initial_ram_voice_room_name),
            },
        )
    }
}

} // verus!
