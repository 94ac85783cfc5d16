//! Persistent room definitions: RAM voice rooms and persistent E2EE text rooms.
//! Volatile presence is never stored here.

use rusqlite::Connection;
use vstd::prelude::*;

use crate::trusted::{
    random_uuid, sqlite_invalid_text_column, sqlite_no_rows,
    sqlite_query_row_3_text_1_integer, sqlite_query_text, uuid_from_text, uuid_parse_text,
    uuid_to_text,
};
use crate::database::{execute_write, StoreWrite};
use crate::trusted::uuid_hyphenated_text;
use crate::wire::{same_text, RoomId};

verus! {

/// Persistent room categories with separate voice and text-channel behavior.
#[derive(Clone, Copy, Debug, PartialEq, Eq)]
pub enum RoomType {
    RamVoice,
    E2eeText,
}

/// The text that stores a room type in the database.
pub open spec fn room_type_text(room_type: RoomType) -> Seq<char> {
    match room_type {
        RoomType::RamVoice => "ram_voice"@,
        RoomType::E2eeText => "e2ee_text"@,
    }
}

/// The room type stored as `text`, if any.
pub open spec fn room_type_of_text(text: Seq<char>) -> Option<RoomType> {
    if text == "ram_voice"@ {
        Some(RoomType::RamVoice)
    } else if text == "e2ee_text"@ {
        Some(RoomType::E2eeText)
    } else {
        None
    }
}

impl RoomType {
    pub fn as_database_value(self) -> (text: &'static str)
        ensures
            text@ == room_type_text(self),
    {
        match self {
            RoomType::RamVoice => "ram_voice",
            RoomType::E2eeText => "e2ee_text",
        }
    }

    pub fn from_database_value(value: &str) -> (room_type: Option<Self>)
        ensures
            room_type == room_type_of_text(value@),
    {
        if same_text(value, "ram_voice") {
            Some(RoomType::RamVoice)
        } else if same_text(value, "e2ee_text") {
            Some(RoomType::E2eeText)
        } else {
            None
        }
    }
}

/// Every room type reads back from its stored text.
pub proof fn law_room_type_text_round_trip(room_type: RoomType)
    ensures
        room_type_of_text(room_type_text(room_type)) == Some(room_type),
{
    reveal_strlit("ram_voice");
    reveal_strlit("e2ee_text");
    assert("ram_voice"@ != "e2ee_text"@) by {
        assert("ram_voice"@[0] != "e2ee_text"@[0]);
    }
}

/// A persistent room.
#[derive(Debug, PartialEq, Eq)]
pub struct RoomDefinition {
    pub room_id: RoomId,
    pub name: String,
    pub room_type: RoomType,
    pub sort_order: i64,
}

impl Clone for RoomDefinition {
    fn clone(&self) -> (copy: Self)
        ensures
            copy.room_id == self.room_id,
            copy.name@ == self.name@,
            copy.room_type == self.room_type,
            copy.sort_order == self.sort_order,
    {
        RoomDefinition {
            room_id: self.room_id,
            name: self.name.clone(),
            room_type: self.room_type,
            sort_order: self.sort_order,
        }
    }
}

/// The definition described by a stored row, when its identifier is a UUID and its
/// type a known room type.
pub open spec fn definition_from_row(
    definition: Option<RoomDefinition>,
    room_id: Seq<char>,
    name: String,
    room_type: Seq<char>,
    sort_order: i64,
) -> bool {
    match (uuid_parse_text(room_id), room_type_of_text(room_type)) {
        (Some(id), Some(kind)) => definition == Some(
            RoomDefinition { room_id: id, name, room_type: kind, sort_order },
        ),
        _ => definition is None,
    }
}

impl RoomDefinition {
    /// Reads a definition from the columns of a `rooms` row.
    pub fn from_row(room_id: String, name: String, room_type: String, sort_order: i64) -> (definition:
        Option<RoomDefinition>)
        ensures
            definition_from_row(definition, room_id@, name, room_type@, sort_order),
    {
        let id = match uuid_from_text(room_id.as_str()) {
            Some(id) => id,
            None => return None,
        };
        let kind = match RoomType::from_database_value(room_type.as_str()) {
            Some(kind) => kind,
            None => return None,
        };
        Some(RoomDefinition { room_id: id, name, room_type: kind, sort_order })
    }
}

/// Why a stored row does not describe a room.
#[derive(Clone, Copy, Debug, PartialEq, Eq)]
pub enum StoredRoomProblem {
    InvalidRoomId,
    InvalidRoomType,
    /// The row read under a room's key describes another room.
    UnexpectedRoomId,
}

/// What a `rooms` row (or its absence) reads as: a definition, nothing, or the
/// first column that does not hold a valid value.
pub open spec fn stored_room_outcome(
    row: Option<(String, String, String, i64)>,
    result: Result<Option<RoomDefinition>, StoredRoomProblem>,
) -> bool {
    match row {
        None => result == Ok::<Option<RoomDefinition>, StoredRoomProblem>(None),
        Some((room_id, name, room_type, sort_order)) => if uuid_parse_text(room_id@) is None {
            result == Err::<Option<RoomDefinition>, StoredRoomProblem>(StoredRoomProblem::InvalidRoomId)
        } else if room_type_of_text(room_type@) is None {
            result == Err::<Option<RoomDefinition>, StoredRoomProblem>(StoredRoomProblem::InvalidRoomType)
        } else {
            result matches Ok(Some(definition)) && definition_from_row(
                Some(definition),
                room_id@,
                name,
                room_type@,
                sort_order,
            )
        },
    }
}

/// What the row read under the key of `room_id` reads as: as `stored_room_outcome`
/// says, except that a row describing another room is an error.
pub open spec fn keyed_room_outcome(
    room_id: RoomId,
    row: Option<(String, String, String, i64)>,
    result: Result<Option<RoomDefinition>, StoredRoomProblem>,
) -> bool {
    if row matches Some(found) && uuid_parse_text(found.0@) matches Some(id) && id != room_id
        && room_type_of_text(found.2@) is Some {
        result == Err::<Option<RoomDefinition>, StoredRoomProblem>(StoredRoomProblem::UnexpectedRoomId)
    } else {
        stored_room_outcome(row, result)
    }
}

/// Reads the result of a room query made with the key of `room_id`.
pub fn read_room_row_for(room_id: RoomId, row: Option<(String, String, String, i64)>) -> (room: Result<
    Option<RoomDefinition>,
    StoredRoomProblem,
>)
    ensures
        keyed_room_outcome(room_id, row, room),
{
    let ghost stored = row;
    match read_room_row(row) {
        Ok(Some(definition)) => if definition.room_id == room_id {
            Ok(Some(definition))
        } else {
            Err(StoredRoomProblem::UnexpectedRoomId)
        },
        other => other,
    }
}

/// Reads the result of a room query.
pub fn read_room_row(row: Option<(String, String, String, i64)>) -> (room: Result<
    Option<RoomDefinition>,
    StoredRoomProblem,
>)
    ensures
        stored_room_outcome(row, room),
{
    match row {
        None => Ok(None),
        Some((room_id, name, room_type, sort_order)) => {
            if uuid_from_text(room_id.as_str()).is_none() {
                return Err(StoredRoomProblem::InvalidRoomId);
            }
            if RoomType::from_database_value(room_type.as_str()).is_none() {
                return Err(StoredRoomProblem::InvalidRoomType);
            }
            match RoomDefinition::from_row(room_id, name, room_type, sort_order) {
                Some(definition) => Ok(Some(definition)),
                None => Err(StoredRoomProblem::InvalidRoomType),
            }
        },
    }
}

/// Result of validating a room ID for a voice-room join request.
#[derive(Clone, Copy, Debug, PartialEq, Eq)]
pub enum VoiceRoomLookup {
    Found,
    NotFound,
    NotVoiceRoom,
}

/// How a join request fares against the stored definition of its room.
pub open spec fn lookup_of(room: Option<RoomDefinition>) -> VoiceRoomLookup {
    match room {
        Some(definition) => if definition.room_type == RoomType::RamVoice {
            VoiceRoomLookup::Found
        } else {
            VoiceRoomLookup::NotVoiceRoom
        },
        None => VoiceRoomLookup::NotFound,
    }
}

impl VoiceRoomLookup {
    /// Only an existing `ram_voice` room can be joined as a voice room.
    pub fn of(room: &Option<RoomDefinition>) -> (lookup: Self)
        ensures
            lookup == lookup_of(*room),
    {
        match room {
            Some(definition) => match definition.room_type {
                RoomType::RamVoice => VoiceRoomLookup::Found,
                RoomType::E2eeText => VoiceRoomLookup::NotVoiceRoom,
            },
            None => VoiceRoomLookup::NotFound,
        }
    }
}

/// Inserts a room definition.
pub const INSERT_ROOM: &'static str =
    "INSERT INTO rooms (room_id, name, room_type, sort_order) VALUES (?1, ?2, ?3, ?4)";

/// Reads a room definition by identifier.
pub const SELECT_ROOM: &'static str =
    "SELECT room_id, name, room_type, sort_order FROM rooms WHERE room_id = ?1";

/// Finds the oldest RAM voice room with a given name.
pub const SELECT_RAM_VOICE_ROOM_BY_NAME: &'static str =
    "SELECT room_id FROM rooms WHERE name = ?1 AND room_type = 'ram_voice' ORDER BY created_at LIMIT 1";

/// The column values that store a room: its identifier as hyphenated UUID text, its
/// name, the text of its type and its sort order. The row reads back as that room.
pub fn room_row(room_id: RoomId, name: &str, room_type: RoomType, sort_order: i64) -> (row: (
    String,
    String,
    String,
    i64,
))
    ensures
        row.0@ == uuid_hyphenated_text(room_id),
        row.1@ == name@,
        row.2@ == room_type_text(room_type),
        row.3 == sort_order,
        stored_room_outcome(
            Some(row),
            Ok(Some((RoomDefinition { room_id, name: row.1, room_type, sort_order }))),
        ),
{
    let id_text = uuid_to_text(room_id);
    let type_text = String::from_str(room_type.as_database_value());
    proof {
        law_room_type_text_round_trip(room_type);
    }
    (id_text, String::from_str(name), type_text, sort_order)
}

/// The identifier of the initial voice room, given the identifier text stored for
/// a RAM voice room of its name: `Ok(None)` where none is stored and a new room is
/// to be created.
pub open spec fn initial_room_id_of(stored_room_id: Option<String>) -> Result<Option<RoomId>, StoredRoomProblem> {
    match stored_room_id {
        None => Ok(None),
        Some(text) => match uuid_parse_text(text@) {
            Some(room_id) => Ok(Some(room_id)),
            None => Err(StoredRoomProblem::InvalidRoomId),
        },
    }
}

/// Reads the identifier stored for the initial voice room, if one is stored.
pub fn initial_room_id(stored_room_id: Option<String>) -> (room_id: Result<Option<RoomId>, StoredRoomProblem>)
    ensures
        room_id == initial_room_id_of(stored_room_id),
{
    match stored_room_id {
        None => Ok(None),
        Some(text) => match uuid_from_text(text.as_str()) {
            Some(room_id) => Ok(Some(room_id)),
            None => Err(StoredRoomProblem::InvalidRoomId),
        },
    }
}

/// `definition` is the initial voice room of that name: a RAM voice room named `name`.
pub open spec fn is_initial_room(definition: RoomDefinition, name: Seq<char>) -> bool {
    definition.name@ == name && definition.room_type == RoomType::RamVoice
}

/// The initial voice room, from the room read under its identifier: `None` where no
/// room was read or the room read is not a RAM voice room of that name.
pub fn initial_room_from(found: Option<RoomDefinition>, name: &str) -> (room: Option<RoomDefinition>)
    ensures
        room == (if found matches Some(definition) && is_initial_room(definition, name@) {
            found
        } else {
            None
        }),
{
    match found {
        Some(definition) => if same_text(definition.name.as_str(), name) && (match definition.room_type {
            RoomType::RamVoice => true,
            RoomType::E2eeText => false,
        }) {
            Some(definition)
        } else {
            None
        },
        None => None,
    }
}

/// Reads and writes persistent room definitions without holding volatile presence data.
pub struct RoomRepository<'connection> {
    connection: &'connection Connection,
}

impl<'connection> RoomRepository<'connection> {
    pub closed spec fn spec_connection(&self) -> Connection {
        *self.connection
    }

    pub fn new(connection: &'connection Connection) -> (repository: Self)
        ensures
            repository.spec_connection() == *connection,
    {
        RoomRepository { connection }
    }

    /// Stores a new room; its identifier is kept as hyphenated UUID text and its
    /// type as `ram_voice` or `e2ee_text`.
    pub fn create(&self, room_id: RoomId, name: &str, room_type: RoomType, sort_order: i64) -> Result<
        (),
        rusqlite::Error,
    > {
        execute_write(self.connection, &StoreWrite::room(room_id, name, room_type, sort_order))
    }

    /// Reads the stored definition of a room. A stored row that does not describe
    /// a room (identifier not a UUID, unknown type) is reported as an error.
    pub fn find(&self, room_id: RoomId) -> (room: Result<Option<RoomDefinition>, rusqlite::Error>)
        ensures
            room matches Ok(Some(definition)) ==> definition.room_id == room_id,
    {
        let id_text = uuid_to_text(room_id);
        let row = match sqlite_query_row_3_text_1_integer(self.connection, SELECT_ROOM, id_text.as_str()) {
            Ok(row) => row,
            Err(error) => return Err(error),
        };
        match read_room_row_for(room_id, row) {
            Ok(found) => Ok(found),
            Err(StoredRoomProblem::InvalidRoomId) => Err(sqlite_invalid_text_column(0, "room_id")),
            Err(StoredRoomProblem::InvalidRoomType) => Err(sqlite_invalid_text_column(2, "room_type")),
            Err(StoredRoomProblem::UnexpectedRoomId) => Err(sqlite_invalid_text_column(0, "room_id")),
        }
    }

    /// Classifies a room ID for a voice-room join: an existing `ram_voice` room, a
    /// room of another type, or no room (`VoiceRoomLookup::of` of what `find` reads).
    /// Which of them comes back is what the database holds.
    pub fn validate_voice_room(&self, room_id: RoomId) -> Result<VoiceRoomLookup, rusqlite::Error> {
        match self.find(room_id) {
            Ok(room) => Ok(VoiceRoomLookup::of(&room)),
            Err(error) => Err(error),
        }
    }

    /// Creates the configured initial RAM voice room once and returns its stable ID
    /// on later starts. A room read back that is not a RAM voice room of that name
    /// is reported as `QueryReturnedNoRows`.
    pub fn ensure_initial_ram_voice_room(&self, name: &str) -> (room: Result<RoomDefinition, rusqlite::Error>)
        ensures
            room matches Ok(definition) ==> is_initial_room(definition, name@),
    {
        let existing_room_id = match sqlite_query_text(self.connection, SELECT_RAM_VOICE_ROOM_BY_NAME, name) {
            Ok(existing) => existing,
            Err(error) => return Err(error),
        };
        let room_id = match initial_room_id(existing_room_id) {
            Ok(Some(room_id)) => room_id,
            Err(_) => return Err(sqlite_invalid_text_column(0, "room_id")),
            Ok(None) => {
                let room_id = random_uuid();
                match self.create(room_id, name, RoomType::RamVoice, 0) {
                    Ok(()) => {},
                    Err(error) => return Err(error),
                }
                room_id
            },
        };
        match self.find(room_id) {
            Ok(found) => match initial_room_from(found, name) {
                Some(room) => Ok(room),
                None => Err(sqlite_no_rows()),
            },
            Err(error) => Err(error),
        }
    }
}

} // verus!
