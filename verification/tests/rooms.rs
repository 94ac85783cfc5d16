use uuid::Uuid;
use vtnet::database::Database;
use vtnet::rooms::{initial_room_id, read_room_row, room_row, RoomDefinition, RoomRepository, RoomType, StoredRoomProblem, VoiceRoomLookup};

fn new_room_id() -> u128 {
    Uuid::new_v4().as_u128()
}

#[test]
fn repository_reads_existing_room_definitions() {
    let database = Database::open_in_memory().unwrap();
    database.initialize_schema().unwrap();
    let repository = RoomRepository::new(database.connection());
    let room_id = new_room_id();

    repository
        .create(room_id, "General", RoomType::RamVoice, 10)
        .unwrap();

    assert_eq!(
        repository.find(room_id).unwrap(),
        Some(RoomDefinition {
            room_id,
            name: "General".to_owned(),
            room_type: RoomType::RamVoice,
            sort_order: 10,
        })
    );
}

#[test]
fn repository_preserves_e2ee_text_as_a_non_voice_room_type() {
    let database = Database::open_in_memory().unwrap();
    database.initialize_schema().unwrap();
    let repository = RoomRepository::new(database.connection());
    let room_id = new_room_id();

    repository
        .create(room_id, "Staff chat", RoomType::E2eeText, 20)
        .unwrap();

    assert_eq!(repository.find(room_id).unwrap().unwrap().room_type, RoomType::E2eeText);
}

#[test]
fn repository_returns_none_for_an_unknown_room() {
    let database = Database::open_in_memory().unwrap();
    database.initialize_schema().unwrap();
    let repository = RoomRepository::new(database.connection());

    assert_eq!(repository.find(new_room_id()).unwrap(), None);
}

#[test]
fn voice_room_validation_rejects_unknown_and_e2ee_text_rooms() {
    let database = Database::open_in_memory().unwrap();
    database.initialize_schema().unwrap();
    let repository = RoomRepository::new(database.connection());
    let voice_room_id = new_room_id();
    let text_room_id = new_room_id();
    repository
        .create(voice_room_id, "General", RoomType::RamVoice, 0)
        .unwrap();
    repository
        .create(text_room_id, "Staff", RoomType::E2eeText, 1)
        .unwrap();

    assert_eq!(repository.validate_voice_room(voice_room_id).unwrap(), VoiceRoomLookup::Found);
    assert_eq!(repository.validate_voice_room(text_room_id).unwrap(), VoiceRoomLookup::NotVoiceRoom);
    assert_eq!(repository.validate_voice_room(new_room_id()).unwrap(), VoiceRoomLookup::NotFound);
}

#[test]
fn initial_ram_voice_room_seed_is_idempotent() {
    let database = Database::open_in_memory().unwrap();
    database.initialize_schema().unwrap();
    let repository = RoomRepository::new(database.connection());

    let first_room = repository.ensure_initial_ram_voice_room("General").unwrap();
    let second_room = repository.ensure_initial_ram_voice_room("General").unwrap();

    assert_eq!(first_room, second_room);
    assert_eq!(first_room.room_type, RoomType::RamVoice);
}

#[test]
fn room_types_round_trip_through_their_database_text() {
    assert_eq!(RoomType::RamVoice.as_database_value(), "ram_voice");
    assert_eq!(RoomType::E2eeText.as_database_value(), "e2ee_text");
    for room_type in [RoomType::RamVoice, RoomType::E2eeText] {
        assert_eq!(RoomType::from_database_value(room_type.as_database_value()), Some(room_type));
    }
    assert_eq!(RoomType::from_database_value("voice"), None);
}

#[test]
fn rows_are_read_only_with_a_uuid_and_a_known_type() {
    let id = Uuid::new_v4();
    let valid = RoomDefinition::from_row(id.to_string(), "A".to_owned(), "ram_voice".to_owned(), 3);
    let bad_id = RoomDefinition::from_row("no-uuid".to_owned(), "A".to_owned(), "ram_voice".to_owned(), 3);
    let bad_type = RoomDefinition::from_row(id.to_string(), "A".to_owned(), "video".to_owned(), 3);

    assert_eq!(
        valid,
        Some(RoomDefinition {
            room_id: id.as_u128(),
            name: "A".to_owned(),
            room_type: RoomType::RamVoice,
            sort_order: 3,
        })
    );
    assert_eq!(bad_id, None);
    assert_eq!(bad_type, None);
}

#[test]
fn lookup_classifies_room_definitions() {
    let voice = RoomDefinition {
        room_id: 1,
        name: "V".to_owned(),
        room_type: RoomType::RamVoice,
        sort_order: 0,
    };
    let text = RoomDefinition { room_type: RoomType::E2eeText, ..voice.clone() };

    assert_eq!(VoiceRoomLookup::of(&Some(voice)), VoiceRoomLookup::Found);
    assert_eq!(VoiceRoomLookup::of(&Some(text)), VoiceRoomLookup::NotVoiceRoom);
    assert_eq!(VoiceRoomLookup::of(&None), VoiceRoomLookup::NotFound);
}

#[test]
fn stored_rooms_are_keyed_by_hyphenated_uuid_text() {
    let database = Database::open_in_memory().unwrap();
    database.initialize_schema().unwrap();
    let repository = RoomRepository::new(database.connection());
    let room_id = new_room_id();
    repository.create(room_id, "General", RoomType::RamVoice, 0).unwrap();

    let stored: String = database
        .connection()
        .query_row("SELECT room_id FROM rooms", [], |row| row.get(0))
        .unwrap();

    assert_eq!(stored, Uuid::from_u128(room_id).to_string());
}

#[test]
fn a_corrupt_room_row_is_reported_as_an_error() {
    let database = Database::open_in_memory().unwrap();
    database
        .connection()
        .execute_batch(
            "CREATE TABLE rooms (room_id TEXT PRIMARY KEY, name TEXT NOT NULL, room_type TEXT NOT NULL,
             sort_order INTEGER NOT NULL DEFAULT 0, created_at DATETIME NOT NULL DEFAULT CURRENT_TIMESTAMP);",
        )
        .unwrap();
    let room_id = new_room_id();
    database
        .connection()
        .execute(
            "INSERT INTO rooms (room_id, name, room_type) VALUES (?1, 'X', 'video')",
            (Uuid::from_u128(room_id).to_string(),),
        )
        .unwrap();
    let repository = RoomRepository::new(database.connection());

    assert!(repository.find(room_id).is_err());
}

#[test]
fn query_rows_read_as_definitions_or_problems() {
    let id = Uuid::new_v4();

    assert_eq!(read_room_row(None), Ok(None));
    assert_eq!(
        read_room_row(Some(("nope".to_owned(), "A".to_owned(), "video".to_owned(), 0))),
        Err(StoredRoomProblem::InvalidRoomId)
    );
    assert_eq!(
        read_room_row(Some((id.to_string(), "A".to_owned(), "video".to_owned(), 0))),
        Err(StoredRoomProblem::InvalidRoomType)
    );
    assert_eq!(
        read_room_row(Some((id.to_string(), "A".to_owned(), "e2ee_text".to_owned(), -4))),
        Ok(Some(RoomDefinition {
            room_id: id.as_u128(),
            name: "A".to_owned(),
            room_type: RoomType::E2eeText,
            sort_order: -4,
        }))
    );
}

#[test]
fn the_initial_room_id_is_read_from_its_stored_text() {
    let id = Uuid::new_v4();
    assert_eq!(initial_room_id(Some(id.to_string())), Ok(Some(id.as_u128())));
    assert_eq!(initial_room_id(None), Ok(None));
    assert_eq!(initial_room_id(Some("no-uuid".to_owned())), Err(StoredRoomProblem::InvalidRoomId));
}

#[test]
fn a_room_row_reads_back_as_the_room() {
    let id = Uuid::new_v4();
    let row = room_row(id.as_u128(), "General", RoomType::RamVoice, 7);
    assert_eq!(row, (id.to_string(), "General".to_owned(), "ram_voice".to_owned(), 7));
    assert_eq!(
        read_room_row(Some(row)),
        Ok(Some(RoomDefinition {
            room_id: id.as_u128(),
            name: "General".to_owned(),
            room_type: RoomType::RamVoice,
            sort_order: 7,
        }))
    );
}
