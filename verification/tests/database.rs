use vtnet::database::{Database, StoreWrite};
use vtnet::rooms::RoomType;
use vtnet::wire::UserUid;

#[test]
fn database_enforces_foreign_keys() {
    let database = Database::open_in_memory().unwrap();
    database
        .connection()
        .execute_batch(
            "
            CREATE TABLE parent (id INTEGER PRIMARY KEY);
            CREATE TABLE child (
                parent_id INTEGER NOT NULL,
                FOREIGN KEY (parent_id) REFERENCES parent(id)
            );
            ",
        )
        .unwrap();

    let result = database
        .connection()
        .execute("INSERT INTO child (parent_id) VALUES (1)", []);

    assert!(result.is_err());
}

#[test]
fn schema_initialization_is_idempotent() {
    let database = Database::open_in_memory().unwrap();

    database.initialize_schema().unwrap();
    database.initialize_schema().unwrap();
}

#[test]
fn room_types_outside_the_schema_are_refused() {
    let database = Database::open_in_memory().unwrap();
    database.initialize_schema().unwrap();

    let result = database.connection().execute(
        "INSERT INTO rooms (room_id, name, room_type) VALUES ('x', 'y', 'video')",
        [],
    );

    assert!(result.is_err());
}

#[test]
fn server_name_and_administrator_are_stored_once() {
    let mut database = Database::open_in_memory().unwrap();
    database.initialize_schema().unwrap();

    database.set_server_name("First").unwrap();
    database.set_server_name("Second").unwrap();
    database.bootstrap_administrator(UserUid([1; 32]), "Ada").unwrap();
    database.bootstrap_administrator(UserUid([1; 32]), "Other").unwrap();

    let name: String = database
        .connection()
        .query_row("SELECT server_name FROM server_config WHERE id = 1", [], |row| row.get(0))
        .unwrap();
    let (display_name, role): (String, String) = database
        .connection()
        .query_row("SELECT display_name, server_role FROM trusted_users", [], |row| {
            Ok((row.get(0)?, row.get(1)?))
        })
        .unwrap();
    assert_eq!(name, "Second");
    assert_eq!(display_name, "Ada");
    assert_eq!(role, "admin");
}

#[test]
fn store_writes_carry_their_parameters() {
    match StoreWrite::administrator(UserUid([1; 32]), "Ada") {
        StoreWrite::BootstrapAdministrator { user_uid_text, display_name } => {
            assert_eq!(user_uid_text, "AQEBAQEBAQEBAQEBAQEBAQEBAQEBAQEBAQEBAQEBAQE=");
            assert_eq!(display_name, "Ada");
        }
        _ => panic!("expected the administrator write"),
    }
    match StoreWrite::server_name("Hub") {
        StoreWrite::SetServerName { server_name } => assert_eq!(server_name, "Hub"),
        _ => panic!("expected the server-name write"),
    }
    match StoreWrite::room(0x0123_4567_89ab_cdef_0123_4567_89ab_cdef, "General", RoomType::E2eeText, 3) {
        StoreWrite::InsertRoom { room_id_text, name, room_type_text, sort_order } => {
            assert_eq!(room_id_text, "01234567-89ab-cdef-0123-456789abcdef");
            assert_eq!((name.as_str(), room_type_text.as_str(), sort_order), ("General", "e2ee_text", 3));
        }
        _ => panic!("expected the room insert"),
    }
}
