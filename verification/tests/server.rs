use uuid::Uuid;
use vtnet::auth::AuthenticationResult;
use vtnet::database::Database;
use vtnet::registry::{PermissionEvaluator, RoomAction, RoomRegistry, Session};
use vtnet::rooms::{RoomRepository, RoomType, VoiceRoomLookup};
use vtnet::server::{
    UNAUTHORIZED_CLOSE_CODE,
    after_handshake, disconnect_session, handle_authenticated_message, handle_authenticated_message_with, HandshakeAction,
    timestamp_from_elapsed_millis, unix_timestamp_millis, Delivery,
};
use vtnet::wire::{AuthFailureReason, ClientMessage, RoomTextContent, ServerMessage, UserUid, VoiceRoomJoinFailureReason};

struct AllowAllPermissions;

impl PermissionEvaluator for AllowAllPermissions {
    fn effective_power(&self, _: UserUid, _: RoomAction) -> u16 {
        1
    }

    fn required_power(&self, _: u128, _: RoomAction) -> u16 {
        0
    }
}

struct Fixture {
    database: Database,
    voice_a: u128,
    voice_b: u128,
    text_room: u128,
}

fn fixture() -> Fixture {
    let database = Database::open_in_memory().unwrap();
    database.initialize_schema().unwrap();
    let voice_a = Uuid::new_v4().as_u128();
    let voice_b = Uuid::new_v4().as_u128();
    let text_room = Uuid::new_v4().as_u128();
    {
        let repository = RoomRepository::new(database.connection());
        repository.create(voice_a, "A", RoomType::RamVoice, 0).unwrap();
        repository.create(voice_b, "B", RoomType::RamVoice, 1).unwrap();
        repository.create(text_room, "T", RoomType::E2eeText, 2).unwrap();
    }
    Fixture { database, voice_a, voice_b, text_room }
}

fn ada() -> Session {
    Session::new(UserUid([1; 32]), "Ada".to_owned())
}

fn lin() -> Session {
    Session::new(UserUid([2; 32]), "Lin".to_owned())
}

fn request(
    fixture: &Fixture,
    rooms: &mut RoomRegistry,
    session: &mut Session,
    message: ClientMessage,
) -> Vec<Delivery> {
    handle_authenticated_message(&fixture.database, rooms, session, message, 5, &AllowAllPermissions)
}

fn summary(deliveries: &[Delivery]) -> Vec<(Vec<UserUid>, ServerMessage)> {
    deliveries.iter().map(|delivery| (delivery.recipients.clone(), delivery.message.clone())).collect()
}

#[test]
fn joining_tells_the_user_and_the_peers_already_inside() {
    let fixture = fixture();
    let mut rooms = RoomRegistry::default();
    let (mut first, mut second) = (ada(), lin());
    request(&fixture, &mut rooms, &mut first, ClientMessage::JoinVoiceRoom { room_id: fixture.voice_a });

    let deliveries = request(&fixture, &mut rooms, &mut second, ClientMessage::JoinVoiceRoom { room_id: fixture.voice_a });

    assert_eq!(
        summary(&deliveries),
        vec![
            (vec![UserUid([2; 32])], ServerMessage::VoiceRoomJoined { room_id: fixture.voice_a }),
            (
                vec![UserUid([1; 32])],
                ServerMessage::PeerJoinedRoom {
                    room_id: fixture.voice_a,
                    peer_uid: UserUid([2; 32]),
                    peer_name: "Lin".to_owned(),
                },
            ),
        ]
    );
}

#[test]
fn switching_rooms_tells_both_rooms() {
    let fixture = fixture();
    let mut rooms = RoomRegistry::default();
    let (mut first, mut second) = (ada(), lin());
    request(&fixture, &mut rooms, &mut first, ClientMessage::JoinVoiceRoom { room_id: fixture.voice_a });
    request(&fixture, &mut rooms, &mut second, ClientMessage::JoinVoiceRoom { room_id: fixture.voice_a });

    let deliveries = request(&fixture, &mut rooms, &mut second, ClientMessage::JoinVoiceRoom { room_id: fixture.voice_b });

    assert_eq!(
        summary(&deliveries),
        vec![
            (
                vec![UserUid([1; 32])],
                ServerMessage::PeerLeftRoom { room_id: fixture.voice_a, peer_uid: UserUid([2; 32]) },
            ),
            (vec![UserUid([2; 32])], ServerMessage::VoiceRoomJoined { room_id: fixture.voice_b }),
            (
                vec![],
                ServerMessage::PeerJoinedRoom {
                    room_id: fixture.voice_b,
                    peer_uid: UserUid([2; 32]),
                    peer_name: "Lin".to_owned(),
                },
            ),
        ]
    );
    assert_eq!(second.active_voice_room_id(), Some(fixture.voice_b));
}

#[test]
fn joins_to_unknown_or_text_rooms_are_refused_without_presence_changes() {
    let fixture = fixture();
    let mut rooms = RoomRegistry::default();
    let mut session = ada();

    let unknown = Uuid::new_v4().as_u128();
    let to_unknown = request(&fixture, &mut rooms, &mut session, ClientMessage::JoinVoiceRoom { room_id: unknown });
    let to_text = request(&fixture, &mut rooms, &mut session, ClientMessage::JoinVoiceRoom { room_id: fixture.text_room });

    assert_eq!(
        summary(&to_unknown),
        vec![(
            vec![UserUid([1; 32])],
            ServerMessage::VoiceRoomJoinFailure { room_id: unknown, reason: VoiceRoomJoinFailureReason::RoomNotFound },
        )]
    );
    assert_eq!(
        summary(&to_text),
        vec![(
            vec![UserUid([1; 32])],
            ServerMessage::VoiceRoomJoinFailure {
                room_id: fixture.text_room,
                reason: VoiceRoomJoinFailureReason::NotAVoiceRoom,
            },
        )]
    );
    assert_eq!(session.active_voice_room_id(), None);
    assert_eq!(rooms.members(fixture.text_room), None);
}

#[test]
fn an_unreadable_room_store_refuses_the_join_as_unavailable() {
    let mut rooms = RoomRegistry::default();
    let mut session = ada();

    let deliveries = handle_authenticated_message_with(
        &mut rooms,
        &mut session,
        ClientMessage::JoinVoiceRoom { room_id: 9 },
        5,
        None,
        true,
    );

    assert_eq!(
        summary(&deliveries),
        vec![(
            vec![UserUid([1; 32])],
            ServerMessage::VoiceRoomJoinFailure { room_id: 9, reason: VoiceRoomJoinFailureReason::Unavailable },
        )]
    );
    let rejoin = handle_authenticated_message_with(
        &mut rooms,
        &mut session,
        ClientMessage::JoinVoiceRoom { room_id: 9 },
        5,
        Some(VoiceRoomLookup::Found),
        true,
    );
    assert_eq!(rejoin.len(), 2);
}

#[test]
fn leaving_tells_the_user_and_the_remaining_peers() {
    let fixture = fixture();
    let mut rooms = RoomRegistry::default();
    let (mut first, mut second) = (ada(), lin());
    request(&fixture, &mut rooms, &mut first, ClientMessage::JoinVoiceRoom { room_id: fixture.voice_a });
    request(&fixture, &mut rooms, &mut second, ClientMessage::JoinVoiceRoom { room_id: fixture.voice_a });

    let deliveries = request(&fixture, &mut rooms, &mut second, ClientMessage::LeaveVoiceRoom { room_id: fixture.voice_a });
    let repeated = request(&fixture, &mut rooms, &mut second, ClientMessage::LeaveVoiceRoom { room_id: fixture.voice_a });

    assert_eq!(
        summary(&deliveries),
        vec![
            (vec![UserUid([2; 32])], ServerMessage::VoiceRoomLeft { room_id: fixture.voice_a }),
            (
                vec![UserUid([1; 32])],
                ServerMessage::PeerLeftRoom { room_id: fixture.voice_a, peer_uid: UserUid([2; 32]) },
            ),
        ]
    );
    assert!(repeated.is_empty());
}

#[test]
fn joining_the_current_room_sends_nothing() {
    let fixture = fixture();
    let mut rooms = RoomRegistry::default();
    let mut session = ada();
    request(&fixture, &mut rooms, &mut session, ClientMessage::JoinVoiceRoom { room_id: fixture.voice_a });

    let again = request(&fixture, &mut rooms, &mut session, ClientMessage::JoinVoiceRoom { room_id: fixture.voice_a });

    assert!(again.is_empty());
}

#[test]
fn room_text_reaches_the_other_members() {
    let fixture = fixture();
    let mut rooms = RoomRegistry::default();
    let (mut first, mut second) = (ada(), lin());
    request(&fixture, &mut rooms, &mut first, ClientMessage::JoinVoiceRoom { room_id: fixture.voice_a });
    request(&fixture, &mut rooms, &mut second, ClientMessage::JoinVoiceRoom { room_id: fixture.voice_a });

    let deliveries = request(
        &fixture,
        &mut rooms,
        &mut first,
        ClientMessage::SendTextMessage {
            room_id: fixture.voice_a,
            text_content: RoomTextContent::new("Hi".to_owned()).unwrap(),
        },
    );

    assert_eq!(
        summary(&deliveries),
        vec![(
            vec![UserUid([2; 32])],
            ServerMessage::BroadcastTextMessage {
                room_id: fixture.voice_a,
                sender_uid: UserUid([1; 32]),
                sender_name: "Ada".to_owned(),
                text_content: RoomTextContent::new("Hi".to_owned()).unwrap(),
                server_timestamp: 5,
            },
        )]
    );
}

#[test]
fn unroutable_requests_send_nothing() {
    let fixture = fixture();
    let mut rooms = RoomRegistry::default();
    let mut session = ada();

    let text = request(
        &fixture,
        &mut rooms,
        &mut session,
        ClientMessage::SendTextMessage {
            room_id: fixture.voice_a,
            text_content: RoomTextContent::new("Hi".to_owned()).unwrap(),
        },
    );
    let handshake = request(
        &fixture,
        &mut rooms,
        &mut session,
        ClientMessage::AuthResponse { signature_base64: String::new() },
    );

    assert!(text.is_empty());
    assert!(handshake.is_empty());
}

#[test]
fn disconnect_tells_the_remaining_peers_and_clears_presence() {
    let fixture = fixture();
    let mut rooms = RoomRegistry::default();
    let (mut first, mut second) = (ada(), lin());
    request(&fixture, &mut rooms, &mut first, ClientMessage::JoinVoiceRoom { room_id: fixture.voice_a });
    request(&fixture, &mut rooms, &mut second, ClientMessage::JoinVoiceRoom { room_id: fixture.voice_a });

    let deliveries = disconnect_session(&mut rooms, &second);

    assert_eq!(
        summary(&deliveries),
        vec![(
            vec![UserUid([1; 32])],
            ServerMessage::PeerLeftRoom { room_id: fixture.voice_a, peer_uid: UserUid([2; 32]) },
        )]
    );
    assert_eq!(rooms.members(fixture.voice_a).unwrap(), &vec![UserUid([1; 32])]);
    assert!(disconnect_session(&mut rooms, &lin()).is_empty());
}

#[test]
fn timestamps_saturate_and_default_to_zero() {
    assert_eq!(timestamp_from_elapsed_millis(None), 0);
    assert_eq!(timestamp_from_elapsed_millis(Some(1_700_000_000_000)), 1_700_000_000_000);
    assert_eq!(timestamp_from_elapsed_millis(Some(u128::from(u64::MAX) + 1)), u64::MAX);
    assert!(unix_timestamp_millis() > 1_600_000_000_000);
}

#[test]
fn handshake_results_admit_one_connection_per_identity() {
    let success = ServerMessage::AuthSuccess {
        verified_uid: UserUid([1; 32]),
        assigned_name: "Guest-01010101".to_owned(),
        server_name: "VTNet".to_owned(),
    };
    let challenge = ServerMessage::AuthChallenge { nonce_base64: "AA==".to_owned(), server_timestamp: 1 };

    let reply = after_handshake(AuthenticationResult::Reply(challenge.clone()), None, false);
    let registration = after_handshake(AuthenticationResult::Authenticated(success.clone()), Some(ada()), false);
    let duplicate = after_handshake(AuthenticationResult::Authenticated(success.clone()), Some(ada()), true);

    assert!(matches!(reply, HandshakeAction::Reply(message) if message == challenge));
    assert!(matches!(registration, HandshakeAction::Admit(session, message) if message == success && session.user_uid() == UserUid([1; 32])));
    assert!(matches!(
        duplicate,
        HandshakeAction::RefuseDuplicate(ServerMessage::AuthFailure { reason: AuthFailureReason::InvalidCredentials })
    ));
}

#[test]
fn a_failed_handshake_closes_the_connection_as_unauthorized() {
    let failure = ServerMessage::AuthFailure { reason: AuthFailureReason::RequestExpired };
    let action = after_handshake(AuthenticationResult::Reply(failure.clone()), None, false);
    assert!(matches!(action, HandshakeAction::Reject(message) if message == failure));
    assert_eq!(UNAUTHORIZED_CLOSE_CODE, 4401);
}

#[test]
fn a_sender_gets_at_most_five_texts_forwarded_per_two_seconds() {
    let fixture = fixture();
    let mut rooms = RoomRegistry::default();
    let (mut first, mut second) = (ada(), lin());
    request(&fixture, &mut rooms, &mut first, ClientMessage::JoinVoiceRoom { room_id: fixture.voice_a });
    request(&fixture, &mut rooms, &mut second, ClientMessage::JoinVoiceRoom { room_id: fixture.voice_a });
    let mut send = |session: &mut Session, at: u64| {
        let text = ClientMessage::SendTextMessage {
            room_id: fixture.voice_a,
            text_content: RoomTextContent::new("Hello".to_owned()).unwrap(),
        };
        handle_authenticated_message(&fixture.database, &mut rooms, session, text, at, &AllowAllPermissions).len()
    };

    let forwarded: Vec<usize> = (0..6).map(|i| send(&mut first, 10_000 + i * 300)).collect();
    assert_eq!(forwarded, vec![1, 1, 1, 1, 1, 0]);
    // Another sender has a window of its own.
    assert_eq!(send(&mut second, 11_500), 1);
    // Once the first text is two seconds old, one more fits.
    assert_eq!(send(&mut first, 12_000), 1);
    assert_eq!(send(&mut first, 12_001), 0);
}
