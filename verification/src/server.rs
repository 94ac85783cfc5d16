//! The decisions of the server runtime: what each authenticated request changes
//! in the volatile presence state and which messages go to whom.

use vstd::prelude::*;

use crate::auth::AuthenticationResult;
use crate::database::Database;
use crate::registry::{
    evaluator_answer, is_member, law_single_active_voice_room, presence_consistent, routing_permission,
    join_outcome, leave_outcome, others_in, routing_outcome, PermissionEvaluator, RoomAction,
    RoomRegistry, RoutedServerMessage, RoomRoutingError, Session, SessionView, VoiceRoomTransition,
    law_signaling_is_forwarded_unchanged, text_forwarded, text_rate_allows,
};
use crate::rooms::{RoomRepository, VoiceRoomLookup};
use crate::trusted::{millis_since_unix_epoch, system_time_now};
use crate::wire::{AuthFailureReason, ClientMessage, RoomId, ServerMessage, UserUid, VoiceRoomJoinFailureReason};

verus! {

/// A message and the users that must receive it.
pub struct Delivery {
    pub recipients: Vec<UserUid>,
    pub message: ServerMessage,
}

/// `delivery` sends `message` to exactly the users in `recipients`, once each.
pub open spec fn delivers(delivery: Delivery, recipients: Set<UserUid>, message: ServerMessage) -> bool {
    &&& delivery.recipients@.no_duplicates()
    &&& delivery.recipients@.to_set() == recipients
    &&& delivery.message == message
}

/// `delivery` announces to exactly `recipients` that the session's user entered `room_id`.
pub open spec fn announces_join(
    delivery: Delivery,
    recipients: Set<UserUid>,
    room_id: RoomId,
    session: SessionView,
) -> bool {
    &&& delivery.recipients@.no_duplicates()
    &&& delivery.recipients@.to_set() == recipients
    &&& delivery.message matches ServerMessage::PeerJoinedRoom { room_id: r, peer_uid, peer_name }
    &&& r == room_id
    &&& peer_uid == session.user_uid
    &&& peer_name@ == session.display_name
}

/// Why a join request is refused before presence is considered, given the lookup
/// of its room (`None` when the room store could not be read).
pub open spec fn join_refusal(lookup: Option<VoiceRoomLookup>) -> Option<VoiceRoomJoinFailureReason> {
    match lookup {
        Some(VoiceRoomLookup::Found) => None,
        Some(VoiceRoomLookup::NotVoiceRoom) => Some(VoiceRoomJoinFailureReason::NotAVoiceRoom),
        Some(VoiceRoomLookup::NotFound) => Some(VoiceRoomJoinFailureReason::RoomNotFound),
        None => Some(VoiceRoomJoinFailureReason::Unavailable),
    }
}

/// The presence state and the deliveries after an authenticated request, given the
/// lookup of a room to join and whether the evaluator granted the required action.
pub open spec fn request_outcome(
    rooms: Map<RoomId, Set<UserUid>>,
    session: SessionView,
    message: ClientMessage,
    server_timestamp: u64,
    lookup: Option<VoiceRoomLookup>,
    action_allowed: bool,
    rooms_after: Map<RoomId, Set<UserUid>>,
    session_after: SessionView,
    deliveries: Seq<Delivery>,
) -> bool {
    let uid = session.user_uid;
    match message {
        ClientMessage::JoinVoiceRoom { room_id } => match join_refusal(lookup) {
            Some(reason) => {
                &&& rooms_after == rooms
                &&& session_after == session
                &&& deliveries.len() == 1
                &&& delivers(
                    deliveries[0],
                    set![uid],
                    ServerMessage::VoiceRoomJoinFailure { room_id, reason },
                )
            },
            None => {
                let (joined_rooms, joined_session, transition) = join_outcome(
                    rooms,
                    session,
                    room_id,
                    action_allowed,
                );
                &&& rooms_after == joined_rooms
                &&& session_after == joined_session
                &&& match transition {
                    Ok(VoiceRoomTransition::Switched { from_room_id, .. }) => {
                        &&& deliveries.len() == 3
                        &&& delivers(
                            deliveries[0],
                            others_in(rooms, from_room_id, uid),
                            ServerMessage::PeerLeftRoom { room_id: from_room_id, peer_uid: uid },
                        )
                        &&& delivers(deliveries[1], set![uid], ServerMessage::VoiceRoomJoined { room_id })
                        &&& announces_join(deliveries[2], others_in(rooms, room_id, uid), room_id, session)
                    },
                    Ok(VoiceRoomTransition::Joined { .. }) => {
                        &&& deliveries.len() == 2
                        &&& delivers(deliveries[0], set![uid], ServerMessage::VoiceRoomJoined { room_id })
                        &&& announces_join(deliveries[1], others_in(rooms, room_id, uid), room_id, session)
                    },
                    _ => deliveries.len() == 0,
                }
            },
        },
        ClientMessage::LeaveVoiceRoom { room_id } => {
            let (left_rooms, left_session, transition) = leave_outcome(rooms, session, room_id);
            &&& rooms_after == left_rooms
            &&& session_after == left_session
            &&& if transition is Left {
                &&& deliveries.len() == 2
                &&& delivers(deliveries[0], set![uid], ServerMessage::VoiceRoomLeft { room_id })
                &&& delivers(
                    deliveries[1],
                    others_in(rooms, room_id, uid),
                    ServerMessage::PeerLeftRoom { room_id, peer_uid: uid },
                )
            } else {
                deliveries.len() == 0
            }
        },
        _ => {
            &&& rooms_after == rooms
            &&& exists|result: Result<RoutedServerMessage, RoomRoutingError>|
                #[trigger] routing_outcome(result, rooms, session, message, server_timestamp, action_allowed)
                    && match result {
                    Ok(routed) => if !(message is SendTextMessage) {
                        &&& session_after == session
                        &&& deliveries.len() == 1
                        &&& deliveries[0].recipients@ == routed.recipient_list()
                        &&& deliveries[0].message == routed.payload()
                    } else if text_rate_allows(session.recent_text_timestamps, server_timestamp) {
                        &&& session_after == text_forwarded(session, server_timestamp)
                        &&& deliveries.len() == 1
                        &&& deliveries[0].recipients@ == routed.recipient_list()
                        &&& deliveries[0].message == routed.payload()
                    } else {
                        &&& session_after == session
                        &&& deliveries.len() == 0
                    },
                    Err(_) => session_after == session && deliveries.len() == 0,
                }
        },
    }
}

/// The permission answer that an authenticated request goes by is one the evaluator
/// can give: on `Join` for a join whose room was found to be a voice room, and on
/// the routed action for a room message whose sender is in its active room.
pub open spec fn request_permission<P: PermissionEvaluator + ?Sized>(
    evaluator: &P,
    rooms: Map<RoomId, Set<UserUid>>,
    session: SessionView,
    message: ClientMessage,
    lookup: Option<VoiceRoomLookup>,
    action_allowed: bool,
) -> bool {
    match message {
        ClientMessage::JoinVoiceRoom { room_id } => lookup == Some(VoiceRoomLookup::Found) ==> evaluator_answer(
            evaluator,
            session.user_uid,
            room_id,
            RoomAction::Join,
            action_allowed,
        ),
        _ => routing_permission(evaluator, rooms, session, message, action_allowed),
    }
}

fn to_self(uid: UserUid, message: ServerMessage) -> (delivery: Delivery)
    ensures
        delivers(delivery, set![uid], message),
{
    let mut recipients: Vec<UserUid> = Vec::new();
    recipients.push(uid);
    assert(recipients@.to_set() =~= set![uid]) by {
        assert(recipients@[0] == uid);
    }
    Delivery { recipients, message }
}

/// Applies an authenticated request to the presence state, given the lookup of a
/// room to join (`None` when the room store failed) and whether the evaluator
/// granted the action the request needs, and returns the messages to deliver. A
/// text beyond the sender's rate limit (`TEXT_RATE_LIMIT_MESSAGES` per
/// `TEXT_RATE_WINDOW_MILLIS`) is dropped.
pub fn handle_authenticated_message_with(
    rooms: &mut RoomRegistry,
    session: &mut Session,
    message: ClientMessage,
    server_timestamp: u64,
    lookup: Option<VoiceRoomLookup>,
    action_allowed: bool,
) -> (deliveries: Vec<Delivery>)
    requires
        old(rooms).wf(),
    ensures
        final(rooms).wf(),
        request_outcome(
            old(rooms)@,
            old(session)@,
            message,
            server_timestamp,
            lookup,
            action_allowed,
            final(rooms)@,
            final(session)@,
            deliveries@,
        ),
{
    let ghost rooms_before = rooms@;
    let ghost session_before = session@;
    let ghost incoming = message;
    let uid = session.user_uid();
    let mut deliveries: Vec<Delivery> = Vec::new();
    match message {
        ClientMessage::JoinVoiceRoom { room_id } => {
            let refusal = match lookup {
                Some(VoiceRoomLookup::Found) => None,
                Some(VoiceRoomLookup::NotVoiceRoom) => Some(VoiceRoomJoinFailureReason::NotAVoiceRoom),
                Some(VoiceRoomLookup::NotFound) => Some(VoiceRoomJoinFailureReason::RoomNotFound),
                None => Some(VoiceRoomJoinFailureReason::Unavailable),
            };
            if let Some(reason) = refusal {
                deliveries.push(to_self(uid, ServerMessage::VoiceRoomJoinFailure { room_id, reason }));
                return deliveries;
            }
            // Capture recipients before the transition removes the previous membership.
            let leaving_recipients = match session.active_voice_room_id() {
                Some(previous_room_id) => rooms.members_except(previous_room_id, &uid),
                None => Vec::new(),
            };
            let joining_recipients = rooms.members_except(room_id, &uid);
            let transition = rooms.join_voice_room_with_permission(session, room_id, action_allowed);
            assert(session@.display_name == session_before.display_name);
            assert(session@.user_uid == uid);
            match transition {
                Ok(VoiceRoomTransition::Switched { from_room_id, .. }) => {
                    deliveries.push(
                        Delivery {
                            recipients: leaving_recipients,
                            message: ServerMessage::PeerLeftRoom { room_id: from_room_id, peer_uid: uid },
                        },
                    );
                    deliveries.push(to_self(uid, ServerMessage::VoiceRoomJoined { room_id }));
                    deliveries.push(
                        Delivery {
                            recipients: joining_recipients,
                            message: ServerMessage::PeerJoinedRoom {
                                room_id,
                                peer_uid: uid,
                                peer_name: String::from_str(session.display_name()),
                            },
                        },
                    );
                },
                Ok(VoiceRoomTransition::Joined { .. }) => {
                    deliveries.push(to_self(uid, ServerMessage::VoiceRoomJoined { room_id }));
                    deliveries.push(
                        Delivery {
                            recipients: joining_recipients,
                            message: ServerMessage::PeerJoinedRoom {
                                room_id,
                                peer_uid: uid,
                                peer_name: String::from_str(session.display_name()),
                            },
                        },
                    );
                },
                _ => {},
            }
            deliveries
        },
        ClientMessage::LeaveVoiceRoom { room_id } => {
            let recipients = rooms.members_except(room_id, &uid);
            let transition = rooms.leave_voice_room(session, room_id);
            if let VoiceRoomTransition::Left { .. } = transition {
                deliveries.push(to_self(uid, ServerMessage::VoiceRoomLeft { room_id }));
                deliveries.push(
                    Delivery {
                        recipients,
                        message: ServerMessage::PeerLeftRoom { room_id, peer_uid: uid },
                    },
                );
            }
            deliveries
        },
        room_message => {
            let is_text = match &room_message {
                ClientMessage::SendTextMessage { .. } => true,
                _ => false,
            };
            let result = rooms.route_client_room_message_with_permission(
                session,
                room_message,
                server_timestamp,
                action_allowed,
            );
            match result {
                Ok(routed) => {
                    let ghost routed_view = routed;
                    // Texts over the sender's rate limit are dropped.
                    if !is_text || session.admit_text(server_timestamp) {
                        let (recipients, message) = routed.into_parts();
                        deliveries.push(Delivery { recipients, message });
                    }
                    assert(routing_outcome(
                        Ok(routed_view),
                        rooms_before,
                        session_before,
                        incoming,
                        server_timestamp,
                        action_allowed,
                    ));
                },
                Err(error) => {
                    assert(routing_outcome(
                        Err(error),
                        rooms_before,
                        session_before,
                        incoming,
                        server_timestamp,
                        action_allowed,
                    ));
                },
            }
            deliveries
        },
    }
}


/// Applies an authenticated request to the presence state and returns the messages
/// to deliver: a join is checked against the stored room definitions and the
/// evaluator's `Join` power; text and signaling need `Write` and `Signal`, and
/// texts beyond the sender's rate limit are dropped.
pub fn handle_authenticated_message(
    database: &Database,
    rooms: &mut RoomRegistry,
    session: &mut Session,
    message: ClientMessage,
    server_timestamp: u64,
    permission_evaluator: &impl PermissionEvaluator,
) -> (deliveries: Vec<Delivery>)
    requires
        old(rooms).wf(),
    ensures
        final(rooms).wf(),
        exists|lookup: Option<VoiceRoomLookup>, action_allowed: bool|
            #[trigger] request_outcome(
                old(rooms)@,
                old(session)@,
                message,
                server_timestamp,
                lookup,
                action_allowed,
                final(rooms)@,
                final(session)@,
                deliveries@,
            ) && request_permission(
                permission_evaluator,
                old(rooms)@,
                old(session)@,
                message,
                lookup,
                action_allowed,
            ),
{
    let uid = session.user_uid();
    let (lookup, action_allowed) = match &message {
        ClientMessage::JoinVoiceRoom { room_id } => {
            let lookup = match RoomRepository::new(database.connection()).validate_voice_room(*room_id) {
                Ok(found) => Some(found),
                Err(_) => None,
            };
            let allowed = match lookup {
                Some(VoiceRoomLookup::Found) => permission_evaluator.is_allowed(uid, *room_id, RoomAction::Join),
                _ => false,
            };
            (lookup, allowed)
        },
        ClientMessage::SendTextMessage { room_id, .. } => {
            let allowed = rooms.ensure_active_member(session, *room_id) && permission_evaluator.is_allowed(
                uid,
                *room_id,
                RoomAction::Write,
            );
            (None, allowed)
        },
        ClientMessage::SendWebRtcSdp { room_id, .. } => {
            let allowed = rooms.ensure_active_member(session, *room_id) && permission_evaluator.is_allowed(
                uid,
                *room_id,
                RoomAction::Signal,
            );
            (None, allowed)
        },
        ClientMessage::SendWebRtcIce { room_id, .. } => {
            let allowed = rooms.ensure_active_member(session, *room_id) && permission_evaluator.is_allowed(
                uid,
                *room_id,
                RoomAction::Signal,
            );
            (None, allowed)
        },
        _ => (None, false),
    };
    let ghost incoming = message;
    let deliveries = handle_authenticated_message_with(
        rooms,
        session,
        message,
        server_timestamp,
        lookup,
        action_allowed,
    );
    assert(request_outcome(
        old(rooms)@,
        old(session)@,
        incoming,
        server_timestamp,
        lookup,
        action_allowed,
        rooms@,
        session@,
        deliveries@,
    ));
    assert(request_permission(permission_evaluator, old(rooms)@, old(session)@, incoming, lookup, action_allowed));
    deliveries
}

/// Removes a disconnecting session from its voice room and tells the remaining
/// members; a session outside any room changes nothing.
pub fn disconnect_session(rooms: &mut RoomRegistry, session: &Session) -> (deliveries: Vec<Delivery>)
    requires
        old(rooms).wf(),
    ensures
        final(rooms).wf(),
        match session@.active_voice_room_id {
            Some(room_id) => {
                &&& final(rooms)@ == leave_outcome(old(rooms)@, session@, room_id).0
                &&& deliveries@.len() == 1
                &&& delivers(
                    deliveries@[0],
                    others_in(old(rooms)@, room_id, session@.user_uid),
                    ServerMessage::PeerLeftRoom { room_id, peer_uid: session@.user_uid },
                )
            },
            None => final(rooms)@ == old(rooms)@ && deliveries@.len() == 0,
        },
{
    let mut deliveries: Vec<Delivery> = Vec::new();
    let room_id = match session.active_voice_room_id() {
        Some(room_id) => room_id,
        None => return deliveries,
    };
    let uid = session.user_uid();
    // Notify remaining peers before removing the disconnecting session from the room.
    let recipients = rooms.members_except(room_id, &uid);
    let mut leaving = session.clone();
    if let VoiceRoomTransition::Left { .. } = rooms.leave_voice_room(&mut leaving, room_id) {
        deliveries.push(Delivery { recipients, message: ServerMessage::PeerLeftRoom { room_id, peer_uid: uid } });
    }
    deliveries
}

/// The WebSocket close code (`4401 Unauthorized`) that ends a connection whose
/// handshake failed.
pub const UNAUTHORIZED_CLOSE_CODE: u16 = 4401;

/// What the connection runtime does after a handshake message.
pub enum HandshakeAction {
    /// Send the reply; the handshake goes on.
    Reply(ServerMessage),
    /// Register the session as the connection of its identity, then send the reply.
    Admit(Session, ServerMessage),
    /// The handshake failed: send the failure, then close the connection with
    /// `UNAUTHORIZED_CLOSE_CODE`; no further frame of it is read.
    Reject(ServerMessage),
    /// The identity already has a connection: send the refusal, then close the
    /// connection with `UNAUTHORIZED_CLOSE_CODE`.
    RefuseDuplicate(ServerMessage),
}

/// The message carried by a handshake result.
pub open spec fn handshake_reply(result: AuthenticationResult) -> ServerMessage {
    match result {
        AuthenticationResult::Reply(message) => message,
        AuthenticationResult::Authenticated(message) => message,
    }
}

/// Decides the connection's next step after a handshake message: a failed
/// handshake ends the connection, and a newly authenticated session is admitted
/// only if its identity has no other active connection (one connection per identity).
pub fn after_handshake(
    result: AuthenticationResult,
    session: Option<Session>,
    identity_connected: bool,
) -> (action: HandshakeAction)
    ensures
        match session {
            None => if handshake_reply(result) is AuthFailure {
                action == HandshakeAction::Reject(handshake_reply(result))
            } else {
                action == HandshakeAction::Reply(handshake_reply(result))
            },
            Some(admitted) => if identity_connected {
                action == HandshakeAction::RefuseDuplicate(
                    ServerMessage::AuthFailure { reason: AuthFailureReason::InvalidCredentials },
                )
            } else {
                action == HandshakeAction::Admit(admitted, handshake_reply(result))
            },
        },
{
    let reply = match result {
        AuthenticationResult::Reply(message) => message,
        AuthenticationResult::Authenticated(message) => message,
    };
    match session {
        None => match reply {
            ServerMessage::AuthFailure { .. } => HandshakeAction::Reject(reply),
            _ => HandshakeAction::Reply(reply),
        },
        Some(admitted) => if identity_connected {
            HandshakeAction::RefuseDuplicate(
                ServerMessage::AuthFailure { reason: AuthFailureReason::InvalidCredentials },
            )
        } else {
            HandshakeAction::Admit(admitted, reply)
        },
    }
}

/// Milliseconds since the Unix epoch as a `u64`: zero for a clock before the epoch,
/// saturated at `u64::MAX`.
pub open spec fn timestamp_of(elapsed_millis: Option<u128>) -> u64 {
    match elapsed_millis {
        Some(millis) => if millis > u64::MAX as u128 {
            u64::MAX
        } else {
            millis as u64
        },
        None => 0,
    }
}

/// Converts the time since the Unix epoch into a message timestamp.
pub fn timestamp_from_elapsed_millis(elapsed_millis: Option<u128>) -> (timestamp: u64)
    ensures
        timestamp == timestamp_of(elapsed_millis),
{
    match elapsed_millis {
        Some(millis) => if millis > u64::MAX as u128 {
            u64::MAX
        } else {
            millis as u64
        },
        None => 0,
    }
}

/// The current time in milliseconds since the Unix epoch.
pub fn unix_timestamp_millis() -> (timestamp: u64)
    ensures
        exists|elapsed_millis: Option<u128>| timestamp == #[trigger] timestamp_of(elapsed_millis),
{
    let now = system_time_now();
    let elapsed_millis = millis_since_unix_epoch(&now);
    let timestamp = timestamp_from_elapsed_millis(elapsed_millis);
    assert(timestamp == timestamp_of(elapsed_millis));
    timestamp
}


/// Peers are told when a user enters or leaves a room, never the user who moved:
/// no `PeerJoinedRoom` or `PeerLeftRoom` delivery includes the requesting user.
pub proof fn law_presence_news_goes_to_peers_only(
    rooms: Map<RoomId, Set<UserUid>>,
    session: SessionView,
    message: ClientMessage,
    server_timestamp: u64,
    lookup: Option<VoiceRoomLookup>,
    action_allowed: bool,
    rooms_after: Map<RoomId, Set<UserUid>>,
    session_after: SessionView,
    deliveries: Seq<Delivery>,
)
    requires
        request_outcome(
            rooms,
            session,
            message,
            server_timestamp,
            lookup,
            action_allowed,
            rooms_after,
            session_after,
            deliveries,
        ),
        message is JoinVoiceRoom || message is LeaveVoiceRoom,
    ensures
        forall|i: int|
            0 <= i < deliveries.len() && (deliveries[i].message is PeerJoinedRoom
                || deliveries[i].message is PeerLeftRoom) ==> !(#[trigger] deliveries[i].recipients@.contains(
                session.user_uid,
            )),
{
    let uid = session.user_uid;
    assert forall|i: int|
        0 <= i < deliveries.len() && (deliveries[i].message is PeerJoinedRoom
            || deliveries[i].message is PeerLeftRoom) implies !(#[trigger] deliveries[i].recipients@.contains(
            uid,
        )) by {
        if deliveries[i].recipients@.contains(uid) {
            assert(deliveries[i].recipients@.to_set().contains(uid));
        }
    }
}

/// A join to a room that is unknown, not a RAM voice room, or unreadable is
/// refused to the requester alone and changes no presence.
pub proof fn law_only_voice_rooms_can_be_joined(
    rooms: Map<RoomId, Set<UserUid>>,
    session: SessionView,
    room_id: RoomId,
    server_timestamp: u64,
    lookup: Option<VoiceRoomLookup>,
    action_allowed: bool,
    rooms_after: Map<RoomId, Set<UserUid>>,
    session_after: SessionView,
    deliveries: Seq<Delivery>,
)
    requires
        request_outcome(
            rooms,
            session,
            ClientMessage::JoinVoiceRoom { room_id },
            server_timestamp,
            lookup,
            action_allowed,
            rooms_after,
            session_after,
            deliveries,
        ),
        lookup != Some(VoiceRoomLookup::Found),
    ensures
        rooms_after == rooms,
        session_after == session,
        deliveries.len() == 1,
        deliveries[0].recipients@.to_set() == set![session.user_uid],
        deliveries[0].message is VoiceRoomJoinFailure,
{
}

/// After a disconnect the user is listed in no voice room, and every other
/// user's memberships are as they were.
pub proof fn law_disconnect_leaves_no_trace(
    rooms: Map<RoomId, Set<UserUid>>,
    session: SessionView,
    rooms_after: Map<RoomId, Set<UserUid>>,
)
    requires
        presence_consistent(rooms, session),
        match session.active_voice_room_id {
            Some(room_id) => rooms_after == leave_outcome(rooms, session, room_id).0,
            None => rooms_after == rooms,
        },
    ensures
        forall|room_id: RoomId| !#[trigger] is_member(rooms_after, room_id, session.user_uid),
        forall|room_id: RoomId, other: UserUid|
            other != session.user_uid ==> (#[trigger] is_member(rooms_after, room_id, other) <==> is_member(
                rooms,
                room_id,
                other,
            )),
{
    if let Some(room_id) = session.active_voice_room_id {
        law_single_active_voice_room(rooms, session, room_id, true);
        let (after, session_after, _) = leave_outcome(rooms, session, room_id);
        assert(presence_consistent(after, session_after));
        assert forall|r: RoomId| !#[trigger] is_member(rooms_after, r, session.user_uid) by {
            assert(is_member(after, r, session_after.user_uid) <==> session_after.active_voice_room_id
                == Some(r));
        }
    } else {
        assert forall|r: RoomId| !#[trigger] is_member(rooms_after, r, session.user_uid) by {
            assert(is_member(rooms, r, session.user_uid) <==> session.active_voice_room_id == Some(r));
        }
    }
}

/// WebRTC signaling is never rate-limited: an SDP or ICE message that can be
/// routed (sender in its active room, `Signal` granted, target in the room) yields
/// exactly one delivery, of that message to the target, however many came before;
/// and no request but a room text changes the sender's text rate-limit record.
pub proof fn law_signaling_is_never_rate_limited(
    rooms: Map<RoomId, Set<UserUid>>,
    session: SessionView,
    message: ClientMessage,
    server_timestamp: u64,
    lookup: Option<VoiceRoomLookup>,
    rooms_after: Map<RoomId, Set<UserUid>>,
    session_after: SessionView,
    deliveries: Seq<Delivery>,
)
    requires
        request_outcome(
            rooms,
            session,
            message,
            server_timestamp,
            lookup,
            true,
            rooms_after,
            session_after,
            deliveries,
        ),
    ensures
        !(message is SendTextMessage) ==> session_after.recent_text_timestamps == session.recent_text_timestamps,
        match message {
            ClientMessage::SendWebRtcSdp { room_id, target_uid, sdp_type, sdp_raw } => {
                session.active_voice_room_id == Some(room_id) && is_member(rooms, room_id, session.user_uid)
                    && is_member(rooms, room_id, target_uid) ==> {
                    &&& session_after == session
                    &&& rooms_after == rooms
                    &&& deliveries.len() == 1
                    &&& deliveries[0].recipients@ == seq![target_uid]
                    &&& deliveries[0].message == ServerMessage::ForwardWebRtcSdp {
                        room_id,
                        sender_uid: session.user_uid,
                        sdp_type,
                        sdp_raw,
                    }
                }
            },
            ClientMessage::SendWebRtcIce { room_id, target_uid, candidate } => {
                session.active_voice_room_id == Some(room_id) && is_member(rooms, room_id, session.user_uid)
                    && is_member(rooms, room_id, target_uid) ==> {
                    &&& session_after == session
                    &&& rooms_after == rooms
                    &&& deliveries.len() == 1
                    &&& deliveries[0].recipients@ == seq![target_uid]
                    &&& deliveries[0].message == ServerMessage::ForwardWebRtcIce {
                        room_id,
                        sender_uid: session.user_uid,
                        candidate,
                    }
                }
            },
            _ => true,
        },
{
    if !(message is JoinVoiceRoom) && !(message is LeaveVoiceRoom) {
        let result = choose|result: Result<RoutedServerMessage, RoomRoutingError>|
            #[trigger] routing_outcome(result, rooms, session, message, server_timestamp, true) && match result {
                Ok(routed) => if !(message is SendTextMessage) {
                    &&& session_after == session
                    &&& deliveries.len() == 1
                    &&& deliveries[0].recipients@ == routed.recipient_list()
                    &&& deliveries[0].message == routed.payload()
                } else if text_rate_allows(session.recent_text_timestamps, server_timestamp) {
                    &&& session_after == text_forwarded(session, server_timestamp)
                    &&& deliveries.len() == 1
                    &&& deliveries[0].recipients@ == routed.recipient_list()
                    &&& deliveries[0].message == routed.payload()
                } else {
                    &&& session_after == session
                    &&& deliveries.len() == 0
                },
                Err(_) => session_after == session && deliveries.len() == 0,
            };
        law_signaling_is_forwarded_unchanged(result, rooms, session, message, server_timestamp);
    }
}

/// A granted join to a stored voice room that the user is not in yet puts the
/// user in that room and in no other, changes no other user's membership, and
/// tells the user that it joined, every user already in the room that the user
/// (by identity and name) joined, and, on a switch, every user left in the
/// previous room that the user left it; nothing else is sent.
pub proof fn law_granted_join_is_announced(
    rooms: Map<RoomId, Set<UserUid>>,
    session: SessionView,
    room_id: RoomId,
    server_timestamp: u64,
    rooms_after: Map<RoomId, Set<UserUid>>,
    session_after: SessionView,
    deliveries: Seq<Delivery>,
)
    requires
        presence_consistent(rooms, session),
        session.active_voice_room_id != Some(room_id),
        request_outcome(
            rooms,
            session,
            ClientMessage::JoinVoiceRoom { room_id },
            server_timestamp,
            Some(VoiceRoomLookup::Found),
            true,
            rooms_after,
            session_after,
            deliveries,
        ),
    ensures
        session_after.user_uid == session.user_uid,
        session_after.active_voice_room_id == Some(room_id),
        forall|r: RoomId| #[trigger] is_member(rooms_after, r, session.user_uid) <==> r == room_id,
        forall|r: RoomId, other: UserUid|
            other != session.user_uid ==> (#[trigger] is_member(rooms_after, r, other) <==> is_member(
                rooms,
                r,
                other,
            )),
        deliveries.len() == if session.active_voice_room_id is Some { 3int } else { 2int },
        exists|i: int|
            0 <= i < deliveries.len() && {
                &&& #[trigger] deliveries[i].message == ServerMessage::VoiceRoomJoined { room_id }
                &&& forall|uid: UserUid| #[trigger] deliveries[i].recipients@.contains(uid) <==> uid == session.user_uid
            },
        exists|i: int|
            0 <= i < deliveries.len() && {
                &&& #[trigger] deliveries[i].message matches ServerMessage::PeerJoinedRoom {
                    room_id: r,
                    peer_uid,
                    peer_name,
                }
                &&& r == room_id
                &&& peer_uid == session.user_uid
                &&& peer_name@ == session.display_name
                &&& forall|uid: UserUid| #[trigger]
                    deliveries[i].recipients@.contains(uid) <==> (is_member(rooms, room_id, uid) && uid
                        != session.user_uid)
            },
        session.active_voice_room_id matches Some(previous) ==> exists|i: int|
            0 <= i < deliveries.len() && {
                &&& #[trigger] deliveries[i].message == ServerMessage::PeerLeftRoom {
                    room_id: previous,
                    peer_uid: session.user_uid,
                }
                &&& forall|uid: UserUid| #[trigger]
                    deliveries[i].recipients@.contains(uid) <==> (is_member(rooms, previous, uid) && uid
                        != session.user_uid)
            },
{
    let uid = session.user_uid;
    law_single_active_voice_room(rooms, session, room_id, true);
    let (after, joined, _) = join_outcome(rooms, session, room_id, true);
    assert(presence_consistent(after, joined));
    assert forall|r: RoomId| #[trigger] is_member(rooms_after, r, uid) <==> r == room_id by {
        assert(is_member(after, r, joined.user_uid) <==> joined.active_voice_room_id == Some(r));
    }
    let (self_index, peers_index): (int, int) = if session.active_voice_room_id is Some { (1, 2) } else { (0, 1) };
    assert forall|u: UserUid| #[trigger] deliveries[self_index].recipients@.contains(u) <==> u == uid by {
        assert(deliveries[self_index].recipients@.to_set().contains(u) <==> deliveries[self_index].recipients@.contains(u));
    }
    assert forall|u: UserUid| #[trigger] deliveries[peers_index].recipients@.contains(u) <==> (is_member(rooms, room_id, u)
        && u != uid) by {
        assert(deliveries[peers_index].recipients@.to_set().contains(u) <==> deliveries[peers_index].recipients@.contains(u));
    }
    if let Some(previous) = session.active_voice_room_id {
        assert forall|u: UserUid| #[trigger] deliveries[0].recipients@.contains(u) <==> (is_member(rooms, previous, u)
            && u != uid) by {
            assert(deliveries[0].recipients@.to_set().contains(u) <==> deliveries[0].recipients@.contains(u));
        }
    }
}

/// Leaving the active voice room takes the user out of every room, changes no
/// other user's membership, and tells the user that it left and every user left
/// in the room that the user left it; nothing else is sent.
pub proof fn law_leave_is_announced(
    rooms: Map<RoomId, Set<UserUid>>,
    session: SessionView,
    room_id: RoomId,
    server_timestamp: u64,
    lookup: Option<VoiceRoomLookup>,
    action_allowed: bool,
    rooms_after: Map<RoomId, Set<UserUid>>,
    session_after: SessionView,
    deliveries: Seq<Delivery>,
)
    requires
        presence_consistent(rooms, session),
        session.active_voice_room_id == Some(room_id),
        request_outcome(
            rooms,
            session,
            ClientMessage::LeaveVoiceRoom { room_id },
            server_timestamp,
            lookup,
            action_allowed,
            rooms_after,
            session_after,
            deliveries,
        ),
    ensures
        session_after.user_uid == session.user_uid,
        session_after.active_voice_room_id is None,
        forall|r: RoomId| !#[trigger] is_member(rooms_after, r, session.user_uid),
        forall|r: RoomId, other: UserUid|
            other != session.user_uid ==> (#[trigger] is_member(rooms_after, r, other) <==> is_member(
                rooms,
                r,
                other,
            )),
        deliveries.len() == 2,
        exists|i: int|
            0 <= i < deliveries.len() && {
                &&& #[trigger] deliveries[i].message == ServerMessage::VoiceRoomLeft { room_id }
                &&& forall|uid: UserUid| #[trigger] deliveries[i].recipients@.contains(uid) <==> uid == session.user_uid
            },
        exists|i: int|
            0 <= i < deliveries.len() && {
                &&& #[trigger] deliveries[i].message == ServerMessage::PeerLeftRoom {
                    room_id,
                    peer_uid: session.user_uid,
                }
                &&& forall|uid: UserUid| #[trigger]
                    deliveries[i].recipients@.contains(uid) <==> (is_member(rooms, room_id, uid) && uid
                        != session.user_uid)
            },
{
    let uid = session.user_uid;
    law_single_active_voice_room(rooms, session, room_id, true);
    let (after, left, _) = leave_outcome(rooms, session, room_id);
    assert(presence_consistent(after, left));
    assert forall|r: RoomId| !#[trigger] is_member(rooms_after, r, uid) by {
        assert(is_member(after, r, left.user_uid) <==> left.active_voice_room_id == Some(r));
    }
    assert forall|u: UserUid| #[trigger] deliveries[0].recipients@.contains(u) <==> u == uid by {
        assert(deliveries[0].recipients@.to_set().contains(u) <==> deliveries[0].recipients@.contains(u));
    }
    assert forall|u: UserUid| #[trigger] deliveries[1].recipients@.contains(u) <==> (is_member(rooms, room_id, u)
        && u != uid) by {
        assert(deliveries[1].recipients@.to_set().contains(u) <==> deliveries[1].recipients@.contains(u));
    }
}

} // verus!
