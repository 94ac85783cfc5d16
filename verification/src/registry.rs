//! Volatile voice-room presence: authenticated sessions, the members of each
//! RAM voice room, and the routing of room messages between members.

use std::collections::HashMap;

use vstd::prelude::*;

use crate::wire::{same_uid, ClientMessage, RoomId, RoomTextContent, ServerMessage, UserUid};

verus! {

broadcast use vstd::std_specs::hash::group_hash_axioms;

/// Authenticated connection state relevant to voice-room presence.
#[derive(Debug, PartialEq, Eq)]
pub struct Session {
    user_uid: UserUid,
    display_name: String,
    active_voice_room_id: Option<RoomId>,
    recent_text_timestamps: Vec<u64>,
}

/// The abstract state of a session.
pub struct SessionView {
    pub user_uid: UserUid,
    pub display_name: Seq<char>,
    pub active_voice_room_id: Option<RoomId>,
    /// Server timestamps (milliseconds) of the text messages forwarded for this
    /// sender that may still count against the rate limit.
    pub recent_text_timestamps: Seq<u64>,
}

/// At most this many text messages of one sender are forwarded within
/// `TEXT_RATE_WINDOW_MILLIS`.
pub const TEXT_RATE_LIMIT_MESSAGES: usize = 5;

/// The length of the text rate-limit window, in milliseconds.
pub const TEXT_RATE_WINDOW_MILLIS: u64 = 2000;

/// A text message forwarded at `sent_at` still counts against the rate limit at
/// `now`: less than the window has passed since (or the clock went back).
pub open spec fn within_rate_window(sent_at: u64, now: u64) -> bool {
    (now as int) < sent_at as int + TEXT_RATE_WINDOW_MILLIS as int
}

/// The timestamps in `sent` that still count against the rate limit at `now`, in order.
pub open spec fn recent_texts(sent: Seq<u64>, now: u64) -> Seq<u64>
    decreases sent.len(),
{
    if sent.len() == 0 {
        Seq::empty()
    } else if within_rate_window(sent.last(), now) {
        recent_texts(sent.drop_last(), now).push(sent.last())
    } else {
        recent_texts(sent.drop_last(), now)
    }
}

/// A text message at `now` is within the rate limit: fewer than
/// `TEXT_RATE_LIMIT_MESSAGES` forwarded texts still count.
pub open spec fn text_rate_allows(sent: Seq<u64>, now: u64) -> bool {
    recent_texts(sent, now).len() < TEXT_RATE_LIMIT_MESSAGES
}

/// The session after a text message at `now` was forwarded.
pub open spec fn text_forwarded(session: SessionView, now: u64) -> SessionView {
    SessionView {
        recent_text_timestamps: recent_texts(session.recent_text_timestamps, now).push(now),
        ..session
    }
}

proof fn lemma_recent_texts_shrink(sent: Seq<u64>, now: u64)
    ensures
        recent_texts(sent, now).len() <= sent.len(),
        forall|i: int| 0 <= i < recent_texts(sent, now).len() ==> within_rate_window(#[trigger] recent_texts(sent, now)[i], now),
    decreases sent.len(),
{
    if sent.len() > 0 {
        lemma_recent_texts_shrink(sent.drop_last(), now);
    }
}

/// Every text in `sent` still counts against the rate limit at `now`.
pub open spec fn all_within_rate_window(sent: Seq<u64>, now: u64) -> bool {
    forall|i: int| 0 <= i < sent.len() ==> within_rate_window(#[trigger] sent[i], now)
}

/// Texts that all still count are all kept.
pub proof fn lemma_recent_texts_all_within(sent: Seq<u64>, now: u64)
    ensures
        all_within_rate_window(sent, now) ==> recent_texts(sent, now) == sent,
    decreases sent.len(),
{
    if sent.len() > 0 && all_within_rate_window(sent, now) {
        let rest = sent.drop_last();
        assert forall|i: int| 0 <= i < rest.len() implies within_rate_window(#[trigger] rest[i], now) by {
            assert(rest[i] == sent[i]);
        }
        lemma_recent_texts_all_within(rest, now);
        assert(sent.last() == sent[sent.len() - 1]);
        assert(rest.push(sent.last()) =~= sent);
    }
}

/// Rate limit: a session never has more than `TEXT_RATE_LIMIT_MESSAGES` forwarded
/// texts inside one window; a text admitted at `now` leaves at most that many
/// texts counting at `now`, all within the window.
pub proof fn law_text_rate_limit_is_kept(sent: Seq<u64>, now: u64)
    requires
        text_rate_allows(sent, now),
    ensures
        recent_texts(sent, now).push(now).len() <= TEXT_RATE_LIMIT_MESSAGES,
        forall|i: int|
            0 <= i < recent_texts(sent, now).push(now).len() ==> within_rate_window(
                #[trigger] recent_texts(sent, now).push(now)[i],
                now,
            ),
{
    lemma_recent_texts_shrink(sent, now);
    let kept = recent_texts(sent, now).push(now);
    assert forall|i: int| 0 <= i < kept.len() implies within_rate_window(#[trigger] kept[i], now) by {
        if i < kept.len() - 1 {
            assert(kept[i] == recent_texts(sent, now)[i]);
        }
    }
}

impl View for Session {
    type V = SessionView;

    closed spec fn view(&self) -> SessionView {
        SessionView {
            user_uid: self.user_uid,
            display_name: self.display_name@,
            active_voice_room_id: self.active_voice_room_id,
            recent_text_timestamps: self.recent_text_timestamps@,
        }
    }
}

impl Clone for Session {
    fn clone(&self) -> (copy: Self)
        ensures
            copy@ == self@,
    {
        Session {
            user_uid: self.user_uid,
            display_name: self.display_name.clone(),
            active_voice_room_id: self.active_voice_room_id,
            recent_text_timestamps: self.recent_text_timestamps.clone(),
        }
    }
}

impl Session {
    pub fn new(user_uid: UserUid, display_name: String) -> (session: Self)
        ensures
            session@.user_uid == user_uid,
            session@.display_name == display_name@,
            session@.active_voice_room_id == None::<RoomId>,
            session@.recent_text_timestamps == Seq::<u64>::empty(),
    {
        Session { user_uid, display_name, active_voice_room_id: None, recent_text_timestamps: Vec::new() }
    }

    pub fn user_uid(&self) -> (uid: UserUid)
        ensures
            uid == self@.user_uid,
    {
        self.user_uid
    }

    pub fn display_name(&self) -> (name: &str)
        ensures
            name@ == self@.display_name,
    {
        self.display_name.as_str()
    }

    pub fn active_voice_room_id(&self) -> (room_id: Option<RoomId>)
        ensures
            room_id == self@.active_voice_room_id,
    {
        self.active_voice_room_id
    }

    /// Admits a text message at `now` if the sender is within the rate limit, and
    /// then records it; a text over the limit changes nothing.
    pub fn admit_text(&mut self, now: u64) -> (admitted: bool)
        ensures
            admitted == text_rate_allows(old(self)@.recent_text_timestamps, now),
            final(self)@ == if admitted {
                text_forwarded(old(self)@, now)
            } else {
                old(self)@
            },
            old(self)@.recent_text_timestamps.len() < TEXT_RATE_LIMIT_MESSAGES ==> admitted,
            final(self)@.recent_text_timestamps.len() <= old(self)@.recent_text_timestamps.len() + 1,
            all_within_rate_window(old(self)@.recent_text_timestamps, now) ==> {
                &&& admitted == (old(self)@.recent_text_timestamps.len() < TEXT_RATE_LIMIT_MESSAGES)
                &&& admitted ==> final(self)@.recent_text_timestamps == old(
                    self,
                )@.recent_text_timestamps.push(now)
            },
    {
        proof {
            lemma_recent_texts_shrink(self.recent_text_timestamps@, now);
            lemma_recent_texts_all_within(self.recent_text_timestamps@, now);
        }
        let mut kept: Vec<u64> = Vec::new();
        let mut i: usize = 0;
        while i < self.recent_text_timestamps.len()
            invariant
                i <= self.recent_text_timestamps@.len(),
                kept@ == recent_texts(self.recent_text_timestamps@.subrange(0, i as int), now),
            decreases self.recent_text_timestamps@.len() - i,
        {
            let sent_at = self.recent_text_timestamps[i];
            let ghost before = self.recent_text_timestamps@.subrange(0, i as int);
            let ghost next = self.recent_text_timestamps@.subrange(0, i as int + 1);
            assert(next.drop_last() =~= before);
            assert(next.last() == sent_at);
            if (now as u128) < (sent_at as u128) + (TEXT_RATE_WINDOW_MILLIS as u128) {
                kept.push(sent_at);
            }
            i = i + 1;
        }
        assert(self.recent_text_timestamps@.subrange(0, i as int) =~= self.recent_text_timestamps@);
        if kept.len() < TEXT_RATE_LIMIT_MESSAGES {
            kept.push(now);
            self.recent_text_timestamps = kept;
            true
        } else {
            false
        }
    }
}

/// Tracks the active members of each ephemeral RAM voice room.
/// A room without members has no entry.
pub struct RoomRegistry {
    members_by_room: HashMap<RoomId, Vec<UserUid>>,
}

impl View for RoomRegistry {
    type V = Map<RoomId, Set<UserUid>>;

    closed spec fn view(&self) -> Map<RoomId, Set<UserUid>> {
        Map::new(
            |room_id: RoomId| self.members_by_room@.contains_key(room_id),
            |room_id: RoomId| self.members_by_room@[room_id]@.to_set(),
        )
    }
}

impl RoomRegistry {
    /// Each room entry lists at least one member, and no member twice.
    pub closed spec fn wf(&self) -> bool {
        forall|room_id: RoomId|
            #[trigger] self.members_by_room@.contains_key(room_id) ==> {
                &&& self.members_by_room@[room_id]@.len() > 0
                &&& self.members_by_room@[room_id]@.no_duplicates()
            }
    }
}

/// `uid` is currently a member of `room_id`.
pub open spec fn is_member(rooms: Map<RoomId, Set<UserUid>>, room_id: RoomId, uid: UserUid) -> bool {
    rooms.contains_key(room_id) && rooms[room_id].contains(uid)
}

/// The members of `room_id` other than `uid`.
pub open spec fn others_in(rooms: Map<RoomId, Set<UserUid>>, room_id: RoomId, uid: UserUid) -> Set<UserUid> {
    if rooms.contains_key(room_id) {
        rooms[room_id].remove(uid)
    } else {
        Set::empty()
    }
}

/// The rooms after `uid` has been admitted to `room_id`.
pub open spec fn with_member(rooms: Map<RoomId, Set<UserUid>>, room_id: RoomId, uid: UserUid) -> Map<
    RoomId,
    Set<UserUid>,
> {
    if rooms.contains_key(room_id) {
        rooms.insert(room_id, rooms[room_id].insert(uid))
    } else {
        rooms.insert(room_id, Set::empty().insert(uid))
    }
}

/// The rooms after `uid` has been removed from `room_id`; a room left empty disappears.
pub open spec fn without_member(rooms: Map<RoomId, Set<UserUid>>, room_id: RoomId, uid: UserUid) -> Map<
    RoomId,
    Set<UserUid>,
> {
    if rooms.contains_key(room_id) {
        if rooms[room_id].remove(uid).is_empty() {
            rooms.remove(room_id)
        } else {
            rooms.insert(room_id, rooms[room_id].remove(uid))
        }
    } else {
        rooms
    }
}

proof fn lemma_push_contains<A>(s: Seq<A>, v: A)
    ensures
        forall|x: A| #[trigger] s.push(v).contains(x) <==> (s.contains(x) || x == v),
        s.no_duplicates() && !s.contains(v) ==> s.push(v).no_duplicates(),
        s.push(v).to_set() == s.to_set().insert(v),
{
    assert forall|x: A| #[trigger] s.push(v).contains(x) <==> (s.contains(x) || x == v) by {
        if s.push(v).contains(x) {
            let k = choose|k: int| 0 <= k < s.push(v).len() && s.push(v)[k] == x;
            if k < s.len() {
                assert(s[k] == x);
            }
        }
        if s.contains(x) {
            let k = choose|k: int| 0 <= k < s.len() && s[k] == x;
            assert(s.push(v)[k] == x);
        }
        if x == v {
            assert(s.push(v)[s.len() as int] == x);
        }
    }
    if s.no_duplicates() && !s.contains(v) {
        assert forall|i: int, j: int|
            0 <= i < s.push(v).len() && 0 <= j < s.push(v).len() && i != j implies s.push(v)[i]
            != s.push(v)[j] by {
            if i < s.len() && j == s.len() {
                assert(s[i] == s.push(v)[i]);
            }
            if j < s.len() && i == s.len() {
                assert(s[j] == s.push(v)[j]);
            }
        }
    }
    assert(s.push(v).to_set() =~= s.to_set().insert(v));
}

fn vec_contains_uid(members: &Vec<UserUid>, uid: &UserUid) -> (found: bool)
    ensures
        found == members@.contains(*uid),
{
    let mut i: usize = 0;
    while i < members.len()
        invariant
            i <= members@.len(),
            forall|j: int| 0 <= j < i ==> members@[j] != *uid,
        decreases members@.len() - i,
    {
        if same_uid(&members[i], uid) {
            return true;
        }
        i = i + 1;
    }
    false
}

fn vec_without_uid(members: &Vec<UserUid>, uid: &UserUid) -> (rest: Vec<UserUid>)
    requires
        members@.no_duplicates(),
    ensures
        rest@.no_duplicates(),
        rest@.to_set() == members@.to_set().remove(*uid),
{
    let mut rest: Vec<UserUid> = Vec::new();
    let mut i: usize = 0;
    while i < members.len()
        invariant
            i <= members@.len(),
            members@.no_duplicates(),
            rest@.no_duplicates(),
            forall|x: UserUid|
                rest@.contains(x) <==> (members@.subrange(0, i as int).contains(x) && x != *uid),
        decreases members@.len() - i,
    {
        let member = members[i];
        let ghost prev = members@.subrange(0, i as int);
        let ghost rest_before = rest@;
        assert(members@.subrange(0, i + 1) =~= prev.push(member));
        proof {
            lemma_push_contains(prev, member);
        }
        if !same_uid(&member, uid) {
            assert(!prev.contains(member)) by {
                if prev.contains(member) {
                    let j = choose|j: int| 0 <= j < prev.len() && prev[j] == member;
                    assert(members@[j] == members@[i as int]);
                }
            }
            proof {
                lemma_push_contains(rest_before, member);
            }
            rest.push(member);
        }
        i = i + 1;
    }
    assert(members@.subrange(0, i as int) =~= members@);
    assert(rest@.to_set() =~= members@.to_set().remove(*uid));
    rest
}

impl Default for RoomRegistry {
    fn default() -> (registry: Self)
        ensures
            registry.wf(),
            registry@ == Map::<RoomId, Set<UserUid>>::empty(),
    {
        let registry = RoomRegistry { members_by_room: HashMap::new() };
        assert(registry@ =~= Map::<RoomId, Set<UserUid>>::empty());
        registry
    }
}

impl RoomRegistry {
    /// Every room in a well-formed registry has at least one member.
    pub proof fn lemma_rooms_are_nonempty(&self)
        requires
            self.wf(),
        ensures
            forall|room_id: RoomId| #[trigger]
                self@.contains_key(room_id) ==> self@[room_id].finite() && !self@[room_id].is_empty(),
    {
        assert forall|room_id: RoomId| #[trigger]
            self@.contains_key(room_id) implies self@[room_id].finite()
            && !self@[room_id].is_empty() by {
            let members = self.members_by_room@[room_id]@;
            vstd::seq_lib::seq_to_set_is_finite(members);
            assert(members.to_set().contains(members[0]));
        }
    }

    /// The members of a room, if it has any.
    pub fn members(&self, room_id: RoomId) -> (members: Option<&Vec<UserUid>>)
        requires
            self.wf(),
        ensures
            members is Some == self@.contains_key(room_id),
            members matches Some(list) ==> list@.to_set() == self@[room_id]
                && list@.no_duplicates(),
    {
        self.members_by_room.get(&room_id)
    }

    fn add_member(&mut self, room_id: RoomId, uid: UserUid)
        requires
            old(self).wf(),
        ensures
            final(self).wf(),
            final(self)@ == with_member(old(self)@, room_id, uid),
    {
        let ghost before = self@;
        match self.members_by_room.remove(&room_id) {
            Some(mut members) => {
                let ghost old_members = members@;
                if !vec_contains_uid(&members, &uid) {
                    proof {
                        lemma_push_contains(old_members, uid);
                    }
                    members.push(uid);
                } else {
                    assert(old_members.to_set().insert(uid) =~= old_members.to_set());
                }
                assert(members@.to_set() =~= before[room_id].insert(uid));
                self.members_by_room.insert(room_id, members);
            },
            None => {
                let mut members: Vec<UserUid> = Vec::new();
                proof {
                    lemma_push_contains(members@, uid);
                }
                members.push(uid);
                assert(members@.to_set() =~= Set::<UserUid>::empty().insert(uid));
                self.members_by_room.insert(room_id, members);
            },
        }
        assert(self@ =~= with_member(before, room_id, uid));
    }

    fn remove_member(&mut self, room_id: RoomId, uid: &UserUid)
        requires
            old(self).wf(),
        ensures
            final(self).wf(),
            final(self)@ == without_member(old(self)@, room_id, *uid),
    {
        let ghost before = self@;
        match self.members_by_room.remove(&room_id) {
            Some(members) => {
                let rest = vec_without_uid(&members, uid);
                if rest.len() == 0 {
                    assert(rest@.to_set() =~= Set::<UserUid>::empty());
                    assert(self@ =~= without_member(before, room_id, *uid));
                } else {
                    assert(rest@.to_set().contains(rest@[0]));
                    self.members_by_room.insert(room_id, rest);
                    assert(self@ =~= without_member(before, room_id, *uid));
                }
            },
            None => {
                assert(self@ =~= before);
            },
        }
    }
}


/// The state change caused by a voice-room request.
#[derive(Clone, Copy, Debug, PartialEq, Eq)]
pub enum VoiceRoomTransition {
    NoChange,
    Joined { room_id: RoomId },
    Switched { from_room_id: RoomId, to_room_id: RoomId },
    Left { room_id: RoomId },
}

/// Actions that can require a separate power level in a room.
#[derive(Clone, Copy, Debug, PartialEq, Eq, Hash)]
pub enum RoomAction {
    Join,
    Speak,
    Write,
    Signal,
    ManageRoom,
}

/// Access is granted when the user's effective power reaches the room's requirement.
pub fn power_suffices(effective_power: u16, required_power: u16) -> (allowed: bool)
    ensures
        allowed == (effective_power >= required_power),
{
    effective_power >= required_power
}

/// Resolves a user's power and the room power required for an action.
pub trait PermissionEvaluator {
    fn effective_power(&self, user_uid: UserUid, action: RoomAction) -> u16;

    fn required_power(&self, room_id: RoomId, action: RoomAction) -> u16;

    /// Allows the action when the power reported for the user reaches the power
    /// reported as required in the room.
    fn is_allowed(&self, user_uid: UserUid, room_id: RoomId, action: RoomAction) -> (allowed: bool)
        ensures
            exists|effective: u16, required: u16|
                call_ensures(Self::effective_power, (self, user_uid, action), effective)
                    && call_ensures(Self::required_power, (self, room_id, action), required)
                    && allowed == (effective >= required),
    {
        let effective = self.effective_power(user_uid, action);
        let required = self.required_power(room_id, action);
        power_suffices(effective, required)
    }
}

/// `allowed` is an answer that `evaluator` can give on `action` by `user_uid` in
/// `room_id`: a power it can report for the user, set against a power it can report
/// as required in the room.
pub open spec fn evaluator_answer<P: PermissionEvaluator + ?Sized>(
    evaluator: &P,
    user_uid: UserUid,
    room_id: RoomId,
    action: RoomAction,
    allowed: bool,
) -> bool {
    exists|effective: u16, required: u16|
        #![trigger call_ensures(P::effective_power, (evaluator, user_uid, action), effective), call_ensures(P::required_power, (evaluator, room_id, action), required)]
        call_ensures(P::effective_power, (evaluator, user_uid, action), effective)
            && call_ensures(P::required_power, (evaluator, room_id, action), required)
            && allowed == (effective >= required)
}

/// Why a session cannot enter a voice room.
#[derive(Clone, Copy, Debug, PartialEq, Eq)]
pub enum RoomJoinError {
    PermissionDenied,
}

/// The rooms, the session and the reply after a join request, given whether the
/// permission evaluator admitted the user.
pub open spec fn join_outcome(
    rooms: Map<RoomId, Set<UserUid>>,
    session: SessionView,
    room_id: RoomId,
    join_allowed: bool,
) -> (Map<RoomId, Set<UserUid>>, SessionView, Result<VoiceRoomTransition, RoomJoinError>) {
    if !join_allowed {
        (rooms, session, Err(RoomJoinError::PermissionDenied))
    } else {
        match session.active_voice_room_id {
            Some(active_room_id) => if active_room_id == room_id {
                (rooms, session, Ok(VoiceRoomTransition::NoChange))
            } else {
                (
                    with_member(
                        without_member(rooms, active_room_id, session.user_uid),
                        room_id,
                        session.user_uid,
                    ),
                    SessionView { active_voice_room_id: Some(room_id), ..session },
                    Ok(VoiceRoomTransition::Switched { from_room_id: active_room_id, to_room_id: room_id }),
                )
            },
            None => (
                with_member(rooms, room_id, session.user_uid),
                SessionView { active_voice_room_id: Some(room_id), ..session },
                Ok(VoiceRoomTransition::Joined { room_id }),
            ),
        }
    }
}

/// The rooms, the session and the reply after a leave request.
pub open spec fn leave_outcome(
    rooms: Map<RoomId, Set<UserUid>>,
    session: SessionView,
    room_id: RoomId,
) -> (Map<RoomId, Set<UserUid>>, SessionView, VoiceRoomTransition) {
    if session.active_voice_room_id == Some(room_id) {
        (
            without_member(rooms, room_id, session.user_uid),
            SessionView { active_voice_room_id: None, ..session },
            VoiceRoomTransition::Left { room_id },
        )
    } else {
        (rooms, session, VoiceRoomTransition::NoChange)
    }
}

impl RoomRegistry {
    /// Applies a join request whose permission check came out as `join_allowed`.
    pub fn join_voice_room_with_permission(
        &mut self,
        session: &mut Session,
        room_id: RoomId,
        join_allowed: bool,
    ) -> (transition: Result<VoiceRoomTransition, RoomJoinError>)
        requires
            old(self).wf(),
        ensures
            final(self).wf(),
            (final(self)@, final(session)@, transition) == join_outcome(
                old(self)@,
                old(session)@,
                room_id,
                join_allowed,
            ),
    {
        if !join_allowed {
            return Err(RoomJoinError::PermissionDenied);
        }
        match session.active_voice_room_id {
            Some(active_room_id) => {
                if active_room_id == room_id {
                    Ok(VoiceRoomTransition::NoChange)
                } else {
                    // Remove the previous membership before admitting the session to the next room.
                    self.remove_member(active_room_id, &session.user_uid);
                    self.add_member(room_id, session.user_uid);
                    session.active_voice_room_id = Some(room_id);
                    Ok(VoiceRoomTransition::Switched { from_room_id: active_room_id, to_room_id: room_id })
                }
            },
            None => {
                self.add_member(room_id, session.user_uid);
                session.active_voice_room_id = Some(room_id);
                Ok(VoiceRoomTransition::Joined { room_id })
            },
        }
    }

    /// Admits the session to a voice room if the evaluator grants `Join`, leaving
    /// its previous room; joining the current room changes nothing.
    pub fn join_voice_room(
        &mut self,
        session: &mut Session,
        room_id: RoomId,
        permission_evaluator: &impl PermissionEvaluator,
    ) -> (transition: Result<VoiceRoomTransition, RoomJoinError>)
        requires
            old(self).wf(),
        ensures
            final(self).wf(),
            exists|join_allowed: bool|
                #[trigger] evaluator_answer(
                    permission_evaluator,
                    old(session)@.user_uid,
                    room_id,
                    RoomAction::Join,
                    join_allowed,
                ) && (final(self)@, final(session)@, transition) == join_outcome(
                    old(self)@,
                    old(session)@,
                    room_id,
                    join_allowed,
                ),
    {
        let join_allowed = permission_evaluator.is_allowed(session.user_uid, room_id, RoomAction::Join);
        assert(evaluator_answer(permission_evaluator, session@.user_uid, room_id, RoomAction::Join, join_allowed));
        let transition = self.join_voice_room_with_permission(session, room_id, join_allowed);
        assert((self@, session@, transition) == join_outcome(
            old(self)@,
            old(session)@,
            room_id,
            join_allowed,
        ));
        transition
    }

    /// Removes the session from `room_id` if that is its active room; a stale or
    /// repeated leave changes nothing.
    pub fn leave_voice_room(&mut self, session: &mut Session, room_id: RoomId) -> (transition:
        VoiceRoomTransition)
        requires
            old(self).wf(),
        ensures
            final(self).wf(),
            (final(self)@, final(session)@, transition) == leave_outcome(
                old(self)@,
                old(session)@,
                room_id,
            ),
    {
        match session.active_voice_room_id {
            Some(active_room_id) => {
                if active_room_id != room_id {
                    return VoiceRoomTransition::NoChange;
                }
            },
            None => {
                return VoiceRoomTransition::NoChange;
            },
        }
        self.remove_member(room_id, &session.user_uid);
        session.active_voice_room_id = None;
        VoiceRoomTransition::Left { room_id }
    }
}


/// A trusted server message and the sessions that must receive it.
#[derive(Clone, Debug, PartialEq)]
pub struct RoutedServerMessage {
    recipients: Vec<UserUid>,
    message: ServerMessage,
}

impl RoutedServerMessage {
    pub closed spec fn recipient_list(&self) -> Seq<UserUid> {
        self.recipients@
    }

    pub closed spec fn payload(&self) -> ServerMessage {
        self.message
    }

    pub fn recipients(&self) -> (recipients: &Vec<UserUid>)
        ensures
            recipients@ == self.recipient_list(),
    {
        &self.recipients
    }

    pub fn message(&self) -> (message: &ServerMessage)
        ensures
            *message == self.payload(),
    {
        &self.message
    }

    /// The recipients and the message, by value.
    pub fn into_parts(self) -> (parts: (Vec<UserUid>, ServerMessage))
        ensures
            parts.0@ == self.recipient_list(),
            parts.1 == self.payload(),
    {
        (self.recipients, self.message)
    }
}

/// Why a client message cannot be routed within a voice room.
#[derive(Clone, Copy, Debug, PartialEq, Eq)]
pub enum RoomRoutingError {
    PermissionDenied { action: RoomAction },
    SenderNotInActiveVoiceRoom,
    TargetNotInActiveVoiceRoom,
    UnsupportedClientMessage,
}

/// The session's active voice room is `room_id` and the registry lists it there.
pub open spec fn sender_in_active_room(
    rooms: Map<RoomId, Set<UserUid>>,
    session: SessionView,
    room_id: RoomId,
) -> bool {
    session.active_voice_room_id == Some(room_id) && is_member(rooms, room_id, session.user_uid)
}

/// The room and the action that routing a client message requires, if it is a room message.
pub open spec fn routed_room_action(message: ClientMessage) -> Option<(RoomId, RoomAction)> {
    match message {
        ClientMessage::SendTextMessage { room_id, .. } => Some((room_id, RoomAction::Write)),
        ClientMessage::SendWebRtcSdp { room_id, .. } => Some((room_id, RoomAction::Signal)),
        ClientMessage::SendWebRtcIce { room_id, .. } => Some((room_id, RoomAction::Signal)),
        _ => None,
    }
}

/// The permission answer that routing `message` goes by is one the evaluator can
/// give on the message's action, once the sender is confirmed in its active room.
pub open spec fn routing_permission<P: PermissionEvaluator + ?Sized>(
    evaluator: &P,
    rooms: Map<RoomId, Set<UserUid>>,
    session: SessionView,
    message: ClientMessage,
    action_allowed: bool,
) -> bool {
    match routed_room_action(message) {
        Some((room_id, action)) => sender_in_active_room(rooms, session, room_id) ==> evaluator_answer(
            evaluator,
            session.user_uid,
            room_id,
            action,
            action_allowed,
        ),
        None => true,
    }
}

/// A text broadcast carrying the server-known identity and name of the sender.
pub open spec fn is_text_broadcast(
    message: ServerMessage,
    room_id: RoomId,
    session: SessionView,
    text: RoomTextContent,
    server_timestamp: u64,
) -> bool {
    &&& message matches ServerMessage::BroadcastTextMessage {
        room_id: r,
        sender_uid,
        sender_name,
        text_content,
        server_timestamp: t,
    }
    &&& r == room_id
    &&& sender_uid == session.user_uid
    &&& sender_name@ == session.display_name
    &&& text_content == text
    &&& t == server_timestamp
}

/// The reply to a room message, given whether the evaluator granted the required action.
pub open spec fn routing_outcome(
    result: Result<RoutedServerMessage, RoomRoutingError>,
    rooms: Map<RoomId, Set<UserUid>>,
    session: SessionView,
    message: ClientMessage,
    server_timestamp: u64,
    action_allowed: bool,
) -> bool {
    match message {
        ClientMessage::SendTextMessage { room_id, text_content } => {
            if !sender_in_active_room(rooms, session, room_id) {
                result == Err::<RoutedServerMessage, _>(RoomRoutingError::SenderNotInActiveVoiceRoom)
            } else if !action_allowed {
                result == Err::<RoutedServerMessage, _>(
                    RoomRoutingError::PermissionDenied { action: RoomAction::Write },
                )
            } else {
                &&& result matches Ok(routed)
                &&& routed.recipient_list().no_duplicates()
                &&& routed.recipient_list().to_set() == rooms[room_id].remove(session.user_uid)
                &&& is_text_broadcast(routed.payload(), room_id, session, text_content, server_timestamp)
            }
        },
        ClientMessage::SendWebRtcSdp { room_id, target_uid, sdp_type, sdp_raw } => {
            if !sender_in_active_room(rooms, session, room_id) {
                result == Err::<RoutedServerMessage, _>(RoomRoutingError::SenderNotInActiveVoiceRoom)
            } else if !action_allowed {
                result == Err::<RoutedServerMessage, _>(
                    RoomRoutingError::PermissionDenied { action: RoomAction::Signal },
                )
            } else if !is_member(rooms, room_id, target_uid) {
                result == Err::<RoutedServerMessage, _>(RoomRoutingError::TargetNotInActiveVoiceRoom)
            } else {
                &&& result matches Ok(routed)
                &&& routed.recipient_list() == seq![target_uid]
                &&& routed.payload() == ServerMessage::ForwardWebRtcSdp {
                    room_id,
                    sender_uid: session.user_uid,
                    sdp_type,
                    sdp_raw,
                }
            }
        },
        ClientMessage::SendWebRtcIce { room_id, target_uid, candidate } => {
            if !sender_in_active_room(rooms, session, room_id) {
                result == Err::<RoutedServerMessage, _>(RoomRoutingError::SenderNotInActiveVoiceRoom)
            } else if !action_allowed {
                result == Err::<RoutedServerMessage, _>(
                    RoomRoutingError::PermissionDenied { action: RoomAction::Signal },
                )
            } else if !is_member(rooms, room_id, target_uid) {
                result == Err::<RoutedServerMessage, _>(RoomRoutingError::TargetNotInActiveVoiceRoom)
            } else {
                &&& result matches Ok(routed)
                &&& routed.recipient_list() == seq![target_uid]
                &&& routed.payload() == ServerMessage::ForwardWebRtcIce {
                    room_id,
                    sender_uid: session.user_uid,
                    candidate,
                }
            }
        },
        _ => result == Err::<RoutedServerMessage, _>(RoomRoutingError::UnsupportedClientMessage),
    }
}

impl RoomRegistry {
    fn is_member_of(&self, room_id: RoomId, uid: &UserUid) -> (member: bool)
        requires
            self.wf(),
        ensures
            member == is_member(self@, room_id, *uid),
    {
        match self.members_by_room.get(&room_id) {
            Some(members) => vec_contains_uid(members, uid),
            None => false,
        }
    }

    pub(crate) fn ensure_active_member(&self, session: &Session, room_id: RoomId) -> (in_room: bool)
        requires
            self.wf(),
        ensures
            in_room == sender_in_active_room(self@, session@, room_id),
    {
        match session.active_voice_room_id {
            Some(active_room_id) => active_room_id == room_id && self.is_member_of(
                room_id,
                &session.user_uid,
            ),
            None => false,
        }
    }

    /// The members of a room other than `uid`; none for a room without members.
    pub fn members_except(&self, room_id: RoomId, uid: &UserUid) -> (others: Vec<UserUid>)
        requires
            self.wf(),
        ensures
            others@.no_duplicates(),
            others@.to_set() == others_in(self@, room_id, *uid),
    {
        match self.members_by_room.get(&room_id) {
            Some(members) => vec_without_uid(members, uid),
            None => {
                let others: Vec<UserUid> = Vec::new();
                assert(others@.to_set() =~= Set::<UserUid>::empty());
                others
            },
        }
    }

    /// Routes a room message whose permission check came out as `action_allowed`.
    pub fn route_client_room_message_with_permission(
        &self,
        session: &Session,
        message: ClientMessage,
        server_timestamp: u64,
        action_allowed: bool,
    ) -> (result: Result<RoutedServerMessage, RoomRoutingError>)
        requires
            self.wf(),
        ensures
            routing_outcome(result, self@, session@, message, server_timestamp, action_allowed),
    {
        match message {
            ClientMessage::SendTextMessage { room_id, text_content } => {
                if !self.ensure_active_member(session, room_id) {
                    return Err(RoomRoutingError::SenderNotInActiveVoiceRoom);
                }
                if !action_allowed {
                    return Err(RoomRoutingError::PermissionDenied { action: RoomAction::Write });
                }
                Ok(
                    RoutedServerMessage {
                        recipients: self.members_except(room_id, &session.user_uid),
                        message: ServerMessage::BroadcastTextMessage {
                            room_id,
                            sender_uid: session.user_uid,
                            sender_name: session.display_name.clone(),
                            text_content,
                            server_timestamp,
                        },
                    },
                )
            },
            ClientMessage::SendWebRtcSdp { room_id, target_uid, sdp_type, sdp_raw } => {
                if !self.ensure_active_member(session, room_id) {
                    return Err(RoomRoutingError::SenderNotInActiveVoiceRoom);
                }
                if !action_allowed {
                    return Err(RoomRoutingError::PermissionDenied { action: RoomAction::Signal });
                }
                if !self.is_member_of(room_id, &target_uid) {
                    return Err(RoomRoutingError::TargetNotInActiveVoiceRoom);
                }
                let mut recipients: Vec<UserUid> = Vec::new();
                recipients.push(target_uid);
                assert(recipients@ =~= seq![target_uid]);
                Ok(
                    RoutedServerMessage {
                        recipients,
                        message: ServerMessage::ForwardWebRtcSdp {
                            room_id,
                            sender_uid: session.user_uid,
                            sdp_type,
                            sdp_raw,
                        },
                    },
                )
            },
            ClientMessage::SendWebRtcIce { room_id, target_uid, candidate } => {
                if !self.ensure_active_member(session, room_id) {
                    return Err(RoomRoutingError::SenderNotInActiveVoiceRoom);
                }
                if !action_allowed {
                    return Err(RoomRoutingError::PermissionDenied { action: RoomAction::Signal });
                }
                if !self.is_member_of(room_id, &target_uid) {
                    return Err(RoomRoutingError::TargetNotInActiveVoiceRoom);
                }
                let mut recipients: Vec<UserUid> = Vec::new();
                recipients.push(target_uid);
                assert(recipients@ =~= seq![target_uid]);
                Ok(
                    RoutedServerMessage {
                        recipients,
                        message: ServerMessage::ForwardWebRtcIce {
                            room_id,
                            sender_uid: session.user_uid,
                            candidate,
                        },
                    },
                )
            },
            _ => Err(RoomRoutingError::UnsupportedClientMessage),
        }
    }

    /// Routes a text or WebRTC signaling message from a member of its active voice
    /// room: text goes to the other members, signaling to one member of the room.
    /// The evaluator is asked for `Write` (text) or `Signal` (SDP, ICE) only after the
    /// sender's membership has been confirmed.
    pub fn route_client_room_message(
        &self,
        session: &Session,
        message: ClientMessage,
        server_timestamp: u64,
        permission_evaluator: &impl PermissionEvaluator,
    ) -> (result: Result<RoutedServerMessage, RoomRoutingError>)
        requires
            self.wf(),
        ensures
            exists|action_allowed: bool|
                #[trigger] routing_outcome(
                    result,
                    self@,
                    session@,
                    message,
                    server_timestamp,
                    action_allowed,
                ) && routing_permission(permission_evaluator, self@, session@, message, action_allowed),
    {
        let room_action = match &message {
            ClientMessage::SendTextMessage { room_id, .. } => Some((*room_id, RoomAction::Write)),
            ClientMessage::SendWebRtcSdp { room_id, .. } => Some((*room_id, RoomAction::Signal)),
            ClientMessage::SendWebRtcIce { room_id, .. } => Some((*room_id, RoomAction::Signal)),
            _ => None,
        };
        let action_allowed = match room_action {
            Some((room_id, action)) => {
                if self.ensure_active_member(session, room_id) {
                    permission_evaluator.is_allowed(session.user_uid, room_id, action)
                } else {
                    false
                }
            },
            None => false,
        };
        let ghost incoming = message;
        let result = self.route_client_room_message_with_permission(
            session,
            message,
            server_timestamp,
            action_allowed,
        );
        assert(routing_outcome(result, self@, session@, incoming, server_timestamp, action_allowed));
        assert(routing_permission(permission_evaluator, self@, session@, incoming, action_allowed));
        result
    }
}


/// The registry lists the session's user in its active room and nowhere else.
pub open spec fn presence_consistent(rooms: Map<RoomId, Set<UserUid>>, session: SessionView) -> bool {
    forall|room_id: RoomId|
        #[trigger] is_member(rooms, room_id, session.user_uid) <==> session.active_voice_room_id
            == Some(room_id)
}

/// No room entry is empty.
pub open spec fn rooms_nonempty(rooms: Map<RoomId, Set<UserUid>>) -> bool {
    forall|room_id: RoomId| #[trigger] rooms.contains_key(room_id) ==> !rooms[room_id].is_empty()
}

proof fn lemma_with_member(rooms: Map<RoomId, Set<UserUid>>, room_id: RoomId, uid: UserUid)
    ensures
        forall|r: RoomId, x: UserUid|
            #[trigger] is_member(with_member(rooms, room_id, uid), r, x) <==> (is_member(rooms, r, x)
                || (r == room_id && x == uid)),
        rooms_nonempty(rooms) ==> rooms_nonempty(with_member(rooms, room_id, uid)),
{
    let after = with_member(rooms, room_id, uid);
    assert forall|r: RoomId| #[trigger] after.contains_key(r) && rooms_nonempty(rooms) implies !after[r].is_empty() by {
        if r == room_id {
            assert(after[r].contains(uid));
        } else {
            assert(rooms.contains_key(r));
            let x = rooms[r].choose();
            assert(after[r].contains(x));
        }
    }
}

/// Removing a user from a room takes exactly that user out of that room, and
/// leaves no room entry empty: a room whose last member leaves has no entry.
pub proof fn law_removing_a_member(rooms: Map<RoomId, Set<UserUid>>, room_id: RoomId, uid: UserUid)
    ensures
        forall|r: RoomId, x: UserUid|
            #[trigger] is_member(without_member(rooms, room_id, uid), r, x) <==> (is_member(
                rooms,
                r,
                x,
            ) && !(r == room_id && x == uid)),
        rooms_nonempty(rooms) ==> rooms_nonempty(without_member(rooms, room_id, uid)),
{
    let after = without_member(rooms, room_id, uid);
    assert forall|r: RoomId, x: UserUid|
        #[trigger] is_member(after, r, x) <==> (is_member(rooms, r, x) && !(r == room_id && x == uid)) by {
        if rooms.contains_key(room_id) && r == room_id && rooms[room_id].remove(uid).is_empty()
            && is_member(rooms, r, x) && x != uid {
            assert(rooms[room_id].remove(uid).contains(x));
        }
    }
    assert forall|r: RoomId| #[trigger] after.contains_key(r) && rooms_nonempty(rooms) implies !after[r].is_empty() by {
        if r != room_id {
            let x = rooms[r].choose();
            assert(after[r].contains(x));
        }
    }
}

/// Joining the room a session is already in changes nothing.
pub proof fn law_join_current_room_is_no_op(
    rooms: Map<RoomId, Set<UserUid>>,
    session: SessionView,
    room_id: RoomId,
)
    requires
        session.active_voice_room_id == Some(room_id),
    ensures
        join_outcome(rooms, session, room_id, true) == (rooms, session, Ok::<
            VoiceRoomTransition,
            RoomJoinError,
        >(VoiceRoomTransition::NoChange)),
{
}

/// A refused join leaves the rooms and the session unchanged.
pub proof fn law_denied_join_changes_nothing(
    rooms: Map<RoomId, Set<UserUid>>,
    session: SessionView,
    room_id: RoomId,
)
    ensures
        join_outcome(rooms, session, room_id, false) == (rooms, session, Err::<
            VoiceRoomTransition,
            RoomJoinError,
        >(RoomJoinError::PermissionDenied)),
{
}

/// A user occupies at most one voice room: joins and leaves keep the registry
/// listing the user exactly in the session's active room, and leave every other
/// user's memberships as they were.
pub proof fn law_single_active_voice_room(
    rooms: Map<RoomId, Set<UserUid>>,
    session: SessionView,
    room_id: RoomId,
    join_allowed: bool,
)
    requires
        presence_consistent(rooms, session),
    ensures
        ({
            let (after, session_after, _) = join_outcome(rooms, session, room_id, join_allowed);
            &&& presence_consistent(after, session_after)
            &&& forall|r: RoomId, other: UserUid|
                other != session.user_uid ==> (#[trigger] is_member(after, r, other) <==> is_member(
                    rooms,
                    r,
                    other,
                ))
        }),
        ({
            let (after, session_after, _) = leave_outcome(rooms, session, room_id);
            &&& presence_consistent(after, session_after)
            &&& forall|r: RoomId, other: UserUid|
                other != session.user_uid ==> (#[trigger] is_member(after, r, other) <==> is_member(
                    rooms,
                    r,
                    other,
                ))
        }),
{
    let uid = session.user_uid;
    lemma_with_member(rooms, room_id, uid);
    law_removing_a_member(rooms, room_id, uid);
    if let Some(active_room_id) = session.active_voice_room_id {
        let removed = without_member(rooms, active_room_id, uid);
        law_removing_a_member(rooms, active_room_id, uid);
        lemma_with_member(removed, room_id, uid);
    }
}

/// A leave that does not name the session's active room, including a repeated
/// leave, changes nothing.
pub proof fn law_stale_or_repeated_leave_changes_nothing(
    rooms: Map<RoomId, Set<UserUid>>,
    session: SessionView,
    room_id: RoomId,
)
    ensures
        session.active_voice_room_id != Some(room_id) ==> leave_outcome(rooms, session, room_id)
            == (rooms, session, VoiceRoomTransition::NoChange),
        ({
            let (after, session_after, _) = leave_outcome(rooms, session, room_id);
            leave_outcome(after, session_after, room_id) == (
                after,
                session_after,
                VoiceRoomTransition::NoChange,
            )
        }),
{
}

/// A session outside any voice room that joins a room and then leaves it
/// returns the registry to what it was.
pub proof fn law_join_then_leave_restores_rooms(
    rooms: Map<RoomId, Set<UserUid>>,
    session: SessionView,
    room_id: RoomId,
)
    requires
        presence_consistent(rooms, session),
        rooms_nonempty(rooms),
        session.active_voice_room_id == None::<RoomId>,
    ensures
        ({
            let (joined, session_joined, _) = join_outcome(rooms, session, room_id, true);
            leave_outcome(joined, session_joined, room_id) == (
                rooms,
                session,
                VoiceRoomTransition::Left { room_id },
            )
        }),
{
    let uid = session.user_uid;
    let joined = with_member(rooms, room_id, uid);
    assert(!is_member(rooms, room_id, uid));
    let back = without_member(joined, room_id, uid);
    if rooms.contains_key(room_id) {
        assert(joined[room_id].remove(uid) =~= rooms[room_id]);
        assert(!rooms[room_id].is_empty());
        assert(back =~= rooms);
    } else {
        assert(joined[room_id].remove(uid) =~= Set::<UserUid>::empty());
        assert(back =~= rooms);
    }
}

/// The sender a forwarded room message names.
pub open spec fn named_sender(message: ServerMessage) -> Option<UserUid> {
    match message {
        ServerMessage::BroadcastTextMessage { sender_uid, .. } => Some(sender_uid),
        ServerMessage::ForwardWebRtcSdp { sender_uid, .. } => Some(sender_uid),
        ServerMessage::ForwardWebRtcIce { sender_uid, .. } => Some(sender_uid),
        _ => None,
    }
}

/// Text messages reach exactly the other members of the sender's active room,
/// never the sender; signaling reaches one member of that room; the forwarded
/// message names the session's own identity as sender; and nothing is routed for
/// a sender outside the room or without the required power.
pub proof fn law_routing_stays_within_the_active_room(
    result: Result<RoutedServerMessage, RoomRoutingError>,
    rooms: Map<RoomId, Set<UserUid>>,
    session: SessionView,
    message: ClientMessage,
    server_timestamp: u64,
    action_allowed: bool,
)
    requires
        routing_outcome(result, rooms, session, message, server_timestamp, action_allowed),
    ensures
        result is Ok ==> {
            &&& routed_room_action(message) matches Some((room_id, _))
            &&& sender_in_active_room(rooms, session, room_id)
            &&& action_allowed
            &&& forall|uid: UserUid| #[trigger]
                result->Ok_0.recipient_list().contains(uid) ==> uid != session.user_uid
                    || !(message is SendTextMessage)
            &&& forall|uid: UserUid| #[trigger]
                result->Ok_0.recipient_list().contains(uid) ==> is_member(rooms, room_id, uid)
            &&& named_sender(result->Ok_0.payload()) == Some(session.user_uid)
        },
{
    if let Ok(routed) = result {
        if let ClientMessage::SendTextMessage { room_id, .. } = message {
            assert forall|uid: UserUid| #[trigger] routed.recipient_list().contains(uid) implies uid
                != session.user_uid && is_member(rooms, room_id, uid) by {
                assert(routed.recipient_list().to_set().contains(uid));
            }
        }
        if let ClientMessage::SendWebRtcSdp { room_id, target_uid, .. } = message {
            assert forall|uid: UserUid| #[trigger] routed.recipient_list().contains(uid) implies is_member(
                rooms,
                room_id,
                uid,
            ) by {
                assert(routed.recipient_list()[0] == target_uid);
            }
        }
        if let ClientMessage::SendWebRtcIce { room_id, target_uid, .. } = message {
            assert forall|uid: UserUid| #[trigger] routed.recipient_list().contains(uid) implies is_member(
                rooms,
                room_id,
                uid,
            ) by {
                assert(routed.recipient_list()[0] == target_uid);
            }
        }
    }
}

/// A text from a member of its active room, with `Write` granted, is broadcast to
/// every other member of that room, each once, and to no one else; the broadcast
/// carries the room, the sender's own identity and name, the text as sent and the
/// server time.
pub proof fn law_text_reaches_every_other_member(
    result: Result<RoutedServerMessage, RoomRoutingError>,
    rooms: Map<RoomId, Set<UserUid>>,
    session: SessionView,
    room_id: RoomId,
    text_content: RoomTextContent,
    server_timestamp: u64,
)
    requires
        routing_outcome(
            result,
            rooms,
            session,
            ClientMessage::SendTextMessage { room_id, text_content },
            server_timestamp,
            true,
        ),
        session.active_voice_room_id == Some(room_id),
        is_member(rooms, room_id, session.user_uid),
    ensures
        result matches Ok(routed) && {
            &&& routed.recipient_list().no_duplicates()
            &&& forall|uid: UserUid| #[trigger]
                routed.recipient_list().contains(uid) <==> (is_member(rooms, room_id, uid) && uid
                    != session.user_uid)
            &&& routed.payload() matches ServerMessage::BroadcastTextMessage {
                room_id: r,
                sender_uid,
                sender_name,
                text_content: t,
                server_timestamp: at,
            }
            &&& r == room_id
            &&& sender_uid == session.user_uid
            &&& sender_name@ == session.display_name
            &&& t == text_content
            &&& at == server_timestamp
        },
{
    let routed = result->Ok_0;
    assert forall|uid: UserUid| #[trigger] routed.recipient_list().contains(uid) <==> (is_member(
        rooms,
        room_id,
        uid,
    ) && uid != session.user_uid) by {
        if routed.recipient_list().contains(uid) {
            assert(routed.recipient_list().to_set().contains(uid));
        }
        if is_member(rooms, room_id, uid) && uid != session.user_uid {
            assert(rooms[room_id].remove(session.user_uid).contains(uid));
            assert(routed.recipient_list().to_set().contains(uid));
        }
    }
}

/// WebRTC signaling is forwarded unchanged: an SDP offer or answer, or an ICE
/// candidate, sent to a member of the sender's active room with `Signal` granted,
/// goes to that member alone, with the session description type, SDP text or
/// candidate exactly as the sender gave them and the sender's own identity.
pub proof fn law_signaling_is_forwarded_unchanged(
    result: Result<RoutedServerMessage, RoomRoutingError>,
    rooms: Map<RoomId, Set<UserUid>>,
    session: SessionView,
    message: ClientMessage,
    server_timestamp: u64,
)
    requires
        routing_outcome(result, rooms, session, message, server_timestamp, true),
    ensures
        match message {
            ClientMessage::SendWebRtcSdp { room_id, target_uid, sdp_type, sdp_raw } => {
                session.active_voice_room_id == Some(room_id) && is_member(rooms, room_id, session.user_uid)
                    && is_member(rooms, room_id, target_uid) ==> {
                    &&& result is Ok
                    &&& result->Ok_0.recipient_list() == seq![target_uid]
                    &&& result->Ok_0.payload() == ServerMessage::ForwardWebRtcSdp {
                        room_id,
                        sender_uid: session.user_uid,
                        sdp_type,
                        sdp_raw,
                    }
                }
            },
            ClientMessage::SendWebRtcIce { room_id, target_uid, candidate } => {
                session.active_voice_room_id == Some(room_id) && is_member(rooms, room_id, session.user_uid)
                    && is_member(rooms, room_id, target_uid) ==> {
                    &&& result is Ok
                    &&& result->Ok_0.recipient_list() == seq![target_uid]
                    &&& result->Ok_0.payload() == ServerMessage::ForwardWebRtcIce {
                        room_id,
                        sender_uid: session.user_uid,
                        candidate,
                    }
                }
            },
            _ => true,
        },
{
}

} // verus!
