//! The coordinator as a mathematical state machine.
//!
//! [`ServerView`] is the abstract state: the registry of users and the room
//! membership table. Each coordinator operation is a total function on it.
//! The executable coordinator is specified by these functions, and the laws of
//! the library are proved about them.

use vstd::prelude::*;
use crate::ident::SessionId;
use crate::ident::session_id_text;
use crate::message::UserView;
use crate::message::MMessageView;
use crate::message::DeliveryView;
use crate::message::RequestView;

verus! {

/// Name of the room that every new session joins, and that `/leave` returns to.
pub open spec fn default_room() -> Seq<char> {
    "main"@
}

/// The sender tag of chat text relayed for a user.
pub open spec fn tag_user() -> Seq<char> {
    "user"@
}

/// The sender tag, and sender name, of the coordinator's own notices.
pub open spec fn tag_system() -> Seq<char> {
    "system"@
}

/// The sender tag of protocol-shape error notices.
pub open spec fn tag_error() -> Seq<char> {
    "error"@
}

/// A display name is refused when it holds a space, a single quote or a
/// double quote.
pub open spec fn has_forbidden_char(name: Seq<char>) -> bool {
    exists|i: int| 0 <= i < name.len() && is_forbidden_char(#[trigger] name[i])
}

/// The characters that a display name may not hold.
pub open spec fn is_forbidden_char(c: char) -> bool {
    c == ' ' || c == '\'' || c == '"'
}

/// Abstract state of the coordinator.
#[verifier::ext_equal]
pub struct ServerView {
    /// Room name to member set. A room exists exactly while it has an entry.
    pub rooms: Map<Seq<char>, Set<SessionId>>,
    /// The registry: every connected session and its user record.
    pub sessions: Map<SessionId, UserView>,
}

impl ServerView {
    /// No sessions and no rooms.
    pub open spec fn empty() -> Self {
        ServerView { rooms: Map::empty(), sessions: Map::empty() }
    }

    /// Members of `room`; the empty set for a room that does not exist.
    pub open spec fn members(self, room: Seq<char>) -> Set<SessionId> {
        if self.rooms.contains_key(room) {
            self.rooms[room]
        } else {
            Set::empty()
        }
    }

    /// The registry with the room field of `id` set to `room`, if `id` is
    /// registered.
    pub open spec fn with_room_field(self, id: SessionId, room: Seq<char>) -> Map<
        SessionId,
        UserView,
    > {
        if self.sessions.contains_key(id) {
            self.sessions.insert(id, UserView { name: self.sessions[id].name, room })
        } else {
            self.sessions
        }
    }

    /// Membership helper: `id` enters `room`, which is created if absent, and
    /// the user's room field, if the user is registered, becomes `room`.
    pub open spec fn join_room(self, id: SessionId, room: Seq<char>) -> Self {
        ServerView {
            rooms: self.rooms.insert(room, self.members(room).insert(id)),
            sessions: self.with_room_field(id, room),
        }
    }

    /// Membership helper: if `room` exists, `id` leaves it, the user's room
    /// field is cleared, and the room is deleted once it has no member left.
    /// Nothing changes if `room` does not exist.
    pub open spec fn leave_room(self, id: SessionId, room: Seq<char>) -> Self {
        if !self.rooms.contains_key(room) {
            self
        } else {
            let rest = self.rooms[room].remove(id);
            ServerView {
                rooms: if rest.is_empty() {
                    self.rooms.remove(room)
                } else {
                    self.rooms.insert(room, rest)
                },
                sessions: self.with_room_field(id, Seq::empty()),
            }
        }
    }

    /// Connect under the identifier `id`: a registry entry named by the
    /// identifier's text, then a join of the default room.
    pub open spec fn connect(self, id: SessionId) -> Self {
        ServerView {
            rooms: self.rooms,
            sessions: self.sessions.insert(
                id,
                UserView { name: session_id_text(id), room: Seq::empty() },
            ),
        }.join_room(id, default_room())
    }

    /// A connect attempt under the candidate identifier `id`: refused, with
    /// nothing changed, if `id` is already registered.
    pub open spec fn try_connect(self, id: SessionId) -> Self {
        if self.sessions.contains_key(id) {
            self
        } else {
            self.connect(id)
        }
    }

    /// Disconnect: the registry entry goes, then the session leaves the room
    /// it was recorded in. Nothing changes for an unknown `id`.
    pub open spec fn disconnect(self, id: SessionId) -> Self {
        if !self.sessions.contains_key(id) {
            self
        } else {
            ServerView { rooms: self.rooms, sessions: self.sessions.remove(id) }.leave_room(
                id,
                self.sessions[id].room,
            )
        }
    }

    /// Join: leave the recorded room, then enter `room`. Nothing changes for
    /// an unknown `id`.
    pub open spec fn join(self, id: SessionId, room: Seq<char>) -> Self {
        if !self.sessions.contains_key(id) {
            self
        } else {
            self.leave_room(id, self.sessions[id].room).join_room(id, room)
        }
    }

    /// Some registered user, the caller included, has exactly this name.
    pub open spec fn name_taken(self, name: Seq<char>) -> bool {
        exists|other: SessionId|
            self.sessions.contains_key(other) && (#[trigger] self.sessions[other]).name == name
    }

    /// A rename is applied when the caller is registered, the name has no
    /// forbidden character and no registered user holds it.
    pub open spec fn rename_allowed(self, id: SessionId, name: Seq<char>) -> bool {
        &&& self.sessions.contains_key(id)
        &&& !has_forbidden_char(name)
        &&& !self.name_taken(name)
    }

    /// Rename: the name field changes if the rename is allowed; otherwise
    /// nothing changes.
    pub open spec fn rename(self, id: SessionId, name: Seq<char>) -> Self {
        if self.rename_allowed(id, name) {
            ServerView {
                rooms: self.rooms,
                sessions: self.sessions.insert(
                    id,
                    UserView { name, room: self.sessions[id].room },
                ),
            }
        } else {
            self
        }
    }

    /// The rooms that have at least one member.
    pub open spec fn inhabited_rooms(self) -> Set<Seq<char>> {
        Set::new(|room: Seq<char>| exists|id: SessionId| self.members(room).contains(id))
    }

    /// No room entry is empty.
    pub open spec fn rooms_nonempty(self) -> bool {
        forall|room: Seq<char>| #[trigger]
            self.rooms.contains_key(room) ==> !self.rooms[room].is_empty()
    }

    /// Registry and membership table agree: every member of a room is a
    /// registered user recorded in that room, and every registered user with a
    /// non-empty room field is a member of the room it names. It follows that
    /// no session is in two rooms.
    pub open spec fn consistent(self) -> bool {
        &&& forall|room: Seq<char>, id: SessionId|
            self.rooms.contains_key(room) && #[trigger] self.rooms[room].contains(id)
                ==> self.sessions.contains_key(id) && self.sessions[id].room == room
        &&& forall|id: SessionId| #[trigger]
            self.sessions.contains_key(id) && self.sessions[id].room.len() > 0
                ==> self.members(self.sessions[id].room).contains(id)
    }

    /// The sessions a broadcast to `room` reaches: its members that resolve
    /// in the registry.
    pub open spec fn audience(self, room: Seq<char>) -> Set<SessionId> {
        self.members(room).intersect(self.sessions.dom())
    }

    /// The notification a broadcast carries. Without a sender it is tagged
    /// and named "system"; with one it is tagged "user" and named by the
    /// sender's current display name, or "system" if the sender is unknown.
    pub open spec fn broadcast_note(self, sender: Option<SessionId>, text: Seq<char>) -> MMessageView {
        MMessageView::text(
            text,
            if sender is None {
                tag_system()
            } else {
                tag_user()
            },
            match sender {
                Some(id) if self.sessions.contains_key(id) => self.sessions[id].name,
                _ => tag_system(),
            },
        )
    }
}

/// `out` delivers `note` once to every session of `audience` and to nobody
/// else, in some order.
pub open spec fn is_broadcast(
    out: Seq<DeliveryView>,
    audience: Set<SessionId>,
    note: MMessageView,
) -> bool {
    &&& forall|i: int| 0 <= i < out.len() ==> (#[trigger] out[i]).message == note
    &&& forall|i: int, j: int|
        0 <= i < out.len() && 0 <= j < out.len() && i != j ==> (#[trigger] out[i]).to != (
        #[trigger] out[j]).to
    &&& forall|i: int| 0 <= i < out.len() ==> audience.contains((#[trigger] out[i]).to)
    &&& forall|id: SessionId| #[trigger]
        audience.contains(id) ==> exists|i: int| 0 <= i < out.len() && (#[trigger] out[i]).to == id
}

/// `out` is the single notification `note`, addressed to `to`.
pub open spec fn is_direct(out: Seq<DeliveryView>, to: SessionId, note: MMessageView) -> bool {
    out == seq![DeliveryView { to, message: note }]
}

/// Notice broadcast to the default room when `id` connects.
pub open spec fn connect_notice(id: SessionId) -> Seq<char> {
    "[new user "@ + session_id_text(id) + " Joined to main room]"@
}

/// Notice broadcast to the room that a disconnected user was in.
pub open spec fn disconnect_notice(name: Seq<char>) -> Seq<char> {
    "[user "@ + name + " disconnected]"@
}

/// Notice broadcast to the room that a user has left.
pub open spec fn left_notice(name: Seq<char>, room: Seq<char>) -> Seq<char> {
    "[User "@ + name + " leaved the room "@ + room + "]"@
}

/// Notice broadcast to the room that a user has entered.
pub open spec fn joined_notice(name: Seq<char>, room: Seq<char>) -> Seq<char> {
    "[User "@ + name + " joined the room "@ + room + "]"@
}

/// Notice sent to a caller whose requested name holds a forbidden character.
pub open spec fn invalid_name_notice(name: Seq<char>) -> Seq<char> {
    "[Error \""@ + name + "\" contains invalid character]"@
}

/// Notice sent to a caller whose requested name is already held.
pub open spec fn name_taken_notice(name: Seq<char>) -> Seq<char> {
    "[Error changing name. Name "@ + name + " already exists]"@
}

/// Notice broadcast to the room of a user who changed name.
pub open spec fn renamed_notice(old_name: Seq<char>, new_name: Seq<char>) -> Seq<char> {
    "[Successfully changed name from "@ + old_name + " -> "@ + new_name + "]"@
}

/// Body of a protocol-shape error notice.
pub open spec fn error_notice(kind: Seq<char>, detail: Seq<char>) -> Seq<char> {
    "["@ + kind + " "@ + detail + "]"@
}

/// Body of a room listing: a line break, then every name followed by a line
/// break.
pub open spec fn room_listing(names: Seq<Seq<char>>) -> Seq<char>
    decreases names.len(),
{
    if names.len() == 0 {
        "\n"@
    } else {
        room_listing(names.drop_last()) + names.last() + "\n"@
    }
}

/// `body` lists exactly the rooms of `rooms`, each once, in some order.
pub open spec fn is_room_listing(body: Seq<char>, rooms: Set<Seq<char>>) -> bool {
    exists|names: Seq<Seq<char>>|
        names.no_duplicates() && names.to_set() == rooms && body == #[trigger] room_listing(names)
}

impl ServerView {
    /// What a successful connect under `id` delivers: the join notice, to
    /// every member of the default room, the newcomer included.
    pub open spec fn connect_deliveries(self, id: SessionId, out: Seq<DeliveryView>) -> bool {
        let after = self.connect(id);
        is_broadcast(
            out,
            after.audience(default_room()),
            after.broadcast_note(None, connect_notice(id)),
        )
    }

    /// What a disconnect delivers: nothing for an unknown `id`; otherwise the
    /// notice, under the name the user had, to those left in its room.
    pub open spec fn disconnect_deliveries(self, id: SessionId, out: Seq<DeliveryView>) -> bool {
        if !self.sessions.contains_key(id) {
            out.len() == 0
        } else {
            let user = self.sessions[id];
            let after = self.disconnect(id);
            is_broadcast(
                out,
                after.audience(user.room),
                after.broadcast_note(None, disconnect_notice(user.name)),
            )
        }
    }

    /// What a join delivers: nothing for an unknown `id`; otherwise, in this
    /// order, the snapshot of the new room to the caller, the "left" notice to
    /// those remaining in the old room, and the "joined" notice to the members
    /// of the new room, the caller included.
    pub open spec fn join_deliveries(
        self,
        id: SessionId,
        room: Seq<char>,
        out: Seq<DeliveryView>,
    ) -> bool {
        if !self.sessions.contains_key(id) {
            out.len() == 0
        } else {
            let user = self.sessions[id];
            let between = self.leave_room(id, user.room);
            let after = between.join_room(id, room);
            exists|split: int|
                1 <= split <= out.len() && out[0] == (DeliveryView {
                    to: id,
                    message: MMessageView::snapshot(UserView { name: user.name, room }),
                }) && is_broadcast(
                    #[trigger] out.subrange(1, split),
                    between.audience(user.room),
                    between.broadcast_note(None, left_notice(user.name, user.room)),
                ) && is_broadcast(
                    out.subrange(split, out.len() as int),
                    after.audience(room),
                    after.broadcast_note(None, joined_notice(user.name, room)),
                )
        }
    }

    /// What a chat message delivers: nothing for an unknown `id` or a user in
    /// no room; otherwise the text, tagged with the sender's name, to every
    /// member of the sender's room, the sender included.
    pub open spec fn client_message_deliveries(
        self,
        id: SessionId,
        text: Seq<char>,
        out: Seq<DeliveryView>,
    ) -> bool {
        if !self.sessions.contains_key(id) || self.sessions[id].room.len() == 0 {
            out.len() == 0
        } else {
            is_broadcast(
                out,
                self.audience(self.sessions[id].room),
                self.broadcast_note(Some(id), text),
            )
        }
    }

    /// What a room listing delivers: nothing for an unknown `id`; otherwise
    /// one system notice to the caller that lists the rooms with at least one
    /// member.
    pub open spec fn list_rooms_deliveries(self, id: SessionId, out: Seq<DeliveryView>) -> bool {
        if !self.sessions.contains_key(id) {
            out.len() == 0
        } else {
            &&& out.len() == 1
            &&& out[0].to == id
            &&& out[0].message.sender_type == tag_system()
            &&& out[0].message.sender_name == tag_system()
            &&& out[0].message.set_info is None
            &&& is_room_listing(out[0].message.message, self.inhabited_rooms())
        }
    }

    /// What a rename delivers: nothing for an unknown `id`; exactly one
    /// system notice to the caller if the name is refused; otherwise the
    /// snapshot with the new name to the caller, then the "renamed" notice to
    /// the members of the caller's room.
    pub open spec fn rename_deliveries(
        self,
        id: SessionId,
        name: Seq<char>,
        out: Seq<DeliveryView>,
    ) -> bool {
        if !self.sessions.contains_key(id) {
            out.len() == 0
        } else if has_forbidden_char(name) {
            is_direct(
                out,
                id,
                MMessageView::text(invalid_name_notice(name), tag_system(), tag_system()),
            )
        } else if self.name_taken(name) {
            is_direct(
                out,
                id,
                MMessageView::text(name_taken_notice(name), tag_system(), tag_system()),
            )
        } else {
            let user = self.sessions[id];
            let after = self.rename(id, name);
            &&& out.len() >= 1
            &&& out[0] == (DeliveryView {
                to: id,
                message: MMessageView::snapshot(UserView { name, room: user.room }),
            })
            &&& is_broadcast(
                out.subrange(1, out.len() as int),
                after.audience(user.room),
                after.broadcast_note(None, renamed_notice(user.name, name)),
            )
        }
    }

    /// What an error request delivers: nothing for an unknown `id`;
    /// otherwise one error-tagged notice to the caller.
    pub open spec fn error_deliveries(
        self,
        id: SessionId,
        kind: Seq<char>,
        detail: Seq<char>,
        out: Seq<DeliveryView>,
    ) -> bool {
        if !self.sessions.contains_key(id) {
            out.len() == 0
        } else {
            is_direct(
                out,
                id,
                MMessageView::text(error_notice(kind, detail), tag_error(), tag_system()),
            )
        }
    }

    /// What an info request delivers: nothing for an unknown `id`; otherwise
    /// the caller's snapshot.
    pub open spec fn get_info_deliveries(self, id: SessionId, out: Seq<DeliveryView>) -> bool {
        if !self.sessions.contains_key(id) {
            out.len() == 0
        } else {
            is_direct(out, id, MMessageView::snapshot(self.sessions[id]))
        }
    }
}

impl ServerView {
    /// The state after the coordinator has processed `request`.
    pub open spec fn step(self, request: RequestView) -> Self {
        match request {
            RequestView::Rename { id, new_name } => self.rename(id, new_name),
            RequestView::Join { id, room } => self.join(id, room),
            RequestView::Disconnect { id } => self.disconnect(id),
            RequestView::ListRooms { .. }
            | RequestView::GetInfo { .. }
            | RequestView::Error { .. }
            | RequestView::ClientMessage { .. } => self,
        }
    }

    /// What the coordinator delivers when it processes `request` in this
    /// state.
    pub open spec fn step_deliveries(self, request: RequestView, out: Seq<DeliveryView>) -> bool {
        match request {
            RequestView::Rename { id, new_name } => self.rename_deliveries(id, new_name, out),
            RequestView::Join { id, room } => self.join_deliveries(id, room, out),
            RequestView::Disconnect { id } => self.disconnect_deliveries(id, out),
            RequestView::ListRooms { id } => self.list_rooms_deliveries(id, out),
            RequestView::GetInfo { id } => self.get_info_deliveries(id, out),
            RequestView::Error { id, etype, what } => self.error_deliveries(id, etype, what, out),
            RequestView::ClientMessage { id, msg } => self.client_message_deliveries(id, msg, out),
        }
    }
}

} // verus!
