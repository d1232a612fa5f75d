//! The coordinator: sole owner and mutator of the registry and the rooms.

use vstd::prelude::*;
use vstd::string::StringExecFns;
use std::collections::HashMap;
use std::collections::HashSet;
use vstd::std_specs::hash::spec_hash_keys_iter;
use vstd::std_specs::hash::spec_values_iter;
use vstd::std_specs::iter::IteratorSpec;
use crate::ident::SessionId;
use crate::ident::fresh_session_id;
use crate::ident::is_random_uuid;
use crate::ident::parsed_session_id;
use crate::ident::render_session_id;
use crate::ident::session_id_text;
use crate::laws::lemma_helpers_keep_rooms_nonempty;
use crate::laws::lemma_operations_keep_consistency;
use crate::laws::lemma_disconnect_removes_everywhere;
use crate::laws::lemma_existing_rooms_are_the_inhabited;
use crate::message::ClientMessage;
use crate::message::Connect;
use crate::message::Connected;
use crate::message::Delivery;
use crate::message::Disconnect;
use crate::message::GetInfo;
use crate::message::Join;
use crate::message::ListRooms;
use crate::message::MError;
use crate::message::MMessage;
use crate::message::Request;
use crate::message::T_SENDER_SYSTEM;
use crate::message::T_SENDER_SYSTEM_ERR;
use crate::message::T_SENDER_USER;
use crate::message::User;
use crate::message::UserRename;
use crate::message::UserView;
use crate::message::delivery_views;
use crate::message::MMessageView;
use crate::model::ServerView;
use crate::model::has_forbidden_char;
use crate::model::is_broadcast;
use crate::model::is_forbidden_char;
use crate::model::is_room_listing;
use crate::model::room_listing;

verus! {

broadcast use vstd::std_specs::hash::group_hash_axioms;

/// One entry of the room table.
#[derive(Debug)]
struct Room {
    name: String,
    members: HashSet<SessionId>,
}

/// The coordinator's state: the rooms that exist, each with its members, and
/// the registry of connected sessions, each with its user record and the
/// delivery handle of type `H` that it connected with.
#[derive(Debug)]
pub struct ChatServer<H> {
    rooms: Vec<Room>,
    sessions: HashMap<SessionId, (User, H)>,
}

/// Position of the room called `name`.
spec fn room_index(rooms: Seq<Room>, name: Seq<char>) -> int {
    choose|i: int| 0 <= i < rooms.len() && (#[trigger] rooms[i]).name@ == name
}

/// The room table as a map from name to member set.
spec fn rooms_view(rooms: Seq<Room>) -> Map<Seq<char>, Set<SessionId>> {
    Map::new(
        |name: Seq<char>| exists|i: int| 0 <= i < rooms.len() && (#[trigger] rooms[i]).name@ == name,
        |name: Seq<char>| rooms[room_index(rooms, name)].members@,
    )
}

/// No two entries of the room table carry the same name.
spec fn names_distinct(rooms: Seq<Room>) -> bool {
    forall|i: int, j: int|
        0 <= i < rooms.len() && 0 <= j < rooms.len() && i != j ==> (#[trigger] rooms[i]).name@ != (
        #[trigger] rooms[j]).name@
}

/// The registry as a map from identifier to user value.
spec fn sessions_view<H>(sessions: Map<SessionId, (User, H)>) -> Map<SessionId, UserView> {
    Map::new(|id: SessionId| sessions.contains_key(id), |id: SessionId| sessions[id].0@)
}

/// The delivery handles of the registry.
spec fn handles_view<H>(sessions: Map<SessionId, (User, H)>) -> Map<SessionId, H> {
    Map::new(|id: SessionId| sessions.contains_key(id), |id: SessionId| sessions[id].1)
}

proof fn lemma_rooms_view_entry(rooms: Seq<Room>, i: int)
    requires
        names_distinct(rooms),
        0 <= i < rooms.len(),
    ensures
        rooms_view(rooms).contains_key(rooms[i].name@),
        rooms_view(rooms)[rooms[i].name@] == rooms[i].members@,
{
}

proof fn lemma_rooms_view_absent(rooms: Seq<Room>, name: Seq<char>)
    requires
        forall|i: int| 0 <= i < rooms.len() ==> (#[trigger] rooms[i]).name@ != name,
    ensures
        !rooms_view(rooms).contains_key(name),
{
}

proof fn lemma_rooms_view_update(rooms: Seq<Room>, i: int, room: Room)
    requires
        names_distinct(rooms),
        0 <= i < rooms.len(),
        room.name@ == rooms[i].name@,
    ensures
        names_distinct(rooms.update(i, room)),
        rooms_view(rooms.update(i, room)) =~= rooms_view(rooms).insert(room.name@, room.members@),
{
    let after = rooms.update(i, room);
    assert forall|name: Seq<char>| #[trigger]
        rooms_view(after).contains_key(name) <==> rooms_view(rooms).insert(
            room.name@,
            room.members@,
        ).contains_key(name) by {
        if rooms_view(rooms).contains_key(name) {
            let k = room_index(rooms, name);
            assert(after[k].name@ == name);
        }
    }
}

proof fn lemma_rooms_view_push(rooms: Seq<Room>, room: Room)
    requires
        names_distinct(rooms),
        forall|i: int| 0 <= i < rooms.len() ==> (#[trigger] rooms[i]).name@ != room.name@,
    ensures
        names_distinct(rooms.push(room)),
        rooms_view(rooms.push(room)) =~= rooms_view(rooms).insert(room.name@, room.members@),
{
    let after = rooms.push(room);
    assert forall|name: Seq<char>| #[trigger]
        rooms_view(after).contains_key(name) <==> rooms_view(rooms).insert(
            room.name@,
            room.members@,
        ).contains_key(name) by {
        if rooms_view(rooms).contains_key(name) {
            let k = room_index(rooms, name);
            assert(after[k].name@ == name);
        }
        if name == room.name@ {
            assert(after[rooms.len() as int].name@ == name);
        }
    }
}

proof fn lemma_rooms_view_remove(rooms: Seq<Room>, i: int)
    requires
        names_distinct(rooms),
        0 <= i < rooms.len(),
    ensures
        names_distinct(rooms.remove(i)),
        rooms_view(rooms.remove(i)) =~= rooms_view(rooms).remove(rooms[i].name@),
{
    let after = rooms.remove(i);
    assert forall|name: Seq<char>| #[trigger]
        rooms_view(after).contains_key(name) <==> rooms_view(rooms).remove(
            rooms[i].name@,
        ).contains_key(name) by {
        if rooms_view(rooms).contains_key(name) && name != rooms[i].name@ {
            let k = room_index(rooms, name);
            let k1 = if k < i { k } else { k - 1 };
            assert(after[k1].name@ == name);
        }
    }
}

/// The text `a` followed by `b` and `c`.
fn concat3(a: &str, b: &str, c: &str) -> (text: String)
    ensures
        text@ == a@ + b@ + c@,
{
    let mut text = String::from_str(a);
    text.append(b);
    text.append(c);
    text
}

/// The text `a` followed by `b`, `c`, `d` and `e`.
fn concat5(a: &str, b: &str, c: &str, d: &str, e: &str) -> (text: String)
    ensures
        text@ == a@ + b@ + c@ + d@ + e@,
{
    let mut text = String::from_str(a);
    text.append(b);
    text.append(c);
    text.append(d);
    text.append(e);
    text
}

/// Whether `name` holds a space, a single quote or a double quote.
pub fn contains_forbidden_char(name: &str) -> (found: bool)
    ensures
        found == has_forbidden_char(name@),
{
    let mut found = false;
    let ghost all: Seq<char> = name@;
    for c in it: name.chars()
        invariant
            it.seq() == all,
            found == exists|i: int| 0 <= i < it.index() && is_forbidden_char(#[trigger] all[i]),
    {
        if c == ' ' || c == '\'' || c == '"' {
            found = true;
        }
    }
    found
}

impl<H> View for ChatServer<H> {
    type V = ServerView;

    closed spec fn view(&self) -> ServerView {
        ServerView { rooms: rooms_view(self.rooms@), sessions: sessions_view(self.sessions@) }
    }
}

impl<H> ChatServer<H> {
    /// The representation is sound: the room table names every room once.
    pub closed spec fn repr_ok(&self) -> bool {
        names_distinct(self.rooms@)
    }

    /// The delivery handle of every registered session.
    pub closed spec fn handles(&self) -> Map<SessionId, H> {
        handles_view(self.sessions@)
    }

    /// Well-formedness: the representation is sound, no room is empty, and
    /// the sessions with a handle are the registered ones.
    /// [`ChatServer::new`] establishes it and every method preserves it.
    pub open spec fn wf(&self) -> bool {
        &&& self.repr_ok()
        &&& self@.rooms_nonempty()
        &&& self.handles().dom() == self@.sessions.dom()
    }

    /// A coordinator with no session and no room.
    pub fn new() -> (server: Self)
        ensures
            server.wf(),
            server@ == ServerView::empty(),
            server@.consistent(),
            server.handles() == Map::<SessionId, H>::empty(),
    {
        ChatServer { rooms: Vec::new(), sessions: HashMap::new() }
    }

    /// Position of the room called `name` in the room table.
    fn find_room(&self, name: &String) -> (found: Option<usize>)
        requires
            self.repr_ok(),
        ensures
            match found {
                Some(i) => i < self.rooms.len() && self.rooms[i as int].name@ == name@
                    && self@.rooms.contains_key(name@) && self@.rooms[name@]
                    == self.rooms[i as int].members@,
                None => !self@.rooms.contains_key(name@) && forall|i: int|
                    0 <= i < self.rooms.len() ==> (#[trigger] self.rooms[i]).name@ != name@,
            },
    {
        let mut i: usize = 0;
        while i < self.rooms.len()
            invariant
                i <= self.rooms.len(),
                self.repr_ok(),
                forall|k: int| 0 <= k < i ==> (#[trigger] self.rooms[k]).name@ != name@,
            decreases self.rooms.len() - i,
        {
            if self.rooms[i].name == *name {
                proof {
                    lemma_rooms_view_entry(self.rooms@, i as int);
                }
                return Some(i);
            }
            i += 1;
        }
        proof {
            lemma_rooms_view_absent(self.rooms@, name@);
        }
        None
    }

    /// Sets the room field of `id`, if `id` is registered.
    fn set_room_field(&mut self, id: SessionId, room: String)
        ensures
            final(self).rooms == old(self).rooms,
            final(self)@.sessions == old(self)@.with_room_field(id, room@),
            final(self).handles() == old(self).handles(),
    {
        if let Some((user, addr)) = self.sessions.remove(&id) {
            self.sessions.insert(id, (User { name: user.name, room }, addr));
        }
    }

    /// Membership helper: `id` enters the room called `room_name`, which is
    /// created if it does not exist, and the room field of `id`, if `id` is
    /// registered, becomes `room_name`.
    pub fn join_room(&mut self, id: SessionId, room_name: &str)
        requires
            old(self).wf(),
        ensures
            final(self).wf(),
            final(self)@ == old(self)@.join_room(id, room_name@),
            final(self).handles() == old(self).handles(),
    {
        let name = String::from_str(room_name);
        match self.find_room(&name) {
            Some(i) => {
                self.rooms[i].members.insert(id);
                proof {
                    lemma_rooms_view_update(old(self).rooms@, i as int, self.rooms[i as int]);
                }
            },
            None => {
                let mut members: HashSet<SessionId> = HashSet::new();
                members.insert(id);
                let room = Room { name: name.clone(), members };
                proof {
                    lemma_rooms_view_push(self.rooms@, room);
                }
                self.rooms.push(room);
            },
        }
        self.set_room_field(id, name);
        proof {
            lemma_helpers_keep_rooms_nonempty(old(self)@, id, room_name@);
        }
    }

    /// Membership helper: if the room called `room_name` exists, `id` leaves
    /// it, the room field of `id` is cleared, and the room is deleted once it
    /// has no member left. Nothing happens if the room does not exist.
    pub fn leave_room(&mut self, id: &SessionId, room_name: &str)
        requires
            old(self).wf(),
        ensures
            final(self).wf(),
            final(self)@ == old(self)@.leave_room(*id, room_name@),
            final(self).handles() == old(self).handles(),
    {
        let name = String::from_str(room_name);
        if let Some(i) = self.find_room(&name) {
            self.rooms[i].members.remove(id);
            proof {
                lemma_rooms_view_update(old(self).rooms@, i as int, self.rooms[i as int]);
            }
            if self.rooms[i].members.is_empty() {
                proof {
                    lemma_rooms_view_remove(self.rooms@, i as int);
                }
                self.rooms.remove(i);
            }
            self.set_room_field(*id, String::new());
            proof {
                lemma_helpers_keep_rooms_nonempty(old(self)@, *id, room_name@);
            }
        }
    }

    /// Whether some registered user, the caller included, is called `name`.
    fn name_taken(&self, name: &String) -> (taken: bool)
        ensures
            taken == self@.name_taken(name@),
    {
        let mut taken = false;
        let ghost all: Seq<(User, H)> = spec_values_iter(&self.sessions).remaining().unref();
        for entry in it: self.sessions.values()
            invariant
                it.seq().unref() == all,
                taken == exists|i: int| 0 <= i < it.index() && (#[trigger] all[i]).0.name@ == name@,
        {
            if entry.0.name == *name {
                taken = true;
            }
        }
        proof {
            let registry = self.sessions@;
            if taken {
                let i = choose|i: int| 0 <= i < all.len() && (#[trigger] all[i]).0.name@ == name@;
                assert(all.to_set().contains(all[i]));
                let id = choose|id: SessionId|
                    registry.contains_key(id) && #[trigger] registry[id] == all[i];
                assert(self@.sessions.contains_key(id) && self@.sessions[id].name == name@);
            }
            if self@.name_taken(name@) {
                let id = choose|id: SessionId|
                    self@.sessions.contains_key(id) && (#[trigger] self@.sessions[id]).name == name@;
                assert(registry.values().contains(registry[id]));
            }
        }
        taken
    }

    /// Broadcast: builds one notification carrying `msg` for every member of
    /// the room called `room_id` that resolves in the registry; none if the
    /// room does not exist. Without a sender the notification is tagged and
    /// named "system"; with one it is tagged "user" and named by the sender's
    /// current display name, or "system" if the sender is unknown. The sender
    /// is not skipped.
    pub fn send_to(&self, room_id: &str, uid_sender: Option<SessionId>, msg: &str) -> (out: Vec<
        Delivery,
    >)
        requires
            self.wf(),
        ensures
            is_broadcast(
                delivery_views(out@),
                self@.audience(room_id@),
                self@.broadcast_note(uid_sender, msg@),
            ),
    {
        let mut out: Vec<Delivery> = Vec::new();
        let name = String::from_str(room_id);
        let i = match self.find_room(&name) {
            Some(i) => i,
            None => {
                return out;
            },
        };
        let sender_type = if uid_sender.is_none() {
            T_SENDER_SYSTEM
        } else {
            T_SENDER_USER
        };
        let sender_name = match uid_sender {
            Some(sender_id) => match self.sessions.get(&sender_id) {
                Some(sender) => sender.0.name.clone(),
                None => String::from_str(T_SENDER_SYSTEM),
            },
            None => String::from_str(T_SENDER_SYSTEM),
        };
        let members = &self.rooms[i].members;
        let ghost note = self@.broadcast_note(uid_sender, msg@);
        let ghost all: Seq<SessionId> = spec_hash_keys_iter(members).remaining().unref();
        for uid in it: members.iter()
            invariant
                it.seq().unref() == all,
                all.no_duplicates(),
                note == MMessageView::text(msg@, sender_type@, sender_name@),
                forall|k: int| 0 <= k < out.len() ==> (#[trigger] out[k])@.message == note,
                forall|k: int|
                    0 <= k < out.len() ==> self.sessions@.contains_key((#[trigger] out[k]).to)
                        && exists|j: int| 0 <= j < it.index() && all[j] == out[k].to,
                forall|j: int|
                    0 <= j < it.index() && self.sessions@.contains_key(#[trigger] all[j])
                        ==> exists|k: int| 0 <= k < out.len() && (#[trigger] out[k]).to == all[j],
                forall|a: int, b: int|
                    0 <= a < out.len() && 0 <= b < out.len() && a != b ==> (#[trigger] out[a]).to != (
                    #[trigger] out[b]).to,
        {
            if self.sessions.contains_key(uid) {
                let ghost before = out@;
                out.push(
                    Delivery {
                        to: *uid,
                        message: MMessage::from(msg, sender_type, sender_name.as_str()),
                    },
                );
                assert forall|j: int|
                    0 <= j < it.index() + 1 && self.sessions@.contains_key(
                        #[trigger] all[j],
                    ) implies exists|k: int| 0 <= k < out.len() && (#[trigger] out[k]).to == all[j] by {
                    if j < it.index() {
                        let k = choose|k: int| 0 <= k < before.len() && (#[trigger] before[k]).to == all[j];
                        assert(out[k].to == all[j]);
                    } else {
                        assert(out[out.len() - 1].to == all[j]);
                    }
                }
            }
        }
        proof {
            let views = delivery_views(out@);
            let audience = self@.audience(room_id@);
            assert forall|id: SessionId| #[trigger] audience.contains(id) implies exists|k: int|
                0 <= k < views.len() && (#[trigger] views[k]).to == id by {
                let j = choose|j: int| 0 <= j < all.len() && all[j] == id;
                let k = choose|k: int| 0 <= k < out.len() && (#[trigger] out[k]).to == all[j];
                assert(views[k].to == id);
            }
        }
        out
    }

    /// A connect attempt under the candidate identifier `id`, with the
    /// delivery handle `addr`.
    ///
    /// A candidate that is already registered is refused: nothing changes and
    /// the handle comes back. Otherwise the session is registered with the
    /// handle, under the text of `id` as its display name, joins the default
    /// room, and the join notice goes to every member of that room.
    pub fn connect_as(&mut self, id: SessionId, addr: H) -> (out: Result<Vec<Delivery>, H>)
        requires
            old(self).wf(),
        ensures
            final(self).wf(),
            final(self)@ == old(self)@.try_connect(id),
            out is Ok <==> !old(self)@.sessions.contains_key(id),
            match out {
                Ok(notices) => {
                    &&& old(self)@.connect_deliveries(id, delivery_views(notices@))
                    &&& final(self).handles() == old(self).handles().insert(id, addr)
                },
                Err(back) => back == addr && final(self).handles() == old(self).handles(),
            },
            old(self)@.consistent() ==> final(self)@.consistent(),
    {
        proof {
            if self@.consistent() {
                lemma_operations_keep_consistency(self@, id, Seq::empty(), Seq::empty());
            }
        }
        if self.sessions.contains_key(&id) {
            return Err(addr);
        }
        let text = render_session_id(id);
        self.sessions.insert(id, (User { name: text.clone(), room: String::new() }, addr));
        assert(self@.sessions =~= old(self)@.sessions.insert(
            id,
            UserView { name: text@, room: Seq::empty() },
        ));
        self.join_room(id, "main");
        let notice = concat3("[new user ", text.as_str(), " Joined to main room]");
        Ok(self.send_to("main", None, notice.as_str()))
    }

    /// Connect: draws a fresh identifier and registers the session under it,
    /// with the delivery handle that the request carries.
    ///
    /// Returns the assigned identifier, its text as the answer for the
    /// session, and the notifications to deliver. If the identifier drawn is
    /// already registered, nothing changes and the request comes back; this
    /// cannot happen while no random UUID is registered. An assigned
    /// identifier is never one that was registered before the call.
    pub fn connect(&mut self, msg: Connect<H>) -> (result: Result<Connected, Connect<H>>)
        requires
            old(self).wf(),
        ensures
            final(self).wf(),
            match result {
                Ok(granted) => {
                    &&& !old(self)@.sessions.contains_key(granted.id)
                    &&& is_random_uuid(granted.id)
                    &&& granted.reply@ == session_id_text(granted.id)
                    &&& parsed_session_id(granted.reply@) == Some(granted.id)
                    &&& final(self)@ == old(self)@.connect(granted.id)
                    &&& final(self).handles() == old(self).handles().insert(granted.id, msg.addr)
                    &&& old(self)@.connect_deliveries(granted.id, delivery_views(granted.notices@))
                },
                Err(back) => {
                    &&& back.addr == msg.addr
                    &&& final(self)@ == old(self)@
                    &&& final(self).handles() == old(self).handles()
                    &&& exists|taken: SessionId|
                        is_random_uuid(taken) && old(self)@.sessions.contains_key(taken)
                },
            },
            old(self)@.consistent() ==> final(self)@.consistent(),
    {
        let id = fresh_session_id();
        match self.connect_as(id, msg.addr) {
            Ok(notices) => Ok(Connected { id, reply: render_session_id(id), notices }),
            Err(addr) => Err(Connect { addr }),
        }
    }

    /// The delivery handle of the session `id`, if it is registered.
    pub fn recipient(&self, id: SessionId) -> (handle: Option<&H>)
        requires
            self.wf(),
        ensures
            match handle {
                Some(addr) => self@.sessions.contains_key(id) && *addr == self.handles()[id],
                None => !self@.sessions.contains_key(id),
            },
    {
        match self.sessions.get(&id) {
            Some(entry) => Some(&entry.1),
            None => None,
        }
    }

    /// Disconnect: nothing for an unknown identifier. Otherwise the registry
    /// entry is removed, the session leaves its room, which is deleted if it
    /// is then empty, and those left in the room are told, under the name the
    /// user had.
    pub fn disconnect(&mut self, msg: Disconnect) -> (out: Vec<Delivery>)
        requires
            old(self).wf(),
        ensures
            final(self).wf(),
            final(self)@ == old(self)@.disconnect(msg.id),
            final(self).handles() == old(self).handles().remove(msg.id),
            old(self)@.disconnect_deliveries(msg.id, delivery_views(out@)),
            !final(self)@.sessions.contains_key(msg.id),
            old(self)@.consistent() ==> final(self)@.consistent() && forall|room: Seq<char>|
                !final(self)@.members(room).contains(msg.id),
    {
        proof {
            if self@.consistent() {
                lemma_operations_keep_consistency(self@, msg.id, Seq::empty(), Seq::empty());
                lemma_disconnect_removes_everywhere(self@, msg.id);
            }
        }
        let user = match self.sessions.remove(&msg.id) {
            Some(entry) => entry.0,
            None => {
                assert(self.handles() =~= old(self).handles().remove(msg.id));
                return Vec::new();
            },
        };
        assert(self@.sessions =~= old(self)@.sessions.remove(msg.id));
        self.leave_room(&msg.id, user.room.as_str());
        let notice = concat3("[user ", user.name.as_str(), " disconnected]");
        self.send_to(user.room.as_str(), None, notice.as_str())
    }

    /// Join: nothing for an unknown identifier. Otherwise the caller gets
    /// the snapshot of its new room, leaves the old room, whose remaining
    /// members are told, enters the new room, and the members of the new
    /// room, the caller included, are told.
    pub fn join(&mut self, msg: Join) -> (out: Vec<Delivery>)
        requires
            old(self).wf(),
        ensures
            final(self).wf(),
            final(self)@ == old(self)@.join(msg.id, msg.room@),
            final(self).handles() == old(self).handles(),
            old(self)@.join_deliveries(msg.id, msg.room@, delivery_views(out@)),
            old(self)@.sessions.contains_key(msg.id) ==> {
                let old_room = old(self)@.sessions[msg.id].room;
                &&& final(self)@.sessions[msg.id].room == msg.room@
                &&& final(self)@.members(msg.room@).contains(msg.id)
                &&& old_room != msg.room@ ==> !final(self)@.members(old_room).contains(msg.id)
            },
            old(self)@.consistent() ==> final(self)@.consistent(),
    {
        proof {
            if self@.consistent() {
                lemma_operations_keep_consistency(self@, msg.id, msg.room@, Seq::empty());
            }
        }
        let mut out: Vec<Delivery> = Vec::new();
        let user = match self.sessions.get(&msg.id) {
            Some(entry) => entry.0.clone(),
            None => {
                return out;
            },
        };
        let moved = User { name: user.name.clone(), room: msg.room.clone() };
        out.push(Delivery { to: msg.id, message: MMessage::from_set_info(&moved) });
        self.leave_room(&msg.id, user.room.as_str());
        let left = concat5(
            "[User ",
            user.name.as_str(),
            " leaved the room ",
            user.room.as_str(),
            "]",
        );
        let mut left_notices = self.send_to(user.room.as_str(), None, left.as_str());
        let ghost left_views = delivery_views(left_notices@);
        out.append(&mut left_notices);
        self.join_room(msg.id, msg.room.as_str());
        let joined = concat5(
            "[User ",
            user.name.as_str(),
            " joined the room ",
            msg.room.as_str(),
            "]",
        );
        let mut joined_notices = self.send_to(msg.room.as_str(), None, joined.as_str());
        let ghost joined_views = delivery_views(joined_notices@);
        out.append(&mut joined_notices);
        proof {
            let views = delivery_views(out@);
            let split = 1 + left_views.len() as int;
            assert(views.subrange(1, split) =~= left_views);
            assert(views.subrange(split, views.len() as int) =~= joined_views);
        }
        out
    }

    /// Chat text: nothing for an unknown identifier or a user in no room.
    /// Otherwise the text goes to every member of the sender's room, the
    /// sender included, tagged "user" and named by the sender's display name.
    pub fn client_message(&self, msg: ClientMessage) -> (out: Vec<Delivery>)
        requires
            self.wf(),
        ensures
            self@.client_message_deliveries(msg.id, msg.msg@, delivery_views(out@)),
    {
        match self.sessions.get(&msg.id) {
            Some(entry) => {
                if entry.0.room.as_str().is_empty() {
                    Vec::new()
                } else {
                    self.send_to(entry.0.room.as_str(), Some(msg.id), msg.msg.as_str())
                }
            },
            None => Vec::new(),
        }
    }

    /// Room listing: nothing for an unknown identifier. Otherwise the caller
    /// gets one system notice whose body names every room that has at least
    /// one member, one per line, and no other room.
    pub fn list_rooms(&self, msg: ListRooms) -> (out: Vec<Delivery>)
        requires
            self.wf(),
        ensures
            self@.list_rooms_deliveries(msg.id, delivery_views(out@)),
    {
        let mut out: Vec<Delivery> = Vec::new();
        if !self.sessions.contains_key(&msg.id) {
            return out;
        }
        let mut body = String::from_str("\n");
        let ghost names: Seq<Seq<char>> = Seq::empty();
        let mut i: usize = 0;
        while i < self.rooms.len()
            invariant
                i <= self.rooms.len(),
                names.len() == i,
                forall|k: int| 0 <= k < i ==> #[trigger] names[k] == self.rooms[k].name@,
                body@ == room_listing(names),
            decreases self.rooms.len() - i,
        {
            body.append(self.rooms[i].name.as_str());
            body.append("\n");
            proof {
                let longer = names.push(self.rooms[i as int].name@);
                assert(longer.drop_last() =~= names);
                names = longer;
            }
            i += 1;
        }
        proof {
            assert forall|room: Seq<char>| names.to_set().contains(room) <==> self@.rooms.contains_key(
                room,
            ) by {
                if self@.rooms.contains_key(room) {
                    let k = room_index(self.rooms@, room);
                    assert(names[k] == room);
                }
            }
            assert(names.to_set() =~= self@.rooms.dom());
            lemma_existing_rooms_are_the_inhabited(self@);
        }
        out.push(
            Delivery {
                to: msg.id,
                message: MMessage::from(body.as_str(), T_SENDER_SYSTEM, T_SENDER_SYSTEM),
            },
        );
        out
    }

    /// Rename: nothing for an unknown identifier. A name that holds a space,
    /// a single quote or a double quote is refused, and so is a name that a
    /// registered user holds, the caller's own current name included: the
    /// caller gets exactly one system notice and nothing changes. Otherwise
    /// the name changes, the caller gets its snapshot with the new name, and
    /// the members of its room are told.
    pub fn rename(&mut self, msg: UserRename) -> (out: Vec<Delivery>)
        requires
            old(self).wf(),
        ensures
            final(self).wf(),
            final(self)@ == old(self)@.rename(msg.id, msg.new_name@),
            final(self).handles() == old(self).handles(),
            old(self)@.rename_deliveries(msg.id, msg.new_name@, delivery_views(out@)),
            has_forbidden_char(msg.new_name@) || old(self)@.name_taken(msg.new_name@) ==> {
                &&& final(self)@ == old(self)@
                &&& old(self)@.sessions.contains_key(msg.id) ==> out@.len() == 1 && out[0].to
                    == msg.id
            },
            old(self)@.consistent() ==> final(self)@.consistent(),
    {
        proof {
            if self@.consistent() {
                lemma_operations_keep_consistency(self@, msg.id, Seq::empty(), msg.new_name@);
            }
        }
        let mut out: Vec<Delivery> = Vec::new();
        let user = match self.sessions.get(&msg.id) {
            Some(entry) => entry.0.clone(),
            None => {
                return out;
            },
        };
        if contains_forbidden_char(msg.new_name.as_str()) {
            let notice = concat3("[Error \"", msg.new_name.as_str(), "\" contains invalid character]");
            out.push(
                Delivery {
                    to: msg.id,
                    message: MMessage::from(notice.as_str(), T_SENDER_SYSTEM, T_SENDER_SYSTEM),
                },
            );
            assert(delivery_views(out@) =~= seq![out[0]@]);
            return out;
        }
        if self.name_taken(&msg.new_name) {
            let notice = concat3(
                "[Error changing name. Name ",
                msg.new_name.as_str(),
                " already exists]",
            );
            out.push(
                Delivery {
                    to: msg.id,
                    message: MMessage::from(notice.as_str(), T_SENDER_SYSTEM, T_SENDER_SYSTEM),
                },
            );
            assert(delivery_views(out@) =~= seq![out[0]@]);
            return out;
        }
        let renamed = User { name: msg.new_name.clone(), room: user.room.clone() };
        out.push(Delivery { to: msg.id, message: MMessage::from_set_info(&renamed) });
        if let Some((_, addr)) = self.sessions.remove(&msg.id) {
            self.sessions.insert(msg.id, (renamed, addr));
        }
        let notice = concat5(
            "[Successfully changed name from ",
            user.name.as_str(),
            " -> ",
            msg.new_name.as_str(),
            "]",
        );
        let mut notices = self.send_to(user.room.as_str(), None, notice.as_str());
        let ghost notice_views = delivery_views(notices@);
        out.append(&mut notices);
        assert(delivery_views(out@).subrange(1, out@.len() as int) =~= notice_views);
        out
    }

    /// Error report: nothing for an unknown identifier. Otherwise the caller
    /// gets one error-tagged notice formed from the kind and the detail.
    pub fn error(&self, msg: MError) -> (out: Vec<Delivery>)
        requires
            self.wf(),
        ensures
            self@.error_deliveries(msg.id, msg.etype@, msg.what@, delivery_views(out@)),
    {
        let mut out: Vec<Delivery> = Vec::new();
        if self.sessions.contains_key(&msg.id) {
            let notice = concat5("[", msg.etype.as_str(), " ", msg.what.as_str(), "]");
            out.push(
                Delivery {
                    to: msg.id,
                    message: MMessage::from(notice.as_str(), T_SENDER_SYSTEM_ERR, T_SENDER_SYSTEM),
                },
            );
            assert(delivery_views(out@) =~= seq![out[0]@]);
        }
        out
    }

    /// Info request: nothing for an unknown identifier. Otherwise the caller
    /// gets the snapshot of its current name and room.
    pub fn get_info(&self, msg: GetInfo) -> (out: Vec<Delivery>)
        requires
            self.wf(),
        ensures
            self@.get_info_deliveries(msg.id, delivery_views(out@)),
    {
        let mut out: Vec<Delivery> = Vec::new();
        if let Some(entry) = self.sessions.get(&msg.id) {
            out.push(Delivery { to: msg.id, message: MMessage::from_set_info(&entry.0) });
            assert(delivery_views(out@) =~= seq![out[0]@]);
        }
        out
    }

    /// Processes one request: the single point through which sessions change
    /// the coordinator's state. The request is applied in full, and every
    /// notification it causes is returned, before the next one is looked at.
    pub fn handle(&mut self, request: Request) -> (out: Vec<Delivery>)
        requires
            old(self).wf(),
        ensures
            final(self).wf(),
            final(self)@ == old(self)@.step(request@),
            final(self).handles() == match request {
                Request::Disconnect(notice) => old(self).handles().remove(notice.id),
                _ => old(self).handles(),
            },
            old(self)@.step_deliveries(request@, delivery_views(out@)),
            old(self)@.consistent() ==> final(self)@.consistent(),
    {
        match request {
            Request::Rename(msg) => self.rename(msg),
            Request::Join(msg) => self.join(msg),
            Request::Disconnect(msg) => self.disconnect(msg),
            Request::ListRooms(msg) => self.list_rooms(msg),
            Request::GetInfo(msg) => self.get_info(msg),
            Request::Error(msg) => self.error(msg),
            Request::ClientMessage(msg) => self.client_message(msg),
        }
    }
}

} // verus!
