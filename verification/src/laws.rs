//! Laws of the coordinator, proved of the abstract state machine.

use vstd::prelude::*;
use crate::ident::SessionId;
use crate::ident::session_id_text;
use crate::message::RequestView;
use crate::message::UserView;
use crate::model::ServerView;
use crate::model::default_room;
use crate::model::has_forbidden_char;

verus! {

/// The state after a run of connect attempts, taken in order. A candidate
/// identifier that is already registered is refused and changes nothing.
pub open spec fn connect_all(start: ServerView, candidates: Seq<SessionId>) -> ServerView
    decreases candidates.len(),
{
    if candidates.len() == 0 {
        start
    } else {
        connect_all(start, candidates.drop_last()).try_connect(candidates.last())
    }
}

/// The identifiers that a run of connect attempts assigns, in order.
pub open spec fn assigned_ids(start: ServerView, candidates: Seq<SessionId>) -> Seq<SessionId>
    decreases candidates.len(),
{
    if candidates.len() == 0 {
        Seq::empty()
    } else {
        let before = connect_all(start, candidates.drop_last());
        let earlier = assigned_ids(start, candidates.drop_last());
        if before.sessions.contains_key(candidates.last()) {
            earlier
        } else {
            earlier.push(candidates.last())
        }
    }
}

/// The empty coordinator has no empty room and is consistent.
pub proof fn lemma_empty_is_valid()
    ensures
        ServerView::empty().rooms_nonempty(),
        ServerView::empty().consistent(),
{
}

/// The membership helpers never leave an empty room behind.
pub proof fn lemma_helpers_keep_rooms_nonempty(s: ServerView, id: SessionId, room: Seq<char>)
    requires
        s.rooms_nonempty(),
    ensures
        s.join_room(id, room).rooms_nonempty(),
        s.leave_room(id, room).rooms_nonempty(),
{
}

/// No coordinator operation leaves an empty room behind.
pub proof fn lemma_operations_keep_rooms_nonempty(
    s: ServerView,
    id: SessionId,
    room: Seq<char>,
    name: Seq<char>,
)
    requires
        s.rooms_nonempty(),
    ensures
        s.try_connect(id).rooms_nonempty(),
        s.disconnect(id).rooms_nonempty(),
        s.join(id, room).rooms_nonempty(),
        s.rename(id, name).rooms_nonempty(),
{
    let fresh = ServerView {
        rooms: s.rooms,
        sessions: s.sessions.insert(
            id,
            UserView { name: session_id_text(id), room: Seq::empty() },
        ),
    };
    lemma_helpers_keep_rooms_nonempty(fresh, id, default_room());
    if s.sessions.contains_key(id) {
        let gone = ServerView { rooms: s.rooms, sessions: s.sessions.remove(id) };
        lemma_helpers_keep_rooms_nonempty(gone, id, s.sessions[id].room);
        lemma_helpers_keep_rooms_nonempty(s, id, s.sessions[id].room);
        lemma_helpers_keep_rooms_nonempty(s.leave_room(id, s.sessions[id].room), id, room);
    }
}

/// A session that is registered, recorded in no room and member of none can
/// enter any room without breaking consistency.
pub proof fn lemma_join_room_keeps_consistency(s: ServerView, id: SessionId, room: Seq<char>)
    requires
        s.consistent(),
        s.sessions.contains_key(id),
        s.sessions[id].room.len() == 0,
        forall|r: Seq<char>| !s.members(r).contains(id),
    ensures
        s.join_room(id, room).consistent(),
        forall|r: Seq<char>| s.join_room(id, room).members(r).contains(id) <==> r == room,
{
    let t = s.join_room(id, room);
    assert forall|r: Seq<char>, other: SessionId|
        t.rooms.contains_key(r) && #[trigger] t.rooms[r].contains(other) implies t.sessions.contains_key(
        other,
    ) && t.sessions[other].room == r by {
        if other == id {
            assert(s.members(r).contains(id) || r == room);
        }
    }
}

/// Leaving the room one is recorded in keeps consistency, and the session is
/// then member of no room.
pub proof fn lemma_leave_room_keeps_consistency(s: ServerView, id: SessionId)
    requires
        s.consistent(),
        s.sessions.contains_key(id),
    ensures
        s.leave_room(id, s.sessions[id].room).consistent(),
        forall|r: Seq<char>| !s.leave_room(id, s.sessions[id].room).members(r).contains(id),
        s.leave_room(id, s.sessions[id].room).sessions.contains_key(id),
        s.leave_room(id, s.sessions[id].room).sessions[id].room.len() == 0,
{
}

/// Every coordinator operation keeps the registry and the membership table
/// consistent.
pub proof fn lemma_operations_keep_consistency(
    s: ServerView,
    id: SessionId,
    room: Seq<char>,
    name: Seq<char>,
)
    requires
        s.consistent(),
    ensures
        s.try_connect(id).consistent(),
        s.disconnect(id).consistent(),
        s.join(id, room).consistent(),
        s.rename(id, name).consistent(),
{
    if s.sessions.contains_key(id) {
        let old_room = s.sessions[id].room;
        lemma_leave_room_keeps_consistency(s, id);
        lemma_join_room_keeps_consistency(s.leave_room(id, old_room), id, room);
        lemma_disconnect_removes_everywhere(s, id);
    } else {
        let fresh = ServerView {
            rooms: s.rooms,
            sessions: s.sessions.insert(
                id,
                UserView { name: session_id_text(id), room: Seq::empty() },
            ),
        };
        lemma_join_room_keeps_consistency(fresh, id, default_room());
    }
}

/// In a run of connect attempts no identifier is assigned twice, none is
/// assigned that was registered at the start, and the registry grows by
/// exactly the assigned identifiers.
pub proof fn lemma_assigned_ids_are_unique(start: ServerView, candidates: Seq<SessionId>)
    ensures
        assigned_ids(start, candidates).no_duplicates(),
        forall|i: int|
            0 <= i < assigned_ids(start, candidates).len() ==> !start.sessions.contains_key(
                #[trigger] assigned_ids(start, candidates)[i],
            ),
        connect_all(start, candidates).sessions.dom() =~= start.sessions.dom().union(
            assigned_ids(start, candidates).to_set(),
        ),
    decreases candidates.len(),
{
    if candidates.len() > 0 {
        let earlier = assigned_ids(start, candidates.drop_last());
        let before = connect_all(start, candidates.drop_last());
        let id = candidates.last();
        lemma_assigned_ids_are_unique(start, candidates.drop_last());
        if !before.sessions.contains_key(id) {
            let now = earlier.push(id);
            assert forall|x: SessionId| now.to_set().contains(x) <==> earlier.to_set().contains(x) || x
                == id by {
                if earlier.to_set().contains(x) {
                    let k = choose|k: int| 0 <= k < earlier.len() && earlier[k] == x;
                    assert(now[k] == x);
                }
                if x == id {
                    assert(now[now.len() - 1] == x);
                }
            }
        }
    }
}

/// In a consistent state no session is a member of two rooms, and a member
/// of a room is registered and recorded in it.
pub proof fn lemma_one_room_per_session(
    s: ServerView,
    id: SessionId,
    first: Seq<char>,
    second: Seq<char>,
)
    requires
        s.consistent(),
        s.members(first).contains(id),
        s.members(second).contains(id),
    ensures
        first == second,
        s.sessions.contains_key(id),
        s.sessions[id].room == first,
{
}

/// After a join the user is recorded in the new room and is a member of it;
/// the room the user came from, if it is another one, no longer exists or no
/// longer contains the user.
pub proof fn lemma_join_moves_the_user(s: ServerView, id: SessionId, room: Seq<char>)
    requires
        s.sessions.contains_key(id),
    ensures
        s.join(id, room).sessions.contains_key(id),
        s.join(id, room).sessions[id].room == room,
        s.join(id, room).sessions[id].name == s.sessions[id].name,
        s.join(id, room).rooms.contains_key(room),
        s.join(id, room).rooms[room].contains(id),
        s.sessions[id].room != room ==> !s.join(id, room).rooms.contains_key(s.sessions[id].room)
            || !s.join(id, room).rooms[s.sessions[id].room].contains(id),
{
}

/// In a consistent state a join leaves the user in the new room and in no
/// other.
pub proof fn lemma_join_leaves_one_membership(s: ServerView, id: SessionId, room: Seq<char>)
    requires
        s.consistent(),
        s.sessions.contains_key(id),
    ensures
        forall|r: Seq<char>| s.join(id, room).members(r).contains(id) <==> r == room,
{
    lemma_leave_room_keeps_consistency(s, id);
    lemma_join_room_keeps_consistency(s.leave_room(id, s.sessions[id].room), id, room);
}

/// After a disconnect the session is absent from the registry and from every
/// room, and a room of which it was the only member no longer exists.
pub proof fn lemma_disconnect_removes_everywhere(s: ServerView, id: SessionId)
    requires
        s.consistent(),
    ensures
        !s.disconnect(id).sessions.contains_key(id),
        forall|r: Seq<char>| !s.disconnect(id).members(r).contains(id),
        forall|r: Seq<char>|
            s.rooms.contains_key(r) && #[trigger] s.rooms[r] =~= set![id] ==> !s.disconnect(
                id,
            ).rooms.contains_key(r),
{
    let t = s.disconnect(id);
    assert forall|r: Seq<char>| s.rooms.contains_key(r) && #[trigger] s.rooms[r] =~= set![
        id,
    ] implies !t.rooms.contains_key(r) by {
        assert(s.rooms[r].contains(id));
    }
}

/// Disconnecting twice is the same as disconnecting once.
pub proof fn lemma_disconnect_is_idempotent(s: ServerView, id: SessionId)
    ensures
        s.disconnect(id).disconnect(id) == s.disconnect(id),
{
}

/// A rename to a name with a forbidden character, or to a name that some
/// registered user holds, changes nothing; an allowed rename changes the
/// caller's name and nothing else.
pub proof fn lemma_rename_effect(s: ServerView, id: SessionId, name: Seq<char>)
    ensures
        has_forbidden_char(name) || s.name_taken(name) ==> s.rename(id, name) == s,
        s.rename_allowed(id, name) ==> s.rename(id, name).sessions[id].name == name && s.rename(
            id,
            name,
        ).sessions[id].room == s.sessions[id].room && s.rename(id, name).rooms == s.rooms,
        forall|other: SessionId|
            other != id && s.sessions.contains_key(other) ==> s.rename(id, name).sessions.contains_key(
                other,
            ) && #[trigger] s.rename(id, name).sessions[other] == s.sessions[other],
{
}

/// While no room entry is empty, the rooms that exist are exactly the rooms
/// with at least one member.
pub proof fn lemma_existing_rooms_are_the_inhabited(s: ServerView)
    requires
        s.rooms_nonempty(),
    ensures
        s.inhabited_rooms() =~= s.rooms.dom(),
{
    assert forall|room: Seq<char>| s.rooms.contains_key(room) implies s.inhabited_rooms().contains(
        room,
    ) by {
        let witness = choose|id: SessionId| s.rooms[room].contains(id);
        assert(s.members(room).contains(witness));
    }
}

/// One thing that the coordinator is asked to do: register a session under
/// a candidate identifier, or process a request of a session.
pub enum Event {
    Connect { candidate: SessionId },
    Request(RequestView),
}

/// The state after the coordinator has processed `event`.
pub open spec fn apply(s: ServerView, event: Event) -> ServerView {
    match event {
        Event::Connect { candidate } => s.try_connect(candidate),
        Event::Request(request) => s.step(request),
    }
}

/// The state after the coordinator has processed `events` in order.
pub open spec fn run(start: ServerView, events: Seq<Event>) -> ServerView
    decreases events.len(),
{
    if events.len() == 0 {
        start
    } else {
        apply(run(start, events.drop_last()), events.last())
    }
}

/// Whatever the coordinator is asked to do, in whatever order, it never
/// holds an empty room, and its registry and membership table agree.
pub proof fn lemma_every_reachable_state_is_valid(events: Seq<Event>)
    ensures
        run(ServerView::empty(), events).rooms_nonempty(),
        run(ServerView::empty(), events).consistent(),
    decreases events.len(),
{
    if events.len() > 0 {
        let before = run(ServerView::empty(), events.drop_last());
        lemma_every_reachable_state_is_valid(events.drop_last());
        match events.last() {
            Event::Connect { candidate } => {
                lemma_operations_keep_rooms_nonempty(before, candidate, Seq::empty(), Seq::empty());
                lemma_operations_keep_consistency(before, candidate, Seq::empty(), Seq::empty());
            },
            Event::Request(request) => {
                match request {
                    RequestView::Rename { id, new_name } => {
                        lemma_operations_keep_rooms_nonempty(before, id, Seq::empty(), new_name);
                        lemma_operations_keep_consistency(before, id, Seq::empty(), new_name);
                    },
                    RequestView::Join { id, room } => {
                        lemma_operations_keep_rooms_nonempty(before, id, room, Seq::empty());
                        lemma_operations_keep_consistency(before, id, room, Seq::empty());
                    },
                    RequestView::Disconnect { id } => {
                        lemma_operations_keep_rooms_nonempty(before, id, Seq::empty(), Seq::empty());
                        lemma_operations_keep_consistency(before, id, Seq::empty(), Seq::empty());
                    },
                    _ => {},
                }
            },
        }
    }
}

} // verus!
