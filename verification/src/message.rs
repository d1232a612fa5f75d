//! Users, notifications and the typed requests that sessions send to the
//! coordinator.

use vstd::prelude::*;
use vstd::string::StringExecFns;
use crate::ident::SessionId;

verus! {

/// Sender tag of a notification that relays a user's chat text.
pub const T_SENDER_USER: &'static str = "user";

/// Sender tag, and sender name, of a notification that the coordinator itself
/// originates.
pub const T_SENDER_SYSTEM: &'static str = "system";

/// Sender tag of a notification that reports a protocol-shape error.
pub const T_SENDER_SYSTEM_ERR: &'static str = "error";

/// A user as the coordinator records it: display name and current room.
/// An empty `room` means the user is in no room.
#[derive(Debug)]
pub struct User {
    pub name: String,
    pub room: String,
}

/// Mathematical value of a [`User`].
pub struct UserView {
    pub name: Seq<char>,
    pub room: Seq<char>,
}

impl View for User {
    type V = UserView;

    open spec fn view(&self) -> UserView {
        UserView { name: self.name@, room: self.room@ }
    }
}

impl Clone for User {
    fn clone(&self) -> (copy: Self)
        ensures
            copy == *self,
    {
        User { name: self.name.clone(), room: self.room.clone() }
    }
}

impl Default for User {
    fn default() -> (user: Self)
        ensures
            user@ == (UserView { name: Seq::empty(), room: Seq::empty() }),
    {
        User { name: String::new(), room: String::new() }
    }
}

/// A notification from the coordinator to one session.
///
/// `set_info` carries a `(name, room)` snapshot and is present only on
/// identity notifications; the three text fields are then empty.
#[derive(Debug)]
pub struct MMessage {
    pub message: String,
    pub sender_type: String,
    pub sender_name: String,
    pub set_info: Option<(String, String)>,
}

/// Mathematical value of an [`MMessage`].
pub struct MMessageView {
    pub message: Seq<char>,
    pub sender_type: Seq<char>,
    pub sender_name: Seq<char>,
    pub set_info: Option<(Seq<char>, Seq<char>)>,
}

impl MMessageView {
    /// A text notification: no snapshot attached.
    pub open spec fn text(message: Seq<char>, sender_type: Seq<char>, sender_name: Seq<char>) -> Self {
        MMessageView { message, sender_type, sender_name, set_info: None }
    }

    /// A snapshot notification: the user's name and room, all text fields empty.
    pub open spec fn snapshot(user: UserView) -> Self {
        MMessageView {
            message: Seq::empty(),
            sender_type: Seq::empty(),
            sender_name: Seq::empty(),
            set_info: Some((user.name, user.room)),
        }
    }
}

impl View for MMessage {
    type V = MMessageView;

    open spec fn view(&self) -> MMessageView {
        MMessageView {
            message: self.message@,
            sender_type: self.sender_type@,
            sender_name: self.sender_name@,
            set_info: match self.set_info {
                Some((name, room)) => Some((name@, room@)),
                None => None,
            },
        }
    }
}

impl MMessage {
    /// Builds a text notification.
    pub fn from(message: &str, sender_type: &str, sender_name: &str) -> (m: Self)
        ensures
            m@ == MMessageView::text(message@, sender_type@, sender_name@),
    {
        MMessage {
            message: String::from_str(message),
            sender_type: String::from_str(sender_type),
            sender_name: String::from_str(sender_name),
            set_info: None,
        }
    }

    /// Builds the snapshot notification for `user`.
    pub fn from_set_info(user: &User) -> (m: Self)
        ensures
            m@ == MMessageView::snapshot(user@),
    {
        MMessage {
            message: String::new(),
            sender_type: String::new(),
            sender_name: String::new(),
            set_info: Some((user.name.clone(), user.room.clone())),
        }
    }
}

impl Clone for MMessage {
    fn clone(&self) -> (copy: Self)
        ensures
            copy@ == self@,
    {
        let set_info = match &self.set_info {
            Some((name, room)) => Some((name.clone(), room.clone())),
            None => None,
        };
        MMessage {
            message: self.message.clone(),
            sender_type: self.sender_type.clone(),
            sender_name: self.sender_name.clone(),
            set_info,
        }
    }
}

/// One notification together with the session it is addressed to.
#[derive(Debug)]
pub struct Delivery {
    pub to: SessionId,
    pub message: MMessage,
}

/// Mathematical value of a [`Delivery`].
pub struct DeliveryView {
    pub to: SessionId,
    pub message: MMessageView,
}

impl View for Delivery {
    type V = DeliveryView;

    open spec fn view(&self) -> DeliveryView {
        DeliveryView { to: self.to, message: self.message@ }
    }
}

/// The mathematical values of a list of deliveries, in order.
pub open spec fn delivery_views(out: Seq<Delivery>) -> Seq<DeliveryView> {
    Seq::new(out.len(), |i: int| out[i]@)
}

/// Request: a new connection asks to be registered; `addr` is the handle
/// through which notifications reach it.
#[derive(Debug)]
pub struct Connect<H> {
    pub addr: H,
}

/// The coordinator's answer to a connect request that it has granted.
#[derive(Debug)]
pub struct Connected {
    /// The identifier assigned to the session.
    pub id: SessionId,
    /// The answer for the session: the text of the identifier.
    pub reply: String,
    /// The notifications that the connect has caused.
    pub notices: Vec<Delivery>,
}

/// Request: the session `id` has gone away.
#[derive(Debug)]
pub struct Disconnect {
    pub id: SessionId,
}

/// Request: move the session `id` to the room `room`.
#[derive(Debug)]
pub struct Join {
    pub id: SessionId,
    pub room: String,
}

/// Request: relay the chat text `msg` to the room of the session `id`.
#[derive(Debug)]
pub struct ClientMessage {
    pub id: SessionId,
    pub msg: String,
}

/// Request: tell the session `id` which rooms exist.
#[derive(Debug)]
pub struct ListRooms {
    pub id: SessionId,
}

/// Request: tell the session `id` that its input was malformed; `etype` is
/// the kind of error and `what` the offending detail.
#[derive(Debug)]
pub struct MError {
    pub id: SessionId,
    pub etype: String,
    pub what: String,
}

/// Request: change the display name of the session `id` to `new_name`.
#[derive(Debug)]
pub struct UserRename {
    pub id: SessionId,
    pub new_name: String,
}

/// Request: send the session `id` a snapshot of its name and room.
#[derive(Debug)]
pub struct GetInfo {
    pub id: SessionId,
}

/// A typed request from a session to the coordinator.
#[derive(Debug)]
pub enum Request {
    Rename(UserRename),
    Join(Join),
    ListRooms(ListRooms),
    GetInfo(GetInfo),
    Error(MError),
    ClientMessage(ClientMessage),
    Disconnect(Disconnect),
}

/// Mathematical value of a [`Request`].
pub enum RequestView {
    Rename { id: SessionId, new_name: Seq<char> },
    Join { id: SessionId, room: Seq<char> },
    ListRooms { id: SessionId },
    GetInfo { id: SessionId },
    Error { id: SessionId, etype: Seq<char>, what: Seq<char> },
    ClientMessage { id: SessionId, msg: Seq<char> },
    Disconnect { id: SessionId },
}

impl View for Request {
    type V = RequestView;

    open spec fn view(&self) -> RequestView {
        match *self {
            Request::Rename(m) => RequestView::Rename { id: m.id, new_name: m.new_name@ },
            Request::Join(m) => RequestView::Join { id: m.id, room: m.room@ },
            Request::ListRooms(m) => RequestView::ListRooms { id: m.id },
            Request::GetInfo(m) => RequestView::GetInfo { id: m.id },
            Request::Error(m) => RequestView::Error { id: m.id, etype: m.etype@, what: m.what@ },
            Request::ClientMessage(m) => RequestView::ClientMessage { id: m.id, msg: m.msg@ },
            Request::Disconnect(m) => RequestView::Disconnect { id: m.id },
        }
    }
}

} // verus!
