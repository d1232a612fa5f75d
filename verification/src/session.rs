//! The per-connection session: liveness, frame interpretation and the
//! requests it sends to the coordinator.
//!
//! A session performs no I/O and reads no clock. The surrounding program
//! hands it each inbound frame and the current time, and carries out the
//! action it answers with. Times are nanoseconds on any monotonic clock.

use vstd::prelude::*;
use crate::command::parse_text;
use crate::command::request_of_text;
use crate::ident::SessionId;
use crate::ident::fresh_session_id;
use crate::ident::is_random_uuid;
use crate::ident::parse_session_id;
use crate::ident::parsed_session_id;
use crate::message::Connect;
use crate::message::Disconnect;
use crate::message::Request;

verus! {

/// Period of the liveness check: 5 s.
pub const HB_INTERVAL: u64 = 5_000_000_000;

/// A session that has been silent for longer than this is dropped: 10 s.
pub const CLIENT_TIMEOUT: u64 = 10_000_000_000;

/// One live connection: its identity and the time it was last seen alive.
#[derive(Debug)]
pub struct UserSession {
    id: SessionId,
    hb: u64,
}

/// Mathematical value of a [`UserSession`].
pub struct UserSessionView {
    pub id: SessionId,
    pub last_alive: u64,
}

/// What arrives on a connection: one frame, or a fault of the transport.
#[derive(Debug)]
pub enum Inbound {
    Text(String),
    Binary(Vec<u8>),
    Continuation,
    Ping(Vec<u8>),
    Pong,
    Close,
    Nop,
    TransportError,
}

/// What the session wants done in answer to an inbound item.
#[derive(Debug)]
pub enum SessionAction {
    /// Send the request to the coordinator.
    Forward(Request),
    /// Write the payload back as a binary frame.
    EchoBinary(Vec<u8>),
    /// Write a pong frame with this payload.
    Pong(Vec<u8>),
    /// Echo the close frame, then terminate the connection.
    CloseAndStop,
    /// Terminate the connection.
    Stop,
    /// Nothing to do.
    Nothing,
}

/// Outcome of a liveness check.
#[derive(Debug)]
pub enum Tick {
    /// The peer is alive: write a ping frame.
    Ping,
    /// The peer was silent for too long: send the notice to the
    /// coordinator and terminate the connection.
    TimedOut(Disconnect),
}

/// Time from `last_alive` to `now`; zero if `now` is the earlier one.
pub open spec fn elapsed(last_alive: u64, now: u64) -> int {
    if now >= last_alive {
        now - last_alive
    } else {
        0
    }
}

/// The identity of a session after the coordinator's answer to its connect
/// request has been read: the identifier read from the answer, or the
/// identity it had if none was read.
pub open spec fn identity_after(current: SessionId, parsed: Option<SessionId>) -> SessionId {
    match parsed {
        Some(id) => id,
        None => current,
    }
}

impl View for UserSession {
    type V = UserSessionView;

    closed spec fn view(&self) -> UserSessionView {
        UserSessionView { id: self.id, last_alive: self.hb }
    }
}

impl UserSession {
    /// A session for a connection opened at `now`, under a placeholder
    /// identity that holds until the coordinator assigns one.
    pub fn new(now: u64) -> (session: Self)
        ensures
            session@.last_alive == now,
            is_random_uuid(session@.id),
    {
        UserSession { id: fresh_session_id(), hb: now }
    }

    /// The session's current identity.
    pub fn id(&self) -> (id: SessionId)
        ensures
            id == self@.id,
    {
        self.id
    }

    /// The time the session was last seen alive.
    pub fn last_alive(&self) -> (at: u64)
        ensures
            at == self@.last_alive,
    {
        self.hb
    }

    /// Startup: the session counts as alive at `now` and asks the
    /// coordinator to register it, with `addr` as its delivery handle.
    pub fn started<H>(&mut self, now: u64, addr: H) -> (request: Connect<H>)
        ensures
            final(self)@ == (UserSessionView { id: old(self)@.id, last_alive: now }),
            request.addr == addr,
    {
        self.hb = now;
        Connect { addr }
    }

    /// Takes the identity that was read from the coordinator's answer, if
    /// one was read.
    pub fn adopt(&mut self, parsed: Option<SessionId>)
        ensures
            final(self)@ == (UserSessionView {
                id: identity_after(old(self)@.id, parsed),
                last_alive: old(self)@.last_alive,
            }),
    {
        if let Some(id) = parsed {
            self.id = id;
        }
    }

    /// The coordinator's answer to the connect request has arrived, or the
    /// request has failed (`None`).
    ///
    /// On an answer the session takes the identifier the answer holds; an
    /// answer that holds none leaves the placeholder in place. Returns
    /// whether the connection goes on: it is terminated exactly when the
    /// request failed.
    pub fn connected(&mut self, reply: Option<&str>) -> (keep_running: bool)
        ensures
            keep_running == reply is Some,
            final(self)@.last_alive == old(self)@.last_alive,
            final(self)@.id == match reply {
                Some(text) => identity_after(old(self)@.id, parsed_session_id(text@)),
                None => old(self)@.id,
            },
    {
        match reply {
            Some(text) => {
                self.adopt(parse_session_id(text));
                true
            },
            None => false,
        }
    }

    /// Liveness check at `now`: a session silent for longer than
    /// [`CLIENT_TIMEOUT`] has timed out; any other is pinged.
    pub fn heartbeat(&self, now: u64) -> (tick: Tick)
        ensures
            match tick {
                Tick::TimedOut(notice) => elapsed(self@.last_alive, now) > CLIENT_TIMEOUT
                    && notice.id == self@.id,
                Tick::Ping => elapsed(self@.last_alive, now) <= CLIENT_TIMEOUT,
            },
    {
        if now >= self.hb && now - self.hb > CLIENT_TIMEOUT {
            Tick::TimedOut(Disconnect { id: self.id })
        } else {
            Tick::Ping
        }
    }

    /// Interprets one inbound item, received at `now`.
    ///
    /// Text becomes the request it asks for. Binary is echoed. A ping
    /// refreshes the liveness time and is answered by a pong with the same
    /// payload; a pong only refreshes it. A close frame is echoed and ends
    /// the connection; a continuation frame or a transport fault ends it.
    pub fn handle(&mut self, item: Inbound, now: u64) -> (action: SessionAction)
        ensures
            final(self)@.id == old(self)@.id,
            final(self)@.last_alive == if item is Ping || item is Pong {
                now
            } else {
                old(self)@.last_alive
            },
            match item {
                Inbound::Text(text) => action matches SessionAction::Forward(request)
                    && request@ == request_of_text(old(self)@.id, text@),
                Inbound::Binary(payload) => action matches SessionAction::EchoBinary(echo)
                    && echo@ == payload@,
                Inbound::Ping(payload) => action matches SessionAction::Pong(echo) && echo@
                    == payload@,
                Inbound::Pong | Inbound::Nop => action is Nothing,
                Inbound::Close => action is CloseAndStop,
                Inbound::Continuation | Inbound::TransportError => action is Stop,
            },
    {
        match item {
            Inbound::Text(text) => SessionAction::Forward(parse_text(self.id, text.as_str())),
            Inbound::Binary(payload) => SessionAction::EchoBinary(payload),
            Inbound::Continuation => SessionAction::Stop,
            Inbound::Ping(payload) => {
                self.hb = now;
                SessionAction::Pong(payload)
            },
            Inbound::Pong => {
                self.hb = now;
                SessionAction::Nothing
            },
            Inbound::Close => SessionAction::CloseAndStop,
            Inbound::Nop => SessionAction::Nothing,
            Inbound::TransportError => SessionAction::Stop,
        }
    }

    /// The notice a session sends to the coordinator when it stops, for
    /// whatever reason.
    pub fn stopping(&self) -> (notice: Disconnect)
        ensures
            notice.id == self@.id,
    {
        Disconnect { id: self.id }
    }
}

/// The text frame that carries a notification to the client: its encoding,
/// or the empty text where encoding failed.
pub fn outbound_text(encoded: Option<String>) -> (text: String)
    ensures
        text@ == match encoded {
            Some(json) => json@,
            None => Seq::<char>::empty(),
        },
{
    match encoded {
        Some(json) => json,
        None => String::new(),
    }
}

} // verus!
