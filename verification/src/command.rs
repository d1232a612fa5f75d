//! The command text protocol: what a text frame asks of the coordinator.
//!
//! A text frame that does not start with `/` is chat text. One that does is
//! split at its first space into a command token and an argument.

use vstd::prelude::*;
use vstd::string::StringExecFns;
use vstd::string::StrSliceExecFns;
use crate::ident::SessionId;
use crate::message::ClientMessage;
use crate::message::GetInfo;
use crate::message::Join;
use crate::message::ListRooms;
use crate::message::MError;
use crate::message::Request;
use crate::message::RequestView;
use crate::message::UserRename;
use crate::model::default_room;

verus! {

/// Kind of the error sent for a command whose argument is missing or empty.
pub open spec fn invalid_argument() -> Seq<char> {
    "Invalid Argument"@
}

/// Kind of the error sent for a command that is not known.
pub open spec fn unknown_command() -> Seq<char> {
    "Unknown Command"@
}

/// Position of the first space of `text`, or its length if it has none.
pub open spec fn first_space(text: Seq<char>) -> int
    decreases text.len(),
{
    if text.len() == 0 || text[0] == ' ' {
        0
    } else {
        1 + first_space(text.drop_first())
    }
}

/// The command token: the text before the first space.
pub open spec fn command_token(text: Seq<char>) -> Seq<char> {
    text.subrange(0, first_space(text))
}

/// The argument: the text after the first space, absent if there is no space.
pub open spec fn command_argument(text: Seq<char>) -> Option<Seq<char>> {
    if first_space(text) < text.len() {
        Some(text.subrange(first_space(text) + 1, text.len() as int))
    } else {
        None
    }
}

/// The request that a command with a required argument makes: `build` of the
/// argument, or an "Invalid Argument" error if it is missing or empty.
pub open spec fn with_argument(
    id: SessionId,
    argument: Option<Seq<char>>,
    build: spec_fn(Seq<char>) -> RequestView,
) -> RequestView {
    match argument {
        Some(value) if value.len() > 0 => build(value),
        _ => RequestView::Error { id, etype: invalid_argument(), what: Seq::empty() },
    }
}

/// The request that the text frame `text` of the session `id` makes.
pub open spec fn request_of_text(id: SessionId, text: Seq<char>) -> RequestView {
    let token = command_token(text);
    let argument = command_argument(text);
    if text.len() == 0 || text[0] != '/' {
        RequestView::ClientMessage { id, msg: text }
    } else if token == "/name"@ {
        with_argument(id, argument, |name: Seq<char>| RequestView::Rename { id, new_name: name })
    } else if token == "/leave"@ {
        RequestView::Join { id, room: default_room() }
    } else if token == "/join"@ {
        with_argument(id, argument, |room: Seq<char>| RequestView::Join { id, room })
    } else if token == "/list"@ {
        RequestView::ListRooms { id }
    } else if token == "/get-info"@ {
        RequestView::GetInfo { id }
    } else {
        RequestView::Error { id, etype: unknown_command(), what: token }
    }
}

/// The first space is where no earlier character is a space and the
/// character, if there is one, is a space.
pub proof fn lemma_first_space(text: Seq<char>, at: int)
    requires
        0 <= at <= text.len(),
        forall|k: int| 0 <= k < at ==> text[k] != ' ',
        at < text.len() ==> text[at] == ' ',
    ensures
        first_space(text) == at,
    decreases text.len(),
{
    if at > 0 {
        let rest = text.drop_first();
        lemma_first_space(rest, at - 1);
    }
}

/// Whether two texts are the same.
fn same_text(a: &str, b: &str) -> (same: bool)
    ensures
        same == (a@ == b@),
{
    String::from_str(a) == String::from_str(b)
}

/// Splits `text` at its first space into the command token and the argument.
pub fn split_command(text: &str) -> (parts: (String, Option<String>))
    ensures
        parts.0@ == command_token(text@),
        match parts.1 {
            Some(argument) => command_argument(text@) == Some(argument@),
            None => command_argument(text@) is None,
        },
{
    let len = text.unicode_len();
    let mut split: usize = 0;
    let mut seen = false;
    for c in it: text.chars()
        invariant
            it.seq() == text@,
            text@.len() == len,
            split <= it.index(),
            seen ==> split < it.index() && text@[split as int] == ' ',
            !seen ==> split == it.index(),
            forall|k: int| 0 <= k < split ==> text@[k] != ' ',
    {
        if !seen {
            if c == ' ' {
                seen = true;
            } else {
                split += 1;
            }
        }
    }
    proof {
        lemma_first_space(text@, split as int);
    }
    let token = String::from_str(text.substring_char(0, split));
    if split < len {
        (token, Some(String::from_str(text.substring_char(split + 1, len))))
    } else {
        (token, None)
    }
}

/// The request for a command that requires an argument.
fn require_argument(id: SessionId, argument: Option<String>) -> (checked: Result<String, Request>)
    ensures
        match checked {
            Ok(value) => argument == Some(value) && value@.len() > 0,
            Err(refusal) => refusal@ == (RequestView::Error {
                id,
                etype: invalid_argument(),
                what: Seq::empty(),
            }) && !(argument matches Some(value) && value@.len() > 0),
        },
{
    match argument {
        Some(value) => {
            if value.as_str().is_empty() {
                Err(invalid_argument_request(id))
            } else {
                Ok(value)
            }
        },
        None => Err(invalid_argument_request(id)),
    }
}

fn invalid_argument_request(id: SessionId) -> (request: Request)
    ensures
        request@ == (RequestView::Error { id, etype: invalid_argument(), what: Seq::empty() }),
{
    Request::Error(
        MError { id, etype: String::from_str("Invalid Argument"), what: String::new() },
    )
}

/// Interprets the text frame `text` received by the session `id`.
///
/// Text that does not start with `/` is chat text. Otherwise the frame is a
/// command: `/name X` asks for a rename to `X`, `/join X` for a move to the
/// room `X`, `/leave` for a move to the default room, `/list` for the room
/// listing and `/get-info` for the caller's snapshot. Where `X` is missing
/// or empty the result is an "Invalid Argument" error request, and for any
/// other token an "Unknown Command" error request that echoes the token.
pub fn parse_text(id: SessionId, text: &str) -> (request: Request)
    ensures
        request@ == request_of_text(id, text@),
{
    let len = text.unicode_len();
    if len == 0 || text.get_char(0) != '/' {
        return Request::ClientMessage(ClientMessage { id, msg: String::from_str(text) });
    }
    let (token, argument) = split_command(text);
    if same_text(token.as_str(), "/name") {
        match require_argument(id, argument) {
            Ok(new_name) => Request::Rename(UserRename { id, new_name }),
            Err(refusal) => refusal,
        }
    } else if same_text(token.as_str(), "/leave") {
        Request::Join(Join { id, room: String::from_str("main") })
    } else if same_text(token.as_str(), "/join") {
        match require_argument(id, argument) {
            Ok(room) => Request::Join(Join { id, room }),
            Err(refusal) => refusal,
        }
    } else if same_text(token.as_str(), "/list") {
        Request::ListRooms(ListRooms { id })
    } else if same_text(token.as_str(), "/get-info") {
        Request::GetInfo(GetInfo { id })
    } else {
        Request::Error(MError { id, etype: String::from_str("Unknown Command"), what: token })
    }
}

} // verus!
