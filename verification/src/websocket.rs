//! Websocket connections: reading client frames and deciding what a
//! client message asks of the connection table.

use vstd::prelude::*;
use crate::shared::ClientMessage;

verus! {

/// Error of a websocket connection; it carries a message.
#[derive(Clone, Debug)]
pub struct Error(String);

impl View for Error {
    type V = Seq<char>;

    closed spec fn view(&self) -> Seq<char> {
        self.0@
    }
}

impl Error {
    /// The error that carries message `s`.
    pub closed spec fn carrying(s: String) -> Error {
        Error(s)
    }

    /// The message read back from an error is the one it was made from.
    pub broadcast proof fn law_message_round_trip(s: String)
        ensures
            #[trigger] Error::carrying(s)@ == s@,
    {
    }

    /// The message the error carries.
    pub fn to_string(&self) -> (s: String)
        ensures
            s@ == self@,
    {
        self.0.clone()
    }
}

impl From<String> for Error {
    fn from(s: String) -> (e: Self) {
        Error(s)
    }
}

impl vstd::std_specs::convert::FromSpecImpl<String> for Error {
    open spec fn obeys_from_spec() -> bool {
        true
    }

    open spec fn from_spec(v: String) -> Self {
        Error::carrying(v)
    }
}


/// A websocket frame as it arrived; `Other` holds the debug rendering of a
/// frame of any other kind.
#[derive(Debug)]
pub enum Frame {
    Text(String),
    Binary(Vec<u8>),
    Ping,
    Pong,
    Close,
    Other(String),
}

/// What a frame carries: JSON text still to be parsed, or a message already.
#[derive(Debug)]
pub enum Decoded {
    Json(String),
    Message(ClientMessage),
}

/// The message of the error for a frame that no client message stands for.
pub open spec fn unreadable_message(description: Seq<char>) -> Seq<char> {
    "Unable to read message: "@ + description
}

/// Reads a client frame: text is JSON to be parsed, binary data, close,
/// ping and pong frames are the messages of the same name, and any other
/// frame is an error naming it.
pub fn decode_frame(frame: Frame) -> (r: Result<Decoded, Error>)
    ensures
        match frame {
            Frame::Text(t) => r == Ok::<Decoded, Error>(Decoded::Json(t)),
            Frame::Binary(b) => r == Ok::<Decoded, Error>(Decoded::Message(ClientMessage::Binary(b))),
            Frame::Ping => r == Ok::<Decoded, Error>(Decoded::Message(ClientMessage::Ping)),
            Frame::Pong => r == Ok::<Decoded, Error>(Decoded::Message(ClientMessage::Pong)),
            Frame::Close => r == Ok::<Decoded, Error>(Decoded::Message(ClientMessage::Close)),
            Frame::Other(d) => r matches Err(e) && e@ == unreadable_message(d@),
        },
{
    match frame {
        Frame::Text(t) => Ok(Decoded::Json(t)),
        Frame::Binary(b) => Ok(Decoded::Message(ClientMessage::Binary(b))),
        Frame::Ping => Ok(Decoded::Message(ClientMessage::Ping)),
        Frame::Pong => Ok(Decoded::Message(ClientMessage::Pong)),
        Frame::Close => Ok(Decoded::Message(ClientMessage::Close)),
        Frame::Other(d) => {
            proof {
                reveal_strlit("Unable to read message: ");
            }
            let text = String::from_str("Unable to read message: ").concat(d.as_str());
            Err(Error::from(text))
        },
    }
}

/// The outcome of parsing a text frame: the parsed message, or the parser's
/// error text as a connection error.
pub fn from_json_result(parsed: Result<ClientMessage, String>) -> (r: Result<ClientMessage, Error>)
    ensures
        match parsed {
            Ok(m) => r == Ok::<ClientMessage, Error>(m),
            Err(s) => r matches Err(e) && e@ == s@,
        },
{
    match parsed {
        Ok(m) => Ok(m),
        Err(s) => Err(Error::from(s)),
    }
}

/// What handling a client message asks of the connection table.
#[derive(Debug, PartialEq, Eq, Structural)]
pub enum ConnectionAction {
    /// Drop the connection with this id.
    Remove(usize),
    /// Leave the table as it is.
    Keep,
}

/// Handles message `msg` of connection `id`: a close removes the
/// connection, every other handled message leaves the table as it is and
/// sends no answer. Subscription requests are not handled yet, and are not
/// to be passed.
pub fn handle_message(id: usize, msg: &ClientMessage) -> (a: ConnectionAction)
    requires
        !(msg is AddPriceSubscription),
        !(msg is GetPriceSubscriptionList),
    ensures
        msg is Close ==> a == ConnectionAction::Remove(id),
        !(msg is Close) ==> a == ConnectionAction::Keep,
{
    match msg {
        ClientMessage::Close => ConnectionAction::Remove(id),
        _ => ConnectionAction::Keep,
    }
}

/// The periodic update of all connections; there is nothing to send yet.
pub fn update() -> (r: Result<(), Error>)
    ensures
        r is Ok,
{
    Ok(())
}

} // verus!
