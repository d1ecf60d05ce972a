//! Messages that are exchanged with clients over a WebSocket.

use vstd::prelude::*;

verus! {

/// A message from or to a client.
#[derive(Debug, PartialEq, Eq)]
pub enum Message {
    /// A text message.
    Text(String),
    /// A binary message.
    Binary(Vec<u8>),
    /// A ping message.
    Ping(Vec<u8>),
    /// A pong message.
    Pong(Vec<u8>),
    /// A message that closes the connection.
    Close,
}

impl Message {
    /// The bytes that the message carries. Text is encoded as UTF-8.
    pub open spec fn data(self) -> Seq<u8> {
        match self {
            Message::Text(text) => vstd::utf8::encode_utf8(text@),
            Message::Binary(data) => data@,
            Message::Ping(data) => data@,
            Message::Pong(data) => data@,
            Message::Close => Seq::empty(),
        }
    }

    /// Returns the bytes that the message carries.
    pub fn into_data(self) -> (data: Vec<u8>)
        ensures
            data@ == self.data(),
            match self {
                Message::Text(text) => vstd::utf8::valid_utf8(data@) && vstd::utf8::decode_utf8(
                    data@,
                ) == text@,
                Message::Binary(bytes) => data@ == bytes@,
                Message::Ping(bytes) => data@ == bytes@,
                Message::Pong(bytes) => data@ == bytes@,
                Message::Close => data@.len() == 0,
            },
    {
        proof {
            law_messages_carry_all_their_data(self);
        }
        match self {
            Message::Text(text) => vstd::slice::slice_to_vec(text.as_str().as_bytes()),
            Message::Binary(data) | Message::Ping(data) | Message::Pong(data) => data,
            Message::Close => Vec::new(),
        }
    }
}

/// Law: a message carries all of its data and nothing else. The data of a text is UTF-8 that decodes
/// to the text, and it is empty only if the text is.
pub proof fn law_messages_carry_all_their_data(message: Message)
    ensures
        match message {
            Message::Text(text) => {
                &&& vstd::utf8::valid_utf8(message.data())
                &&& vstd::utf8::decode_utf8(message.data()) == text@
                &&& message.data().len() == 0 <==> text@.len() == 0
            },
            Message::Binary(bytes) => message.data() == bytes@,
            Message::Ping(bytes) => message.data() == bytes@,
            Message::Pong(bytes) => message.data() == bytes@,
            Message::Close => message.data().len() == 0,
        },
{
    if let Message::Text(text) = message {
        vstd::utf8::encode_utf8_valid_utf8(text@);
        vstd::utf8::encode_utf8_decode_utf8(text@);
    }
}

} // verus!
