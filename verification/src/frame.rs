//! The frames that travel over the connection.

use vstd::prelude::*;

verus! {

/// One message of the transport, tagged by its kind.
#[derive(Debug, PartialEq, Eq)]
pub enum Frame {
    /// Application data, carried as UTF-8 text.
    Text(String),
    /// Application data, carried as raw bytes.
    Binary(Vec<u8>),
    /// Keep-alive request; carries no application data.
    Ping(Vec<u8>),
    /// Keep-alive answer; carries no application data.
    Pong(Vec<u8>),
    /// The peer closes the connection, with an optional status code and
    /// reason.
    Close(Option<(u16, String)>),
}

impl Frame {
    /// A frame that carries an application payload.
    pub open spec fn is_data(self) -> bool {
        self is Text || self is Binary
    }

    /// A keep-alive frame, which a receiver passes over.
    pub open spec fn is_control(self) -> bool {
        self is Ping || self is Pong
    }

    /// The bytes handed to the decoder: the UTF-8 encoding of a text frame,
    /// the contents of a binary one, and nothing for the other kinds.
    pub open spec fn payload(self) -> Seq<u8> {
        match self {
            Frame::Text(text) => vstd::utf8::encode_utf8(text@),
            Frame::Binary(data) => data@,
            _ => Seq::empty(),
        }
    }
}

} // verus!
