//! The channel: connecting, sending one value, receiving one value.
//!
//! Every function here decides and none performs I/O. The owner of the socket
//! carries out what a function hands back (a handshake with an address, the
//! write of a frame) and reports what the transport answered.

use vstd::prelude::*;
use crate::address::{parse_url, parsed_url};
use crate::frame::Frame;
use crate::protocol::Protocol;

verus! {

/// `tungstenite::Error`, a failure of the transport, carried as an opaque
/// value.
#[verifier::external_type_specification]
#[verifier::external_body]
pub struct ExTransportError(tungstenite::Error);

/// Why no channel came to be.
#[derive(Debug)]
pub enum ConnectError {
    /// The address is not a URL.
    InvalidAddress(url::ParseError),
    /// The transport could not establish the connection.
    HandshakeFailed(tungstenite::Error),
}

/// Why a value was not sent.
#[derive(Debug)]
pub enum SendError<E> {
    /// The strategy could not serialize the value; nothing was written.
    Encoding(E),
    /// The transport failed to write the frame.
    Transport(tungstenite::Error),
}

/// Why no value was received.
#[derive(Debug)]
pub enum RecvError<E> {
    /// The inbound source is exhausted, with no close frame seen.
    StreamEnded,
    /// The peer sent a close frame.
    ConnectionClosed,
    /// A data frame arrived whose payload the strategy rejects.
    Decoding(E),
    /// The transport failed to read.
    Transport(tungstenite::Error),
}

/// What a receive call does after one inbound event.
#[derive(Debug)]
pub enum Step<V, E> {
    /// The event carried nothing for the caller: pull the next one.
    Continue,
    /// The call is over, with this result.
    Done(Result<V, RecvError<E>>),
}

/// What one inbound event, or a whole inbound stream, amounts to.
///
/// `Decoding` does not say which error the strategy reports: that is the
/// strategy's to choose.
pub enum Verdict<V> {
    /// Nothing for the caller.
    Skip,
    /// A data frame whose payload decodes to this value.
    Value(V),
    /// The source is exhausted.
    StreamEnded,
    /// A close frame.
    ConnectionClosed,
    /// A data frame whose payload does not decode.
    Decoding,
    /// A read failure of the transport.
    Transport(tungstenite::Error),
}

/// What a single frame amounts to under a strategy: data frames are decoded,
/// keep-alive frames are passed over, a close frame is fatal.
pub open spec fn frame_verdict<T: Protocol>(protocol: T, frame: Frame) -> Verdict<T::Value> {
    match frame {
        Frame::Text(_) | Frame::Binary(_) => match protocol.decoding(frame.payload()) {
            Some(value) => Verdict::Value(value),
            None => Verdict::Decoding,
        },
        Frame::Ping(_) | Frame::Pong(_) => Verdict::Skip,
        Frame::Close(_) => Verdict::ConnectionClosed,
    }
}

/// What one pull from the inbound source amounts to: `None` is the end of the
/// source, an `Err` a read failure, an `Ok` a frame.
pub open spec fn event_verdict<T: Protocol>(
    protocol: T,
    event: Option<Result<Frame, tungstenite::Error>>,
) -> Verdict<T::Value> {
    match event {
        None => Verdict::StreamEnded,
        Some(Err(failure)) => Verdict::Transport(failure),
        Some(Ok(frame)) => frame_verdict(protocol, frame),
    }
}

impl<V, E> Step<V, E> {
    /// The step that a verdict calls for.
    pub open spec fn agrees(self, verdict: Verdict<V>) -> bool {
        match verdict {
            Verdict::Skip => self is Continue,
            Verdict::Value(value) => self == Step::<V, E>::Done(Ok(value)),
            Verdict::StreamEnded => self == Step::<V, E>::Done(Err(RecvError::StreamEnded)),
            Verdict::ConnectionClosed => self == Step::<V, E>::Done(
                Err(RecvError::ConnectionClosed),
            ),
            Verdict::Decoding => self matches Step::Done(Err(RecvError::Decoding(_))),
            Verdict::Transport(failure) => self == Step::<V, E>::Done(
                Err(RecvError::Transport(failure)),
            ),
        }
    }
}

/// The result that a verdict calls for, where the verdict ends the call.
pub open spec fn concludes<V, E>(result: Result<V, RecvError<E>>, verdict: Verdict<V>) -> bool {
    !(verdict is Skip) && Step::Done(result).agrees(verdict)
}

/// An accepted address, waiting for the transport's handshake.
pub struct Handshake<T: Protocol> {
    /// The strategy that the channel will own.
    pub protocol: T,
    /// The address to connect to.
    pub address: url::Url,
}

/// A live channel: a serialization strategy over one connection.
pub struct WebSocket<T: Protocol> {
    protocol: T,
}

impl<T: Protocol> Handshake<T> {
    /// Accepts or refuses an address by the outcome of parsing it.
    pub fn begin(protocol: T, parsed: Result<url::Url, url::ParseError>) -> (r: Result<
        Handshake<T>,
        ConnectError,
    >)
        ensures
            r == match parsed {
                Ok(address) => Ok::<Handshake<T>, ConnectError>(Handshake { protocol, address }),
                Err(reason) => Err::<Handshake<T>, ConnectError>(
                    ConnectError::InvalidAddress(reason),
                ),
            },
    {
        match parsed {
            Ok(address) => Ok(Handshake { protocol, address }),
            Err(reason) => Err(ConnectError::InvalidAddress(reason)),
        }
    }

    /// Turns the transport's answer to the handshake into a channel, which
    /// then owns the strategy, or into `HandshakeFailed` with the transport's
    /// error.
    pub fn complete(self, outcome: Result<(), tungstenite::Error>) -> (r: Result<
        WebSocket<T>,
        ConnectError,
    >)
        ensures
            match outcome {
                Ok(_) => r matches Ok(channel) && channel.strategy() == self.protocol,
                Err(failure) => r == Err::<WebSocket<T>, ConnectError>(
                    ConnectError::HandshakeFailed(failure),
                ),
            },
    {
        match outcome {
            Ok(_) => Ok(WebSocket { protocol: self.protocol }),
            Err(failure) => Err(ConnectError::HandshakeFailed(failure)),
        }
    }
}

impl<T: Protocol> WebSocket<T> {
    /// The strategy that the channel owns.
    pub closed spec fn strategy(self) -> T {
        self.protocol
    }

    /// The strategy that the channel owns.
    pub fn protocol(&self) -> (p: &T)
        ensures
            *p == self.strategy(),
    {
        &self.protocol
    }

    /// Checks the address before anything touches the network.
    ///
    /// A string that is no URL is refused with `InvalidAddress`. Any other
    /// yields the parsed address together with the strategy, for the
    /// transport's handshake.
    pub fn connect(protocol: T, url: &str) -> (r: Result<Handshake<T>, ConnectError>)
        ensures
            match parsed_url(url@) {
                Some(address) => r == Ok::<Handshake<T>, ConnectError>(
                    Handshake { protocol, address },
                ),
                None => r matches Err(ConnectError::InvalidAddress(_)),
            },
    {
        Handshake::begin(protocol, parse_url(url))
    }

    /// Wraps the outcome of serialization: bytes become one binary frame, an
    /// error becomes `Encoding` and leaves nothing to write.
    pub fn outbound(encoded: Result<Vec<u8>, T::Error>) -> (r: Result<Frame, SendError<T::Error>>)
        ensures
            r == match encoded {
                Ok(data) => Ok::<Frame, SendError<T::Error>>(Frame::Binary(data)),
                Err(reason) => Err::<Frame, SendError<T::Error>>(SendError::Encoding(reason)),
            },
    {
        match encoded {
            Ok(data) => Ok(Frame::Binary(data)),
            Err(reason) => Err(SendError::Encoding(reason)),
        }
    }

    /// Serializes a value into the one frame to write.
    ///
    /// Where the strategy can serialize the value, the result is a binary
    /// frame holding exactly its bytes; where it cannot, the result is
    /// `Encoding` and there is nothing to write.
    pub fn send(&self, value: &T::Value) -> (r: Result<Frame, SendError<T::Error>>)
        ensures
            match self.strategy().encoding(*value) {
                Some(bytes) => r matches Ok(Frame::Binary(data)) && data@ == bytes,
                None => r matches Err(SendError::Encoding(_)),
            },
    {
        Self::outbound(self.protocol.serialize(value))
    }

    /// Turns the transport's answer to the write of a frame into the result
    /// of the send.
    pub fn written(outcome: Result<(), tungstenite::Error>) -> (r: Result<
        (),
        SendError<T::Error>,
    >)
        ensures
            r == match outcome {
                Ok(_) => Ok::<(), SendError<T::Error>>(()),
                Err(failure) => Err::<(), SendError<T::Error>>(SendError::Transport(failure)),
            },
    {
        match outcome {
            Ok(_) => Ok(()),
            Err(failure) => Err(SendError::Transport(failure)),
        }
    }

    /// Wraps the outcome of deserializing a data frame: either way the
    /// receive call is over.
    pub fn decoded(outcome: Result<T::Value, T::Error>) -> (step: Step<T::Value, T::Error>)
        ensures
            step == match outcome {
                Ok(value) => Step::<T::Value, T::Error>::Done(Ok(value)),
                Err(reason) => Step::<T::Value, T::Error>::Done(Err(RecvError::Decoding(reason))),
            },
    {
        match outcome {
            Ok(value) => Step::Done(Ok(value)),
            Err(reason) => Step::Done(Err(RecvError::Decoding(reason))),
        }
    }

    /// Classifies one frame: a data frame ends the call with the decoded
    /// value or with `Decoding`, a keep-alive frame is passed over, a close
    /// frame ends the call with `ConnectionClosed`.
    pub fn classify(&self, frame: &Frame) -> (step: Step<T::Value, T::Error>)
        ensures
            step.agrees(frame_verdict(self.strategy(), *frame)),
    {
        match frame {
            Frame::Text(text) => Self::decoded(self.protocol.deserialize(text.as_str().as_bytes())),
            Frame::Binary(data) => Self::decoded(self.protocol.deserialize(data.as_slice())),
            Frame::Ping(_) | Frame::Pong(_) => Step::Continue,
            Frame::Close(_) => Step::Done(Err(RecvError::ConnectionClosed)),
        }
    }

    /// Decides what one pull from the inbound source means for the receive
    /// call in progress.
    ///
    /// The end of the source gives `StreamEnded`, a read failure gives
    /// `Transport` with that failure, and a frame is classified. Only a
    /// keep-alive frame lets the call go on.
    pub fn recv(&self, event: Option<Result<Frame, tungstenite::Error>>) -> (step: Step<
        T::Value,
        T::Error,
    >)
        ensures
            step.agrees(event_verdict(self.strategy(), event)),
    {
        match event {
            None => Step::Done(Err(RecvError::StreamEnded)),
            Some(Err(failure)) => Step::Done(Err(RecvError::Transport(failure))),
            Some(Ok(frame)) => self.classify(&frame),
        }
    }
}

} // verus!
