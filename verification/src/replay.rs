//! Receiving from a recorded inbound source, and what holds of every
//! receive call.
//!
//! A recorded source is a queue of what the transport would yield, item by
//! item: a frame or a read failure. Behind its last item the source has
//! ended. A receive call reads past the keep-alive frames at the head of the
//! queue and is decided by the first item of another kind, or by the end of
//! the source.

use vstd::prelude::*;
use std::collections::VecDeque;
use crate::channel::{concludes, event_verdict, RecvError, Step, Verdict, WebSocket};
use crate::frame::Frame;
use crate::protocol::Protocol;

verus! {

/// An item that a receive call reads past: a keep-alive frame.
pub open spec fn passed_over(item: Result<Frame, tungstenite::Error>) -> bool {
    item matches Ok(frame) && frame.is_control()
}

/// The number of keep-alive frames at the head of a source.
pub open spec fn leading_control(items: Seq<Result<Frame, tungstenite::Error>>) -> nat
    decreases items.len(),
{
    if items.len() > 0 && passed_over(items[0]) {
        1 + leading_control(items.drop_first())
    } else {
        0
    }
}

/// What a receive call on the source amounts to.
pub open spec fn stream_verdict<T: Protocol>(
    protocol: T,
    items: Seq<Result<Frame, tungstenite::Error>>,
) -> Verdict<T::Value> {
    let head = leading_control(items) as int;
    if head < items.len() {
        event_verdict(protocol, Some(items[head]))
    } else {
        Verdict::StreamEnded
    }
}

/// How many items a receive call on the source reads: the keep-alive frames
/// at its head and, where there is one, the item that decides the call.
pub open spec fn items_read(items: Seq<Result<Frame, tungstenite::Error>>) -> nat {
    let head = leading_control(items);
    if head < items.len() {
        head + 1
    } else {
        head
    }
}

/// `leading_control` is the one position that has only keep-alive frames
/// before it and either ends the source or holds an item of another kind.
pub proof fn lemma_leading_control_is(items: Seq<Result<Frame, tungstenite::Error>>, at: int)
    requires
        0 <= at <= items.len(),
        forall|j: int| 0 <= j < at ==> passed_over(#[trigger] items[j]),
        at < items.len() ==> !passed_over(items[at]),
    ensures
        leading_control(items) == at,
    decreases at,
{
    if at > 0 {
        let rest = items.drop_first();
        assert(passed_over(items[0]));
        assert forall|j: int| 0 <= j < at - 1 implies passed_over(#[trigger] rest[j]) by {
            assert(rest[j] == items[j + 1]);
        }
        if at - 1 < rest.len() {
            assert(rest[at - 1] == items[at]);
        }
        lemma_leading_control_is(rest, at - 1);
    }
}

impl<T: Protocol> WebSocket<T> {
    /// Receives one value from a recorded source, taking from the queue what
    /// the call reads.
    ///
    /// The call pulls item after item, reads past keep-alive frames and stops
    /// at the first item of another kind, whatever comes of it. With no such
    /// item it empties the queue and fails with `StreamEnded`. What it did not
    /// read stays in the queue, in order, for the next call.
    pub fn recv_replayed(&self, inbound: &mut VecDeque<Result<Frame, tungstenite::Error>>) -> (r:
        Result<T::Value, RecvError<T::Error>>)
        ensures
            concludes(r, stream_verdict(self.strategy(), old(inbound)@)),
            final(inbound)@ == old(inbound)@.skip(items_read(old(inbound)@) as int),
    {
        let ghost source = inbound@;
        let ghost mut taken: int = 0;
        loop
            invariant
                source == old(inbound)@,
                0 <= taken <= source.len(),
                inbound@ == source.skip(taken),
                forall|j: int| 0 <= j < taken ==> passed_over(#[trigger] source[j]),
            decreases source.len() - taken,
        {
            let ghost before = inbound@;
            let event = inbound.pop_front();
            proof {
                if before.len() > 0 {
                    assert(before[0] == source[taken]);
                    assert(inbound@ =~= source.skip(taken + 1));
                }
            }
            match self.recv(event) {
                Step::Continue => {
                    proof {
                        taken = taken + 1;
                    }
                },
                Step::Done(result) => {
                    proof {
                        lemma_leading_control_is(source, taken);
                    }
                    return result;
                },
            }
        }
    }
}

/// Keep-alive frames ahead of a data frame are consumed in silence: where the
/// first item that is no keep-alive frame is a data frame whose payload
/// decodes, the call returns the decoded value and has read up to that frame
/// and no further.
pub proof fn keep_alives_are_passed_over<T: Protocol>(
    protocol: T,
    items: Seq<Result<Frame, tungstenite::Error>>,
    at: int,
)
    requires
        0 <= at < items.len(),
        forall|j: int| 0 <= j < at ==> passed_over(#[trigger] items[j]),
        items[at] matches Ok(frame) && frame.is_data() && protocol.decoding(frame.payload())
            is Some,
    ensures
        stream_verdict(protocol, items) == Verdict::Value(
            protocol.decoding(items[at]->Ok_0.payload())->Some_0,
        ),
        items_read(items) == at + 1,
{
    lemma_leading_control_is(items, at);
}

/// A close frame is fatal and is never taken for the end of the source: where
/// the first item that is no keep-alive frame is a close frame, the call
/// fails with `ConnectionClosed`, whatever follows.
pub proof fn close_frame_is_fatal<T: Protocol>(
    protocol: T,
    items: Seq<Result<Frame, tungstenite::Error>>,
    at: int,
)
    requires
        0 <= at < items.len(),
        forall|j: int| 0 <= j < at ==> passed_over(#[trigger] items[j]),
        items[at] matches Ok(frame) && frame is Close,
    ensures
        stream_verdict(protocol, items) == Verdict::<T::Value>::ConnectionClosed,
        !(stream_verdict(protocol, items) is StreamEnded),
        items_read(items) == at + 1,
{
    lemma_leading_control_is(items, at);
}

/// A source that yields nothing but keep-alive frames, the empty source among
/// them, fails with `StreamEnded` once all of it is read.
pub proof fn exhausted_source_ends<T: Protocol>(
    protocol: T,
    items: Seq<Result<Frame, tungstenite::Error>>,
)
    requires
        forall|j: int| 0 <= j < items.len() ==> passed_over(#[trigger] items[j]),
    ensures
        stream_verdict(protocol, items) == Verdict::<T::Value>::StreamEnded,
        items_read(items) == items.len(),
{
    lemma_leading_control_is(items, items.len() as int);
}

/// A malformed data frame is a hard stop: where the first item that is no
/// keep-alive frame is a data frame whose payload does not decode, the call
/// fails with `Decoding` and reads nothing beyond that frame.
pub proof fn malformed_data_frame_stops<T: Protocol>(
    protocol: T,
    items: Seq<Result<Frame, tungstenite::Error>>,
    at: int,
)
    requires
        0 <= at < items.len(),
        forall|j: int| 0 <= j < at ==> passed_over(#[trigger] items[j]),
        items[at] matches Ok(frame) && frame.is_data() && protocol.decoding(frame.payload())
            is None,
    ensures
        stream_verdict(protocol, items) == Verdict::<T::Value>::Decoding,
        items_read(items) == at + 1,
{
    lemma_leading_control_is(items, at);
}

/// A read failure ends the call with that failure: where the first item that
/// is no keep-alive frame is a failure of the transport, the call fails with
/// `Transport` and reads nothing beyond it.
pub proof fn read_failure_is_surfaced<T: Protocol>(
    protocol: T,
    items: Seq<Result<Frame, tungstenite::Error>>,
    at: int,
)
    requires
        0 <= at < items.len(),
        forall|j: int| 0 <= j < at ==> passed_over(#[trigger] items[j]),
        items[at] is Err,
    ensures
        stream_verdict(protocol, items) == Verdict::<T::Value>::Transport(items[at]->Err_0),
        items_read(items) == at + 1,
{
    lemma_leading_control_is(items, at);
}

/// What `send` writes, `recv` hands to the decoder unchanged: a source that
/// replays the binary frame of a value's bytes, behind any keep-alive frames,
/// is decided by what the strategy makes of exactly those bytes. Where the
/// strategy reads the value back from its own bytes, the call returns the
/// value that was sent.
pub proof fn sent_bytes_reach_the_decoder<T: Protocol>(
    protocol: T,
    value: T::Value,
    items: Seq<Result<Frame, tungstenite::Error>>,
    at: int,
)
    requires
        0 <= at < items.len(),
        forall|j: int| 0 <= j < at ==> passed_over(#[trigger] items[j]),
        protocol.encoding(value) is Some,
        items[at] matches Ok(Frame::Binary(data)) && data@ == protocol.encoding(value)->Some_0,
    ensures
        stream_verdict(protocol, items) == match protocol.decoding(
            protocol.encoding(value)->Some_0,
        ) {
            Some(received) => Verdict::Value(received),
            None => Verdict::Decoding,
        },
        protocol.decoding(protocol.encoding(value)->Some_0) == Some(value) ==> stream_verdict(
            protocol,
            items,
        ) == Verdict::Value(value),
        items_read(items) == at + 1,
{
    lemma_leading_control_is(items, at);
}

} // verus!
