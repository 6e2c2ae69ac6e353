//! One step of reception on a link: take in the bytes that have arrived, then try to
//! decode a message from the front of what is buffered, and commit only a whole frame.

use vstd::prelude::*;
use crate::framing::{FramingBuffer, Overflow};
use crate::wire::{bytes_read, decode, frame, parse, DecodeError, Decoded, Message};
use crate::wire::{lemma_partial_frame, lemma_round_trip, MAX_FRAME_LEN};

verus! {

/// Why a reception step has failed.
#[derive(Clone, Copy, Debug, PartialEq, Eq, Structural)]
pub enum LinkError {
    /// The bytes that arrived do not fit in the framing buffer.
    Ingestion(Overflow),
    /// The front of the buffer cannot be the beginning of a frame.
    Deserialize(DecodeError),
}

/// What a reception step does to the `buffered` bytes of a link whose buffer holds
/// `capacity` bytes when `received` arrives, and what it reports.
///
/// When the new bytes do not fit, the buffer keeps what it had and the step fails.
/// Otherwise the new bytes go behind the old ones and the front is decoded:
/// - a whole frame is discarded from the front and its message reported;
/// - the beginning of a frame stays where it is and `Ok(None)` asks for more bytes;
/// - bytes that begin no frame stay where they are and the step fails.
pub open spec fn reception<M: Message>(buffered: Seq<u8>, received: Seq<u8>, capacity: nat) -> (
    Seq<u8>,
    Result<Option<M>, LinkError>,
) {
    if buffered.len() + received.len() > capacity {
        (buffered, Err(LinkError::Ingestion(Overflow)))
    } else {
        let all = buffered + received;
        match parse::<M>(all) {
            Decoded::Message(message) => (all.skip(bytes_read::<M>(all) as int), Ok(Some(message))),
            Decoded::NeedMoreBytes => (all, Ok(None)),
            Decoded::Invalid(error) => (all, Err(LinkError::Deserialize(error))),
        }
    }
}

/// Performs one reception step on `buffer` with the bytes `received`.
pub fn receive<M: Message, const N: usize>(buffer: &mut FramingBuffer<N>, received: &[u8]) -> (result:
    Result<Option<M>, LinkError>)
    ensures
        (final(buffer)@, result) == reception::<M>(old(buffer)@, received@, N as nat),
{
    match buffer.ingest(received) {
        Ok(()) => {},
        Err(overflow) => {
            return Err(LinkError::Ingestion(overflow));
        },
    }
    let mut cursor = buffer.cursor();
    assert(cursor.remaining() =~= buffer@);
    match decode::<M>(&mut cursor) {
        Decoded::Message(message) => {
            let checkpoint = cursor.capture();
            buffer.flush(checkpoint);
            Ok(Some(message))
        },
        Decoded::NeedMoreBytes => Ok(None),
        Decoded::Invalid(error) => Err(LinkError::Deserialize(error)),
    }
}

/// Nothing is discarded when a step asks for more bytes, so it does not matter in how
/// many pieces bytes arrive: if a step on `first` asks for more, then a further step on
/// `second` reports what a single step on both together would have reported, and leaves
/// the same bytes buffered whenever both pieces fit.
pub proof fn lemma_checkpoint_isolation<M: Message>(
    buffered: Seq<u8>,
    first: Seq<u8>,
    second: Seq<u8>,
    capacity: nat,
)
    requires
        reception::<M>(buffered, first, capacity).1 == Ok::<Option<M>, LinkError>(None),
    ensures
        reception::<M>(buffered, first, capacity).0 == buffered + first,
        reception::<M>(buffered + first, second, capacity).1 == reception::<M>(
            buffered,
            first + second,
            capacity,
        ).1,
        buffered.len() + first.len() + second.len() <= capacity ==> reception::<M>(
            buffered + first,
            second,
            capacity,
        ) == reception::<M>(buffered, first + second, capacity),
{
    assert((buffered + first) + second =~= buffered + (first + second));
}

/// A frame that arrives in pieces: while only the first `upto` bytes of the frame have
/// arrived, with `upto` short of the whole, every step asks for more and keeps all of
/// them; the step that brings the last byte reports the message and leaves nothing.
pub proof fn lemma_frame_in_pieces<M: Message>(message: M, from: nat, upto: nat, capacity: nat)
    requires
        from <= upto <= frame(message).len(),
        MAX_FRAME_LEN <= capacity,
    ensures
        upto < frame(message).len() ==> reception::<M>(
            frame(message).take(from as int),
            frame(message).subrange(from as int, upto as int),
            capacity,
        ) == (frame(message).take(upto as int), Ok::<Option<M>, LinkError>(None)),
        upto == frame(message).len() ==> reception::<M>(
            frame(message).take(from as int),
            frame(message).subrange(from as int, upto as int),
            capacity,
        ) == (Seq::<u8>::empty(), Ok::<Option<M>, LinkError>(Some(message))),
{
    let whole = frame(message);
    let all = whole.take(from as int) + whole.subrange(from as int, upto as int);
    assert(all =~= whole.take(upto as int));
    message.lemma_payload_len();
    M::lemma_payload_bounded(message.wire_opcode());
    if upto < whole.len() {
        lemma_partial_frame(message, upto);
    } else {
        assert(all =~= whole);
        lemma_round_trip(message, Seq::empty());
        assert(whole + Seq::<u8>::empty() =~= whole);
        assert(whole.skip(whole.len() as int) =~= Seq::<u8>::empty());
    }
}

} // verus!
