//! The wire format: one frame per message, an opcode byte followed by a payload whose
//! length the opcode implies. There is no length prefix and no delimiter.
//!
//! Each message type describes its own opcode table through [`Message`]; [`encode`] and
//! [`decode`] are written once against that description.

use vstd::prelude::*;
use crate::framing::Cursor;

verus! {

/// The longest frame any message type may have, in bytes.
pub const MAX_FRAME_LEN: usize = 8;

/// Why the bytes at the read position are not a frame.
#[derive(Clone, Copy, Debug, PartialEq, Eq, Structural)]
pub enum DecodeError {
    /// The first byte is not an opcode of the expected message type.
    UnknownOpcode,
    /// The opcode is known, but its payload does not stand for a value.
    MalformedPayload,
}

/// The outcome of one attempt to decode a message.
#[derive(Debug, PartialEq, Eq)]
pub enum Decoded<M> {
    /// A whole frame was read and it stands for this message.
    Message(M),
    /// The bytes so far are the beginning of a frame; the rest has not arrived. This is
    /// not a failure: the same bytes are to be decoded again once more have come.
    NeedMoreBytes,
    /// The bytes cannot be the beginning of any frame.
    Invalid(DecodeError),
}

/// A message with a frame layout: which opcode each variant has, how long the payload
/// behind each opcode is, and what the payload means.
pub trait Message: Sized {
    /// The opcode of this message.
    spec fn wire_opcode(&self) -> u8;

    /// The payload of this message, as it follows the opcode.
    spec fn wire_payload(&self) -> Seq<u8>;

    /// The payload length that `opcode` implies, or `None` if this message type has no
    /// such opcode.
    spec fn payload_len(opcode: u8) -> Option<nat>;

    /// The message that `opcode` and `payload` stand for: `None` if the opcode is
    /// unknown, the payload has another length than the opcode implies, or the payload
    /// stands for no value.
    spec fn from_wire(opcode: u8, payload: Seq<u8>) -> Option<Self>;

    /// A message's own opcode implies the length of its payload.
    proof fn lemma_payload_len(&self)
        ensures
            Self::payload_len(self.wire_opcode()) == Some(self.wire_payload().len()),
    ;

    /// No opcode implies a payload that would make the frame longer than
    /// [`MAX_FRAME_LEN`].
    proof fn lemma_payload_bounded(opcode: u8)
        ensures
            Self::payload_len(opcode) matches Some(len) ==> 1 + len <= MAX_FRAME_LEN,
    ;

    /// A message's opcode and payload stand for that message.
    proof fn lemma_from_wire(&self)
        ensures
            Self::from_wire(self.wire_opcode(), self.wire_payload()) == Some(*self),
    ;

    /// Only a message's own opcode and payload stand for it: no two frames decode to
    /// the same message.
    proof fn lemma_wire_unique(&self, opcode: u8, payload: Seq<u8>)
        requires
            Self::from_wire(opcode, payload) == Some(*self),
        ensures
            opcode == self.wire_opcode(),
            payload == self.wire_payload(),
    ;

    /// Returns the opcode of this message.
    fn opcode(&self) -> (opcode: u8)
        ensures
            opcode == self.wire_opcode(),
    ;

    /// Returns the payload of this message.
    fn payload(&self) -> (payload: Vec<u8>)
        ensures
            payload@ == self.wire_payload(),
    ;

    /// Looks `opcode` up in the opcode table and returns the length of its payload, or
    /// `None` if the table has no such opcode.
    fn payload_size(opcode: u8) -> (len: Option<usize>)
        ensures
            match len {
                Some(len) => Self::payload_len(opcode) == Some(len as nat),
                None => Self::payload_len(opcode).is_none(),
            },
    ;

    /// Builds the message that `opcode` and `payload` stand for. Returns `None` if the
    /// opcode is unknown, the payload has another length than the opcode implies, or
    /// the payload stands for no value.
    fn assemble(opcode: u8, payload: &[u8]) -> (message: Option<Self>)
        ensures
            message == Self::from_wire(opcode, payload@),
    ;
}

/// The frame of a message: its opcode, then its payload.
pub open spec fn frame<M: Message>(message: M) -> Seq<u8> {
    seq![message.wire_opcode()] + message.wire_payload()
}

/// What decoding finds at the front of `bytes`.
///
/// The first byte selects the opcode. An opcode outside the table makes the bytes
/// invalid. With fewer bytes than the opcode's payload needs, or with none at all, more
/// bytes are needed. Bytes behind the frame play no part.
pub open spec fn parse<M: Message>(bytes: Seq<u8>) -> Decoded<M> {
    if bytes.len() == 0 {
        Decoded::NeedMoreBytes
    } else {
        match M::payload_len(bytes[0]) {
            None => Decoded::Invalid(DecodeError::UnknownOpcode),
            Some(len) => if bytes.len() < 1 + len {
                Decoded::NeedMoreBytes
            } else {
                match M::from_wire(bytes[0], bytes.subrange(1, 1 + len as int)) {
                    Some(message) => Decoded::Message(message),
                    None => Decoded::Invalid(DecodeError::MalformedPayload),
                }
            },
        }
    }
}

/// How many of `bytes` one decode attempt reads: the opcode and as much of its payload
/// as is there, or the offending opcode alone.
pub open spec fn bytes_read<M: Message>(bytes: Seq<u8>) -> nat {
    if bytes.len() == 0 {
        0
    } else {
        match M::payload_len(bytes[0]) {
            None => 1,
            Some(len) => if bytes.len() < 1 + len {
                bytes.len()
            } else {
                1 + len
            },
        }
    }
}

/// Encodes `message` as one frame.
pub fn encode<M: Message>(message: &M) -> (bytes: Vec<u8>)
    ensures
        bytes@ == frame(*message),
{
    let mut bytes: Vec<u8> = Vec::new();
    bytes.push(message.opcode());
    let mut payload = message.payload();
    bytes.append(&mut payload);
    bytes
}

/// Attempts to decode one message from where `cursor` stands.
///
/// The outcome is [`parse`] of the unread bytes, and the cursor moves past exactly the
/// bytes the attempt has read ([`bytes_read`]), which for a message is its whole frame.
pub fn decode<M: Message>(cursor: &mut Cursor<'_>) -> (outcome: Decoded<M>)
    ensures
        outcome == parse::<M>(old(cursor).remaining()),
        final(cursor).source() == old(cursor).source(),
        final(cursor).position() == old(cursor).position() + bytes_read::<M>(
            old(cursor).remaining(),
        ),
        final(cursor).position() <= final(cursor).source().len(),
{
    let ghost unread = cursor.remaining();
    let opcode = match cursor.next() {
        Some(opcode) => opcode,
        None => {
            return Decoded::NeedMoreBytes;
        },
    };
    let len = match M::payload_size(opcode) {
        Some(len) => len,
        None => {
            return Decoded::Invalid(DecodeError::UnknownOpcode);
        },
    };
    proof {
        M::lemma_payload_bounded(opcode);
    }
    let mut payload: Vec<u8> = Vec::new();
    while payload.len() < len
        invariant
            payload@.len() <= len,
            cursor.source() == old(cursor).source(),
            cursor.position() == old(cursor).position() + 1 + payload@.len(),
            cursor.position() <= cursor.source().len(),
            unread == old(cursor).remaining(),
            unread.len() == old(cursor).source().len() - old(cursor).position(),
            unread.len() >= 1,
            opcode == unread[0],
            M::payload_len(opcode) == Some(len as nat),
            payload@ == unread.subrange(1, 1 + payload@.len() as int),
        decreases len - payload@.len(),
    {
        match cursor.next() {
            Some(byte) => {
                payload.push(byte);
                assert(payload@ =~= unread.subrange(1, 1 + payload@.len() as int));
            },
            None => {
                return Decoded::NeedMoreBytes;
            },
        }
    }
    match M::assemble(opcode, payload.as_slice()) {
        Some(message) => Decoded::Message(message),
        None => Decoded::Invalid(DecodeError::MalformedPayload),
    }
}

/// Decoding inverts encoding: the frame of a message decodes to that message, whatever
/// bytes follow the frame, and the attempt reads the frame and nothing behind it.
pub proof fn lemma_round_trip<M: Message>(message: M, rest: Seq<u8>)
    ensures
        parse::<M>(frame(message)) == Decoded::Message(message),
        parse::<M>(frame(message) + rest) == Decoded::Message(message),
        bytes_read::<M>(frame(message) + rest) == frame(message).len(),
{
    message.lemma_payload_len();
    message.lemma_from_wire();
    let len = message.wire_payload().len();
    let alone = frame(message);
    let followed = frame(message) + rest;
    assert(alone.subrange(1, 1 + len as int) =~= message.wire_payload());
    assert(followed.subrange(1, 1 + len as int) =~= message.wire_payload());
}

/// Every proper prefix of a frame asks for more bytes: a frame that arrives in pieces
/// is never mistaken for a message or for garbage before its last byte is there.
pub proof fn lemma_partial_frame<M: Message>(message: M, count: nat)
    requires
        count < frame(message).len(),
    ensures
        parse::<M>(frame(message).take(count as int)) == Decoded::<M>::NeedMoreBytes,
        bytes_read::<M>(frame(message).take(count as int)) == count,
{
    message.lemma_payload_len();
}

/// Once an attempt has come to a verdict, a message or invalid bytes, bytes that arrive
/// later cannot change it, nor how much was read to reach it.
pub proof fn lemma_verdict_is_final<M: Message>(bytes: Seq<u8>, more: Seq<u8>)
    requires
        parse::<M>(bytes) != Decoded::<M>::NeedMoreBytes,
    ensures
        parse::<M>(bytes + more) == parse::<M>(bytes),
        bytes_read::<M>(bytes + more) == bytes_read::<M>(bytes),
{
    let all = bytes + more;
    assert(all[0] == bytes[0]);
    match M::payload_len(bytes[0]) {
        None => {},
        Some(len) => {
            assert(all.subrange(1, 1 + len as int) =~= bytes.subrange(1, 1 + len as int));
        },
    }
}

/// Encoding inverts decoding: bytes that decode to a message begin with the frame of
/// that message, and the attempt has read that frame and nothing more.
pub proof fn lemma_message_from_its_frame<M: Message>(bytes: Seq<u8>, message: M)
    requires
        parse::<M>(bytes) == Decoded::Message(message),
    ensures
        bytes_read::<M>(bytes) == frame(message).len(),
        bytes.take(frame(message).len() as int) == frame(message),
{
    let len = M::payload_len(bytes[0]).unwrap();
    let payload = bytes.subrange(1, 1 + len as int);
    message.lemma_wire_unique(bytes[0], payload);
    message.lemma_payload_len();
    assert(bytes.take(1 + len as int) =~= seq![bytes[0]] + payload);
}

} // verus!
