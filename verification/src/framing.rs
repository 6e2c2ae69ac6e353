//! The framing buffer: a fixed-capacity store for received bytes that have not yet been
//! recognised as a frame, with a forward reader for speculative decoding and a checkpoint
//! that commits what a successful decode has read.

use vstd::prelude::*;

verus! {

/// The buffer cannot take the bytes offered to it.
///
/// More undecodable data has accumulated than the buffer can hold, which is a sign that
/// the link has lost synchronisation.
#[derive(Clone, Copy, Debug, PartialEq, Eq, Structural)]
pub struct Overflow;

/// A count of bytes that a reader has consumed and that may be committed with
/// [`FramingBuffer::flush`].
#[derive(Clone, Copy, Debug, PartialEq, Eq)]
pub struct Checkpoint {
    count: usize,
}

impl View for Checkpoint {
    type V = nat;

    closed spec fn view(&self) -> nat {
        self.count as nat
    }
}

impl Checkpoint {
    /// Returns the number of bytes that the checkpoint covers.
    pub fn len(&self) -> (count: usize)
        ensures
            count == self@,
    {
        self.count
    }
}

/// A forward reader over a run of bytes. Reading consumes nothing from where the bytes
/// are stored.
#[derive(Debug)]
pub struct Cursor<'a> {
    bytes: &'a [u8],
    pos: usize,
}

impl<'a> Cursor<'a> {
    #[verifier::type_invariant]
    spec fn in_bounds(self) -> bool {
        self.pos <= self.bytes@.len()
    }

    /// All the bytes that the cursor ranges over, read or not.
    pub closed spec fn source(&self) -> Seq<u8> {
        self.bytes@
    }

    /// How many bytes have been read.
    pub closed spec fn position(&self) -> nat {
        self.pos as nat
    }

    /// The bytes that have not been read yet.
    pub open spec fn remaining(&self) -> Seq<u8> {
        self.source().skip(self.position() as int)
    }

    /// Starts reading at the front of `bytes`.
    pub fn new(bytes: &'a [u8]) -> (cursor: Cursor<'a>)
        ensures
            cursor.source() == bytes@,
            cursor.position() == 0,
    {
        Cursor { bytes, pos: 0 }
    }

    /// Reads the next byte, or returns `None` and stays in place at the end.
    pub fn next(&mut self) -> (byte: Option<u8>)
        ensures
            final(self).source() == old(self).source(),
            old(self).position() <= old(self).source().len(),
            final(self).position() <= final(self).source().len(),
            old(self).remaining().len() > 0 ==> byte == Some(old(self).remaining()[0])
                && final(self).position() == old(self).position() + 1,
            old(self).remaining().len() == 0 ==> byte.is_none() && final(self).position() == old(
                self).position(),
    {
        proof {
            use_type_invariant(&*self);
        }
        if self.pos < self.bytes.len() {
            let byte = self.bytes[self.pos];
            self.pos = self.pos + 1;
            Some(byte)
        } else {
            None
        }
    }

    /// Returns how many bytes are left to read.
    pub fn available(&self) -> (count: usize)
        ensures
            self.position() <= self.source().len(),
            count == self.source().len() - self.position(),
            count == self.remaining().len(),
    {
        proof {
            use_type_invariant(self);
        }
        self.bytes.len() - self.pos
    }

    /// Records how many bytes have been read so far, without discarding anything.
    pub fn capture(&self) -> (checkpoint: Checkpoint)
        ensures
            checkpoint@ == self.position(),
            checkpoint@ <= self.source().len(),
    {
        proof {
            use_type_invariant(self);
        }
        Checkpoint { count: self.pos }
    }
}

/// What [`FramingBuffer::ingest`] makes of `buffered` bytes in a buffer of `capacity`
/// bytes when `bytes` are offered: all of them are appended, or none is.
pub open spec fn ingested(buffered: Seq<u8>, bytes: Seq<u8>, capacity: nat) -> (
    Seq<u8>,
    Result<(), Overflow>,
) {
    if buffered.len() + bytes.len() <= capacity {
        (buffered + bytes, Ok(()))
    } else {
        (buffered, Err(Overflow))
    }
}

/// The overflow boundary. What counts is the total since the last flush, not the size
/// of a piece: after a first piece has been taken in, a second is taken in too if both
/// together are at most the capacity, and refused if they are even one byte more.
pub proof fn lemma_overflow_boundary(first: Seq<u8>, second: Seq<u8>, capacity: nat)
    requires
        first.len() <= capacity,
    ensures
        ingested(Seq::empty(), first, capacity) == (first, Ok::<(), Overflow>(())),
        first.len() + second.len() <= capacity ==> ingested(first, second, capacity) == (
            first + second,
            Ok::<(), Overflow>(()),
        ),
        first.len() + second.len() > capacity ==> ingested(first, second, capacity) == (
            first,
            Err::<(), Overflow>(Overflow),
        ),
{
    assert(Seq::<u8>::empty() + first =~= first);
}

/// A fixed-capacity store of `N` bytes at most, holding what has been received and not yet
/// recognised as a frame. Its view is the run of buffered bytes, oldest first.
///
/// Bytes enter at the back with [`ingest`](FramingBuffer::ingest) and leave at the front
/// with [`flush`](FramingBuffer::flush), and only there: a decode attempt reads through a
/// [`Cursor`] and discards nothing unless its [`Checkpoint`] is flushed.
#[derive(Debug)]
pub struct FramingBuffer<const N: usize> {
    data: [u8; N],
    len: usize,
}

impl<const N: usize> View for FramingBuffer<N> {
    type V = Seq<u8>;

    closed spec fn view(&self) -> Seq<u8> {
        self.data@.take(self.len as int)
    }
}

impl<const N: usize> FramingBuffer<N> {
    #[verifier::type_invariant]
    spec fn within_capacity(self) -> bool {
        self.len <= N
    }

    /// Creates an empty buffer.
    pub fn new() -> (buffer: Self)
        ensures
            buffer@ == Seq::<u8>::empty(),
    {
        FramingBuffer { data: [0u8; N], len: 0 }
    }

    /// Returns the number of bytes the buffer can hold.
    pub fn capacity(&self) -> (capacity: usize)
        ensures
            capacity == N,
    {
        N
    }

    /// Returns the number of buffered bytes, which never exceeds the capacity.
    pub fn len(&self) -> (len: usize)
        ensures
            len == self@.len(),
            len <= N,
    {
        proof {
            use_type_invariant(self);
        }
        self.len
    }

    /// Returns whether nothing is buffered.
    pub fn is_empty(&self) -> (empty: bool)
        ensures
            empty == (self@.len() == 0),
    {
        proof {
            use_type_invariant(self);
        }
        self.len == 0
    }

    /// Appends `bytes` behind what is buffered, if all of them fit.
    ///
    /// When they do not fit the buffer is left as it was and `Overflow` is returned:
    /// nothing is truncated.
    pub fn ingest(&mut self, bytes: &[u8]) -> (result: Result<(), Overflow>)
        ensures
            (final(self)@, result) == ingested(old(self)@, bytes@, N as nat),
    {
        proof {
            use_type_invariant(&*self);
        }
        let count = bytes.len();
        if count > N - self.len {
            return Err(Overflow);
        }
        let start = self.len;
        let mut i: usize = 0;
        while i < count
            invariant
                i <= count,
                count == bytes@.len(),
                start + count <= N,
                self.len == start,
                self.data@.take(start as int) == old(self).data@.take(start as int),
                forall|k: int| 0 <= k < i ==> self.data@[start + k] == bytes@[k],
            decreases count - i,
        {
            self.data[start + i] = bytes[i];
            i = i + 1;
        }
        self.len = start + count;
        assert(self@ =~= old(self)@ + bytes@);
        Ok(())
    }

    /// Starts a reader at the front of the buffered bytes. Reading through it leaves the
    /// buffer as it is.
    pub fn cursor(&self) -> (cursor: Cursor<'_>)
        ensures
            cursor.source() == self@,
            cursor.position() == 0,
    {
        proof {
            use_type_invariant(self);
        }
        Cursor::new(vstd::slice::slice_subrange(self.data.as_slice(), 0, self.len))
    }

    /// Discards for good the first `checkpoint@` buffered bytes; what follows them moves
    /// to the front.
    pub fn flush(&mut self, checkpoint: Checkpoint)
        requires
            checkpoint@ <= old(self)@.len(),
        ensures
            final(self)@ == old(self)@.skip(checkpoint@ as int),
    {
        proof {
            use_type_invariant(&*self);
        }
        let count = checkpoint.len();
        let kept = self.len - count;
        let mut i: usize = 0;
        while i < kept
            invariant
                i <= kept,
                kept + count == self.len,
                self.len == old(self).len,
                self.len <= N,
                forall|k: int| 0 <= k < i ==> self.data@[k] == old(self).data@[k + count],
                forall|k: int| i + count <= k < N ==> self.data@[k] == old(self).data@[k],
            decreases kept - i,
        {
            self.data[i] = self.data[i + count];
            i = i + 1;
        }
        self.len = kept;
        assert(self@ =~= old(self)@.skip(checkpoint@ as int));
    }
}

} // verus!
