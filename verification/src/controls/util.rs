//! The buffered byte stream behind the control-packet reader, with its
//! "all or nothing" exact read.

use vstd::prelude::*;

verus! {

/// The outcome of an exact read of `n` bytes from a [`ByteStream`].
#[derive(Debug, PartialEq, Eq)]
pub enum ReadExactStatus {
    /// All `n` requested bytes were available; here they are, consumed from
    /// the stream.
    Bytes(Vec<u8>),
    /// The stream ended exactly at the read boundary: zero bytes were
    /// available and no more will come. A normal termination signal, not an
    /// error.
    EndOfStream,
    /// The stream ended with more than zero but fewer than `n` bytes
    /// available: it was torn mid-read. Nothing is consumed.
    UnexpectedEof,
    /// Fewer than `n` bytes are buffered but the stream is still open: read
    /// again once more bytes have been pushed. Nothing is consumed.
    NeedMoreData,
}

/// An incrementally fed byte stream. Bytes arrive in chunks of whatever size
/// the underlying transport happened to yield, are buffered here, and are
/// consumed in exact reads that never split below the caller's framing.
pub struct ByteStream {
    buffered: Vec<u8>,
    closed: bool,
}

impl ByteStream {
    /// The bytes received and not yet consumed.
    pub closed spec fn pending(self) -> Seq<u8> {
        self.buffered@
    }

    /// Whether end of stream has been reached: no more bytes will ever be
    /// pushed.
    pub closed spec fn is_closed(self) -> bool {
        self.closed
    }

    /// An empty, open stream.
    pub fn new() -> (r: Self)
        ensures
            r.pending() == Seq::<u8>::empty(),
            !r.is_closed(),
    {
        ByteStream { buffered: Vec::new(), closed: false }
    }

    /// A stream that already holds `bytes` and will receive nothing more, as
    /// when the whole input is in hand.
    pub fn from_bytes(bytes: Vec<u8>) -> (r: Self)
        ensures
            r.pending() == bytes@,
            r.is_closed(),
    {
        ByteStream { buffered: bytes, closed: true }
    }

    /// Appends one chunk, of whatever size the transport yielded.
    pub fn push_chunk(&mut self, chunk: &[u8])
        requires
            !old(self).is_closed(),
            old(self).pending().len() + chunk@.len() <= usize::MAX,
        ensures
            final(self).pending() == old(self).pending() + chunk@,
            !final(self).is_closed(),
    {
        self.buffered.extend_from_slice(chunk);
    }

    /// Marks end of stream: the transport reported that no more bytes will
    /// come.
    pub fn close(&mut self)
        ensures
            final(self).pending() == old(self).pending(),
            final(self).is_closed(),
    {
        self.closed = true;
    }

    /// Reads exactly `n` bytes, all or nothing: `n` buffered bytes are
    /// consumed and returned whole, zero available bytes on a closed stream
    /// are a clean end, and fewer than `n` on a closed stream are a torn end.
    /// On any outcome but `Bytes` the stream is left untouched.
    pub fn try_read_exact(&mut self, n: usize) -> (r: ReadExactStatus)
        ensures
            final(self).is_closed() == old(self).is_closed(),
            match r {
                ReadExactStatus::Bytes(bytes) => {
                    &&& bytes@ == old(self).pending().take(n as int)
                    &&& bytes@.len() == n
                    &&& final(self).pending() == old(self).pending().skip(n as int)
                    &&& old(self).pending().len() >= n
                },
                ReadExactStatus::EndOfStream => {
                    &&& n > 0
                    &&& old(self).is_closed()
                    &&& old(self).pending().len() == 0
                    &&& final(self).pending() == old(self).pending()
                },
                ReadExactStatus::UnexpectedEof => {
                    &&& old(self).is_closed()
                    &&& 0 < old(self).pending().len() < n
                    &&& final(self).pending() == old(self).pending()
                },
                ReadExactStatus::NeedMoreData => {
                    &&& !old(self).is_closed()
                    &&& old(self).pending().len() < n
                    &&& final(self).pending() == old(self).pending()
                },
            },
    {
        if self.buffered.len() >= n {
            let taken = vstd::slice::slice_to_vec(&self.buffered.as_slice()[0..n]);
            let rest = vstd::slice::slice_to_vec(
                &self.buffered.as_slice()[n..self.buffered.len()],
            );
            self.buffered = rest;
            ReadExactStatus::Bytes(taken)
        } else if !self.closed {
            ReadExactStatus::NeedMoreData
        } else if self.buffered.len() == 0 {
            ReadExactStatus::EndOfStream
        } else {
            ReadExactStatus::UnexpectedEof
        }
    }
}

} // verus!
