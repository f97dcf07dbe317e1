//! A stream adapter that can have bytes pushed back in front of it.

use vstd::prelude::*;
use bytes::Bytes;
use crate::buf::{bytes_len, bytes_new, bytes_seq, bytes_split_to};

verus! {

/// Wraps a byte stream together with an optional pre-read buffer. Whatever is
/// in the pre-read buffer is read before anything of the inner stream.
#[derive(Debug)]
pub struct Rewind<T> {
    pre: Option<Bytes>,
    inner: T,
}

/// How many bytes a read of at most `max` takes from `remaining` buffered
/// ones: as many as fit.
pub open spec fn served(remaining: nat, max: usize) -> int {
    if max <= remaining {
        max as int
    } else {
        remaining as int
    }
}

impl<T> Rewind<T> {
    /// The bytes that were pushed back and not yet read again.
    pub closed spec fn buffered(&self) -> Seq<u8> {
        match self.pre {
            Some(b) => bytes_seq(b),
            None => Seq::empty(),
        }
    }

    /// The stream underneath.
    pub closed spec fn io(&self) -> T {
        self.inner
    }

    /// Wraps `io` with nothing pushed back.
    pub fn new(io: T) -> (r: Self)
        ensures
            r.buffered() == Seq::<u8>::empty(),
            r.io() == io,
    {
        Rewind { pre: None, inner: io }
    }

    /// Pushes `bs` back: the next reads yield `bs` before anything of the
    /// inner stream. Only one rewind is supported, so nothing may be pending.
    pub fn rewind(&mut self, bs: Bytes)
        requires
            old(self).buffered().len() == 0,
        ensures
            final(self).buffered() == bytes_seq(bs),
            final(self).io() == old(self).io(),
    {
        self.pre = Some(bs);
    }

    /// The number of pushed-back bytes that are still to be read.
    pub fn buffered_len(&self) -> (n: usize)
        ensures
            n == self.buffered().len(),
    {
        match &self.pre {
            Some(b) => bytes_len(b),
            None => 0,
        }
    }

    /// Serves a read of at most `max` bytes from the pre-read buffer.
    ///
    /// While pushed-back bytes remain, the read is answered from them alone:
    /// the first `min(max, remaining)` bytes are returned and the rest stay
    /// for the next read. Once none remain the result is `None`, and the read
    /// belongs to the inner stream. No byte is dropped or reordered.
    pub fn read_buffered(&mut self, max: usize) -> (out: Option<Bytes>)
        ensures
            final(self).io() == old(self).io(),
            old(self).buffered().len() == 0 ==> out is None && final(self).buffered().len() == 0,
            old(self).buffered().len() > 0 ==> out is Some,
            out is Some ==> bytes_seq(out.unwrap()) == old(self).buffered().take(
                served(old(self).buffered().len(), max),
            ),
            out is Some ==> final(self).buffered() == old(self).buffered().skip(
                served(old(self).buffered().len(), max),
            ),
    {
        let taken = self.pre.take();
        match taken {
            Some(mut pre) => {
                let len = bytes_len(&pre);
                if len > 0 {
                    let n: usize = if max <= len { max } else { len };
                    let head = bytes_split_to(&mut pre, n);
                    if n < len {
                        self.pre = Some(pre);
                    }
                    Some(head)
                } else {
                    None
                }
            },
            None => None,
        }
    }

    /// Gives the stream underneath to a read or write that passes through.
    pub fn get_mut(&mut self) -> (io: &mut T)
        ensures
            *io == old(self).io(),
            final(self).io() == *final(io),
            final(self).buffered() == old(self).buffered(),
    {
        &mut self.inner
    }

    /// Takes the adapter apart: the inner stream, and what was pushed back
    /// and not read again.
    pub fn into_inner(self) -> (r: (T, Bytes))
        ensures
            r.0 == self.io(),
            bytes_seq(r.1) == self.buffered(),
    {
        let Rewind { pre, inner } = self;
        match pre {
            Some(b) => (inner, b),
            None => (inner, bytes_new()),
        }
    }
}

/// A read from the pre-read buffer loses nothing: what it returns, followed
/// by what it leaves, is what was there; and it returns no more than it was
/// asked for. So any run of reads yields the pushed-back bytes in order,
/// each once.
pub proof fn lemma_read_keeps_bytes(buffered: Seq<u8>, max: usize)
    ensures
        0 <= served(buffered.len(), max) <= buffered.len(),
        served(buffered.len(), max) <= max,
        buffered.take(served(buffered.len(), max)) + buffered.skip(served(buffered.len(), max))
            == buffered,
        buffered.len() > 0 && max > 0 ==> buffered.skip(served(buffered.len(), max)).len()
            < buffered.len(),
{
    let n = served(buffered.len(), max);
    assert(buffered.take(n) + buffered.skip(n) =~= buffered);
}

/// What a run of reads, of at most `maxes[i]` bytes each, yields from the
/// pre-read buffer.
pub open spec fn yielded(buffered: Seq<u8>, maxes: Seq<usize>) -> Seq<u8>
    decreases maxes.len(),
{
    if maxes.len() == 0 {
        Seq::empty()
    } else {
        let n = served(buffered.len(), maxes[0]);
        buffered.take(n) + yielded(buffered.skip(n), maxes.skip(1))
    }
}

/// What a run of reads leaves in the pre-read buffer.
pub open spec fn left(buffered: Seq<u8>, maxes: Seq<usize>) -> Seq<u8>
    decreases maxes.len(),
{
    if maxes.len() == 0 {
        buffered
    } else {
        left(buffered.skip(served(buffered.len(), maxes[0])), maxes.skip(1))
    }
}

/// Whatever the sizes of the reads, what they yield followed by what they
/// leave is exactly what was pushed back: every byte is seen once, in order,
/// before any byte of the inner stream.
pub proof fn lemma_reads_yield_what_was_pushed(buffered: Seq<u8>, maxes: Seq<usize>)
    ensures
        yielded(buffered, maxes) + left(buffered, maxes) == buffered,
    decreases maxes.len(),
{
    if maxes.len() == 0 {
        assert(Seq::<u8>::empty() + buffered =~= buffered);
    } else {
        let n = served(buffered.len(), maxes[0]);
        lemma_reads_yield_what_was_pushed(buffered.skip(n), maxes.skip(1));
        assert(yielded(buffered, maxes) + left(buffered, maxes) =~= buffered.take(n) + (yielded(
            buffered.skip(n),
            maxes.skip(1),
        ) + left(buffered.skip(n), maxes.skip(1))));
        assert(buffered.take(n) + buffered.skip(n) =~= buffered);
    }
}

} // verus!
