//! The rewind buffer: a finite sequence of already-sniffed bytes that must
//! be replayed, in order, before the wrapped stream is read again.
//!
//! Only the buffer is modelled here. The transport layer drains it through
//! [`Rewind::read_buffered`] before every read of the wrapped stream, and
//! passes writes and shutdown through untouched, which makes reads after the
//! drain observationally identical to reading the inner stream directly.

use vstd::prelude::*;

verus! {

/// The longest prefix of `s` of length at most `cap`.
pub open spec fn take_at_most(s: Seq<u8>, cap: int) -> Seq<u8> {
    if cap <= s.len() {
        s.take(cap)
    } else {
        s
    }
}

/// A prepended in-memory buffer, drained in order by reads.
pub struct Rewind {
    prefix: Vec<u8>,
    pos: usize,
}

impl Rewind {
    /// The read position never passes the end of the buffer.
    pub closed spec fn wf(self) -> bool {
        self.pos <= self.prefix@.len()
    }

    /// The bytes the buffer was constructed with.
    pub closed spec fn buffered(self) -> Seq<u8> {
        self.prefix@
    }

    /// The buffered bytes not yet handed to a reader.
    pub closed spec fn remaining(self) -> Seq<u8> {
        self.prefix@.skip(self.pos as int)
    }

    /// Prepends `buffer` in front of the stream; every byte of it will be
    /// delivered before any further stream byte.
    pub fn new_buffered(buffer: Vec<u8>) -> (r: Rewind)
        ensures
            r.wf(),
            r.buffered() == buffer@,
            r.remaining() == buffer@,
    {
        let r = Rewind { prefix: buffer, pos: 0 };
        proof {
            assert(r.remaining() =~= r.prefix@);
        }
        r
    }

    /// Hands out the next `cap` buffered bytes (fewer when the buffer runs
    /// short), advancing past them; the buffered bytes themselves are kept.
    pub fn read_buffered(&mut self, cap: usize) -> (out: Vec<u8>)
        requires
            old(self).wf(),
        ensures
            final(self).wf(),
            final(self).buffered() == old(self).buffered(),
            out@ == take_at_most(old(self).remaining(), cap as int),
            final(self).remaining() == old(self).remaining().skip(out@.len() as int),
    {
        let avail = self.prefix.len() - self.pos;
        let n = if cap < avail {
            cap
        } else {
            avail
        };
        let mut out: Vec<u8> = Vec::new();
        let mut k: usize = 0;
        while k < n
            invariant
                k <= n,
                self.pos + n <= self.prefix.len(),
                out@ == self.prefix@.subrange(self.pos as int, self.pos as int + k as int),
            decreases n - k,
        {
            out.push(self.prefix[self.pos + k]);
            proof {
                assert(self.prefix@.subrange(
                    self.pos as int,
                    self.pos as int + k as int,
                ).push(self.prefix@[self.pos as int + k as int]) =~= self.prefix@.subrange(
                    self.pos as int,
                    self.pos as int + k as int + 1,
                ));
            }
            k += 1;
        }
        proof {
            assert(out@ =~= take_at_most(self.prefix@.skip(self.pos as int), cap as int));
        }
        let ghost prev = *self;
        self.pos += n;
        proof {
            assert(self.remaining() =~= prev.remaining().skip(out@.len() as int));
        }
        out
    }

    /// Whether every buffered byte has been handed out, so that the next
    /// read falls through to the wrapped stream.
    pub fn is_drained(&self) -> (r: bool)
        requires
            self.wf(),
        ensures
            r == (self.remaining().len() == 0),
    {
        self.pos == self.prefix.len()
    }
}

/// Draining never loses or reorders bytes: what one read returns, followed
/// by what then remains, is exactly what remained before the read. In
/// particular the sniffed bytes a tunnel was rewound with reach the next
/// protocol layer first and in order.
pub proof fn lemma_rewind_replays(s: Seq<u8>, cap: int)
    requires
        0 <= cap,
    ensures
        take_at_most(s, cap) + s.skip(take_at_most(s, cap).len() as int) == s,
{
    assert(take_at_most(s, cap) + s.skip(take_at_most(s, cap).len() as int) =~= s);
}

} // verus!
