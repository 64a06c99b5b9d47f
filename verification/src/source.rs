use vstd::prelude::*;
use vstd::pervasive::VecAdditionalExecFns;

verus! {

/// A lazy, pull-based byte sequence.
///
/// `remaining()` models the bytes the source can still produce, in order.
/// A pull hands out the head of that sequence and drops it from the model;
/// once the sequence is empty every later pull signals exhaustion again, so
/// end-of-stream is terminal.
pub trait ByteSource {
    /// Internal consistency of the source's state.
    spec fn wf(&self) -> bool;

    /// The bytes this source can still produce, in order.
    spec fn remaining(&self) -> Seq<u8>;

    /// Produces the next byte, or `None` exactly when the sequence is
    /// exhausted.  Exhaustion is permanent: the model stays empty.
    fn next_byte(&mut self) -> (r: Option<u8>)
        requires
            old(self).wf(),
        ensures
            final(self).wf(),
            old(self).remaining().len() > 0 ==> (r == Some(old(self).remaining()[0])
                && final(self).remaining() == old(self).remaining().skip(1)),
            old(self).remaining().len() == 0 ==> (r is None
                && final(self).remaining().len() == 0),
    ;
}

/// Adapts a lazy byte sequence to a bounded buffered-read contract: each
/// `read` fills as much of the destination as the sequence can currently
/// supply, up to the destination's capacity, and reports the count filled.
pub struct IterRead<I: ByteSource>(pub I);

impl<I: ByteSource> IterRead<I> {
    /// Internal consistency: that of the wrapped source.
    pub open spec fn wf(&self) -> bool {
        self.0.wf()
    }

    /// The bytes still to be read, in order.
    pub open spec fn remaining(&self) -> Seq<u8> {
        self.0.remaining()
    }

    /// Fills `buf` from the front with the next bytes of the sequence and
    /// returns the count filled: the minimum of the destination's capacity
    /// and the bytes currently available.  Zero is returned exactly when the
    /// capacity is zero or the sequence is exhausted; positions past the
    /// count keep their old contents.  Exhaustion and malformed input alike
    /// surface only as a short or empty read, never as an error.
    pub fn read(&mut self, buf: &mut Vec<u8>) -> (n: usize)
        requires
            old(self).wf(),
        ensures
            final(self).wf(),
            n as int == vstd::math::min(old(buf)@.len() as int, old(self).remaining().len() as int),
            final(buf)@.len() == old(buf)@.len(),
            final(buf)@ == old(self).remaining().take(n as int) + old(buf)@.skip(n as int),
            final(self).remaining() == old(self).remaining().skip(n as int),
    {
        let mut n: usize = 0;
        while n < buf.len()
            invariant
                self.wf(),
                n <= buf@.len(),
                buf@.len() == old(buf)@.len(),
                n <= old(self).remaining().len(),
                self.remaining() == old(self).remaining().skip(n as int),
                buf@ == old(self).remaining().take(n as int) + old(buf)@.skip(n as int),
            decreases buf@.len() - n,
        {
            match self.0.next_byte() {
                Some(b) => {
                    buf.set(n, b);
                    proof {
                        assert(buf@ == old(self).remaining().take(n + 1) + old(buf)@.skip(n + 1));
                    }
                    n = n + 1;
                }
                None => {
                    return n;
                }
            }
        }
        n
    }
}

} // verus!
