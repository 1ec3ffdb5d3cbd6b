//! A buffered reader over any `Read` source, with a fixed-capacity internal
//! buffer (1024 bytes by default). Reads larger than the buffer bypass it
//! entirely when it is empty; smaller reads are served from the buffer, which
//! refills from the underlying source only once exhausted.

use vstd::prelude::*;
use vstd::slice::slice_subrange;

use crate::error::IpcError;
use crate::io::{spec_min, zero_vec, Read};

verus! {

/// The default capacity of the internal buffer.
pub const DEFAULT_BUF_SIZE: usize = 1024;

/// The backing buffer with its live region: `buf[pos..filled]` holds input
/// not yet handed to the caller.
struct BufState {
    buf: Vec<u8>,
    pos: usize,
    filled: usize,
}

impl BufState {
    /// The live region lies inside the backing buffer.
    #[verifier::type_invariant]
    spec fn wf(self) -> bool {
        self.pos <= self.filled <= self.buf@.len()
    }

    /// The buffered bytes not yet handed to the caller.
    spec fn buffered(&self) -> Seq<u8> {
        self.buf@.subrange(self.pos as int, self.filled as int)
    }
}

/// A reader that serves small reads from an internal buffer.
pub struct BufReader<R> {
    state: BufState,
    inner: R,
}

impl<R> BufReader<R> {
    /// The buffered bytes not yet handed to the caller.
    pub closed spec fn buffered(&self) -> Seq<u8> {
        self.state.buffered()
    }

    /// The capacity of the backing buffer.
    pub closed spec fn spec_capacity(&self) -> nat {
        self.state.buf@.len()
    }

    /// The contents of the whole backing buffer.
    pub closed spec fn backing(&self) -> Seq<u8> {
        self.state.buf@
    }

    /// The wrapped source.
    pub closed spec fn spec_inner(&self) -> R {
        self.inner
    }

    /// Shared access to the wrapped source.
    pub fn get_ref(&self) -> (r: &R)
        ensures
            *r == self.spec_inner(),
    {
        &self.inner
    }

    /// Mutable access to the wrapped source.
    pub fn get_mut(&mut self) -> (r: &mut R)
        ensures
            *r == old(self).spec_inner(),
            final(self).spec_inner() == *final(r),
            final(self).buffered() == old(self).buffered(),
            final(self).spec_capacity() == old(self).spec_capacity(),
            final(self).backing() == old(self).backing(),
    {
        &mut self.inner
    }

    /// The whole backing buffer.
    pub fn buffer(&self) -> (r: &[u8])
        ensures
            r@ == self.backing(),
    {
        self.state.buf.as_slice()
    }

    /// The capacity of the backing buffer.
    pub fn capacity(&self) -> (r: usize)
        ensures
            r == self.spec_capacity(),
    {
        self.state.buf.len()
    }

    /// Gives the wrapped source back, dropping any buffered bytes.
    pub fn into_inner(self) -> (r: R)
        ensures
            r == self.spec_inner(),
    {
        self.inner
    }

    /// Drops any buffered bytes.
    pub fn discard_buffer(&mut self)
        ensures
            final(self).buffered() == Seq::<u8>::empty(),
            final(self).spec_inner() == old(self).spec_inner(),
            final(self).spec_capacity() == old(self).spec_capacity(),
    {
        proof {
            use_type_invariant(&self.state);
        }
        self.state.pos = 0;
        self.state.filled = 0;
        proof {
            assert(self.buffered() =~= Seq::<u8>::empty());
        }
    }
}

impl<R: Read> BufReader<R> {
    /// A buffered reader with the default capacity.
    pub fn new(inner: R) -> (r: BufReader<R>)
        ensures
            r.spec_inner() == inner,
            r.buffered() == Seq::<u8>::empty(),
            r.spec_capacity() == DEFAULT_BUF_SIZE,
    {
        BufReader::with_capacity(DEFAULT_BUF_SIZE, inner)
    }

    /// A buffered reader with the given capacity.
    pub fn with_capacity(capacity: usize, inner: R) -> (r: BufReader<R>)
        ensures
            r.spec_inner() == inner,
            r.buffered() == Seq::<u8>::empty(),
            r.spec_capacity() == capacity,
    {
        let buf = zero_vec(capacity);
        let r = BufReader { inner, state: BufState { buf, pos: 0, filled: 0 } };
        proof {
            assert(r.buffered() =~= Seq::<u8>::empty());
        }
        r
    }

    /// Refills the internal buffer from the source when it is empty; leaves
    /// it alone otherwise. Returns how many buffered bytes are available.
    fn refill(&mut self) -> (r: Result<usize, IpcError>)
        ensures
            final(self).spec_capacity() == old(self).spec_capacity(),
            final(self).deterministic() == old(self).deterministic(),
            match r {
                Ok(n) => {
                    &&& n == final(self).buffered().len()
                    &&& (old(self).buffered().len() > 0 ==> *final(self) == *old(self))
                    &&& (old(self).deterministic() ==> final(self).stream() == old(self).stream()
                        && (n == 0 <==> old(self).stream().len() == 0 || old(self).spec_capacity()
                        == 0))
                    &&& (old(self).deterministic() && old(self).spec_inner().greedy() && old(
                        self,
                    ).buffered().len() == 0 ==> n == spec_min(
                        old(self).spec_capacity(),
                        old(self).stream().len(),
                    ))
                },
                Err(e) => {
                    &&& e == IpcError::BufReaderError
                    &&& !old(self).deterministic()
                    &&& old(self).buffered().len() == 0
                    &&& final(self).buffered() == old(self).buffered()
                },
            },
    {
        proof {
            use_type_invariant(&self.state);
        }
        if self.state.pos < self.state.filled {
            let n = self.state.filled - self.state.pos;
            proof {
                assert(self.buffered().len() == n);
            }
            return Ok(n);
        }
        self.state.pos = 0;
        self.state.filled = 0;
        proof {
            assert(old(self).buffered().len() == 0);
            assert(self.buffered() =~= Seq::<u8>::empty());
            assert(old(self).stream() =~= old(self).spec_inner().stream());
        }
        let mut scratch: Vec<u8> = Vec::new();
        core::mem::swap(&mut scratch, &mut self.state.buf);
        let res = self.inner.read(scratch.as_mut_slice());
        core::mem::swap(&mut scratch, &mut self.state.buf);
        match res {
            Ok(n) => {
                self.state.filled = n;
                proof {
                    if self.inner.deterministic() {
                        assert(self.buffered() =~= old(self).spec_inner().stream().take(n as int));
                        assert(self.stream() =~= old(self).stream());
                    } else {
                        assert(self.stream() == self.buffered() + self.inner.stream());
                    }
                    assert(self.buffered().len() == n);
                }
                Ok(n)
            },
            Err(_) => {
                proof {
                    assert(self.buffered() =~= old(self).buffered());
                }
                Err(IpcError::BufReaderError)
            },
        }
    }

    /// A view of the buffered bytes, refilling from the source when none are
    /// buffered. An empty result on a nonempty request signifies end of
    /// stream.
    pub fn fill_buf(&mut self) -> (r: Result<&[u8], IpcError>)
        ensures
            final(self).spec_capacity() == old(self).spec_capacity(),
            final(self).deterministic() == old(self).deterministic(),
            match r {
                Ok(s) => {
                    &&& s@ == final(self).buffered()
                    &&& (old(self).buffered().len() > 0 ==> *final(self) == *old(self))
                    &&& (old(self).deterministic() ==> final(self).stream() == old(self).stream()
                        && (s@.len() == 0 <==> old(self).stream().len() == 0 || old(
                        self,
                    ).spec_capacity() == 0))
                    &&& (old(self).deterministic() && old(self).spec_inner().greedy() && old(
                        self,
                    ).buffered().len() == 0 ==> s@ == old(self).stream().take(
                        spec_min(old(self).spec_capacity(), old(self).stream().len()) as int,
                    ))
                },
                Err(e) => e == IpcError::BufReaderError && !old(self).deterministic(),
            },
    {
        match self.refill() {
            Ok(_) => {
                proof {
                    use_type_invariant(&self.state);
                }
                Ok(slice_subrange(self.state.buf.as_slice(), self.state.pos, self.state.filled))
            },
            Err(e) => Err(e),
        }
    }

    /// Marks `amt` buffered bytes (at most what is buffered) as consumed.
    pub fn consume(&mut self, amt: usize)
        ensures
            final(self).spec_capacity() == old(self).spec_capacity(),
            final(self).deterministic() == old(self).deterministic(),
            final(self).buffered() == old(self).buffered().skip(
                vstd::math::min(amt as int, old(self).buffered().len() as int),
            ),
            final(self).stream() == old(self).stream().skip(
                vstd::math::min(amt as int, old(self).buffered().len() as int),
            ),
            final(self).spec_inner() == old(self).spec_inner(),
    {
        proof {
            use_type_invariant(&self.state);
        }
        let next = if amt <= self.state.filled - self.state.pos {
            self.state.pos + amt
        } else {
            self.state.filled
        };
        self.state.pos = next;
        proof {
            assert(self.buffered() =~= old(self).buffered().skip(
                vstd::math::min(amt as int, old(self).buffered().len() as int),
            ));
            assert(self.stream() =~= old(self).stream().skip(
                vstd::math::min(amt as int, old(self).buffered().len() as int),
            ));
        }
    }
}

impl<R: Read> BufReader<R> {
    /// Whether any input is left: refills once and reports whether the
    /// buffer holds bytes. From a deterministic source this decides whether
    /// the stream is empty.
    pub fn has_data_left(&mut self) -> (r: Result<bool, IpcError>)
        ensures
            final(self).deterministic() == old(self).deterministic(),
            old(self).deterministic() ==> r == Ok::<bool, IpcError>(
                old(self).stream().len() > 0 && old(self).spec_capacity() > 0,
            ) && final(self).stream() == old(self).stream(),
    {
        match self.refill() {
            Ok(n) => Ok(n > 0),
            Err(e) => Err(e),
        }
    }
}

impl<R: Read> Read for BufReader<R> {
    /// The buffered bytes come first, then whatever the source delivers.
    open spec fn stream(&self) -> Seq<u8> {
        self.buffered() + self.spec_inner().stream()
    }

    open spec fn deterministic(&self) -> bool {
        self.spec_inner().deterministic()
    }

    /// A buffered reader serves partial chunks from its buffer.
    open spec fn greedy(&self) -> bool {
        false
    }

    /// Reading strategy, spelled out beyond the trait: a read with buffered
    /// bytes serves only those, up to the buffer; a read on an empty buffer
    /// over a greedy deterministic source takes as much as buffer and stream
    /// allow, whether it bypasses the buffer or refills it first.
    fn read(&mut self, buf: &mut [u8]) -> (r: Result<usize, IpcError>)
        ensures
            final(self).spec_capacity() == old(self).spec_capacity(),
            old(self).buffered().len() > 0 ==> (r matches Ok(n) && n == spec_min(
                old(buf)@.len(),
                old(self).buffered().len(),
            ) && final(self).spec_inner() == old(self).spec_inner()),
            old(self).deterministic() && old(self).spec_inner().greedy() && old(
                self,
            ).buffered().len() == 0 ==> (r matches Ok(n) && n == spec_min(
                old(buf)@.len(),
                old(self).stream().len(),
            )),
    {
        proof {
            use_type_invariant(&self.state);
        }
        if self.state.pos >= self.state.filled && buf.len() >= self.state.buf.len() {
            // the buffer is empty and cannot help: read straight through
            self.state.pos = 0;
            self.state.filled = 0;
            proof {
                assert(old(self).buffered().len() == 0);
                assert(self.buffered() =~= Seq::<u8>::empty());
                assert(old(self).stream() =~= old(self).spec_inner().stream());
            }
            match self.inner.read(buf) {
                Ok(n) => {
                    proof {
                        assert(self.stream() =~= self.spec_inner().stream());
                    }
                    Ok(n)
                },
                Err(_) => Err(IpcError::BufReaderError),
            }
        } else {
            let avail = match self.refill() {
                Ok(n) => n,
                Err(e) => {
                    return Err(e);
                },
            };
            // serve from the buffer
            let n = if buf.len() <= avail {
                buf.len()
            } else {
                avail
            };
            proof {
                use_type_invariant(&self.state);
            }
            let ghost b0 = buf@;
            let ghost mid = self.buffered();
            let mut k: usize = 0;
            while k < n
                invariant
                    k <= n,
                    n <= buf@.len(),
                    self.state.wf(),
                    n <= self.state.filled - self.state.pos,
                    buf@.len() == b0.len(),
                    mid == self.buffered(),
                    forall|j: int| 0 <= j < k ==> buf@[j] == mid[j],
                    forall|j: int| k <= j < b0.len() ==> buf@[j] == b0[j],
                decreases n - k,
            {
                let b = self.state.buf[self.state.pos + k];
                buf[k] = b;
                k = k + 1;
            }
            let ghost pre = *self;
            self.consume(n);
            proof {
                assert(buf@ =~= mid.take(n as int) + b0.skip(n as int));
                assert(buf@.skip(n as int) =~= b0.skip(n as int));
                assert(pre.buffered() == mid);
                if old(self).deterministic() {
                    assert(old(self).stream().take(n as int) =~= mid.take(n as int));
                    assert(self.stream() =~= old(self).stream().skip(n as int));
                }
            }
            Ok(n)
        }
    }
}

} // verus!
