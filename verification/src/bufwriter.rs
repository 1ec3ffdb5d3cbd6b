//! A buffered writer over any `Write` sink, with a fixed capacity (1024
//! bytes by default). Writes that fit the spare room are gathered in the
//! buffer; ones that would overflow it flush first, and writes at least as
//! large as the whole buffer go straight through. The final flush is an
//! explicit, checked operation: this writer does not flush on drop.

use vstd::prelude::*;
use vstd::slice::{slice_subrange, slice_to_vec};

use crate::error::IpcError;
use crate::io::{Seek, SeekFrom, Write};

verus! {

/// The default capacity of the internal buffer.
pub const DEFAULT_WRITE_BUF_SIZE: usize = 1024;

/// The gathering buffer with its nominal capacity.
struct WBuf {
    buf: Vec<u8>,
    cap: usize,
}

impl WBuf {
    /// The gathered bytes never exceed the nominal capacity.
    #[verifier::type_invariant]
    spec fn wf(self) -> bool {
        self.buf@.len() <= self.cap
    }
}

/// A writer that gathers small writes in an internal buffer before handing
/// them to the sink.
pub struct BufWriter<W: Write> {
    state: WBuf,
    inner: W,
}

impl<W: Write> BufWriter<W> {
    /// The bytes gathered and not yet handed to the sink.
    pub closed spec fn spec_buffer(&self) -> Seq<u8> {
        self.state.buf@
    }

    /// The nominal capacity of the gathering buffer.
    pub closed spec fn spec_capacity(&self) -> nat {
        self.state.cap as nat
    }

    /// The wrapped sink.
    pub closed spec fn spec_inner(&self) -> W {
        self.inner
    }

    /// A buffered writer with the default capacity.
    pub fn new(inner: W) -> (r: BufWriter<W>)
        ensures
            r.spec_inner() == inner,
            r.spec_buffer() == Seq::<u8>::empty(),
            r.spec_capacity() == DEFAULT_WRITE_BUF_SIZE,
    {
        BufWriter::with_capacity(DEFAULT_WRITE_BUF_SIZE, inner)
    }

    /// A buffered writer with the given capacity.
    pub fn with_capacity(capacity: usize, inner: W) -> (r: BufWriter<W>)
        ensures
            r.spec_inner() == inner,
            r.spec_buffer() == Seq::<u8>::empty(),
            r.spec_capacity() == capacity,
    {
        BufWriter { inner, state: WBuf { buf: Vec::new(), cap: capacity } }
    }

    /// Shared access to the wrapped sink.
    pub fn get_ref(&self) -> (r: &W)
        ensures
            *r == self.spec_inner(),
    {
        &self.inner
    }

    /// Mutable access to the wrapped sink.
    pub fn get_mut(&mut self) -> (r: &mut W)
        ensures
            *r == old(self).spec_inner(),
            final(self).spec_inner() == *final(r),
            final(self).spec_buffer() == old(self).spec_buffer(),
            final(self).spec_capacity() == old(self).spec_capacity(),
    {
        &mut self.inner
    }

    /// The bytes gathered and not yet handed to the sink.
    pub fn buffer(&self) -> (r: &[u8])
        ensures
            r@ == self.spec_buffer(),
    {
        self.state.buf.as_slice()
    }

    /// The nominal capacity of the gathering buffer.
    pub fn capacity(&self) -> (r: usize)
        ensures
            r == self.spec_capacity(),
    {
        self.state.cap
    }

    /// The spare room left in the gathering buffer.
    fn spare_capacity(&self) -> (r: usize)
        ensures
            r == self.spec_capacity() - self.spec_buffer().len(),
    {
        proof {
            use_type_invariant(&self.state);
        }
        self.state.cap - self.state.buf.len()
    }

    /// Hands the gathered bytes to the sink, retrying until the buffer is
    /// drained or the sink fails; on failure the bytes already accepted are
    /// dropped from the buffer and the rest stay gathered.
    fn flush_buf(&mut self) -> (r: Result<(), IpcError>)
        ensures
            final(self).spec_capacity() == old(self).spec_capacity(),
            final(self).tracks_sink() == old(self).tracks_sink(),
            old(self).tracks_sink() ==> final(self).sink() == old(self).sink(),
            old(self).spec_buffer().len() == 0 ==> r matches Ok(_),
            match r {
                Ok(_) => final(self).spec_buffer() == Seq::<u8>::empty(),
                Err(_) => true,
            },
    {
        proof {
            use_type_invariant(&self.state);
        }
        let ghost sink0 = self.sink();
        let mut written: usize = 0;
        loop
            invariant_except_break
                sink0 == old(self).sink(),
                self.state.buf@ == old(self).spec_buffer(),
                written <= self.state.buf@.len(),
                self.state.wf(),
                self.spec_capacity() == old(self).spec_capacity(),
                self.inner.tracks_sink() == old(self).tracks_sink(),
                old(self).tracks_sink() ==> self.inner.sink() + self.state.buf@.skip(
                    written as int,
                ) == sink0,
            ensures
                self.state.wf(),
                self.spec_capacity() == old(self).spec_capacity(),
                self.inner.tracks_sink() == old(self).tracks_sink(),
                old(self).tracks_sink() ==> self.sink() == sink0,
                self.state.buf@.len() == 0,
            decreases self.state.buf@.len() - written,
        {
            if written >= self.state.buf.len() {
                self.state.buf = Vec::new();
                proof {
                    if old(self).tracks_sink() {
                        assert(self.inner.sink() + self.state.buf@ =~= sink0);
                    }
                }
                break;
            }
            let chunk = slice_subrange(self.state.buf.as_slice(), written, self.state.buf.len());
            match self.inner.write(chunk) {
                Ok(n) => {
                    written = written + n;
                    proof {
                        assert(chunk@.take(n as int) =~= self.state.buf@.subrange(
                            written - n,
                            written as int,
                        ));
                        if old(self).tracks_sink() {
                            assert(self.inner.sink() + self.state.buf@.skip(written as int)
                                =~= sink0);
                        }
                    }
                },
                Err(e) => {
                    let rest = slice_to_vec(
                        slice_subrange(self.state.buf.as_slice(), written, self.state.buf.len()),
                    );
                    proof {
                        use_type_invariant(&self.state);
                        assert(rest@ =~= self.state.buf@.skip(written as int));
                    }
                    self.state.buf = rest;
                    proof {
                        if old(self).tracks_sink() {
                            assert(self.sink() =~= sink0);
                        }
                    }
                    return Err(e);
                },
            }
        }
        Ok(())
    }
}

impl<W: Write> Write for BufWriter<W> {
    /// The sink history: what the wrapped sink accepted, then what is still
    /// gathered here.
    open spec fn sink(&self) -> Seq<u8> {
        self.spec_inner().sink() + self.spec_buffer()
    }

    open spec fn tracks_sink(&self) -> bool {
        self.spec_inner().tracks_sink()
    }

    /// Writing strategy, spelled out beyond the trait: a write that fits the
    /// spare room (and is smaller than the whole buffer) is only gathered,
    /// with the sink untouched.
    fn write(&mut self, buf: &[u8]) -> (r: Result<usize, IpcError>)
        ensures
            final(self).spec_capacity() == old(self).spec_capacity(),
            buf@.len() + old(self).spec_buffer().len() <= old(self).spec_capacity() && buf@.len()
                < old(self).spec_capacity() ==> (r matches Ok(n) && n == buf@.len()
                && final(self).spec_buffer() == old(self).spec_buffer() + buf@
                && final(self).spec_inner() == old(self).spec_inner()),
    {
        proof {
            use_type_invariant(&self.state);
        }
        let spare = self.spare_capacity();
        if buf.len() > spare {
            if let Err(e) = self.flush_buf() {
                return Err(e);
            }
        }
        proof {
            use_type_invariant(&self.state);
        }
        if buf.len() >= self.state.cap {
            // too large to gather: hand it straight to the sink
            let r = self.inner.write(buf);
            proof {
                if r is Ok && self.tracks_sink() {
                    assert(self.sink() =~= self.inner.sink());
                }
            }
            r
        } else {
            let ghost mid = *self;
            let mut gathered: Vec<u8> = Vec::new();
            core::mem::swap(&mut gathered, &mut self.state.buf);
            gathered.extend_from_slice(buf);
            core::mem::swap(&mut gathered, &mut self.state.buf);
            proof {
                let base = mid.spec_buffer().len() as int;
                assert forall|i: int| 0 <= i < buf@.len() implies self.state.buf@[base + i]
                    == buf@[i] by {
                    assert(cloned::<u8>(buf@[i], self.state.buf@[base + i]));
                }
                assert(self.state.buf@ =~= mid.spec_buffer() + buf@);
                if self.tracks_sink() {
                    assert(buf@.take(buf@.len() as int) =~= buf@);
                    assert(self.sink() =~= old(self).sink() + buf@);
                }
            }
            Ok(buf.len())
        }
    }

    /// A successful flush leaves nothing gathered: the sink then holds
    /// everything ever written, in order.
    fn flush(&mut self) -> (r: Result<(), IpcError>)
        ensures
            final(self).spec_capacity() == old(self).spec_capacity(),
            r matches Ok(_) ==> final(self).spec_buffer() == Seq::<u8>::empty(),
    {
        if let Err(e) = self.flush_buf() {
            return Err(e);
        }
        self.inner.flush()
    }
}

impl<W: Write + Seek> Seek for BufWriter<W> {
    /// Flushes the gathered bytes, then repositions the sink.
    fn seek(&mut self, pos: SeekFrom) -> Result<u64, IpcError> {
        if let Err(e) = self.flush_buf() {
            return Err(e);
        }
        self.inner.seek(pos)
    }
}

} // verus!
