//! The byte-stream capability contracts every transport must satisfy: `Read`
//! fills a caller buffer and returns the count actually read, with 0
//! signifying end of stream; `Write` accepts some or all of a buffer, and a
//! zero-length write is never an error; `Seek` repositions a stream.
//!
//! Each trait carries a model. A reader models the bytes it is known to
//! deliver next as `stream()`; a source whose future output is fully
//! determined by its state (an in-memory buffer, unlike a pipe) says so with
//! `deterministic()`, and for such a source every read hands out an exact
//! prefix of the stream; a `greedy()` one moreover hands out as much as the
//! buffer and the stream allow. A writer models the bytes it has accepted as
//! `sink()` where that history is a function of its state (`tracks_sink()`).

use vstd::prelude::*;

use crate::error::IpcError;

verus! {

/// The smaller of two lengths.
pub open spec fn spec_min(a: nat, b: nat) -> nat {
    if a <= b {
        a
    } else {
        b
    }
}

/// A vector of `n` zero bytes.
pub(crate) fn zero_vec(n: usize) -> (r: Vec<u8>)
    ensures
        r@.len() == n,
{
    let mut r: Vec<u8> = Vec::new();
    let mut k: usize = 0;
    while k < n
        invariant
            k <= n,
            r@.len() == k,
        decreases n - k,
    {
        r.push(0);
        k = k + 1;
    }
    r
}

/// Appends the bytes of a slice to a vector.
pub(crate) fn append_bytes(dst: &mut Vec<u8>, src: &[u8])
    ensures
        final(dst)@ == old(dst)@ + src@,
{
    let ghost base = dst@.len() as int;
    dst.extend_from_slice(src);
    proof {
        assert forall|i: int| 0 <= i < src@.len() implies dst@[base + i] == src@[i] by {
            assert(cloned::<u8>(src@[i], dst@[base + i]));
        }
        assert(dst@ =~= old(dst)@ + src@);
    }
}

/// The capability of reading bytes into a caller buffer.
///
/// `read` fills a prefix of `buf` and returns how many bytes it wrote; 0
/// signifies end of stream when the buffer is nonempty. Bytes past the
/// returned count keep their old values. A deterministic source never fails,
/// hands out exactly the front of its stream, and reads 0 bytes only when the
/// buffer or the stream is empty.
pub trait Read: Sized {
    /// The bytes this source is known to deliver next.
    spec fn stream(&self) -> Seq<u8>;

    /// Whether the source's future output is a function of its state.
    spec fn deterministic(&self) -> bool;

    /// Whether a read takes as much as the buffer and the stream allow (an
    /// in-memory buffer does; a buffered reader serves partial chunks).
    spec fn greedy(&self) -> bool;

    fn read(&mut self, buf: &mut [u8]) -> (r: Result<usize, IpcError>)
        ensures
            final(self).deterministic() == old(self).deterministic(),
            final(self).greedy() == old(self).greedy(),
            final(buf)@.len() == old(buf)@.len(),
            match r {
                Ok(n) => {
                    &&& n <= old(buf)@.len()
                    &&& final(buf)@.skip(n as int) == old(buf)@.skip(n as int)
                },
                Err(_) => !old(self).deterministic(),
            },
            old(self).deterministic() ==> match r {
                Ok(n) => {
                    &&& (n == 0 <==> old(buf)@.len() == 0 || old(self).stream().len() == 0)
                    &&& n <= old(self).stream().len()
                    &&& final(buf)@ == old(self).stream().take(n as int) + old(buf)@.skip(n as int)
                    &&& final(self).stream() == old(self).stream().skip(n as int)
                    &&& (old(self).greedy() ==> n == spec_min(
                        old(buf)@.len(),
                        old(self).stream().len(),
                    ))
                },
                Err(_) => false,
            },
    ;
}

/// The capability of writing bytes from a caller buffer.
///
/// `write` accepts a nonempty prefix of `buf` (or fails); a zero-length write
/// returns 0 without any effect on the peer. A writer that tracks its sink
/// appends exactly the accepted prefix to it; `flush` and failed writes leave
/// the sink as it was.
pub trait Write: Sized {
    /// The bytes this writer has accepted so far, where that history is a
    /// function of its state.
    spec fn sink(&self) -> Seq<u8>;

    /// Whether the accepted history is a function of the writer's state.
    spec fn tracks_sink(&self) -> bool;

    fn write(&mut self, buf: &[u8]) -> (r: Result<usize, IpcError>)
        ensures
            final(self).tracks_sink() == old(self).tracks_sink(),
            match r {
                Ok(n) => {
                    &&& n <= buf@.len()
                    &&& (buf@.len() > 0 ==> n > 0)
                    &&& (old(self).tracks_sink() ==> final(self).sink() == old(self).sink()
                        + buf@.take(n as int))
                },
                Err(_) => old(self).tracks_sink() ==> final(self).sink() == old(self).sink(),
            },
            buf@.len() == 0 ==> r == Ok::<usize, IpcError>(0),
    ;

    fn flush(&mut self) -> (r: Result<(), IpcError>)
        ensures
            final(self).tracks_sink() == old(self).tracks_sink(),
            old(self).tracks_sink() ==> final(self).sink() == old(self).sink(),
    ;
}

/// Writes the whole buffer, retrying until it is exhausted or the writer
/// fails.
pub fn write_all<W: Write>(writer: &mut W, buf: &[u8]) -> (r: Result<(), IpcError>)
    ensures
        final(writer).tracks_sink() == old(writer).tracks_sink(),
        buf@.len() == 0 ==> r == Ok::<(), IpcError>(()) && *final(writer) == *old(writer),
        match r {
            Ok(_) => old(writer).tracks_sink() ==> final(writer).sink() == old(writer).sink()
                + buf@,
            Err(_) => old(writer).tracks_sink() ==> exists|k: int|
                0 <= k <= buf@.len() && final(writer).sink() == old(writer).sink() + buf@.take(k),
        },
    decreases buf@.len(),
{
    if buf.len() == 0 {
        assert(old(writer).sink() + buf@ =~= old(writer).sink());
        return Ok(());
    }
    let ghost mid0 = *writer;
    match writer.write(buf) {
        Ok(n) => {
            if n >= buf.len() {
                assert(buf@.take(n as int) =~= buf@);
                Ok(())
            } else {
                let ghost mid = *writer;
                let rest = vstd::slice::slice_subrange(buf, n, buf.len());
                let r = write_all(writer, rest);
                proof {
                    if writer.tracks_sink() {
                        if r is Ok {
                            assert(buf@.take(n as int) + buf@.subrange(n as int, buf@.len() as int)
                                =~= buf@);
                        } else {
                            let k2 = choose|k2: int|
                                0 <= k2 <= rest@.len() && writer.sink() == mid.sink() + rest@.take(
                                    k2,
                                );
                            assert(buf@.take(n as int) + rest@.take(k2) =~= buf@.take(n + k2));
                            assert(writer.sink() == old(writer).sink() + buf@.take(n + k2));
                        }
                    }
                }
                r
            }
        },
        Err(e) => {
            proof {
                if writer.tracks_sink() {
                    assert(writer.sink() =~= old(writer).sink() + buf@.take(0));
                }
            }
            Err(e)
        },
    }
}

/// Reads until the buffer is full, failing with `ReadExactError` when the
/// stream ends or the reader fails first.
pub fn read_exact<R: Read>(reader: &mut R, buf: &mut [u8]) -> (r: Result<(), IpcError>)
    ensures
        final(reader).deterministic() == old(reader).deterministic(),
        final(buf)@.len() == old(buf)@.len(),
        r matches Err(e) ==> e == IpcError::ReadExactError,
        old(reader).deterministic() ==> {
            if old(reader).stream().len() >= old(buf)@.len() {
                &&& r == Ok::<(), IpcError>(())
                &&& final(buf)@ == old(reader).stream().take(old(buf)@.len() as int)
                &&& final(reader).stream() == old(reader).stream().skip(old(buf)@.len() as int)
            } else {
                r matches Err(_)
            }
        },
    decreases buf@.len(),
{
    if buf.len() == 0 {
        assert(buf@ =~= old(reader).stream().take(0));
        assert(old(reader).stream().skip(0) =~= old(reader).stream());
        return Ok(());
    }
    match reader.read(buf) {
        Ok(n) => {
            if n == 0 {
                Err(IpcError::ReadExactError)
            } else if n >= buf.len() {
                proof {
                    if old(reader).deterministic() {
                        assert(buf@ =~= old(reader).stream().take(n as int) + old(buf)@.skip(
                            n as int,
                        ));
                    }
                }
                Ok(())
            } else {
                let (_, rest) = buf.split_at_mut(n);
                let r = read_exact(reader, rest);
                proof {
                    if old(reader).deterministic() && old(reader).stream().len() >= old(
                        buf,
                    )@.len() {
                        assert(buf@ =~= old(reader).stream().take(old(buf)@.len() as int));
                        assert(reader.stream() =~= old(reader).stream().skip(
                            old(buf)@.len() as int,
                        ));
                    }
                }
                r
            }
        },
        Err(_) => Err(IpcError::ReadExactError),
    }
}

/// Where a repositioning starts from.
#[derive(Debug, Copy, Clone, Eq, PartialEq, Structural)]
pub enum SeekFrom {
    /// An offset from the start of the stream.
    Start(u64),
    /// An offset from the end of the stream.
    End(i64),
    /// An offset from the current position.
    Current(i64),
}

/// The capability of repositioning a stream.
pub trait Seek: Sized {
    fn seek(&mut self, pos: SeekFrom) -> Result<u64, IpcError>;

    /// Repositions to the start of the stream.
    fn rewind(&mut self) -> Result<(), IpcError> {
        match self.seek(SeekFrom::Start(0)) {
            Ok(_) => Ok(()),
            Err(e) => Err(e),
        }
    }

    /// The current position in the stream.
    fn stream_position(&mut self) -> Result<u64, IpcError> {
        self.seek(SeekFrom::Current(0))
    }
}

} // verus!
