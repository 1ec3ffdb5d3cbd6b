//! In-memory transports: a byte slice is a deterministic source that hands
//! out its front, and a byte vector is a sink that accepts everything it is
//! given. Framing code is exercised against these without any pipe.

use vstd::prelude::*;
use vstd::slice::slice_subrange;

use crate::error::IpcError;
use crate::io::{Read, Write};

verus! {

impl<'a> Read for &'a [u8] {
    open spec fn stream(&self) -> Seq<u8> {
        self@
    }

    open spec fn deterministic(&self) -> bool {
        true
    }

    /// A slice hands out as much as buffer and remainder allow.
    open spec fn greedy(&self) -> bool {
        true
    }

    fn read(&mut self, buf: &mut [u8]) -> (r: Result<usize, IpcError>) {
        let cur: &[u8] = *self;
        let amt: usize = if buf.len() <= cur.len() {
            buf.len()
        } else {
            cur.len()
        };
        let ghost b0 = buf@;
        let mut k: usize = 0;
        while k < amt
            invariant
                k <= amt,
                amt <= buf@.len(),
                amt <= cur@.len(),
                buf@.len() == b0.len(),
                forall|j: int| 0 <= j < k ==> buf@[j] == cur@[j],
                forall|j: int| k <= j < b0.len() ==> buf@[j] == b0[j],
            decreases amt - k,
        {
            buf[k] = cur[k];
            k = k + 1;
        }
        let rest = slice_subrange(cur, amt, cur.len());
        *self = rest;
        proof {
            assert(buf@ =~= cur@.take(amt as int) + b0.skip(amt as int));
            assert(buf@.skip(amt as int) =~= b0.skip(amt as int));
            assert(self@ =~= cur@.skip(amt as int));
        }
        Ok(amt)
    }
}

impl Write for Vec<u8> {
    open spec fn sink(&self) -> Seq<u8> {
        self@
    }

    open spec fn tracks_sink(&self) -> bool {
        true
    }

    fn write(&mut self, buf: &[u8]) -> (r: Result<usize, IpcError>) {
        self.extend_from_slice(buf);
        proof {
            assert forall|i: int| 0 <= i < buf@.len() implies self@[old(self)@.len() + i]
                == buf@[i] by {
                assert(cloned::<u8>(buf@[i], self@[old(self)@.len() + i]));
            }
            assert(self@ =~= old(self)@ + buf@.take(buf@.len() as int));
        }
        Ok(buf.len())
    }

    fn flush(&mut self) -> (r: Result<(), IpcError>) {
        Ok(())
    }
}

} // verus!


