//! The native simulation transport: a pipe backed by a zero-capacity
//! rendezvous queue. A write blocks until the matching read arrives and the
//! other way round, so no backlog ever accumulates; reading buffers any
//! excess received payload for subsequent reads. A connected pair carries
//! one direction; an embedded guest instance on a host thread drives its
//! read/write traps through these pipes, each trap charging a fixed cycle
//! cost.

use vstd::prelude::*;

use std::sync::mpsc::{Receiver, SyncSender};
use std::sync::Mutex;

use crate::error::{IpcError, SysErrorCode};
use crate::io::{append_bytes, spec_min, zero_vec, Read, Write};

verus! {

/// The trap number of the spawn syscall.
pub const SPAWN: i32 = 2601;

/// The trap number of the wait syscall.
pub const WAIT: i32 = 2602;

/// The trap number of the process-id syscall.
pub const PROCESS_ID: i32 = 2603;

/// The trap number of the pipe-creation syscall.
pub const PIPE: i32 = 2604;

/// The trap number of the write syscall.
pub const WRITE: i32 = 2605;

/// The trap number of the read syscall.
pub const READ: i32 = 2606;

/// The trap number of the inherited-handles syscall.
pub const INHERITED_FD: i32 = 2607;

/// The trap number of the close syscall.
pub const CLOSE: i32 = 2608;

/// The trap number of the debug-print syscall.
pub const DEBUG_PRINT_SYSCALL_NUMBER: i32 = 2177;

/// The fixed cycle cost charged to the guest for each forwarded read or
/// write, approximating the real scheduler's overhead.
pub const SPAWN_YIELD_CYCLES_BASE: u64 = 800;

/// The first inherited handle slot: the guest's read end; the next slot is
/// its write end.
pub const FIRST_FD_SLOT: u64 = 2;

/// An endpoint of the rendezvous queue: either the sending half or the
/// receiving half, never both.
#[verifier::external_type_specification]
#[verifier::external_body]
#[verifier::reject_recursive_types(T)]
pub struct ExSyncSender<T>(SyncSender<T>);

/// The receiving half of the rendezvous queue.
#[verifier::external_type_specification]
#[verifier::external_body]
#[verifier::reject_recursive_types(T)]
pub struct ExReceiver<T>(Receiver<T>);

/// The lock that makes the single consumer's receiver shareable.
#[verifier::external_type_specification]
#[verifier::external_body]
#[verifier::reject_recursive_types(T)]
pub struct ExMutex<T: ?Sized>(Mutex<T>);

/// Relies on std::sync::mpsc::sync_channel with capacity 0: a connected
/// rendezvous pair where every transfer is a full hand-off; the receiver is
/// put behind a lock for its single consumer.
#[verifier::external_body]
fn rendezvous_pair() -> (SyncSender<Vec<u8>>, Mutex<Receiver<Vec<u8>>>) {
    let (tx, rx) = std::sync::mpsc::sync_channel(0);
    (tx, Mutex::new(rx))
}

/// Relies on SyncSender::send: blocks until the peer receives the chunk;
/// fails exactly when the receiving half is gone.
#[verifier::external_body]
fn send_chunk(tx: &SyncSender<Vec<u8>>, data: Vec<u8>) -> Result<(), ()> {
    tx.send(data).map_err(|_| ())
}

/// Relies on Mutex::lock and Receiver::recv: blocks until the peer sends a
/// chunk; yields nothing exactly when the sending half is gone or the lock
/// was poisoned by a crashed holder.
#[verifier::external_body]
fn recv_chunk(rx: &Mutex<Receiver<Vec<u8>>>) -> Option<Vec<u8>> {
    match rx.lock() {
        Ok(guard) => guard.recv().ok(),
        Err(_) => None,
    }
}

/// One end of a simulated pipe: a reading end holds the receiver, a writing
/// end holds the sender. Excess received payload waits in `buf`.
pub struct Pipe {
    tx: Option<SyncSender<Vec<u8>>>,
    rx: Option<Mutex<Receiver<Vec<u8>>>>,
    buf: Vec<u8>,
    sent: Ghost<Seq<u8>>,
}

impl Pipe {
    /// Whether this end can receive.
    pub closed spec fn is_read_end(&self) -> bool {
        self.rx is Some
    }

    /// Whether this end can send.
    pub closed spec fn is_write_end(&self) -> bool {
        self.tx is Some
    }

    /// A connected pair: the reading end, then the writing end. What one end
    /// writes, the other reads.
    pub fn new_pair() -> (r: (Pipe, Pipe))
        ensures
            r.0.is_read_end() && !r.0.is_write_end(),
            r.1.is_write_end() && !r.1.is_read_end(),
            r.0.stream() == Seq::<u8>::empty(),
            r.1.sink() == Seq::<u8>::empty(),
            r.1.tracks_sink(),
    {
        let (tx, rx) = rendezvous_pair();
        (
            Pipe { tx: None, rx: Some(rx), buf: Vec::new(), sent: Ghost(Seq::empty()) },
            Pipe { tx: Some(tx), rx: None, buf: Vec::new(), sent: Ghost(Seq::empty()) },
        )
    }

    /// Drops both halves, closing the conduit: a pending or later read on the
    /// peer sees end of stream.
    pub fn close(&mut self)
        ensures
            !final(self).is_read_end(),
            !final(self).is_write_end(),
    {
        if self.tx.is_some() {
            self.tx = None;
        }
        if self.rx.is_some() {
            self.rx = None;
        }
    }
}

impl Read for Pipe {
    /// The bytes already received and buffered; what the peer sends next is
    /// not a function of this end.
    closed spec fn stream(&self) -> Seq<u8> {
        self.buf@
    }

    open spec fn deterministic(&self) -> bool {
        false
    }

    open spec fn greedy(&self) -> bool {
        false
    }

    /// Serves buffered bytes first: with bytes already buffered no queue
    /// transfer happens and the read succeeds with exactly the front of the
    /// buffered stream, as much as buffer and request allow. Only an empty
    /// buffer blocks on the rendezvous queue; there, a closed or write-only
    /// end reports `InvalidFd` and a disconnected peer `OtherEndClosed`.
    fn read(&mut self, buf: &mut [u8]) -> (r: Result<usize, IpcError>)
        ensures
            old(self).stream().len() > 0 ==> (r matches Ok(n) && n == spec_min(
                old(buf)@.len(),
                old(self).stream().len(),
            ) && final(buf)@ == old(self).stream().take(n as int) + old(buf)@.skip(n as int)
                && final(self).stream() == old(self).stream().skip(n as int)),
            old(self).stream().len() == 0 && !old(self).is_read_end() ==> r == Err::<
                usize,
                IpcError,
            >(IpcError::CkbSysError(SysErrorCode::InvalidFd)),
    {
        if self.buf.len() == 0 {
            match &self.rx {
                Some(rx) => match recv_chunk(rx) {
                    Some(data) => {
                        self.buf = data;
                    },
                    None => {
                        return Err(IpcError::CkbSysError(SysErrorCode::OtherEndClosed));
                    },
                },
                None => {
                    return Err(IpcError::CkbSysError(SysErrorCode::InvalidFd));
                },
            }
        }
        let n = if self.buf.len() <= buf.len() {
            self.buf.len()
        } else {
            buf.len()
        };
        let ghost b0 = buf@;
        let mut k: usize = 0;
        while k < n
            invariant
                k <= n,
                n <= buf@.len(),
                n <= self.buf@.len(),
                buf@.len() == b0.len(),
                forall|j: int| 0 <= j < k ==> buf@[j] == self.buf@[j],
                forall|j: int| k <= j < b0.len() ==> buf@[j] == b0[j],
            decreases n - k,
        {
            let b = self.buf[k];
            buf[k] = b;
            k = k + 1;
        }
        let ghost served = self.buf@;
        let rest = self.buf.split_off(n);
        self.buf = rest;
        proof {
            assert(buf@.skip(n as int) =~= b0.skip(n as int));
            if old(self).stream().len() > 0 {
                assert(served == old(self).stream());
                assert(buf@ =~= served.take(n as int) + b0.skip(n as int));
                assert(self.buf@ =~= served.skip(n as int));
            }
        }
        Ok(n)
    }
}

impl Write for Pipe {
    /// The bytes this end has handed to the queue.
    closed spec fn sink(&self) -> Seq<u8> {
        self.sent@
    }

    open spec fn tracks_sink(&self) -> bool {
        true
    }

    /// Hands the whole buffer to the queue in one synchronous transfer,
    /// blocking until the peer receives it. A zero-length write is
    /// short-circuited with no effect on the peer; a write on a closed or
    /// read-only end reports `InvalidFd`; a disconnected peer reports
    /// `OtherEndClosed`.
    fn write(&mut self, buf: &[u8]) -> (r: Result<usize, IpcError>)
        ensures
            r matches Ok(n) ==> n == buf@.len(),
            buf@.len() > 0 && !old(self).is_write_end() ==> r == Err::<usize, IpcError>(
                IpcError::CkbSysError(SysErrorCode::InvalidFd),
            ),
    {
        if buf.len() == 0 {
            return Ok(0);
        }
        let mut chunk: Vec<u8> = Vec::new();
        append_bytes(&mut chunk, buf);
        match &self.tx {
            Some(tx) => match send_chunk(tx, chunk) {
                Ok(_) => {
                    proof {
                        assert(buf@.take(buf@.len() as int) =~= buf@);
                    }
                    self.sent = Ghost(self.sent@ + buf@);
                    Ok(buf.len())
                },
                Err(_) => Err(IpcError::CkbSysError(SysErrorCode::OtherEndClosed)),
            },
            None => Err(IpcError::CkbSysError(SysErrorCode::InvalidFd)),
        }
    }

    fn flush(&mut self) -> (r: Result<(), IpcError>) {
        Ok(())
    }
}

/// The debug-print trap handler's state; the printing itself is host work.
pub struct DebugSyscall {}

/// The read trap: forwards guest reads on the first inherited slot to the
/// host-side pipe.
pub struct ReadSyscall {
    pipe: Pipe,
}

impl ReadSyscall {
    /// A handler around the pipe the guest reads from.
    pub fn new(pipe: Pipe) -> (r: ReadSyscall) {
        ReadSyscall { pipe }
    }

    /// One forwarded read: only the first inherited slot is readable; at
    /// most `length` bytes come back, fewer when the peer handed over less.
    pub fn handle_read(&mut self, fd: u64, length: usize) -> (r: Result<Vec<u8>, IpcError>)
        ensures
            fd != FIRST_FD_SLOT ==> r == Err::<Vec<u8>, IpcError>(
                IpcError::CkbSysError(SysErrorCode::InvalidFd),
            ),
            r matches Ok(v) ==> v@.len() <= length,
    {
        if fd != FIRST_FD_SLOT {
            return Err(IpcError::CkbSysError(SysErrorCode::InvalidFd));
        }
        let mut buf = zero_vec(length);
        let n = match self.pipe.read(buf.as_mut_slice()) {
            Ok(n) => n,
            Err(e) => {
                return Err(e);
            },
        };
        buf.truncate(n);
        Ok(buf)
    }
}

/// The write trap: forwards guest writes on the second inherited slot to the
/// host-side pipe.
pub struct WriteSyscall {
    pipe: Pipe,
}

impl WriteSyscall {
    /// A handler around the pipe the guest writes to.
    pub fn new(pipe: Pipe) -> (r: WriteSyscall) {
        WriteSyscall { pipe }
    }

    /// One forwarded write: only the second inherited slot is writable. A
    /// zero-length transfer is skipped so the peer never mistakes it for end
    /// of stream; otherwise the whole buffer goes through in one hand-off.
    pub fn handle_write(&mut self, fd: u64, bytes: &[u8]) -> (r: Result<usize, IpcError>)
        ensures
            fd != FIRST_FD_SLOT + 1 ==> r == Err::<usize, IpcError>(
                IpcError::CkbSysError(SysErrorCode::InvalidFd),
            ) && final(self).pipe_sink() == old(self).pipe_sink(),
            bytes@.len() == 0 && fd == FIRST_FD_SLOT + 1 ==> r == Ok::<usize, IpcError>(0)
                && final(self).pipe_sink() == old(self).pipe_sink(),
            bytes@.len() > 0 ==> (r matches Ok(n) ==> n == bytes@.len() && final(self).pipe_sink()
                == old(self).pipe_sink() + bytes@),
    {
        if fd != FIRST_FD_SLOT + 1 {
            return Err(IpcError::CkbSysError(SysErrorCode::InvalidFd));
        }
        if bytes.len() == 0 {
            return Ok(0);
        }
        let r = self.pipe.write(bytes);
        proof {
            if r is Ok {
                assert(bytes@.take(r->Ok_0 as int) =~= bytes@);
            }
        }
        r
    }

    /// The bytes handed to the guest-facing pipe so far.
    pub closed spec fn pipe_sink(&self) -> Seq<u8> {
        self.pipe.sink()
    }
}

/// The inherited-handles trap: the guest's first two slots are fixed.
pub struct InheritedFdSyscall {}

impl InheritedFdSyscall {
    /// The two inherited handles, in their fixed order: read end, then write
    /// end.
    pub fn inherited_slots() -> (r: (u64, u64))
        ensures
            r.0 == FIRST_FD_SLOT,
            r.1 == FIRST_FD_SLOT + 1,
    {
        (FIRST_FD_SLOT, FIRST_FD_SLOT + 1)
    }
}

/// The close trap: accepted and ignored in simulation.
pub struct CloseSyscall {}

} // verus!
