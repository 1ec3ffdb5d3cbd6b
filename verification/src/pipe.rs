//! The production transport: a duplex byte pipe around a numeric handle
//! obtained from the host's pipe-creation primitive. Reads and writes
//! delegate to host syscalls keyed by that handle; a zero-length write is
//! short-circuited so the peer never mistakes it for an end-of-stream signal.

use vstd::prelude::*;

use crate::error::{IpcError, SysErrorCode};
use crate::io::{Read, Write};

verus! {

/// A pipe handle. By the host's convention, even handles are read ends and
/// odd handles are write ends.
pub struct Pipe {
    id: u64,
}

impl Pipe {
    /// The handle's number.
    pub closed spec fn spec_fd(&self) -> u64 {
        self.id
    }

    /// A pipe around the given handle.
    pub fn new(id: u64) -> (r: Pipe)
        ensures
            r.spec_fd() == id,
    {
        Pipe { id }
    }

    /// The handle's number.
    pub fn fd(&self) -> (r: u64)
        ensures
            r == self.spec_fd(),
    {
        self.id
    }

    /// Whether this is a read end (even handle).
    pub fn readable(&self) -> (r: bool)
        ensures
            r == (self.spec_fd() % 2 == 0),
    {
        self.id % 2 == 0
    }

    /// Whether this is a write end (odd handle).
    pub fn writable(&self) -> (r: bool)
        ensures
            r == (self.spec_fd() % 2 == 1),
    {
        self.id % 2 == 1
    }
}

impl From<u64> for Pipe {
    /// A pipe around the given handle.
    fn from(id: u64) -> (r: Pipe) {
        Pipe::new(id)
    }
}

impl vstd::std_specs::convert::FromSpecImpl<u64> for Pipe {
    open spec fn obeys_from_spec() -> bool {
        true
    }

    closed spec fn from_spec(id: u64) -> Pipe {
        Pipe { id }
    }
}

/// The host's syscall failure, as the library's own mirror of it.
#[verifier::external_type_specification]
#[verifier::external_body]
pub struct ExCkbSysError(ckb_std::error::SysError);

/// Relies on ckb_std::error::SysError: mirrors each of its variants into the
/// library's own, moving the carried values.
#[verifier::external_body]
fn map_sys_error(e: ckb_std::error::SysError) -> SysErrorCode {
    match e {
        ckb_std::error::SysError::IndexOutOfBound => SysErrorCode::IndexOutOfBound,
        ckb_std::error::SysError::ItemMissing => SysErrorCode::ItemMissing,
        ckb_std::error::SysError::LengthNotEnough(n) => SysErrorCode::LengthNotEnough(n),
        ckb_std::error::SysError::Encoding => SysErrorCode::Encoding,
        ckb_std::error::SysError::WaitFailure => SysErrorCode::WaitFailure,
        ckb_std::error::SysError::InvalidFd => SysErrorCode::InvalidFd,
        ckb_std::error::SysError::OtherEndClosed => SysErrorCode::OtherEndClosed,
        ckb_std::error::SysError::MaxVmsSpawned => SysErrorCode::MaxVmsSpawned,
        ckb_std::error::SysError::MaxFdsCreated => SysErrorCode::MaxFdsCreated,
        ckb_std::error::SysError::Unknown(n) => SysErrorCode::Unknown(n),
    }
}

/// Relies on ckb_std::syscalls::read: fills at most the buffer's length from
/// the handle, returns how many bytes arrived, and leaves the rest of the
/// buffer alone. Nothing more is promised: the bytes come from the peer.
#[verifier::external_body]
fn host_read(fd: u64, buf: &mut [u8]) -> (r: Result<usize, ckb_std::error::SysError>)
    ensures
        final(buf)@.len() == old(buf)@.len(),
        r matches Ok(n) ==> n <= old(buf)@.len() && final(buf)@.skip(n as int) == old(buf)@.skip(
            n as int,
        ),
        r matches Err(_) ==> final(buf)@ == old(buf)@,
{
    ckb_std::syscalls::read(fd, buf)
}

/// Relies on ckb_std::syscalls::write: hands the buffer to the handle and
/// returns how many bytes the host accepted, at most the buffer's length.
#[verifier::external_body]
fn host_write(fd: u64, buf: &[u8]) -> (r: Result<usize, ckb_std::error::SysError>)
    ensures
        r matches Ok(n) ==> n <= buf@.len(),
{
    ckb_std::syscalls::write(fd, buf)
}

impl Read for Pipe {
    /// A pipe's future input is the peer's to decide.
    open spec fn stream(&self) -> Seq<u8> {
        Seq::empty()
    }

    open spec fn deterministic(&self) -> bool {
        false
    }

    open spec fn greedy(&self) -> bool {
        false
    }

    fn read(&mut self, buf: &mut [u8]) -> (r: Result<usize, IpcError>) {
        match host_read(self.id, buf) {
            Ok(n) => Ok(n),
            Err(e) => Err(IpcError::CkbSysError(map_sys_error(e))),
        }
    }
}

impl Write for Pipe {
    /// A pipe does not record what it accepted.
    open spec fn sink(&self) -> Seq<u8> {
        Seq::empty()
    }

    open spec fn tracks_sink(&self) -> bool {
        false
    }

    /// A zero-length write is short-circuited before reaching the host: the
    /// scheduler may deliver zero-byte transfers, which the peer could
    /// mistake for end of stream. A host that accepts none of a nonempty
    /// buffer is reported as a failure rather than retried.
    fn write(&mut self, buf: &[u8]) -> (r: Result<usize, IpcError>) {
        if buf.len() == 0 {
            return Ok(0);
        }
        match host_write(self.id, buf) {
            Ok(n) => {
                if n == 0 {
                    Err(IpcError::CkbSysError(SysErrorCode::Unknown(0)))
                } else {
                    Ok(n)
                }
            },
            Err(e) => Err(IpcError::CkbSysError(map_sys_error(e))),
        }
    }

    fn flush(&mut self) -> (r: Result<(), IpcError>) {
        Ok(())
    }
}

} // verus!
