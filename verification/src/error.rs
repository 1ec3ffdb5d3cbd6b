//! The unified failure taxonomy: transport, codec and protocol-level faults
//! are folded into one propagation type (`IpcError`) and one compact numeric
//! code sent on the wire (`ProtocolErrorCode`).

use vstd::prelude::*;

verus! {

/// A host-syscall failure, as the transport layer reports it. The numeric
/// wire codes 1 through 9 mirror these variants.
#[derive(Debug, Clone, Copy, PartialEq, Eq, Structural)]
pub enum SysErrorCode {
    /// Index out of bound.
    IndexOutOfBound,
    /// Field is missing for the target.
    ItemMissing,
    /// Buffer length is not enough; carries the actual data length.
    LengthNotEnough(usize),
    /// Data encoding error.
    Encoding,
    /// Failed to wait.
    WaitFailure,
    /// Invalid file descriptor.
    InvalidFd,
    /// Reading from or writing to a file descriptor failed because the other
    /// end was closed.
    OtherEndClosed,
    /// The maximum number of instances has been spawned.
    MaxVmsSpawned,
    /// The maximum number of file descriptors has been created.
    MaxFdsCreated,
    /// An unrecognized syscall error number.
    Unknown(u64),
}

/// Every failure the framework can propagate: transport faults, codec faults
/// and protocol-level errors reported by the peer.
#[derive(Debug, Clone, Copy, PartialEq, Eq, Structural)]
pub enum IpcError {
    /// A host syscall failed.
    CkbSysError(SysErrorCode),
    /// The stream ended before a full item could be read.
    UnexpectedEof,
    /// A variable-length integer was cut short by the end of the stream.
    IncompleteVlqSeq,
    /// A variable-length integer ran past the width of a 64-bit value.
    DecodeVlqOverflow,
    /// Reading the bytes of a variable-length integer failed.
    ReadVlqError,
    /// Turning a value into payload bytes failed.
    SerializeError,
    /// Turning payload bytes back into a value failed.
    DeserializeError,
    /// A write into a fixed slice ran out of room.
    SliceWriteError,
    /// A buffered delimited read failed.
    ReadUntilError,
    /// An exact-length read could not be completed.
    ReadExactError,
    /// The buffered reader's underlying source failed.
    BufReaderError,
    /// The peer answered with a nonzero error code.
    ProtocolError(ProtocolErrorCode),
}

/// The compact numeric error code used in the wire protocol. Code 0 means
/// success; 1 through 9 mirror host-syscall failures; 20 and above are
/// generic framework failures. The numeric values are fixed for wire
/// compatibility.
#[derive(Debug, Clone, Copy, PartialEq, Eq, Structural)]
pub enum ProtocolErrorCode {
    /// Success.
    Success,
    /// Index out of bound.
    IndexOutOfBound,
    /// Field is missing for the target.
    ItemMissing,
    /// Buffer length is not enough.
    LengthNotEnough,
    /// Data encoding error.
    InvalidData,
    /// Failed to wait.
    WaitFailure,
    /// Invalid file descriptor.
    InvalidFd,
    /// The other end of a pipe was closed.
    OtherEndClosed,
    /// The maximum number of instances has been spawned.
    MaxVmsSpawned,
    /// The maximum number of file descriptors has been created.
    MaxFdsCreated,
    /// Unknown error.
    UnknownError,
    /// Unknown host-syscall error.
    UnknownSysError,
    /// Unexpected end of stream.
    UnexpectedEof,
    /// Incomplete variable-length integer.
    IncompleteVlqSeq,
    /// Variable-length integer overflow.
    DecodeVlqOverflow,
    /// Error while reading a variable-length integer.
    ReadVlqError,
    /// Serialize error.
    SerializeError,
    /// Deserialize error.
    DeserializeError,
    /// General I/O error.
    GeneralIoError,
    /// One past the last assigned code.
    EndOfError,
}

impl ProtocolErrorCode {
    /// The fixed numeric value this code takes on the wire.
    pub open spec fn spec_value(self) -> u64 {
        match self {
            ProtocolErrorCode::Success => 0,
            ProtocolErrorCode::IndexOutOfBound => 1,
            ProtocolErrorCode::ItemMissing => 2,
            ProtocolErrorCode::LengthNotEnough => 3,
            ProtocolErrorCode::InvalidData => 4,
            ProtocolErrorCode::WaitFailure => 5,
            ProtocolErrorCode::InvalidFd => 6,
            ProtocolErrorCode::OtherEndClosed => 7,
            ProtocolErrorCode::MaxVmsSpawned => 8,
            ProtocolErrorCode::MaxFdsCreated => 9,
            ProtocolErrorCode::UnknownError => 20,
            ProtocolErrorCode::UnknownSysError => 21,
            ProtocolErrorCode::UnexpectedEof => 22,
            ProtocolErrorCode::IncompleteVlqSeq => 23,
            ProtocolErrorCode::DecodeVlqOverflow => 24,
            ProtocolErrorCode::ReadVlqError => 25,
            ProtocolErrorCode::SerializeError => 26,
            ProtocolErrorCode::DeserializeError => 27,
            ProtocolErrorCode::GeneralIoError => 28,
            ProtocolErrorCode::EndOfError => 29,
        }
    }

    /// The code a given wire value names; values with no assigned code fall
    /// back to `UnknownError`.
    pub open spec fn spec_from_value(v: u64) -> ProtocolErrorCode {
        if v == 0 {
            ProtocolErrorCode::Success
        } else if v == 1 {
            ProtocolErrorCode::IndexOutOfBound
        } else if v == 2 {
            ProtocolErrorCode::ItemMissing
        } else if v == 3 {
            ProtocolErrorCode::LengthNotEnough
        } else if v == 4 {
            ProtocolErrorCode::InvalidData
        } else if v == 5 {
            ProtocolErrorCode::WaitFailure
        } else if v == 6 {
            ProtocolErrorCode::InvalidFd
        } else if v == 7 {
            ProtocolErrorCode::OtherEndClosed
        } else if v == 8 {
            ProtocolErrorCode::MaxVmsSpawned
        } else if v == 9 {
            ProtocolErrorCode::MaxFdsCreated
        } else if v == 20 {
            ProtocolErrorCode::UnknownError
        } else if v == 21 {
            ProtocolErrorCode::UnknownSysError
        } else if v == 22 {
            ProtocolErrorCode::UnexpectedEof
        } else if v == 23 {
            ProtocolErrorCode::IncompleteVlqSeq
        } else if v == 24 {
            ProtocolErrorCode::DecodeVlqOverflow
        } else if v == 25 {
            ProtocolErrorCode::ReadVlqError
        } else if v == 26 {
            ProtocolErrorCode::SerializeError
        } else if v == 27 {
            ProtocolErrorCode::DeserializeError
        } else if v == 28 {
            ProtocolErrorCode::GeneralIoError
        } else if v == 29 {
            ProtocolErrorCode::EndOfError
        } else {
            ProtocolErrorCode::UnknownError
        }
    }

    /// The numeric value this code takes on the wire.
    pub fn value(&self) -> (r: u64)
        ensures
            r == self.spec_value(),
    {
        match self {
            ProtocolErrorCode::Success => 0,
            ProtocolErrorCode::IndexOutOfBound => 1,
            ProtocolErrorCode::ItemMissing => 2,
            ProtocolErrorCode::LengthNotEnough => 3,
            ProtocolErrorCode::InvalidData => 4,
            ProtocolErrorCode::WaitFailure => 5,
            ProtocolErrorCode::InvalidFd => 6,
            ProtocolErrorCode::OtherEndClosed => 7,
            ProtocolErrorCode::MaxVmsSpawned => 8,
            ProtocolErrorCode::MaxFdsCreated => 9,
            ProtocolErrorCode::UnknownError => 20,
            ProtocolErrorCode::UnknownSysError => 21,
            ProtocolErrorCode::UnexpectedEof => 22,
            ProtocolErrorCode::IncompleteVlqSeq => 23,
            ProtocolErrorCode::DecodeVlqOverflow => 24,
            ProtocolErrorCode::ReadVlqError => 25,
            ProtocolErrorCode::SerializeError => 26,
            ProtocolErrorCode::DeserializeError => 27,
            ProtocolErrorCode::GeneralIoError => 28,
            ProtocolErrorCode::EndOfError => 29,
        }
    }

    /// The code a given wire value names; unassigned values fall back to
    /// `UnknownError`.
    pub fn from_value(v: u64) -> (r: ProtocolErrorCode)
        ensures
            r == ProtocolErrorCode::spec_from_value(v),
    {
        if v == 0 {
            ProtocolErrorCode::Success
        } else if v == 1 {
            ProtocolErrorCode::IndexOutOfBound
        } else if v == 2 {
            ProtocolErrorCode::ItemMissing
        } else if v == 3 {
            ProtocolErrorCode::LengthNotEnough
        } else if v == 4 {
            ProtocolErrorCode::InvalidData
        } else if v == 5 {
            ProtocolErrorCode::WaitFailure
        } else if v == 6 {
            ProtocolErrorCode::InvalidFd
        } else if v == 7 {
            ProtocolErrorCode::OtherEndClosed
        } else if v == 8 {
            ProtocolErrorCode::MaxVmsSpawned
        } else if v == 9 {
            ProtocolErrorCode::MaxFdsCreated
        } else if v == 20 {
            ProtocolErrorCode::UnknownError
        } else if v == 21 {
            ProtocolErrorCode::UnknownSysError
        } else if v == 22 {
            ProtocolErrorCode::UnexpectedEof
        } else if v == 23 {
            ProtocolErrorCode::IncompleteVlqSeq
        } else if v == 24 {
            ProtocolErrorCode::DecodeVlqOverflow
        } else if v == 25 {
            ProtocolErrorCode::ReadVlqError
        } else if v == 26 {
            ProtocolErrorCode::SerializeError
        } else if v == 27 {
            ProtocolErrorCode::DeserializeError
        } else if v == 28 {
            ProtocolErrorCode::GeneralIoError
        } else if v == 29 {
            ProtocolErrorCode::EndOfError
        } else {
            ProtocolErrorCode::UnknownError
        }
    }
}

/// The wire-code table is consistent: every code reads back from its own
/// numeric value.
pub proof fn lemma_protocol_code_round_trip(c: ProtocolErrorCode)
    ensures
        ProtocolErrorCode::spec_from_value(c.spec_value()) == c,
{
}

/// The wire code each failure maps to: syscall failures keep their mirrored
/// codes, codec failures take the matching generic code, and the remaining
/// I/O failures fold into `GeneralIoError`.
pub open spec fn spec_protocol_code_of(err: IpcError) -> ProtocolErrorCode {
    match err {
        IpcError::CkbSysError(e) => match e {
            SysErrorCode::IndexOutOfBound => ProtocolErrorCode::IndexOutOfBound,
            SysErrorCode::ItemMissing => ProtocolErrorCode::ItemMissing,
            SysErrorCode::LengthNotEnough(_) => ProtocolErrorCode::LengthNotEnough,
            SysErrorCode::Encoding => ProtocolErrorCode::InvalidData,
            SysErrorCode::WaitFailure => ProtocolErrorCode::WaitFailure,
            SysErrorCode::InvalidFd => ProtocolErrorCode::InvalidFd,
            SysErrorCode::OtherEndClosed => ProtocolErrorCode::OtherEndClosed,
            SysErrorCode::MaxVmsSpawned => ProtocolErrorCode::MaxVmsSpawned,
            SysErrorCode::MaxFdsCreated => ProtocolErrorCode::MaxFdsCreated,
            SysErrorCode::Unknown(_) => ProtocolErrorCode::UnknownSysError,
        },
        IpcError::UnexpectedEof => ProtocolErrorCode::UnexpectedEof,
        IpcError::IncompleteVlqSeq => ProtocolErrorCode::IncompleteVlqSeq,
        IpcError::DecodeVlqOverflow => ProtocolErrorCode::DecodeVlqOverflow,
        IpcError::ReadVlqError => ProtocolErrorCode::ReadVlqError,
        IpcError::SerializeError => ProtocolErrorCode::SerializeError,
        IpcError::DeserializeError => ProtocolErrorCode::DeserializeError,
        IpcError::SliceWriteError => ProtocolErrorCode::GeneralIoError,
        IpcError::BufReaderError => ProtocolErrorCode::GeneralIoError,
        IpcError::ReadUntilError => ProtocolErrorCode::GeneralIoError,
        IpcError::ReadExactError => ProtocolErrorCode::GeneralIoError,
        IpcError::ProtocolError(e) => e,
    }
}

impl IpcError {
    /// The wire code this failure maps to.
    pub fn protocol_code(&self) -> (r: ProtocolErrorCode)
        ensures
            r == spec_protocol_code_of(*self),
    {
        match self {
            IpcError::CkbSysError(e) => match e {
                SysErrorCode::IndexOutOfBound => ProtocolErrorCode::IndexOutOfBound,
                SysErrorCode::ItemMissing => ProtocolErrorCode::ItemMissing,
                SysErrorCode::LengthNotEnough(_) => ProtocolErrorCode::LengthNotEnough,
                SysErrorCode::Encoding => ProtocolErrorCode::InvalidData,
                SysErrorCode::WaitFailure => ProtocolErrorCode::WaitFailure,
                SysErrorCode::InvalidFd => ProtocolErrorCode::InvalidFd,
                SysErrorCode::OtherEndClosed => ProtocolErrorCode::OtherEndClosed,
                SysErrorCode::MaxVmsSpawned => ProtocolErrorCode::MaxVmsSpawned,
                SysErrorCode::MaxFdsCreated => ProtocolErrorCode::MaxFdsCreated,
                SysErrorCode::Unknown(_) => ProtocolErrorCode::UnknownSysError,
            },
            IpcError::UnexpectedEof => ProtocolErrorCode::UnexpectedEof,
            IpcError::IncompleteVlqSeq => ProtocolErrorCode::IncompleteVlqSeq,
            IpcError::DecodeVlqOverflow => ProtocolErrorCode::DecodeVlqOverflow,
            IpcError::ReadVlqError => ProtocolErrorCode::ReadVlqError,
            IpcError::SerializeError => ProtocolErrorCode::SerializeError,
            IpcError::DeserializeError => ProtocolErrorCode::DeserializeError,
            IpcError::SliceWriteError => ProtocolErrorCode::GeneralIoError,
            IpcError::BufReaderError => ProtocolErrorCode::GeneralIoError,
            IpcError::ReadUntilError => ProtocolErrorCode::GeneralIoError,
            IpcError::ReadExactError => ProtocolErrorCode::GeneralIoError,
            IpcError::ProtocolError(e) => *e,
        }
    }
}

} // verus!
