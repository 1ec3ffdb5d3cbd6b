//! Shared service-contract declarations used by test programs: the record
//! types their methods exchange, the method list itself, and the command
//! selector of the cryptography test program.

use vstd::prelude::*;

use std::collections::BTreeMap;

verus! {

/// A fixed-layout record of scalar fields.
#[derive(Clone, PartialEq, Default, Debug)]
pub struct Struct0 {
    pub f0: u8,
    pub f1: u64,
    pub f2: [u8; 3],
}

/// A record exercising nested layouts: arrays of arrays, byte vectors, text,
/// an optional field, a vector of byte vectors and a nested record.
#[derive(Clone, PartialEq, Default, Debug)]
pub struct Struct1 {
    pub f1: u8,
    pub f2: u16,
    pub f3: [u8; 3],
    pub f4: [[u8; 5]; 2],
    pub f5: Vec<u8>,
    pub f6: String,
    pub f7: Option<u32>,
    pub f8: Vec<Vec<u8>>,
    pub f9: Struct0,
}

/// The unit-test service contract, shared between its client and server
/// programs: one method per exchanged shape.
pub trait UnitTests: Sized {
    /// Exchanges one value of every primitive width.
    fn test_primitive_types(
        &mut self,
        arg1: i8,
        arg2: u8,
        arg3: i16,
        arg4: u16,
        arg5: i32,
        arg6: u32,
        arg7: i64,
        arg8: u64,
        arg9: i128,
        arg10: u128,
        arg11: bool,
    );

    /// Exchanges a vector.
    fn test_vec(&mut self, vec: Vec<i32>);

    /// Exchanges an ordered map.
    fn test_btree_map(&mut self, map: BTreeMap<String, i32>);

    /// Exchanges a nested record.
    fn test_complex_types(&mut self, arg1: Struct1);

    /// Returns a result value.
    fn test_return_types(&mut self) -> Result<u32, String>;
}

/// The command a cryptography test program is asked to run, selected by the
/// leading byte of its arguments.
#[derive(Debug, Clone, Copy, PartialEq, Eq, Structural)]
pub enum Cmd {
    /// Hash with the chain-personalized BLAKE2b.
    CkbBlake2b,
    /// Hash with plain BLAKE2b.
    Blake2b,
    /// Hash with SHA-256.
    Sha256,
    /// Hash with RIPEMD-160.
    Ripemd160,
    /// Recover a public key from an ECDSA signature.
    Secp256k1Recover,
    /// Verify an ECDSA signature.
    Secp256k1Verify,
    /// Verify an Ed25519 signature.
    Ed25519Verfiy,
}

impl Cmd {
    /// The command's selector byte.
    pub open spec fn spec_value(self) -> u8 {
        match self {
            Cmd::CkbBlake2b => 0,
            Cmd::Blake2b => 1,
            Cmd::Sha256 => 2,
            Cmd::Ripemd160 => 3,
            Cmd::Secp256k1Recover => 4,
            Cmd::Secp256k1Verify => 5,
            Cmd::Ed25519Verfiy => 6,
        }
    }

    /// The command a selector byte names; only bytes below 7 name one.
    pub fn from_u8(value: u8) -> (r: Cmd)
        requires
            value < 7,
        ensures
            r.spec_value() == value,
    {
        match value {
            0 => Cmd::CkbBlake2b,
            1 => Cmd::Blake2b,
            2 => Cmd::Sha256,
            3 => Cmd::Ripemd160,
            4 => Cmd::Secp256k1Recover,
            5 => Cmd::Secp256k1Verify,
            _ => Cmd::Ed25519Verfiy,
        }
    }

    /// The command's selector byte.
    pub fn value(&self) -> (r: u8)
        ensures
            r == self.spec_value(),
    {
        match self {
            Cmd::CkbBlake2b => 0,
            Cmd::Blake2b => 1,
            Cmd::Sha256 => 2,
            Cmd::Ripemd160 => 3,
            Cmd::Secp256k1Recover => 4,
            Cmd::Secp256k1Verify => 5,
            Cmd::Ed25519Verfiy => 6,
        }
    }
}

} // verus!
