//! The (de)serialization hooks of the service-contract layer: integers as
//! variable-length quantities, byte strings and text strings with a length
//! prefix. The generated request and response unions are written as a
//! variant tag followed by the variant's fields in order.

use vstd::prelude::*;
use vstd::utf8::{
    decode_utf8, encode_utf8, encode_utf8_decode_utf8, encode_utf8_valid_utf8, valid_utf8,
};

use crate::error::IpcError;
use crate::io::{append_bytes, read_exact, zero_vec};
use crate::packet::{read_next_vlq, vlq_used};
use crate::vlq::{
    lemma_vlq_decode_prefix, lemma_vlq_used_bounds, vlq_bytes, vlq_decode_spec, vlq_encode,
};

verus! {

/// A byte string on the wire: its length, then its bytes verbatim.
pub open spec fn enc_bytes(b: Seq<u8>) -> Seq<u8> {
    vlq_bytes(b.len()) + b
}

/// A text string on the wire: its UTF-8 bytes as a byte string.
pub open spec fn enc_str(s: Seq<char>) -> Seq<u8> {
    enc_bytes(encode_utf8(s))
}

/// What reading a byte string from the front of a buffer yields: the bytes
/// and how much of the buffer they occupied, or nothing when the length
/// prefix is malformed, oversized or the buffer ends early.
pub open spec fn parse_bytes(s: Seq<u8>) -> Option<(Seq<u8>, int)> {
    match vlq_decode_spec(s) {
        Ok(len) => {
            let u = vlq_used(s);
            if len <= usize::MAX && s.skip(u).len() >= len {
                Some((s.skip(u).take(len as int), u + len))
            } else {
                None
            }
        },
        Err(_) => None,
    }
}

/// What reading a text string from the front of a buffer yields: the
/// characters of a valid UTF-8 byte string, or nothing.
pub open spec fn parse_str(s: Seq<u8>) -> Option<(Seq<char>, int)> {
    match parse_bytes(s) {
        Some((b, u)) => if valid_utf8(b) {
            Some((decode_utf8(b), u))
        } else {
            None
        },
        None => None,
    }
}

/// The UTF-8 encoding of a concatenation is the concatenation of the
/// encodings.
pub proof fn lemma_encode_utf8_concat(a: Seq<char>, b: Seq<char>)
    ensures
        encode_utf8(a + b) == encode_utf8(a) + encode_utf8(b),
    decreases a.len(),
{
    if a.len() == 0 {
        assert(a + b =~= b);
        assert(encode_utf8(a) + encode_utf8(b) =~= encode_utf8(b));
    } else {
        assert((a + b).drop_first() =~= a.drop_first() + b);
        lemma_encode_utf8_concat(a.drop_first(), b);
        assert((a + b)[0] == a[0]);
        assert(encode_utf8(a) + encode_utf8(b) =~= vstd::utf8::encode_scalar(a[0] as u32) + (
        encode_utf8(a.drop_first()) + encode_utf8(b)));
    }
}

/// Byte-string round trip: reading back an encoded byte string at the front
/// of a longer buffer yields the bytes and consumes exactly the encoding.
pub proof fn lemma_bytes_round_trip(b: Seq<u8>, rest: Seq<u8>)
    requires
        b.len() <= usize::MAX,
    ensures
        parse_bytes(enc_bytes(b) + rest) == Some((b, enc_bytes(b).len() as int)),
{
    let s = enc_bytes(b) + rest;
    assert(s =~= vlq_bytes(b.len()) + (b + rest));
    lemma_vlq_decode_prefix(b.len() as u64, b + rest);
    assert((b.len() as u64) as nat == b.len());
    assert(vlq_used(s) == vlq_bytes(b.len()).len());
    assert(s.skip(vlq_used(s)) =~= b + rest);
    assert((b + rest).take(b.len() as int) =~= b);
}

/// A byte string that reads back occupies between 1 byte and the whole
/// buffer.
pub proof fn lemma_parse_bytes_used(s: Seq<u8>)
    ensures
        parse_bytes(s) matches Some((b, u)) ==> 1 <= u <= s.len(),
{
    lemma_vlq_used_bounds(s);
}

/// Text-string round trip: reading back an encoded string at the front of a
/// longer buffer yields the characters and consumes exactly the encoding.
pub proof fn lemma_str_round_trip(s: Seq<char>, rest: Seq<u8>)
    requires
        encode_utf8(s).len() <= usize::MAX,
    ensures
        parse_str(enc_str(s) + rest) == Some((s, enc_str(s).len() as int)),
{
    lemma_bytes_round_trip(encode_utf8(s), rest);
    encode_utf8_valid_utf8(s);
    encode_utf8_decode_utf8(s);
}

/// Appends an integer as a variable-length quantity.
pub fn write_u64(out: &mut Vec<u8>, x: u64)
    ensures
        final(out)@ == old(out)@ + vlq_bytes(x as nat),
{
    let bytes = vlq_encode(x);
    append_bytes(out, bytes.as_slice());
}

/// Appends a byte string: its length, then its bytes.
pub fn write_bytes(out: &mut Vec<u8>, b: &[u8])
    ensures
        final(out)@ == old(out)@ + enc_bytes(b@),
{
    write_u64(out, b.len() as u64);
    append_bytes(out, b);
    proof {
        assert(out@ =~= old(out)@ + enc_bytes(b@));
    }
}

/// Appends a text string: its UTF-8 bytes as a byte string.
pub fn write_str(out: &mut Vec<u8>, s: &str)
    ensures
        final(out)@ == old(out)@ + enc_str(s@),
{
    write_bytes(out, s.as_bytes());
}

/// Reads an integer field from the front of the buffer, advancing it.
pub fn read_u64_field(input: &mut &[u8]) -> (r: Result<u64, IpcError>)
    ensures
        match vlq_decode_spec(old(input)@) {
            Ok(v) => r == Ok::<u64, IpcError>(v) && final(input)@ == old(input)@.skip(
                vlq_used(old(input)@),
            ),
            Err(_) => r matches Err(_),
        },
{
    read_next_vlq(input)
}

/// Reads a byte-string field from the front of the buffer, advancing it.
pub fn read_bytes_field(input: &mut &[u8]) -> (r: Result<Vec<u8>, IpcError>)
    ensures
        match parse_bytes(old(input)@) {
            Some((b, u)) => r matches Ok(v) && v@ == b && final(input)@ == old(input)@.skip(u),
            None => r matches Err(_),
        },
{
    let ghost s0 = input@;
    let len64 = match read_next_vlq(input) {
        Ok(v) => v,
        Err(e) => {
            return Err(e);
        },
    };
    if len64 > (usize::MAX as u64) {
        return Err(IpcError::DeserializeError);
    }
    let len = len64 as usize;
    let mut buf = zero_vec(len);
    match read_exact(input, buf.as_mut_slice()) {
        Ok(_) => {},
        Err(e) => {
            return Err(e);
        },
    }
    proof {
        lemma_vlq_used_bounds(s0);
        assert(buf@ =~= s0.skip(vlq_used(s0)).take(len as int));
        assert(input@ =~= s0.skip(vlq_used(s0) + len));
    }
    Ok(buf)
}

/// Relies on String::from_utf8: it succeeds exactly on valid UTF-8 input and
/// the returned string's bytes are the input bytes.
#[verifier::external_body]
pub(crate) fn string_from_utf8(v: Vec<u8>) -> (r: Option<String>)
    ensures
        match r {
            Some(s) => valid_utf8(v@) && encode_utf8(s@) == v@,
            None => !valid_utf8(v@),
        },
{
    match String::from_utf8(v) {
        Ok(s) => Some(s),
        Err(_) => None,
    }
}

/// Reads a text-string field from the front of the buffer, advancing it.
pub fn read_str_field(input: &mut &[u8]) -> (r: Result<String, IpcError>)
    ensures
        match parse_str(old(input)@) {
            Some((cs, u)) => r matches Ok(s) && s@ == cs && final(input)@ == old(input)@.skip(u),
            None => r matches Err(_),
        },
{
    let bytes = match read_bytes_field(input) {
        Ok(v) => v,
        Err(e) => {
            return Err(e);
        },
    };
    let ghost bv = bytes@;
    match string_from_utf8(bytes) {
        Some(s) => {
            proof {
                if parse_str(old(input)@) matches Some((cs, u)) {
                    encode_utf8_decode_utf8(s@);
                }
            }
            Ok(s)
        },
        None => Err(IpcError::DeserializeError),
    }
}

} // verus!
