//! Packet framing: the two packet shapes of the wire protocol and their
//! exact byte layout. Every frame is the concatenation of three
//! variable-length integers — version, tag (a method id for requests, an
//! error code for responses) and payload length — followed by the payload
//! verbatim. The framing is self-delimiting, so frames stream back to back
//! with no outer envelope.

use vstd::prelude::*;

use crate::error::IpcError;
use crate::io::{append_bytes, read_exact, zero_vec, Read};
use crate::vlq::{
    lemma_vlq_decode_prefix, lemma_vlq_decode_take, vlq_bytes, vlq_decode, vlq_decode_spec,
    vlq_encode, vlq_terminal,
};

verus! {

/// The bytes of one frame: version, tag and payload length as
/// variable-length integers, then the payload verbatim.
pub open spec fn packet_bytes(version: u8, tag: u64, payload: Seq<u8>) -> Seq<u8> {
    vlq_bytes(version as nat) + vlq_bytes(tag as nat) + vlq_bytes(payload.len()) + payload
}

/// How many bytes the front integer of a stream occupies (meaningful when it
/// decodes).
pub open spec fn vlq_used(s: Seq<u8>) -> int {
    vlq_terminal(s) + 1
}

/// What reading one frame from the front of a stream yields: the version
/// (truncated to a byte, as the wire reserves only one), the tag, the payload
/// and how many bytes of the stream the frame occupied. Reading fails with
/// the integer codec's error when a header integer is malformed, and with
/// `ReadExactError` when the stream ends before the whole payload (or the
/// payload cannot fit in memory).
pub open spec fn parse_packet(s: Seq<u8>) -> Result<(u8, u64, Seq<u8>, int), IpcError> {
    match vlq_decode_spec(s) {
        Err(e) => Err(e),
        Ok(version) => {
            let s1 = s.skip(vlq_used(s));
            match vlq_decode_spec(s1) {
                Err(e) => Err(e),
                Ok(tag) => {
                    let s2 = s1.skip(vlq_used(s1));
                    match vlq_decode_spec(s2) {
                        Err(e) => Err(e),
                        Ok(len) => {
                            let s3 = s2.skip(vlq_used(s2));
                            if len <= usize::MAX && s3.len() >= len {
                                let used = vlq_used(s) + vlq_used(s1) + vlq_used(s2) + len;
                                Ok((version as u8, tag, s3.take(len as int), used))
                            } else {
                                Err(IpcError::ReadExactError)
                            }
                        },
                    }
                },
            }
        },
    }
}

/// One frame of the wire protocol: a reserved version byte, a tag whose
/// meaning the packet shape fixes, and the payload bytes.
pub trait Packet: Sized {
    /// The version field.
    spec fn spec_version(&self) -> u8;

    /// The tag field: the method id of a request, the error code of a
    /// response.
    spec fn spec_tag(&self) -> u64;

    /// The payload bytes.
    spec fn spec_payload(&self) -> Seq<u8>;

    /// The version field.
    fn version(&self) -> (r: u8)
        ensures
            r == self.spec_version(),
    ;

    /// The payload bytes.
    fn payload(&self) -> (r: &[u8])
        ensures
            r@ == self.spec_payload(),
    ;

    /// Reads one frame from the stream: three variable-length integers, then
    /// exactly as many payload bytes as the third announced. From a
    /// deterministic source this reads exactly what `parse_packet` says of
    /// the stream, consuming the frame and nothing more.
    fn read_from<R: Read>(reader: &mut R) -> (r: Result<Self, IpcError>)
        ensures
            final(reader).deterministic() == old(reader).deterministic(),
            old(reader).deterministic() ==> match parse_packet(old(reader).stream()) {
                Ok((v, tag, payload, used)) => r matches Ok(p) && p.spec_version() == v
                    && p.spec_tag() == tag && p.spec_payload() == payload
                    && final(reader).stream() == old(reader).stream().skip(used),
                Err(e) => r == Err::<Self, IpcError>(e),
            },
    ;

    /// The frame's bytes: version, tag, payload length, payload.
    fn serialize(&self) -> (r: Vec<u8>)
        ensures
            r@ == packet_bytes(self.spec_version(), self.spec_tag(), self.spec_payload()),
    ;
}

/// A request frame: the tag carries the (reserved) method id.
pub struct RequestPacket {
    version: u8,
    method_id: u64,
    payload: Vec<u8>,
}

/// A response frame: the tag carries the error code, 0 meaning success.
pub struct ResponsePacket {
    version: u8,
    error_code: u64,
    payload: Vec<u8>,
}

impl RequestPacket {
    /// A request around the given payload, with version and method id 0.
    pub fn new(payload: Vec<u8>) -> (r: RequestPacket)
        ensures
            r.spec_version() == 0,
            r.spec_tag() == 0,
            r.spec_payload() == payload@,
    {
        RequestPacket { version: 0, method_id: 0, payload }
    }

    /// The reserved method id field.
    pub fn method_id(&self) -> (r: u64)
        ensures
            r == self.spec_tag(),
    {
        self.method_id
    }
}

impl ResponsePacket {
    /// A response around the given error code and payload, with version 0.
    pub fn new(error_code: u64, payload: Vec<u8>) -> (r: ResponsePacket)
        ensures
            r.spec_version() == 0,
            r.spec_tag() == error_code,
            r.spec_payload() == payload@,
    {
        ResponsePacket { version: 0, error_code, payload }
    }

    /// The error code field; 0 means success.
    pub fn error_code(&self) -> (r: u64)
        ensures
            r == self.spec_tag(),
    {
        self.error_code
    }
}

/// Reads the bytes of one variable-length integer from the stream — up to
/// and including the first byte with a clear continuation flag — and decodes
/// them. A read failure maps to `ReadVlqError`; an early end of stream leaves
/// the codec's own error. From a deterministic source this decodes exactly
/// what the integer codec says of the stream, consuming the integer's bytes.
pub fn read_next_vlq<R: Read>(reader: &mut R) -> (r: Result<u64, IpcError>)
    ensures
        final(reader).deterministic() == old(reader).deterministic(),
        old(reader).deterministic() ==> {
            &&& r == vlq_decode_spec(old(reader).stream())
            &&& (r matches Ok(_) ==> final(reader).stream() == old(reader).stream().skip(
                vlq_used(old(reader).stream()),
            ))
        },
{
    let ghost s = old(reader).stream();
    let mut peek: Vec<u8> = Vec::new();
    peek.push(0);
    let mut buf: Vec<u8> = Vec::new();
    let mut count: usize = 0;
    loop
        invariant_except_break
            peek@.len() == 1,
            count == buf@.len(),
            count <= 10,
            reader.deterministic() == old(reader).deterministic(),
            old(reader).deterministic() ==> {
                &&& buf@ == s.take(buf@.len() as int)
                &&& buf@.len() <= s.len()
                &&& reader.stream() == s.skip(buf@.len() as int)
                &&& forall|j: int| 0 <= j < buf@.len() ==> s[j] >= 128
            },
        ensures
            reader.deterministic() == old(reader).deterministic(),
            old(reader).deterministic() ==> {
                &&& vlq_decode_spec(buf@) == vlq_decode_spec(s)
                &&& (vlq_decode_spec(s) matches Ok(_) ==> reader.stream() == s.skip(vlq_used(s)))
            },
        decreases 11 - count,
    {
        if count >= 10 {
            // ten continuation bytes: decoding fails whatever follows
            proof {
                if old(reader).deterministic() {
                    crate::vlq::lemma_vlq_decode_continuation(buf@);
                    crate::vlq::lemma_vlq_decode_ten(s);
                }
            }
            break;
        }
        let n = match reader.read(peek.as_mut_slice()) {
            Ok(n) => n,
            Err(_) => {
                return Err(IpcError::ReadVlqError);
            },
        };
        if n == 0 {
            proof {
                if old(reader).deterministic() {
                    assert(reader.stream().len() == 0);
                    assert(buf@.len() == s.len());
                    assert(buf@ =~= s);
                    crate::vlq::lemma_vlq_decode_continuation(s);
                }
            }
            break;
        }
        let ghost bl = buf@.len() as int;
        let b = peek[0];
        proof {
            if old(reader).deterministic() {
                assert(s.skip(bl).take(1)[0] == s[bl]);
                assert(b == s[bl]);
            }
        }
        buf.push(b);
        count = count + 1;
        proof {
            if old(reader).deterministic() {
                assert(s.take(bl).push(s[bl]) =~= s.take(bl + 1));
                assert(buf@ == s.take(bl + 1));
                assert(s.skip(bl).skip(1) =~= s.skip(bl + 1));
            }
        }
        if b & 0x80 == 0 {
            proof {
                assert(b < 128) by (bit_vector)
                    requires
                        b & 0x80 == 0,
                ;
                if old(reader).deterministic() {
                    let k = buf@.len() - 1;
                    assert(s[k] == b);
                    lemma_vlq_decode_take(s, k);
                    assert(buf@ =~= s.take(k + 1));
                    if vlq_decode_spec(s) matches Ok(_) {
                        assert(vlq_used(s) == k + 1);
                    }
                }
            }
            break;
        }
        proof {
            assert(b >= 128) by (bit_vector)
                requires
                    b & 0x80 != 0,
            ;
        }
    }
    vlq_decode(buf.as_slice())
}

/// Reads the three header integers and then exactly as many payload bytes as
/// announced, handing the fields back.
fn read_packet_parts<R: Read>(reader: &mut R) -> (r: Result<(u8, u64, Vec<u8>), IpcError>)
    ensures
        final(reader).deterministic() == old(reader).deterministic(),
        old(reader).deterministic() ==> match parse_packet(old(reader).stream()) {
            Ok((v, tag, payload, used)) => r matches Ok(t) && t.0 == v && t.1 == tag && t.2@
                == payload && final(reader).stream() == old(reader).stream().skip(used),
            Err(e) => r == Err::<(u8, u64, Vec<u8>), IpcError>(e),
        },
{
    let ghost s0 = old(reader).stream();
    let version64 = match read_next_vlq(reader) {
        Ok(v) => v,
        Err(e) => {
            return Err(e);
        },
    };
    let ghost u0 = vlq_used(s0);
    let ghost s1 = s0.skip(u0);
    let tag = match read_next_vlq(reader) {
        Ok(v) => v,
        Err(e) => {
            return Err(e);
        },
    };
    let ghost u1 = vlq_used(s1);
    let ghost s2 = s1.skip(u1);
    let len64 = match read_next_vlq(reader) {
        Ok(v) => v,
        Err(e) => {
            return Err(e);
        },
    };
    let ghost u2 = vlq_used(s2);
    let ghost s3 = s2.skip(u2);
    if len64 > (usize::MAX as u64) {
        return Err(IpcError::ReadExactError);
    }
    let len = len64 as usize;
    let mut payload = zero_vec(len);
    match read_exact(reader, payload.as_mut_slice()) {
        Ok(_) => {},
        Err(_) => {
            return Err(IpcError::ReadExactError);
        },
    }
    proof {
        if old(reader).deterministic() {
            crate::vlq::lemma_vlq_used_bounds(s0);
            crate::vlq::lemma_vlq_used_bounds(s1);
            crate::vlq::lemma_vlq_used_bounds(s2);
            assert(s2 =~= s0.skip(u0 + u1));
            assert(s3 =~= s0.skip(u0 + u1 + u2));
            assert(s3.len() >= len);
            assert(s3.skip(len as int) =~= s0.skip(u0 + u1 + u2 + len));
        }
    }
    Ok((#[verifier::truncate] (version64 as u8), tag, payload))
}

/// The frame's bytes from its fields: version, tag and payload length as
/// variable-length integers, then the payload verbatim.
fn serialize_parts(version: u8, tag: u64, payload: &Vec<u8>) -> (r: Vec<u8>)
    ensures
        r@ == packet_bytes(version, tag, payload@),
{
    let mut buf = vlq_encode(version as u64);
    let mut t = vlq_encode(tag);
    buf.append(&mut t);
    let mut l = vlq_encode(payload.len() as u64);
    buf.append(&mut l);
    append_bytes(&mut buf, payload.as_slice());
    proof {
        assert(buf@ =~= packet_bytes(version, tag, payload@));
    }
    buf
}

impl Packet for RequestPacket {
    closed spec fn spec_version(&self) -> u8 {
        self.version
    }

    closed spec fn spec_tag(&self) -> u64 {
        self.method_id
    }

    closed spec fn spec_payload(&self) -> Seq<u8> {
        self.payload@
    }

    fn version(&self) -> (r: u8) {
        self.version
    }

    fn payload(&self) -> (r: &[u8]) {
        self.payload.as_slice()
    }

    fn read_from<R: Read>(reader: &mut R) -> (r: Result<Self, IpcError>) {
        match read_packet_parts(reader) {
            Ok((version, method_id, payload)) => Ok(RequestPacket { version, method_id, payload }),
            Err(e) => Err(e),
        }
    }

    fn serialize(&self) -> (r: Vec<u8>) {
        serialize_parts(self.version, self.method_id, &self.payload)
    }
}

impl Packet for ResponsePacket {
    closed spec fn spec_version(&self) -> u8 {
        self.version
    }

    closed spec fn spec_tag(&self) -> u64 {
        self.error_code
    }

    closed spec fn spec_payload(&self) -> Seq<u8> {
        self.payload@
    }

    fn version(&self) -> (r: u8) {
        self.version
    }

    fn payload(&self) -> (r: &[u8]) {
        self.payload.as_slice()
    }

    fn read_from<R: Read>(reader: &mut R) -> (r: Result<Self, IpcError>) {
        match read_packet_parts(reader) {
            Ok((version, error_code, payload)) => Ok(
                ResponsePacket { version, error_code, payload },
            ),
            Err(e) => Err(e),
        }
    }

    fn serialize(&self) -> (r: Vec<u8>) {
        serialize_parts(self.version, self.error_code, &self.payload)
    }
}

/// The lowercase hexadecimal digit of a value below 16.
pub open spec fn hex_digit(v: u8) -> char {
    if v == 0 {
        '0'
    } else if v == 1 {
        '1'
    } else if v == 2 {
        '2'
    } else if v == 3 {
        '3'
    } else if v == 4 {
        '4'
    } else if v == 5 {
        '5'
    } else if v == 6 {
        '6'
    } else if v == 7 {
        '7'
    } else if v == 8 {
        '8'
    } else if v == 9 {
        '9'
    } else if v == 10 {
        'a'
    } else if v == 11 {
        'b'
    } else if v == 12 {
        'c'
    } else if v == 13 {
        'd'
    } else if v == 14 {
        'e'
    } else {
        'f'
    }
}

/// The lowercase hexadecimal rendering of a byte sequence, two digits per
/// byte, high nibble first.
pub open spec fn hex_of(bytes: Seq<u8>) -> Seq<char> {
    Seq::new(
        2 * bytes.len(),
        |i: int|
            if i % 2 == 0 {
                hex_digit(bytes[i / 2] / 16)
            } else {
                hex_digit(bytes[i / 2] % 16)
            },
    )
}

/// Relies on hex::encode: each byte becomes two lowercase hexadecimal
/// digits, high nibble first.
#[verifier::external_body]
fn hex_encode(bytes: &[u8]) -> (r: String)
    ensures
        r@ == hex_of(bytes@),
{
    hex::encode(bytes)
}

impl RequestPacket {
    /// The payload rendered as lowercase hexadecimal, for diagnostics.
    pub fn payload_hex(&self) -> (r: String)
        ensures
            r@ == hex_of(self.spec_payload()),
    {
        hex_encode(self.payload.as_slice())
    }
}

impl ResponsePacket {
    /// The payload rendered as lowercase hexadecimal, for diagnostics.
    pub fn payload_hex(&self) -> (r: String)
        ensures
            r@ == hex_of(self.spec_payload()),
    {
        hex_encode(self.payload.as_slice())
    }
}

/// Packet round trip: reading a frame back from its own bytes reconstructs
/// the version, the tag and the payload exactly, consuming the whole frame.
pub proof fn lemma_packet_round_trip(version: u8, tag: u64, payload: Seq<u8>)
    requires
        payload.len() <= usize::MAX,
    ensures
        parse_packet(packet_bytes(version, tag, payload)) == Ok::<(u8, u64, Seq<u8>, int), IpcError>(
            (version, tag, payload, packet_bytes(version, tag, payload).len() as int),
        ),
{
    let a = vlq_bytes(version as nat);
    let b = vlq_bytes(tag as nat);
    let c = vlq_bytes(payload.len());
    let s = packet_bytes(version, tag, payload);
    assert(s =~= a + (b + c + payload));
    lemma_vlq_decode_prefix(version as u64, b + c + payload);
    assert((version as u64) as nat == version as nat);
    assert(vlq_used(s) == a.len());
    let s1 = s.skip(vlq_used(s));
    assert(s1 =~= b + (c + payload));
    lemma_vlq_decode_prefix(tag, c + payload);
    assert(vlq_used(s1) == b.len());
    let s2 = s1.skip(vlq_used(s1));
    assert(s2 =~= c + payload);
    lemma_vlq_decode_prefix(payload.len() as u64, payload);
    assert((payload.len() as u64) as nat == payload.len());
    assert(vlq_used(s2) == c.len());
    let s3 = s2.skip(vlq_used(s2));
    assert(s3 =~= payload);
    assert(s3.take(payload.len() as int) =~= payload);
    assert(((version as u64) as u8) == version);
    assert(vlq_used(s) + vlq_used(s1) + vlq_used(s2) + payload.len() == s.len());
}

} // verus!
