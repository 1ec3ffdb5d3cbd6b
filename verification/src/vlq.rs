//! The variable-length integer codec: an unsigned 64-bit value is written as
//! a sequence of bytes carrying 7 payload bits each, with the continuation
//! flag in the high bit, least-significant group first. Every length and id
//! field of the wire format goes through this codec.

use vstd::prelude::*;
use vstd::arithmetic::power2::{
    lemma2_to64, lemma2_to64_rest, lemma_pow2_adds, lemma_pow2_strictly_increases, pow2,
};
use vstd::arithmetic::div_mod::{lemma_mod_multiples_vanish, lemma_small_mod};
use vstd::bits::{lemma_u64_shl_is_mul, lemma_u64_pow2_no_overflow};

use crate::error::IpcError;

verus! {

/// The bytes of the minimal base-128 little-endian encoding of `x`: the low
/// 7 bits come first, and every byte but the last has its high bit set.
pub open spec fn vlq_bytes(x: nat) -> Seq<u8>
    decreases x,
{
    if x < 128 {
        seq![x as u8]
    } else {
        seq![(128 + x % 128) as u8] + vlq_bytes(x / 128)
    }
}

/// The value a byte sequence denotes when every byte contributes its low
/// 7 bits, least-significant group first (continuation flags are ignored).
pub open spec fn vlq_sum(bytes: Seq<u8>) -> nat
    decreases bytes.len(),
{
    if bytes.len() == 0 {
        0
    } else {
        (bytes[0] as nat) % 128 + 128 * vlq_sum(bytes.skip(1))
    }
}

/// The index of the first byte with the continuation flag clear, or -1 when
/// every byte of the sequence has it set.
pub open spec fn vlq_terminal(bytes: Seq<u8>) -> int
    decreases bytes.len(),
{
    if bytes.len() == 0 {
        -1
    } else if bytes[0] < 128 {
        0
    } else {
        let t = vlq_terminal(bytes.skip(1));
        if t < 0 {
            -1
        } else {
            1 + t
        }
    }
}

/// What decoding a buffer yields: the accumulated low-7-bit groups up to and
/// including the first terminating byte, truncated to 64 bits, when that byte
/// stands within the first 10; `IncompleteVlqSeq` when the buffer ends before
/// a terminating byte while fewer than 10 bytes were seen; `DecodeVlqOverflow`
/// otherwise.
pub open spec fn vlq_decode_spec(bytes: Seq<u8>) -> Result<u64, IpcError> {
    let t = vlq_terminal(bytes);
    if 0 <= t <= 9 {
        Ok((vlq_sum(bytes.take(t + 1)) % 0x1_0000_0000_0000_0000) as u64)
    } else if t == -1 && bytes.len() < 10 {
        Err(IpcError::IncompleteVlqSeq)
    } else {
        Err(IpcError::DecodeVlqOverflow)
    }
}

/// Appending a byte adds its low 7 bits scaled by the weight of the new
/// position.
proof fn lemma_vlq_sum_snoc(s: Seq<u8>, b: u8)
    ensures
        vlq_sum(s.push(b)) == vlq_sum(s) + ((b as nat) % 128) * pow2(7 * s.len()),
    decreases s.len(),
{
    lemma2_to64();
    if s.len() == 0 {
        assert(s.push(b).len() == 1);
        assert(s.push(b)[0] == b);
        assert(s.push(b).skip(1) =~= Seq::<u8>::empty());
        assert(vlq_sum(s.push(b)) == (b as nat) % 128 + 128 * vlq_sum(s.push(b).skip(1)));
        assert(vlq_sum(s.push(b).skip(1)) == 0);
        assert(vlq_sum(s) == 0);
        assert(pow2(0) == 1);
        assert(7 * s.len() == 0);
        assert(vlq_sum(s.push(b)) == (b as nat) % 128);
        assert(((b as nat) % 128) * 1 == (b as nat) % 128);
        assert(vlq_sum(s.push(b)) == vlq_sum(s) + ((b as nat) % 128) * pow2(7 * s.len()));
    } else {
        lemma_vlq_sum_snoc(s.skip(1), b);
        let p = s.push(b);
        assert(p.len() == s.len() + 1);
        assert(p[0] == s[0]);
        assert(p.skip(1) =~= s.skip(1).push(b));
        let w = pow2(7 * (s.len() - 1) as nat);
        lemma_pow2_adds(7 * (s.len() - 1) as nat, 7);
        assert(pow2(7 * s.len()) == w * 128);
        assert(vlq_sum(p) == (s[0] as nat) % 128 + 128 * vlq_sum(p.skip(1)));
        assert(vlq_sum(p.skip(1)) == vlq_sum(s.skip(1)) + ((b as nat) % 128) * w);
        assert(vlq_sum(s) == (s[0] as nat) % 128 + 128 * vlq_sum(s.skip(1)));
        assert(128 * (vlq_sum(s.skip(1)) + ((b as nat) % 128) * w) == 128 * vlq_sum(s.skip(1)) + ((
        b as nat) % 128) * (w * 128)) by (nonlinear_arith);
        assert(vlq_sum(p) == vlq_sum(s) + ((b as nat) % 128) * (w * 128));
        assert(vlq_sum(s.push(b)) == vlq_sum(s) + ((b as nat) % 128) * pow2(7 * s.len()));
    }
}

/// The value a sequence denotes stays below the weight of the position one
/// past its end.
proof fn lemma_vlq_sum_bound(s: Seq<u8>)
    ensures
        vlq_sum(s) < pow2(7 * s.len()),
    decreases s.len(),
{
    lemma2_to64();
    if s.len() == 0 {
    } else {
        lemma_vlq_sum_bound(s.skip(1));
        let w = pow2(7 * (s.len() - 1) as nat);
        lemma_pow2_adds(7 * (s.len() - 1) as nat, 7);
        assert(pow2(7 * s.len()) == w * 128);
        assert(vlq_sum(s.skip(1)) <= w - 1);
        assert((s[0] as nat) % 128 < 128);
        assert(128 * vlq_sum(s.skip(1)) <= 128 * (w - 1)) by (nonlinear_arith)
            requires
                vlq_sum(s.skip(1)) <= w - 1,
        ;
        assert(128 * (w - 1) + 128 == w * 128) by (nonlinear_arith);
    }
}

/// A group shifted to the topmost position keeps only its lowest bit under
/// 64-bit truncation.
proof fn lemma_high_group_mod(prev: nat, cn: nat)
    requires
        prev < pow2(63),
        cn < 128,
    ensures
        (prev + cn * pow2(63)) % pow2(64) == prev + (cn % 2) * pow2(63),
{
    lemma2_to64();
    let h = pow2(63);
    lemma_pow2_adds(63, 1);
    assert(pow2(64) == 2 * h);
    assert(cn == 2 * (cn / 2) + cn % 2);
    assert(cn * h == (cn / 2) * (2 * h) + (cn % 2) * h) by (nonlinear_arith)
        requires
            cn == 2 * (cn / 2) + cn % 2,
    ;
    assert((cn % 2) * h <= h);
    assert(prev + (cn % 2) * h < 2 * h);
    lemma_mod_multiples_vanish(
        (cn / 2) as int,
        (prev + (cn % 2) * h) as int,
        (2 * h) as int,
    );
    lemma_small_mod((prev + (cn % 2) * h) as nat, (2 * h) as nat);
}

/// The terminating byte, where there is one, lies inside the sequence and has
/// its continuation flag clear.
proof fn lemma_vlq_terminal_bounds(s: Seq<u8>)
    ensures
        vlq_terminal(s) == -1 || (0 <= vlq_terminal(s) < s.len() && s[vlq_terminal(s)] < 128),
        forall|j: int| 0 <= j < vlq_terminal(s) ==> s[j] >= 128,
    decreases s.len(),
{
    if s.len() == 0 {
    } else if s[0] < 128 {
    } else {
        lemma_vlq_terminal_bounds(s.skip(1));
        assert forall|j: int| 0 <= j < vlq_terminal(s) implies s[j] >= 128 by {
            if j > 0 {
                assert(s.skip(1)[j - 1] == s[j]);
            }
        }
    }
}

/// Past a prefix of continuation bytes, the terminating byte is the first
/// byte after that prefix with the flag clear.
proof fn lemma_vlq_terminal_prefix(s: Seq<u8>, k: int)
    requires
        0 <= k <= s.len(),
        forall|j: int| 0 <= j < k ==> s[j] >= 128,
    ensures
        vlq_terminal(s) == -1 || vlq_terminal(s) >= k,
        k < s.len() && s[k] < 128 ==> vlq_terminal(s) == k,
    decreases k,
{
    if k == 0 {
        lemma_vlq_terminal_bounds(s);
    } else {
        assert(s[0] >= 128);
        assert(forall|j: int| 0 <= j < k - 1 ==> s.skip(1)[j] == s[j + 1]);
        lemma_vlq_terminal_prefix(s.skip(1), k - 1);
        if k < s.len() && s[k] < 128 {
            assert(s.skip(1)[k - 1] == s[k]);
        }
    }
}

/// The shape of a minimal encoding: at least one byte, the terminating byte
/// last, the denoted value is the encoded one, and the length is the least
/// whose 7-bit groups can carry the value.
proof fn lemma_vlq_bytes_shape(x: nat)
    ensures
        1 <= vlq_bytes(x).len(),
        vlq_terminal(vlq_bytes(x)) == vlq_bytes(x).len() - 1,
        vlq_sum(vlq_bytes(x)) == x,
        x < pow2(7 * vlq_bytes(x).len()),
        x > 0 ==> pow2((7 * (vlq_bytes(x).len() - 1)) as nat) <= x,
    decreases x,
{
    lemma2_to64();
    if x < 128 {
        let s = vlq_bytes(x);
        assert(s.len() == 1);
        assert(s[0] == x as u8);
        assert((x as u8) as nat == x);
        assert(s.skip(1) =~= Seq::<u8>::empty());
        assert(vlq_sum(s) == ((x as u8) as nat) % 128 + 128 * vlq_sum(s.skip(1)));
        assert(vlq_sum(s) == x);
        assert(vlq_terminal(s) == 0);
        assert(pow2(7) == 128);
        if x > 0 {
            assert(pow2(0) == 1);
        }
    } else {
        lemma_vlq_bytes_shape(x / 128);
        let h = (128 + x % 128) as u8;
        let t = vlq_bytes(x / 128);
        let s = vlq_bytes(x);
        assert(s == seq![h] + t);
        assert(s.len() == 1 + t.len());
        assert(s.skip(1) =~= t);
        assert(s[0] == h);
        assert(x % 128 < 128);
        assert(h as nat == 128 + x % 128);
        assert((h as nat) % 128 == x % 128);
        // the denoted value is the encoded one
        assert(vlq_sum(s) == x % 128 + 128 * vlq_sum(t));
        assert(x % 128 + 128 * (x / 128) == x) by (nonlinear_arith)
            requires
                x >= 128,
        ;
        // the terminating byte stays last
        assert(h >= 128);
        assert(vlq_terminal(t) == t.len() - 1 >= 0);
        assert(vlq_terminal(s) == 1 + vlq_terminal(t));
        // upper bound
        let w = pow2(7 * t.len());
        lemma_pow2_adds(7 * t.len(), 7);
        assert(pow2(7 * s.len()) == w * 128);
        assert(x / 128 <= w - 1);
        assert(x % 128 + 128 * (x / 128) <= 127 + 128 * (w - 1)) by (nonlinear_arith)
            requires
                x / 128 <= w - 1 && x % 128 <= 127,
        ;
        assert(127 + 128 * (w - 1) < w * 128) by (nonlinear_arith);
        // lower bound: the value reaches the weight of its last byte
        assert(x / 128 > 0);
        let wl = pow2((7 * (t.len() - 1)) as nat);
        assert(wl <= x / 128);
        lemma_pow2_adds((7 * (t.len() - 1)) as nat, 7);
        assert(pow2((7 * (s.len() - 1)) as nat) == wl * 128);
        assert(wl * 128 <= (x / 128) * 128) by (nonlinear_arith)
            requires
                wl <= x / 128,
        ;
        assert((x / 128) * 128 <= x) by (nonlinear_arith)
            requires
                x >= 128,
        ;
    }
}

/// Any 64-bit value's encoding stays within 10 bytes.
proof fn lemma_vlq_bytes_len_bound(x: u64)
    ensures
        vlq_bytes(x as nat).len() <= 10,
{
    lemma_vlq_bytes_shape(x as nat);
    let s = vlq_bytes(x as nat);
    if s.len() >= 11 {
        let e = (7 * (s.len() - 1)) as nat;
        assert(e >= 70);
        assert(pow2(70) <= pow2(e)) by {
            if 70 < e {
                lemma_pow2_strictly_increases(70, e);
            }
        }
        assert(pow2(70) == pow2(64) * pow2(6)) by {
            lemma_pow2_adds(64, 6);
        }
        lemma2_to64();
        lemma2_to64_rest();
        assert(false);
    }
}

/// Round trip: the decoding of any 64-bit value's encoding is that value.
pub proof fn lemma_vlq_round_trip(x: u64)
    ensures
        vlq_decode_spec(vlq_bytes(x as nat)) == Ok::<u64, IpcError>(x),
{
    lemma_vlq_bytes_shape(x as nat);
    lemma_vlq_bytes_len_bound(x);
    let s = vlq_bytes(x as nat);
    lemma2_to64();
    lemma2_to64_rest();
    assert(0 <= vlq_terminal(s) <= 9);
    assert(s.take(vlq_terminal(s) + 1) =~= s);
    lemma_small_mod(x as nat, pow2(64));
    assert(pow2(64) == 0x1_0000_0000_0000_0000);
}

/// Minimality of the encoding: zero takes a single byte, no encoding exceeds
/// 10 bytes, and a nonzero value's encoding is the shortest whose 7-bit
/// groups can carry the value.
pub proof fn lemma_vlq_encode_minimal(x: u64)
    ensures
        vlq_bytes(0).len() == 1,
        1 <= vlq_bytes(x as nat).len() <= 10,
        x > 0 ==> pow2((7 * (vlq_bytes(x as nat).len() - 1)) as nat) <= x as nat,
        (x as nat) < pow2(7 * vlq_bytes(x as nat).len()),
{
    lemma_vlq_bytes_shape(0);
    lemma_vlq_bytes_shape(x as nat);
    lemma_vlq_bytes_len_bound(x);
}

/// A buffer holding only continuation bytes never decodes: short of 10 bytes
/// the sequence is incomplete, from 10 bytes on it is an overflow.
pub proof fn lemma_vlq_decode_continuation(bytes: Seq<u8>)
    requires
        forall|j: int| 0 <= j < bytes.len() ==> bytes[j] >= 128,
    ensures
        bytes.len() < 10 ==> vlq_decode_spec(bytes) == Err::<u64, IpcError>(
            IpcError::IncompleteVlqSeq,
        ),
        bytes.len() >= 10 ==> vlq_decode_spec(bytes) == Err::<u64, IpcError>(
            IpcError::DecodeVlqOverflow,
        ),
{
    lemma_vlq_terminal_bounds(bytes);
    lemma_vlq_terminal_prefix(bytes, bytes.len() as int);
}

/// A successful decoding consumes between 1 and 10 bytes of the buffer.
pub proof fn lemma_vlq_used_bounds(s: Seq<u8>)
    ensures
        vlq_decode_spec(s) matches Ok(_) ==> 1 <= vlq_terminal(s) + 1 <= s.len() && vlq_terminal(s)
            + 1 <= 10,
{
    lemma_vlq_terminal_bounds(s);
}

/// Ten continuation bytes at the front doom the decoding, whatever follows.
pub proof fn lemma_vlq_decode_ten(s: Seq<u8>)
    requires
        s.len() >= 10,
        forall|j: int| 0 <= j < 10 ==> s[j] >= 128,
    ensures
        vlq_decode_spec(s) == Err::<u64, IpcError>(IpcError::DecodeVlqOverflow),
{
    lemma_vlq_terminal_prefix(s, 10);
}

/// Decoding looks no further than the first terminating byte: a buffer cut
/// right after it decodes as the whole buffer does.
pub proof fn lemma_vlq_decode_take(s: Seq<u8>, k: int)
    requires
        0 <= k < s.len(),
        s[k] < 128,
        forall|j: int| 0 <= j < k ==> s[j] >= 128,
    ensures
        vlq_decode_spec(s.take(k + 1)) == vlq_decode_spec(s),
        vlq_terminal(s) == k,
{
    let p = s.take(k + 1);
    assert(forall|j: int| 0 <= j < k ==> p[j] == s[j]);
    lemma_vlq_terminal_prefix(s, k);
    lemma_vlq_terminal_prefix(p, k);
    assert(vlq_terminal(s) == k);
    assert(vlq_terminal(p) == k);
    if 0 <= k <= 9 {
        assert(p.take(k + 1) =~= s.take(k + 1));
    }
}

/// A value's encoding at the front of a longer buffer decodes to the value,
/// and its terminating byte stands just before the rest.
pub proof fn lemma_vlq_decode_prefix(x: u64, rest: Seq<u8>)
    ensures
        vlq_decode_spec(vlq_bytes(x as nat) + rest) == Ok::<u64, IpcError>(x),
        vlq_terminal(vlq_bytes(x as nat) + rest) == vlq_bytes(x as nat).len() - 1,
{
    lemma_vlq_bytes_shape(x as nat);
    lemma_vlq_bytes_len_bound(x);
    lemma_vlq_round_trip(x);
    let e = vlq_bytes(x as nat);
    let s = e + rest;
    let k = e.len() - 1;
    lemma_vlq_terminal_bounds(e);
    assert(e[k] < 128);
    assert forall|j: int| 0 <= j < k implies s[j] >= 128 by {
        assert(s[j] == e[j]);
    }
    assert(s[k] == e[k]);
    lemma_vlq_terminal_prefix(s, k);
    assert(vlq_terminal(s) == k);
    assert(s.take(k + 1) =~= e);
    lemma_vlq_decode_take(s, k);
    assert(vlq_decode_spec(e) == Ok::<u64, IpcError>(x));
}

/// Encodes an integer as a variable-length quantity: minimal length, low
/// group first, continuation flag in the high bit, a single zero byte for
/// zero.
pub fn vlq_encode(value: u64) -> (r: Vec<u8>)
    ensures
        r@ == vlq_bytes(value as nat),
{
    let ghost x: nat = value as nat;
    let mut value = value;
    let mut buffer: Vec<u8> = Vec::new();
    loop
        invariant_except_break
            value as nat > 0 ==> vlq_bytes(x) == buffer@ + vlq_bytes(value as nat),
            value as nat == 0 ==> buffer@.len() == 0 && x == 0,
        ensures
            buffer@ == vlq_bytes(x),
        decreases value,
    {
        let byte = (value & 0x7F) as u8;
        proof {
            assert(value & 0x7F == value % 128) by (bit_vector);
            assert(value >> 7 == value / 128) by (bit_vector);
            assert(value >= 128 ==> value >> 7 < value) by (bit_vector);
            assert(value > 0 && value < 128 ==> value >> 7 == 0) by (bit_vector);
        }
        let next = value >> 7;
        if next == 0 {
            buffer.push(byte);
            proof {
                if x == 0 {
                    assert(vlq_bytes(0) == seq![0u8]);
                    assert(buffer@ =~= seq![0u8]);
                } else {
                    assert(value < 128);
                    assert(byte == value as u8);
                    assert(vlq_bytes(value as nat) == seq![byte]);
                    assert(buffer@ =~= buffer@.subrange(0, buffer@.len() - 1) + seq![byte]);
                }
            }
            break;
        }
        let flagged = byte | 0x80;
        buffer.push(flagged);
        proof {
            assert(value >= 128);
            assert(byte < 128) by (bit_vector)
                requires
                    byte == (value & 0x7F) as u8,
            ;
            assert(flagged == byte + 128) by (bit_vector)
                requires
                    byte < 128 && flagged == byte | 0x80,
            ;
            assert(byte as nat == (value as nat) % 128);
            assert(flagged == (128 + (value as nat) % 128) as u8);
            assert(vlq_bytes(value as nat) == seq![flagged] + vlq_bytes((value as nat) / 128));
            assert(vlq_bytes(x) =~= buffer@ + vlq_bytes((value >> 7) as nat));
        }
        value = next;
    }
    buffer
}

/// Decodes a variable-length quantity from the front of a byte buffer:
/// accumulates 7 bits per byte until a byte with the continuation flag clear,
/// failing when the buffer ends first or when more than 10 bytes would be
/// consumed.
pub fn vlq_decode(bytes: &[u8]) -> (r: Result<u64, IpcError>)
    ensures
        r == vlq_decode_spec(bytes@),
{
    let mut value: u64 = 0;
    let mut shift: u64 = 0;
    let n: usize = bytes.len();
    let mut i: usize = 0;
    proof {
        lemma2_to64();
        assert(bytes@.take(0) =~= Seq::<u8>::empty());
        assert(vlq_sum(bytes@.take(0)) == 0);
    }
    while i < n
        invariant
            i <= n,
            n == bytes@.len(),
            i <= 9,
            shift == 7 * i,
            forall|j: int| 0 <= j < i ==> bytes@[j] >= 128,
            value as nat == vlq_sum(bytes@.take(i as int)),
            vlq_sum(bytes@.take(i as int)) < pow2((7 * i) as nat),
        decreases n - i,
    {
        let b = bytes[i];
        let c = (b & 0x7F) as u64;
        proof {
            assert(c == b % 128 && c < 128) by (bit_vector)
                requires
                    c == (b & 0x7F) as u64,
            ;
            assert(bytes@.take(i as int).len() == i);
            lemma_vlq_sum_snoc(bytes@.take(i as int), b);
            assert(bytes@.take(i + 1) =~= bytes@.take(i as int).push(b));
            lemma2_to64();
            lemma2_to64_rest();
        }
        let ghost prev = value;
        value = value | (c << shift);
        proof {
            if i < 9 {
                lemma_u64_pow2_no_overflow(shift as nat);
                lemma_u64_shl_is_mul(1u64, shift);
                assert((1u64 << shift) as nat == pow2(shift as nat));
                assert((prev | (c << shift)) == prev + c * (1u64 << shift)) by (bit_vector)
                    requires
                        prev < (1u64 << shift) && c < 128 && shift <= 56 && (1u64 << shift) >= 1,
                ;
                assert(c as nat * pow2(shift as nat) == ((c as nat) % 128) * pow2(7 * (
                bytes@.take(i as int).len())));
                assert(value as nat == vlq_sum(bytes@.take(i + 1)));
                lemma_vlq_sum_bound(bytes@.take(i + 1));
            } else {
                assert(shift == 63);
                assert((prev | (c << 63u64)) == prev + (c % 2) * 0x8000000000000000u64) by (
                bit_vector)
                    requires
                        prev < 0x8000000000000000u64 && c < 128,
                ;
                let cn = c as nat;
                let sm = vlq_sum(bytes@.take(i + 1));
                assert(sm == prev as nat + cn * pow2(63));
                lemma_high_group_mod(prev as nat, cn);
                assert(value as nat == prev as nat + (cn % 2) * pow2(63));
                assert(sm % pow2(64) == value as nat);
            }
        }
        if b & 0x80 == 0 {
            proof {
                assert(b < 128) by (bit_vector)
                    requires
                        b & 0x80 == 0,
                ;
                lemma_vlq_terminal_prefix(bytes@, i as int);
                assert(vlq_terminal(bytes@) == i);
                lemma2_to64();
                lemma2_to64_rest();
                if i < 9 {
                    lemma_vlq_sum_bound(bytes@.take(i + 1));
                    assert(pow2((7 * (i + 1)) as nat) <= pow2(63)) by {
                        if 7 * (i + 1) < 63 {
                            lemma_pow2_strictly_increases((7 * (i + 1)) as nat, 63);
                        }
                    }
                    lemma_small_mod(vlq_sum(bytes@.take(i + 1)), pow2(64));
                }
                assert(pow2(64) == 0x1_0000_0000_0000_0000);
            }
            return Ok(value);
        }
        proof {
            assert(b >= 128) by (bit_vector)
                requires
                    b & 0x80 != 0,
            ;
        }
        shift = shift + 7;
        i = i + 1;
        if shift >= 64 {
            proof {
                lemma_vlq_terminal_prefix(bytes@, i as int);
            }
            return Err(IpcError::DecodeVlqOverflow);
        }
    }
    proof {
        lemma_vlq_terminal_bounds(bytes@);
        lemma_vlq_terminal_prefix(bytes@, n as int);
    }
    Err(IpcError::IncompleteVlqSeq)
}

} // verus!
