//! The generated envelope of the cryptography service: a request union with
//! one variant per method, a response union with one variant per method, a
//! server dispatcher that is total over the request variants, and a client
//! stub with one strongly typed method per remote method.

use vstd::prelude::*;

use crate::channel::Channel;
use crate::crypto::{digest_of, CkbCrypto, CryptoError, HasherCtx, HasherType};
use crate::error::IpcError;
use crate::io::{Read, Write};
use crate::ipc::Serve;
use crate::packet::{packet_bytes, parse_packet, vlq_used};
use crate::vlq::{lemma_vlq_decode_prefix, vlq_bytes, vlq_decode_spec};
use crate::wire::{enc_bytes, parse_bytes, read_bytes_field, read_u64_field, write_bytes, write_u64};

verus! {

/// The request union, by value: the variant tag in declaration order, then
/// the method's arguments in order.
pub enum CryptoRequestView {
    /// Variant 0.
    HasherNew { hash_type: HasherType },
    /// Variant 1.
    HasherUpdate { ctx: u64, data: Seq<u8> },
    /// Variant 2.
    HasherFinalize { ctx: u64 },
    /// Variant 3.
    Secp256k1Recovery { prehash: Seq<u8>, signature: Seq<u8>, recovery_id: u8 },
    /// Variant 4.
    Secp256k1Verify { public_key: Seq<u8>, prehash: Seq<u8>, signature: Seq<u8> },
    /// Variant 5.
    SchnorrVerify { public_key: Seq<u8>, message: Seq<u8>, signature: Seq<u8> },
    /// Variant 6.
    Ed25519Verify { public_key: Seq<u8>, message: Seq<u8>, signature: Seq<u8> },
}

/// The response union, by value: one variant per method, wrapping the
/// method's own result.
pub enum CryptoResponseView {
    /// Variant 0.
    HasherNew { res: Result<u64, CryptoError> },
    /// Variant 1.
    HasherUpdate { res: Result<(), CryptoError> },
    /// Variant 2.
    HasherFinalize { res: Result<Seq<u8>, CryptoError> },
    /// Variant 3.
    Secp256k1Recovery { res: Result<Seq<u8>, CryptoError> },
    /// Variant 4.
    Secp256k1Verify { res: Result<(), CryptoError> },
    /// Variant 5.
    SchnorrVerify { res: Result<(), CryptoError> },
    /// Variant 6.
    Ed25519Verify { res: Result<(), CryptoError> },
}

/// The algorithm selector on the wire.
pub open spec fn hasher_type_value(t: HasherType) -> u64 {
    match t {
        HasherType::CkbBlake2b => 0,
        HasherType::Blake2b => 1,
        HasherType::Sha256 => 2,
        HasherType::Ripemd160 => 3,
    }
}

/// The service-error selector on the wire, in declaration order.
pub open spec fn crypto_error_value(e: CryptoError) -> u64 {
    match e {
        CryptoError::InvalidContext => 0,
        CryptoError::InvalidSig => 1,
        CryptoError::InvalidPrehash => 2,
        CryptoError::InvalidRecoveryId => 3,
        CryptoError::RecoveryFailed => 4,
        CryptoError::InvalidPubkey => 5,
        CryptoError::VerifyFailed => 6,
    }
}

/// The bytes of a request union value.
pub open spec fn crypto_request_enc(r: CryptoRequestView) -> Seq<u8> {
    match r {
        CryptoRequestView::HasherNew { hash_type } => vlq_bytes(0) + vlq_bytes(
            hasher_type_value(hash_type) as nat,
        ),
        CryptoRequestView::HasherUpdate { ctx, data } => vlq_bytes(1) + vlq_bytes(ctx as nat)
            + enc_bytes(data),
        CryptoRequestView::HasherFinalize { ctx } => vlq_bytes(2) + vlq_bytes(ctx as nat),
        CryptoRequestView::Secp256k1Recovery { prehash, signature, recovery_id } => vlq_bytes(3)
            + enc_bytes(prehash) + enc_bytes(signature) + vlq_bytes(recovery_id as nat),
        CryptoRequestView::Secp256k1Verify { public_key, prehash, signature } => vlq_bytes(4)
            + enc_bytes(public_key) + enc_bytes(prehash) + enc_bytes(signature),
        CryptoRequestView::SchnorrVerify { public_key, message, signature } => vlq_bytes(5)
            + enc_bytes(public_key) + enc_bytes(message) + enc_bytes(signature),
        CryptoRequestView::Ed25519Verify { public_key, message, signature } => vlq_bytes(6)
            + enc_bytes(public_key) + enc_bytes(message) + enc_bytes(signature),
    }
}

/// The bytes of a response union value: the variant tag, then 0 and the
/// return value on success, or 1 and the service-error selector.
pub open spec fn crypto_response_enc(r: CryptoResponseView) -> Seq<u8> {
    match r {
        CryptoResponseView::HasherNew { res } => vlq_bytes(0) + match res {
            Ok(ctx) => vlq_bytes(0) + vlq_bytes(ctx as nat),
            Err(e) => vlq_bytes(1) + vlq_bytes(crypto_error_value(e) as nat),
        },
        CryptoResponseView::HasherUpdate { res } => vlq_bytes(1) + match res {
            Ok(_) => vlq_bytes(0),
            Err(e) => vlq_bytes(1) + vlq_bytes(crypto_error_value(e) as nat),
        },
        CryptoResponseView::HasherFinalize { res } => vlq_bytes(2) + match res {
            Ok(digest) => vlq_bytes(0) + enc_bytes(digest),
            Err(e) => vlq_bytes(1) + vlq_bytes(crypto_error_value(e) as nat),
        },
        CryptoResponseView::Secp256k1Recovery { res } => vlq_bytes(3) + match res {
            Ok(pk) => vlq_bytes(0) + enc_bytes(pk),
            Err(e) => vlq_bytes(1) + vlq_bytes(crypto_error_value(e) as nat),
        },
        CryptoResponseView::Secp256k1Verify { res } => vlq_bytes(4) + match res {
            Ok(_) => vlq_bytes(0),
            Err(e) => vlq_bytes(1) + vlq_bytes(crypto_error_value(e) as nat),
        },
        CryptoResponseView::SchnorrVerify { res } => vlq_bytes(5) + match res {
            Ok(_) => vlq_bytes(0),
            Err(e) => vlq_bytes(1) + vlq_bytes(crypto_error_value(e) as nat),
        },
        CryptoResponseView::Ed25519Verify { res } => vlq_bytes(6) + match res {
            Ok(_) => vlq_bytes(0),
            Err(e) => vlq_bytes(1) + vlq_bytes(crypto_error_value(e) as nat),
        },
    }
}

/// What a request payload means: the request union value a well-formed
/// payload carries, or nothing. Trailing bytes are ignored.
pub open spec fn crypto_request_dec(s: Seq<u8>) -> Option<CryptoRequestView> {
    match vlq_decode_spec(s) {
        Err(_) => None,
        Ok(tag) => {
            let s1 = s.skip(vlq_used(s));
            if tag == 0 {
                match vlq_decode_spec(s1) {
                    Ok(v) => if v <= 3 {
                        Some(
                            CryptoRequestView::HasherNew {
                                hash_type: spec_hasher_type_from(v),
                            },
                        )
                    } else {
                        None
                    },
                    Err(_) => None,
                }
            } else if tag == 1 {
                match vlq_decode_spec(s1) {
                    Ok(ctx) => match parse_bytes(s1.skip(vlq_used(s1))) {
                        Some((data, _)) => Some(CryptoRequestView::HasherUpdate { ctx, data }),
                        None => None,
                    },
                    Err(_) => None,
                }
            } else if tag == 2 {
                match vlq_decode_spec(s1) {
                    Ok(ctx) => Some(CryptoRequestView::HasherFinalize { ctx }),
                    Err(_) => None,
                }
            } else if tag == 3 {
                match parse_bytes(s1) {
                    Some((prehash, u1)) => match parse_bytes(s1.skip(u1)) {
                        Some((signature, u2)) => match vlq_decode_spec(s1.skip(u1 + u2)) {
                            Ok(rid) => if rid <= 255 {
                                Some(
                                    CryptoRequestView::Secp256k1Recovery {
                                        prehash,
                                        signature,
                                        recovery_id: rid as u8,
                                    },
                                )
                            } else {
                                None
                            },
                            Err(_) => None,
                        },
                        None => None,
                    },
                    None => None,
                }
            } else if 4 <= tag <= 6 {
                match parse_bytes(s1) {
                    Some((a, u1)) => match parse_bytes(s1.skip(u1)) {
                        Some((b, u2)) => match parse_bytes(s1.skip(u1 + u2)) {
                            Some((c, _)) => if tag == 4 {
                                Some(
                                    CryptoRequestView::Secp256k1Verify {
                                        public_key: a,
                                        prehash: b,
                                        signature: c,
                                    },
                                )
                            } else if tag == 5 {
                                Some(
                                    CryptoRequestView::SchnorrVerify {
                                        public_key: a,
                                        message: b,
                                        signature: c,
                                    },
                                )
                            } else {
                                Some(
                                    CryptoRequestView::Ed25519Verify {
                                        public_key: a,
                                        message: b,
                                        signature: c,
                                    },
                                )
                            },
                            None => None,
                        },
                        None => None,
                    },
                    None => None,
                }
            } else {
                None
            }
        },
    }
}

/// The algorithm a wire selector below 4 names.
pub open spec fn spec_hasher_type_from(v: u64) -> HasherType {
    if v == 0 {
        HasherType::CkbBlake2b
    } else if v == 1 {
        HasherType::Blake2b
    } else if v == 2 {
        HasherType::Sha256
    } else {
        HasherType::Ripemd160
    }
}

/// The service error a wire selector below 7 names.
pub open spec fn spec_crypto_error_from(v: u64) -> CryptoError {
    if v == 0 {
        CryptoError::InvalidContext
    } else if v == 1 {
        CryptoError::InvalidSig
    } else if v == 2 {
        CryptoError::InvalidPrehash
    } else if v == 3 {
        CryptoError::InvalidRecoveryId
    } else if v == 4 {
        CryptoError::RecoveryFailed
    } else if v == 5 {
        CryptoError::InvalidPubkey
    } else {
        CryptoError::VerifyFailed
    }
}

/// What a response payload carries for the method with the given variant
/// tag: on success, the returned handle (methods whose value is an integer)
/// and the returned bytes (methods whose value is a byte string; empty for
/// the others); on failure, the service error. Trailing bytes are ignored.
pub open spec fn crypto_result_dec(s: Seq<u8>, expected_tag: u64) -> Option<
    Result<(u64, Seq<u8>), CryptoError>,
> {
    match vlq_decode_spec(s) {
        Err(_) => None,
        Ok(tag) => {
            if tag != expected_tag {
                None
            } else {
                let s1 = s.skip(vlq_used(s));
                match vlq_decode_spec(s1) {
                    Err(_) => None,
                    Ok(rtag) => {
                        let s2 = s1.skip(vlq_used(s1));
                        if rtag == 0 {
                            if expected_tag == 0 {
                                // the handle comes back as an integer
                                match vlq_decode_spec(s2) {
                                    Ok(ctx) => Some(Ok((ctx, Seq::empty()))),
                                    Err(_) => None,
                                }
                            } else if expected_tag == 2 || expected_tag == 3 {
                                // a digest or a key comes back as a byte string
                                match parse_bytes(s2) {
                                    Some((v, _)) => Some(Ok((0, v))),
                                    None => None,
                                }
                            } else {
                                Some(Ok((0, Seq::empty())))
                            }
                        } else if rtag == 1 {
                            match vlq_decode_spec(s2) {
                                Ok(e) => if e <= 6 {
                                    Some(Err(spec_crypto_error_from(e)))
                                } else {
                                    None
                                },
                                Err(_) => None,
                            }
                        } else {
                            None
                        }
                    },
                }
            }
        },
    }
}

/// The response the service contract prescribes for a request, given the
/// arena and the next handle before the call.
pub open spec fn crypto_dispatch(
    arena: Map<u64, (HasherType, Seq<u8>)>,
    next: u64,
    req: CryptoRequestView,
) -> CryptoResponseView {
    match req {
        CryptoRequestView::HasherNew { hash_type } => CryptoResponseView::HasherNew {
            res: if next < u64::MAX {
                Ok(next)
            } else {
                Err(CryptoError::InvalidContext)
            },
        },
        CryptoRequestView::HasherUpdate { ctx, data } => CryptoResponseView::HasherUpdate {
            res: if arena.contains_key(ctx) {
                Ok(())
            } else {
                Err(CryptoError::InvalidContext)
            },
        },
        CryptoRequestView::HasherFinalize { ctx } => CryptoResponseView::HasherFinalize {
            res: if arena.contains_key(ctx) {
                Ok(digest_of(arena[ctx].0, arena[ctx].1))
            } else {
                Err(CryptoError::InvalidContext)
            },
        },
        CryptoRequestView::Secp256k1Recovery {
            prehash,
            signature,
            recovery_id,
        } => CryptoResponseView::Secp256k1Recovery {
            res: if !crate::crypto::secp256k1_sig_ok(signature) {
                Err(CryptoError::InvalidSig)
            } else if recovery_id >= 4 {
                Err(CryptoError::InvalidRecoveryId)
            } else {
                match crate::crypto::secp256k1_recover_of(prehash, signature, recovery_id) {
                    Some(pk) => Ok(pk),
                    None => Err(CryptoError::RecoveryFailed),
                }
            },
        },
        CryptoRequestView::Secp256k1Verify {
            public_key,
            prehash,
            signature,
        } => CryptoResponseView::Secp256k1Verify {
            res: if !crate::crypto::secp256k1_sig_ok(signature) {
                Err(CryptoError::InvalidSig)
            } else if !crate::crypto::secp256k1_pubkey_ok(public_key) {
                Err(CryptoError::InvalidPubkey)
            } else if !crate::crypto::secp256k1_verify_of(public_key, prehash, signature) {
                Err(CryptoError::VerifyFailed)
            } else {
                Ok(())
            },
        },
        CryptoRequestView::SchnorrVerify {
            public_key,
            message,
            signature,
        } => CryptoResponseView::SchnorrVerify {
            res: if !crate::crypto::schnorr_sig_ok(signature) {
                Err(CryptoError::InvalidSig)
            } else if !crate::crypto::schnorr_pubkey_ok(public_key) {
                Err(CryptoError::InvalidPubkey)
            } else if !crate::crypto::schnorr_verify_of(public_key, message, signature) {
                Err(CryptoError::VerifyFailed)
            } else {
                Ok(())
            },
        },
        CryptoRequestView::Ed25519Verify {
            public_key,
            message,
            signature,
        } => CryptoResponseView::Ed25519Verify {
            res: if public_key.len() != 32 {
                Err(CryptoError::InvalidPubkey)
            } else if signature.len() != 64 {
                Err(CryptoError::InvalidSig)
            } else if !crate::crypto::ed25519_pubkey_ok(public_key) {
                Err(CryptoError::InvalidPubkey)
            } else if !crate::crypto::ed25519_verify_of(public_key, message, signature) {
                Err(CryptoError::VerifyFailed)
            } else {
                Ok(())
            },
        },
    }
}

/// The arena the service contract prescribes after a request.
pub open spec fn crypto_dispatch_arena(
    arena: Map<u64, (HasherType, Seq<u8>)>,
    next: u64,
    req: CryptoRequestView,
) -> Map<u64, (HasherType, Seq<u8>)> {
    match req {
        CryptoRequestView::HasherNew { hash_type } => if next < u64::MAX {
            arena.insert(next, (hash_type, Seq::empty()))
        } else {
            arena
        },
        CryptoRequestView::HasherUpdate { ctx, data } => if arena.contains_key(ctx) {
            arena.insert(ctx, (arena[ctx].0, arena[ctx].1 + data))
        } else {
            arena
        },
        CryptoRequestView::HasherFinalize { ctx } => if arena.contains_key(ctx) {
            arena.remove(ctx)
        } else {
            arena
        },
        _ => arena,
    }
}

/// The next handle the service contract prescribes after a request.
pub open spec fn crypto_dispatch_next(next: u64, req: CryptoRequestView) -> u64 {
    match req {
        CryptoRequestView::HasherNew { hash_type } => if next < u64::MAX {
            (next + 1) as u64
        } else {
            next
        },
        _ => next,
    }
}

/// The server dispatcher of the cryptography service: maps every request
/// variant to exactly one call against the wrapped service and wraps the
/// return value in the matching response variant.
pub struct ServeCkbCrypto<S> {
    service: S,
}

impl<S> ServeCkbCrypto<S> {
    /// The wrapped service.
    pub closed spec fn spec_service(&self) -> S {
        self.service
    }

    /// A dispatcher around the given service.
    pub fn new(service: S) -> (r: ServeCkbCrypto<S>)
        ensures
            r.spec_service() == service,
    {
        ServeCkbCrypto { service }
    }
}

/// The exec form of the algorithm selector, encoding side.
fn hasher_type_value_of(t: HasherType) -> (r: u64)
    ensures
        r == hasher_type_value(t),
{
    match t {
        HasherType::CkbBlake2b => 0,
        HasherType::Blake2b => 1,
        HasherType::Sha256 => 2,
        HasherType::Ripemd160 => 3,
    }
}

/// The exec form of the algorithm selector.
fn hasher_type_from(v: u64) -> (r: Option<HasherType>)
    ensures
        v <= 3 ==> r == Some(spec_hasher_type_from(v)),
        v > 3 ==> r is None,
        r matches Some(t) ==> hasher_type_value(t) == v,
{
    if v == 0 {
        Some(HasherType::CkbBlake2b)
    } else if v == 1 {
        Some(HasherType::Blake2b)
    } else if v == 2 {
        Some(HasherType::Sha256)
    } else if v == 3 {
        Some(HasherType::Ripemd160)
    } else {
        None
    }
}

/// The exec form of the service-error selector.
fn crypto_error_value_of(e: CryptoError) -> (r: u64)
    ensures
        r == crypto_error_value(e),
{
    match e {
        CryptoError::InvalidContext => 0,
        CryptoError::InvalidSig => 1,
        CryptoError::InvalidPrehash => 2,
        CryptoError::InvalidRecoveryId => 3,
        CryptoError::RecoveryFailed => 4,
        CryptoError::InvalidPubkey => 5,
        CryptoError::VerifyFailed => 6,
    }
}

/// The exec decoding of the service-error selector.
fn crypto_error_from(v: u64) -> (r: Option<CryptoError>)
    ensures
        v <= 6 ==> r == Some(spec_crypto_error_from(v)),
        v > 6 ==> r is None,
{
    if v == 0 {
        Some(CryptoError::InvalidContext)
    } else if v == 1 {
        Some(CryptoError::InvalidSig)
    } else if v == 2 {
        Some(CryptoError::InvalidPrehash)
    } else if v == 3 {
        Some(CryptoError::InvalidRecoveryId)
    } else if v == 4 {
        Some(CryptoError::RecoveryFailed)
    } else if v == 5 {
        Some(CryptoError::InvalidPubkey)
    } else if v == 6 {
        Some(CryptoError::VerifyFailed)
    } else {
        None
    }
}

/// Appends a unit or error result: 0, or 1 and the error selector.
fn write_unit_result(out: &mut Vec<u8>, res: &Result<(), CryptoError>)
    ensures
        res matches Ok(_) ==> final(out)@ == old(out)@ + vlq_bytes(0),
        res matches Err(e) ==> final(out)@ == old(out)@ + vlq_bytes(1) + vlq_bytes(
            crypto_error_value(*e) as nat,
        ),
{
    match res {
        Ok(_) => write_u64(out, 0),
        Err(e) => {
            write_u64(out, 1);
            write_u64(out, crypto_error_value_of(*e));
        },
    }
}

impl<S: CkbCrypto> Serve for ServeCkbCrypto<S> {
    /// Decodes the request union, dispatches to the service, and encodes the
    /// response union: a well-formed request is answered with the matching
    /// response variant wrapping exactly the result the service contract
    /// prescribes, and the service's arena evolves exactly as prescribed. A
    /// payload that does not decode as a request variant is answered with
    /// `DeserializeError` and leaves the service untouched.
    fn serve(&mut self, req: &[u8]) -> (r: Result<Vec<u8>, IpcError>)
        ensures
            match crypto_request_dec(req@) {
                Some(rv) => {
                    &&& (r matches Ok(resp) && resp@ == crypto_response_enc(
                        crypto_dispatch(
                            old(self).spec_service().arena(),
                            old(self).spec_service().next_handle(),
                            rv,
                        ),
                    ))
                    &&& final(self).spec_service().arena() == crypto_dispatch_arena(
                        old(self).spec_service().arena(),
                        old(self).spec_service().next_handle(),
                        rv,
                    )
                    &&& final(self).spec_service().next_handle() == crypto_dispatch_next(
                        old(self).spec_service().next_handle(),
                        rv,
                    )
                },
                None => r == Err::<Vec<u8>, IpcError>(IpcError::DeserializeError) && *final(self)
                    == *old(self),
            },
    {
        let ghost arena0 = self.service.arena();
        let ghost next0 = self.service.next_handle();
        let mut input: &[u8] = req;
        let tag = match read_u64_field(&mut input) {
            Ok(t) => t,
            Err(_) => {
                return Err(IpcError::DeserializeError);
            },
        };
        let mut out: Vec<u8> = Vec::new();
        write_u64(&mut out, tag);
        if tag == 0 {
            let v = match read_u64_field(&mut input) {
                Ok(v) => v,
                Err(_) => {
                    return Err(IpcError::DeserializeError);
                },
            };
            let hash_type = match hasher_type_from(v) {
                Some(t) => t,
                None => {
                    return Err(IpcError::DeserializeError);
                },
            };
            proof {
                assert(crypto_request_dec(req@) == Some(
                    CryptoRequestView::HasherNew { hash_type },
                ));
            }
            let ghost rv = CryptoRequestView::HasherNew { hash_type };
            let ret = self.service.hasher_new(hash_type);
            match &ret {
                Ok(ctx) => {
                    write_u64(&mut out, 0);
                    write_u64(&mut out, ctx.0);
                    proof {
                        assert(out@ =~= crypto_response_enc(crypto_dispatch(arena0, next0, rv)));
                    }
                },
                Err(e) => {
                    write_u64(&mut out, 1);
                    write_u64(&mut out, crypto_error_value_of(*e));
                    proof {
                        assert(out@ =~= crypto_response_enc(crypto_dispatch(arena0, next0, rv)));
                    }
                },
            }
            Ok(out)
        } else if tag == 1 {
            let ctx = match read_u64_field(&mut input) {
                Ok(v) => v,
                Err(_) => {
                    return Err(IpcError::DeserializeError);
                },
            };
            let data = match read_bytes_field(&mut input) {
                Ok(v) => v,
                Err(_) => {
                    return Err(IpcError::DeserializeError);
                },
            };
            proof {
                assert(crypto_request_dec(req@) == Some(
                    CryptoRequestView::HasherUpdate { ctx, data: data@ },
                ));
            }
            let ghost rv = CryptoRequestView::HasherUpdate { ctx, data: data@ };
            let ret = self.service.hasher_update(HasherCtx(ctx), data);
            write_unit_result(&mut out, &ret);
            proof {
                assert(out@ =~= crypto_response_enc(crypto_dispatch(arena0, next0, rv)));
            }
            Ok(out)
        } else if tag == 2 {
            let ctx = match read_u64_field(&mut input) {
                Ok(v) => v,
                Err(_) => {
                    return Err(IpcError::DeserializeError);
                },
            };
            proof {
                assert(crypto_request_dec(req@) == Some(
                    CryptoRequestView::HasherFinalize { ctx },
                ));
            }
            let ghost rv = CryptoRequestView::HasherFinalize { ctx };
            let ret = self.service.hasher_finalize(HasherCtx(ctx));
            match &ret {
                Ok(digest) => {
                    write_u64(&mut out, 0);
                    write_bytes(&mut out, digest.as_slice());
                    proof {
                        assert(out@ =~= crypto_response_enc(crypto_dispatch(arena0, next0, rv)));
                    }
                },
                Err(e) => {
                    write_u64(&mut out, 1);
                    write_u64(&mut out, crypto_error_value_of(*e));
                    proof {
                        assert(out@ =~= crypto_response_enc(crypto_dispatch(arena0, next0, rv)));
                    }
                },
            }
            Ok(out)
        } else if tag == 3 {
            let ghost s1 = input@;
            let prehash = match read_bytes_field(&mut input) {
                Ok(v) => v,
                Err(_) => {
                    return Err(IpcError::DeserializeError);
                },
            };
            let signature = match read_bytes_field(&mut input) {
                Ok(v) => v,
                Err(_) => {
                    return Err(IpcError::DeserializeError);
                },
            };
            proof {
                crate::wire::lemma_parse_bytes_used(s1);
                let u1 = parse_bytes(s1).unwrap().1;
                crate::wire::lemma_parse_bytes_used(s1.skip(u1));
                let u2 = parse_bytes(s1.skip(u1)).unwrap().1;
                assert(input@ =~= s1.skip(u1 + u2));
            }
            let rid64 = match read_u64_field(&mut input) {
                Ok(v) => v,
                Err(_) => {
                    return Err(IpcError::DeserializeError);
                },
            };
            if rid64 > 255 {
                return Err(IpcError::DeserializeError);
            }
            let recovery_id = (#[verifier::truncate] (rid64 as u8));
            proof {
                assert(crypto_request_dec(req@) == Some(
                    CryptoRequestView::Secp256k1Recovery {
                        prehash: prehash@,
                        signature: signature@,
                        recovery_id,
                    },
                ));
            }
            let ghost rv = CryptoRequestView::Secp256k1Recovery {
                prehash: prehash@,
                signature: signature@,
                recovery_id,
            };
            let ret = self.service.secp256k1_recovery(prehash, signature, recovery_id);
            match &ret {
                Ok(pk) => {
                    write_u64(&mut out, 0);
                    write_bytes(&mut out, pk.as_slice());
                    proof {
                        assert(out@ =~= crypto_response_enc(crypto_dispatch(arena0, next0, rv)));
                    }
                },
                Err(e) => {
                    write_u64(&mut out, 1);
                    write_u64(&mut out, crypto_error_value_of(*e));
                    proof {
                        assert(out@ =~= crypto_response_enc(crypto_dispatch(arena0, next0, rv)));
                    }
                },
            }
            Ok(out)
        } else if tag == 4 || tag == 5 || tag == 6 {
            let ghost s1 = input@;
            let a = match read_bytes_field(&mut input) {
                Ok(v) => v,
                Err(_) => {
                    return Err(IpcError::DeserializeError);
                },
            };
            let b = match read_bytes_field(&mut input) {
                Ok(v) => v,
                Err(_) => {
                    return Err(IpcError::DeserializeError);
                },
            };
            proof {
                crate::wire::lemma_parse_bytes_used(s1);
                let u1 = parse_bytes(s1).unwrap().1;
                crate::wire::lemma_parse_bytes_used(s1.skip(u1));
                let u2 = parse_bytes(s1.skip(u1)).unwrap().1;
                assert(input@ =~= s1.skip(u1 + u2));
            }
            let c = match read_bytes_field(&mut input) {
                Ok(v) => v,
                Err(_) => {
                    return Err(IpcError::DeserializeError);
                },
            };
            if tag == 4 {
                proof {
                    assert(crypto_request_dec(req@) == Some(
                        CryptoRequestView::Secp256k1Verify {
                            public_key: a@,
                            prehash: b@,
                            signature: c@,
                        },
                    ));
                }
                let ghost rv = CryptoRequestView::Secp256k1Verify {
                    public_key: a@,
                    prehash: b@,
                    signature: c@,
                };
                let ret = self.service.secp256k1_verify(a, b, c);
                write_unit_result(&mut out, &ret);
                proof {
                    assert(out@ =~= crypto_response_enc(crypto_dispatch(arena0, next0, rv)));
                }
                Ok(out)
            } else if tag == 5 {
                proof {
                    assert(crypto_request_dec(req@) == Some(
                        CryptoRequestView::SchnorrVerify {
                            public_key: a@,
                            message: b@,
                            signature: c@,
                        },
                    ));
                }
                let ghost rv = CryptoRequestView::SchnorrVerify {
                    public_key: a@,
                    message: b@,
                    signature: c@,
                };
                let ret = self.service.schnorr_verify(a, b, c);
                write_unit_result(&mut out, &ret);
                proof {
                    assert(out@ =~= crypto_response_enc(crypto_dispatch(arena0, next0, rv)));
                }
                Ok(out)
            } else {
                proof {
                    assert(crypto_request_dec(req@) == Some(
                        CryptoRequestView::Ed25519Verify {
                            public_key: a@,
                            message: b@,
                            signature: c@,
                        },
                    ));
                }
                let ghost rv = CryptoRequestView::Ed25519Verify {
                    public_key: a@,
                    message: b@,
                    signature: c@,
                };
                let ret = self.service.ed25519_verify(a, b, c);
                write_unit_result(&mut out, &ret);
                proof {
                    assert(out@ =~= crypto_response_enc(crypto_dispatch(arena0, next0, rv)));
                }
                Ok(out)
            }
        } else {
            Err(IpcError::DeserializeError)
        }
    }
}

} // verus!

verus! {

/// The client stub of the cryptography service: one strongly typed method
/// per remote method, hiding the request/response envelope. A channel-level
/// failure or a malformed response comes back as the `IpcError`; the inner
/// result is the method's own.
pub struct CkbCryptoClient<R: Read, W: Write> {
    channel: Channel<R, W>,
}

impl<R: Read, W: Write> CkbCryptoClient<R, W> {
    /// Whether the inbound transport's future output is a function of its
    /// state.
    pub closed spec fn deterministic(&self) -> bool {
        self.channel.deterministic()
    }

    /// The inbound bytes the stub is known to receive next.
    pub closed spec fn stream(&self) -> Seq<u8> {
        self.channel.stream()
    }

    /// Whether the outbound transport records what it accepted.
    pub closed spec fn tracks_sink(&self) -> bool {
        self.channel.tracks_sink()
    }

    /// The outbound bytes the stub has sent.
    pub closed spec fn sink(&self) -> Seq<u8> {
        self.channel.sink()
    }

    /// The wrapped channel.
    pub closed spec fn spec_channel(&self) -> Channel<R, W> {
        self.channel
    }

    /// Gives the wrapped channel back.
    pub fn into_channel(self) -> (r: Channel<R, W>)
        ensures
            r == self.spec_channel(),
            r.tracks_sink() == self.tracks_sink(),
            self.tracks_sink() ==> r.sink() == self.sink(),
    {
        self.channel
    }

    /// A stub over a connected pair of transports.
    pub fn new(reader: R, writer: W) -> (r: CkbCryptoClient<R, W>)
        ensures
            r.deterministic() == reader.deterministic(),
            r.stream() == reader.stream(),
            r.tracks_sink() == writer.tracks_sink(),
            r.sink() == writer.sink(),
    {
        CkbCryptoClient { channel: Channel::new(reader, writer) }
    }

    /// One framed call of the method with the given variant tag: sends the
    /// encoded request, then decodes the response envelope for that variant.
    fn call_method(&mut self, method_name: &'static str, tag: u64, reqb: &[u8]) -> (r: Result<
        Result<(u64, Vec<u8>), CryptoError>,
        IpcError,
    >)
        ensures
            final(self).tracks_sink() == old(self).tracks_sink(),
            final(self).deterministic() == old(self).deterministic(),
            r matches Ok(_) && old(self).tracks_sink() ==> final(self).sink() == old(self).sink()
                + packet_bytes(0, 0, reqb@),
            old(self).deterministic() ==> match r {
                Ok(res) => parse_packet(old(self).stream()) matches Ok((v, ptag, payload, used))
                    && ptag == 0 && final(self).stream() == old(self).stream().skip(used) && (
                match res {
                    Ok((num, bytes)) => crypto_result_dec(payload, tag) == Some(
                        Ok::<(u64, Seq<u8>), CryptoError>((num, bytes@)),
                    ),
                    Err(e) => crypto_result_dec(payload, tag) == Some(
                        Err::<(u64, Seq<u8>), CryptoError>(e),
                    ),
                }),
                Err(_) => true,
            },
    {
        let resp = match self.channel.call(method_name, reqb) {
            Ok(v) => v,
            Err(e) => {
                return Err(e);
            },
        };
        let mut input: &[u8] = resp.as_slice();
        let vtag = match read_u64_field(&mut input) {
            Ok(t) => t,
            Err(_) => {
                return Err(IpcError::DeserializeError);
            },
        };
        if vtag != tag {
            return Err(IpcError::DeserializeError);
        }
        let rtag = match read_u64_field(&mut input) {
            Ok(t) => t,
            Err(_) => {
                return Err(IpcError::DeserializeError);
            },
        };
        if rtag == 0 {
            if tag == 0 {
                match read_u64_field(&mut input) {
                    Ok(num) => Ok(Ok((num, Vec::new()))),
                    Err(_) => Err(IpcError::DeserializeError),
                }
            } else if tag == 2 || tag == 3 {
                match read_bytes_field(&mut input) {
                    Ok(v) => Ok(Ok((0, v))),
                    Err(_) => Err(IpcError::DeserializeError),
                }
            } else {
                Ok(Ok((0, Vec::new())))
            }
        } else if rtag == 1 {
            let e64 = match read_u64_field(&mut input) {
                Ok(v) => v,
                Err(_) => {
                    return Err(IpcError::DeserializeError);
                },
            };
            match crypto_error_from(e64) {
                Some(e) => Ok(Err(e)),
                None => Err(IpcError::DeserializeError),
            }
        } else {
            Err(IpcError::DeserializeError)
        }
    }

    /// Calls the remote `hasher_new`.
    pub fn hasher_new(&mut self, hash_type: HasherType) -> (r: Result<
        Result<HasherCtx, CryptoError>,
        IpcError,
    >)
        ensures
            final(self).tracks_sink() == old(self).tracks_sink(),
            final(self).deterministic() == old(self).deterministic(),
            r matches Ok(_) && old(self).tracks_sink() ==> final(self).sink() == old(self).sink()
                + packet_bytes(
                0,
                0,
                crypto_request_enc(CryptoRequestView::HasherNew { hash_type }),
            ),
            old(self).deterministic() ==> match r {
                Ok(res) => parse_packet(old(self).stream()) matches Ok((v, ptag, payload, used))
                    && ptag == 0 && final(self).stream() == old(self).stream().skip(used)
                    && crypto_result_dec(payload, 0) == Some(
                    match res {
                        Ok(ctx) => Ok::<(u64, Seq<u8>), CryptoError>((ctx.0, Seq::empty())),
                        Err(e) => Err::<(u64, Seq<u8>), CryptoError>(e),
                    },
                ),
                Err(_) => true,
            },
    {
        let mut reqb: Vec<u8> = Vec::new();
        write_u64(&mut reqb, 0);
        write_u64(&mut reqb, hasher_type_value_of(hash_type));
        proof {
            assert(reqb@ =~= crypto_request_enc(CryptoRequestView::HasherNew { hash_type }));
        }
        match self.call_method("CkbCrypto.hasher_new", 0, reqb.as_slice()) {
            Ok(Ok((num, _))) => Ok(Ok(HasherCtx(num))),
            Ok(Err(e)) => Ok(Err(e)),
            Err(e) => Err(e),
        }
    }

    /// Calls the remote `hasher_update`.
    pub fn hasher_update(&mut self, ctx: HasherCtx, data: Vec<u8>) -> (r: Result<
        Result<(), CryptoError>,
        IpcError,
    >)
        ensures
            final(self).tracks_sink() == old(self).tracks_sink(),
            final(self).deterministic() == old(self).deterministic(),
            r matches Ok(_) && old(self).tracks_sink() ==> final(self).sink() == old(self).sink()
                + packet_bytes(
                0,
                0,
                crypto_request_enc(CryptoRequestView::HasherUpdate { ctx: ctx.0, data: data@ }),
            ),
            old(self).deterministic() ==> match r {
                Ok(res) => parse_packet(old(self).stream()) matches Ok((v, ptag, payload, used))
                    && ptag == 0 && final(self).stream() == old(self).stream().skip(used)
                    && crypto_result_dec(payload, 1) == Some(
                    match res {
                        Ok(_) => Ok::<(u64, Seq<u8>), CryptoError>((0, Seq::empty())),
                        Err(e) => Err::<(u64, Seq<u8>), CryptoError>(e),
                    },
                ),
                Err(_) => true,
            },
    {
        let mut reqb: Vec<u8> = Vec::new();
        write_u64(&mut reqb, 1);
        write_u64(&mut reqb, ctx.0);
        write_bytes(&mut reqb, data.as_slice());
        proof {
            assert(reqb@ =~= crypto_request_enc(
                CryptoRequestView::HasherUpdate { ctx: ctx.0, data: data@ },
            ));
        }
        match self.call_method("CkbCrypto.hasher_update", 1, reqb.as_slice()) {
            Ok(Ok(_)) => Ok(Ok(())),
            Ok(Err(e)) => Ok(Err(e)),
            Err(e) => Err(e),
        }
    }

    /// Calls the remote `hasher_finalize`.
    pub fn hasher_finalize(&mut self, ctx: HasherCtx) -> (r: Result<
        Result<Vec<u8>, CryptoError>,
        IpcError,
    >)
        ensures
            final(self).tracks_sink() == old(self).tracks_sink(),
            final(self).deterministic() == old(self).deterministic(),
            r matches Ok(_) && old(self).tracks_sink() ==> final(self).sink() == old(self).sink()
                + packet_bytes(
                0,
                0,
                crypto_request_enc(CryptoRequestView::HasherFinalize { ctx: ctx.0 }),
            ),
            old(self).deterministic() ==> match r {
                Ok(res) => parse_packet(old(self).stream()) matches Ok((v, ptag, payload, used))
                    && ptag == 0 && final(self).stream() == old(self).stream().skip(used)
                    && crypto_result_dec(payload, 2) == Some(
                    match res {
                        Ok(digest) => Ok::<(u64, Seq<u8>), CryptoError>((0, digest@)),
                        Err(e) => Err::<(u64, Seq<u8>), CryptoError>(e),
                    },
                ),
                Err(_) => true,
            },
    {
        let mut reqb: Vec<u8> = Vec::new();
        write_u64(&mut reqb, 2);
        write_u64(&mut reqb, ctx.0);
        proof {
            assert(reqb@ =~= crypto_request_enc(CryptoRequestView::HasherFinalize { ctx: ctx.0 }));
        }
        match self.call_method("CkbCrypto.hasher_finalize", 2, reqb.as_slice()) {
            Ok(Ok((_, digest))) => Ok(Ok(digest)),
            Ok(Err(e)) => Ok(Err(e)),
            Err(e) => Err(e),
        }
    }

    /// Calls the remote `secp256k1_recovery`.
    pub fn secp256k1_recovery(
        &mut self,
        prehash: Vec<u8>,
        signature: Vec<u8>,
        recovery_id: u8,
    ) -> (r: Result<Result<Vec<u8>, CryptoError>, IpcError>)
        ensures
            final(self).tracks_sink() == old(self).tracks_sink(),
            final(self).deterministic() == old(self).deterministic(),
            r matches Ok(_) && old(self).tracks_sink() ==> final(self).sink() == old(self).sink()
                + packet_bytes(
                0,
                0,
                crypto_request_enc(
                    CryptoRequestView::Secp256k1Recovery {
                        prehash: prehash@,
                        signature: signature@,
                        recovery_id,
                    },
                ),
            ),
            old(self).deterministic() ==> match r {
                Ok(res) => parse_packet(old(self).stream()) matches Ok((v, ptag, payload, used))
                    && ptag == 0 && final(self).stream() == old(self).stream().skip(used)
                    && crypto_result_dec(payload, 3) == Some(
                    match res {
                        Ok(pk) => Ok::<(u64, Seq<u8>), CryptoError>((0, pk@)),
                        Err(e) => Err::<(u64, Seq<u8>), CryptoError>(e),
                    },
                ),
                Err(_) => true,
            },
    {
        let mut reqb: Vec<u8> = Vec::new();
        write_u64(&mut reqb, 3);
        write_bytes(&mut reqb, prehash.as_slice());
        write_bytes(&mut reqb, signature.as_slice());
        write_u64(&mut reqb, recovery_id as u64);
        proof {
            assert(reqb@ =~= crypto_request_enc(
                CryptoRequestView::Secp256k1Recovery {
                    prehash: prehash@,
                    signature: signature@,
                    recovery_id,
                },
            ));
        }
        match self.call_method("CkbCrypto.secp256k1_recovery", 3, reqb.as_slice()) {
            Ok(Ok((_, pk))) => Ok(Ok(pk)),
            Ok(Err(e)) => Ok(Err(e)),
            Err(e) => Err(e),
        }
    }

    /// Calls one of the remote signature checks, by variant tag.
    fn verify_method(
        &mut self,
        method_name: &'static str,
        tag: u64,
        a: Vec<u8>,
        b: Vec<u8>,
        c: Vec<u8>,
    ) -> (r: Result<Result<(), CryptoError>, IpcError>)
        requires
            tag == 4 || tag == 5 || tag == 6,
        ensures
            final(self).tracks_sink() == old(self).tracks_sink(),
            final(self).deterministic() == old(self).deterministic(),
            r matches Ok(_) && old(self).tracks_sink() ==> final(self).sink() == old(self).sink()
                + packet_bytes(
                0,
                0,
                vlq_bytes(tag as nat) + enc_bytes(a@) + enc_bytes(b@) + enc_bytes(c@),
            ),
            old(self).deterministic() ==> match r {
                Ok(res) => parse_packet(old(self).stream()) matches Ok((v, ptag, payload, used))
                    && ptag == 0 && final(self).stream() == old(self).stream().skip(used)
                    && crypto_result_dec(payload, tag) == Some(
                    match res {
                        Ok(_) => Ok::<(u64, Seq<u8>), CryptoError>((0, Seq::empty())),
                        Err(e) => Err::<(u64, Seq<u8>), CryptoError>(e),
                    },
                ),
                Err(_) => true,
            },
    {
        let mut reqb: Vec<u8> = Vec::new();
        write_u64(&mut reqb, tag);
        write_bytes(&mut reqb, a.as_slice());
        write_bytes(&mut reqb, b.as_slice());
        write_bytes(&mut reqb, c.as_slice());
        proof {
            assert(reqb@ =~= vlq_bytes(tag as nat) + enc_bytes(a@) + enc_bytes(b@) + enc_bytes(
                c@,
            ));
        }
        match self.call_method(method_name, tag, reqb.as_slice()) {
            Ok(Ok(_)) => Ok(Ok(())),
            Ok(Err(e)) => Ok(Err(e)),
            Err(e) => Err(e),
        }
    }

    /// Calls the remote `secp256k1_verify`.
    pub fn secp256k1_verify(
        &mut self,
        public_key: Vec<u8>,
        prehash: Vec<u8>,
        signature: Vec<u8>,
    ) -> (r: Result<Result<(), CryptoError>, IpcError>)
        ensures
            final(self).tracks_sink() == old(self).tracks_sink(),
            final(self).deterministic() == old(self).deterministic(),
            r matches Ok(_) && old(self).tracks_sink() ==> final(self).sink() == old(self).sink()
                + packet_bytes(
                0,
                0,
                crypto_request_enc(
                    CryptoRequestView::Secp256k1Verify {
                        public_key: public_key@,
                        prehash: prehash@,
                        signature: signature@,
                    },
                ),
            ),
    {
        self.verify_method("CkbCrypto.secp256k1_verify", 4, public_key, prehash, signature)
    }

    /// Calls the remote `schnorr_verify`.
    pub fn schnorr_verify(
        &mut self,
        public_key: Vec<u8>,
        message: Vec<u8>,
        signature: Vec<u8>,
    ) -> (r: Result<Result<(), CryptoError>, IpcError>)
        ensures
            final(self).tracks_sink() == old(self).tracks_sink(),
            final(self).deterministic() == old(self).deterministic(),
            r matches Ok(_) && old(self).tracks_sink() ==> final(self).sink() == old(self).sink()
                + packet_bytes(
                0,
                0,
                crypto_request_enc(
                    CryptoRequestView::SchnorrVerify {
                        public_key: public_key@,
                        message: message@,
                        signature: signature@,
                    },
                ),
            ),
    {
        self.verify_method("CkbCrypto.schnorr_verify", 5, public_key, message, signature)
    }

    /// Calls the remote `ed25519_verify`.
    pub fn ed25519_verify(
        &mut self,
        public_key: Vec<u8>,
        message: Vec<u8>,
        signature: Vec<u8>,
    ) -> (r: Result<Result<(), CryptoError>, IpcError>)
        ensures
            final(self).tracks_sink() == old(self).tracks_sink(),
            final(self).deterministic() == old(self).deterministic(),
            r matches Ok(_) && old(self).tracks_sink() ==> final(self).sink() == old(self).sink()
                + packet_bytes(
                0,
                0,
                crypto_request_enc(
                    CryptoRequestView::Ed25519Verify {
                        public_key: public_key@,
                        message: message@,
                        signature: signature@,
                    },
                ),
            ),
    {
        self.verify_method("CkbCrypto.ed25519_verify", 6, public_key, message, signature)
    }
}

} // verus!

verus! {

/// Request round trip: decoding an encoded request union value yields the
/// value back, for every variant.
#[verifier::rlimit(100)]
#[verifier::spinoff_prover]
pub proof fn lemma_crypto_request_round_trip(v: CryptoRequestView)
    requires
        v matches CryptoRequestView::HasherUpdate { ctx, data } ==> data.len() <= usize::MAX,
        v matches CryptoRequestView::Secp256k1Recovery { prehash, signature, recovery_id }
            ==> prehash.len() <= usize::MAX && signature.len() <= usize::MAX,
        v matches CryptoRequestView::Secp256k1Verify { public_key, prehash, signature }
            ==> public_key.len() <= usize::MAX && prehash.len() <= usize::MAX && signature.len()
            <= usize::MAX,
        v matches CryptoRequestView::SchnorrVerify { public_key, message, signature }
            ==> public_key.len() <= usize::MAX && message.len() <= usize::MAX && signature.len()
            <= usize::MAX,
        v matches CryptoRequestView::Ed25519Verify { public_key, message, signature }
            ==> public_key.len() <= usize::MAX && message.len() <= usize::MAX && signature.len()
            <= usize::MAX,
    ensures
        crypto_request_dec(crypto_request_enc(v)) == Some(v),
{
    let s = crypto_request_enc(v);
    match v {
        CryptoRequestView::HasherNew { hash_type } => {
            let ht = hasher_type_value(hash_type);
            assert(s =~= vlq_bytes(0) + vlq_bytes(ht as nat));
            lemma_vlq_decode_prefix(0, vlq_bytes(ht as nat));
            let s1 = s.skip(vlq_used(s));
            assert(s1 =~= vlq_bytes(ht as nat) + Seq::<u8>::empty());
            lemma_vlq_decode_prefix(ht, Seq::<u8>::empty());
        },
        CryptoRequestView::HasherUpdate { ctx, data } => {
            assert(s =~= vlq_bytes(1) + (vlq_bytes(ctx as nat) + enc_bytes(data)));
            lemma_vlq_decode_prefix(1, vlq_bytes(ctx as nat) + enc_bytes(data));
            let s1 = s.skip(vlq_used(s));
            assert(s1 =~= vlq_bytes(ctx as nat) + enc_bytes(data));
            lemma_vlq_decode_prefix(ctx, enc_bytes(data));
            let s2 = s1.skip(vlq_used(s1));
            assert(s2 =~= enc_bytes(data) + Seq::<u8>::empty());
            crate::wire::lemma_bytes_round_trip(data, Seq::<u8>::empty());
        },
        CryptoRequestView::HasherFinalize { ctx } => {
            assert(s =~= vlq_bytes(2) + vlq_bytes(ctx as nat));
            lemma_vlq_decode_prefix(2, vlq_bytes(ctx as nat));
            let s1 = s.skip(vlq_used(s));
            assert(s1 =~= vlq_bytes(ctx as nat) + Seq::<u8>::empty());
            lemma_vlq_decode_prefix(ctx, Seq::<u8>::empty());
        },
        CryptoRequestView::Secp256k1Recovery { prehash, signature, recovery_id } => {
            let rest = enc_bytes(prehash) + enc_bytes(signature) + vlq_bytes(recovery_id as nat);
            assert(s =~= vlq_bytes(3) + rest);
            lemma_vlq_decode_prefix(3, rest);
            let s1 = s.skip(vlq_used(s));
            assert(s1 =~= enc_bytes(prehash) + (enc_bytes(signature) + vlq_bytes(
                recovery_id as nat,
            )));
            crate::wire::lemma_bytes_round_trip(
                prehash,
                enc_bytes(signature) + vlq_bytes(recovery_id as nat),
            );
            let u1 = enc_bytes(prehash).len() as int;
            assert(s1.skip(u1) =~= enc_bytes(signature) + vlq_bytes(recovery_id as nat));
            crate::wire::lemma_bytes_round_trip(signature, vlq_bytes(recovery_id as nat));
            let u2 = enc_bytes(signature).len() as int;
            assert(s1.skip(u1 + u2) =~= vlq_bytes(recovery_id as nat) + Seq::<u8>::empty());
            lemma_vlq_decode_prefix(recovery_id as u64, Seq::<u8>::empty());
        },
        CryptoRequestView::Secp256k1Verify { public_key, prehash, signature } => {
            lemma_crypto_three_fields(4, public_key, prehash, signature);
        },
        CryptoRequestView::SchnorrVerify { public_key, message, signature } => {
            lemma_crypto_three_fields(5, public_key, message, signature);
        },
        CryptoRequestView::Ed25519Verify { public_key, message, signature } => {
            lemma_crypto_three_fields(6, public_key, message, signature);
        },
    }
}

/// Three length-prefixed byte fields behind a variant tag read back as
/// themselves.
proof fn lemma_crypto_three_fields(tag: u64, a: Seq<u8>, b: Seq<u8>, c: Seq<u8>)
    requires
        a.len() <= usize::MAX,
        b.len() <= usize::MAX,
        c.len() <= usize::MAX,
    ensures
        ({
            let s = vlq_bytes(tag as nat) + enc_bytes(a) + enc_bytes(b) + enc_bytes(c);
            let s1 = s.skip(vlq_used(s));
            &&& vlq_decode_spec(s) == Ok::<u64, crate::error::IpcError>(tag)
            &&& parse_bytes(s1) == Some((a, enc_bytes(a).len() as int))
            &&& parse_bytes(s1.skip(enc_bytes(a).len() as int)) == Some(
                (b, enc_bytes(b).len() as int),
            )
            &&& parse_bytes(
                s1.skip((enc_bytes(a).len() + enc_bytes(b).len()) as int),
            ) == Some((c, enc_bytes(c).len() as int))
        }),
{
    let rest = enc_bytes(a) + enc_bytes(b) + enc_bytes(c);
    let s = vlq_bytes(tag as nat) + enc_bytes(a) + enc_bytes(b) + enc_bytes(c);
    assert(s =~= vlq_bytes(tag as nat) + rest);
    lemma_vlq_decode_prefix(tag, rest);
    let s1 = s.skip(vlq_used(s));
    assert(s1 =~= enc_bytes(a) + (enc_bytes(b) + enc_bytes(c)));
    crate::wire::lemma_bytes_round_trip(a, enc_bytes(b) + enc_bytes(c));
    let u1 = enc_bytes(a).len() as int;
    assert(s1.skip(u1) =~= enc_bytes(b) + enc_bytes(c));
    crate::wire::lemma_bytes_round_trip(b, enc_bytes(c));
    let u2 = enc_bytes(b).len() as int;
    assert(s1.skip(u1 + u2) =~= enc_bytes(c) + Seq::<u8>::empty());
    crate::wire::lemma_bytes_round_trip(c, Seq::<u8>::empty());
}

/// Response round trip: what the dispatcher encodes for a method, the
/// client's decoding of that method's variant reads back, for every variant
/// and either outcome.
#[verifier::rlimit(100)]
#[verifier::spinoff_prover]
pub proof fn lemma_crypto_response_round_trip(v: CryptoResponseView)
    requires
        v matches CryptoResponseView::HasherFinalize { res } ==> (res matches Ok(digest)
            ==> digest.len() <= usize::MAX),
        v matches CryptoResponseView::Secp256k1Recovery { res } ==> (res matches Ok(pk)
            ==> pk.len() <= usize::MAX),
    ensures
        match v {
            CryptoResponseView::HasherNew { res } => crypto_result_dec(crypto_response_enc(v), 0)
                == Some(
                match res {
                    Ok(ctx) => Ok::<(u64, Seq<u8>), CryptoError>((ctx, Seq::empty())),
                    Err(e) => Err::<(u64, Seq<u8>), CryptoError>(e),
                },
            ),
            CryptoResponseView::HasherUpdate { res } => crypto_result_dec(crypto_response_enc(v), 1)
                == Some(
                match res {
                    Ok(_) => Ok::<(u64, Seq<u8>), CryptoError>((0, Seq::empty())),
                    Err(e) => Err::<(u64, Seq<u8>), CryptoError>(e),
                },
            ),
            CryptoResponseView::HasherFinalize { res } => crypto_result_dec(
                crypto_response_enc(v),
                2,
            ) == Some(
                match res {
                    Ok(digest) => Ok::<(u64, Seq<u8>), CryptoError>((0, digest)),
                    Err(e) => Err::<(u64, Seq<u8>), CryptoError>(e),
                },
            ),
            CryptoResponseView::Secp256k1Recovery { res } => crypto_result_dec(
                crypto_response_enc(v),
                3,
            ) == Some(
                match res {
                    Ok(pk) => Ok::<(u64, Seq<u8>), CryptoError>((0, pk)),
                    Err(e) => Err::<(u64, Seq<u8>), CryptoError>(e),
                },
            ),
            CryptoResponseView::Secp256k1Verify { res } => crypto_result_dec(
                crypto_response_enc(v),
                4,
            ) == Some(
                match res {
                    Ok(_) => Ok::<(u64, Seq<u8>), CryptoError>((0, Seq::empty())),
                    Err(e) => Err::<(u64, Seq<u8>), CryptoError>(e),
                },
            ),
            CryptoResponseView::SchnorrVerify { res } => crypto_result_dec(
                crypto_response_enc(v),
                5,
            ) == Some(
                match res {
                    Ok(_) => Ok::<(u64, Seq<u8>), CryptoError>((0, Seq::empty())),
                    Err(e) => Err::<(u64, Seq<u8>), CryptoError>(e),
                },
            ),
            CryptoResponseView::Ed25519Verify { res } => crypto_result_dec(
                crypto_response_enc(v),
                6,
            ) == Some(
                match res {
                    Ok(_) => Ok::<(u64, Seq<u8>), CryptoError>((0, Seq::empty())),
                    Err(e) => Err::<(u64, Seq<u8>), CryptoError>(e),
                },
            ),
        },
{
    let s = crypto_response_enc(v);
    match v {
        CryptoResponseView::HasherNew { res } => match res {
            Ok(ctx) => {
                assert(s =~= vlq_bytes(0) + (vlq_bytes(0) + vlq_bytes(ctx as nat)));
                lemma_vlq_decode_prefix(0, vlq_bytes(0) + vlq_bytes(ctx as nat));
                let s1 = s.skip(vlq_used(s));
                assert(s1 =~= vlq_bytes(0) + vlq_bytes(ctx as nat));
                lemma_vlq_decode_prefix(0, vlq_bytes(ctx as nat));
                let s2 = s1.skip(vlq_used(s1));
                assert(s2 =~= vlq_bytes(ctx as nat) + Seq::<u8>::empty());
                lemma_vlq_decode_prefix(ctx, Seq::<u8>::empty());
            },
            Err(e) => {
                assert(s =~= vlq_bytes(0) + vlq_bytes(1) + vlq_bytes(crypto_error_value(e) as nat));
                lemma_crypto_error_arm(0, e);
            },
        },
        CryptoResponseView::HasherUpdate { res } => match res {
            Ok(_) => {
                assert(s =~= vlq_bytes(1) + vlq_bytes(0));
                lemma_crypto_unit_ok(1);
            },
            Err(e) => {
                assert(s =~= vlq_bytes(1) + vlq_bytes(1) + vlq_bytes(
                    crypto_error_value(e) as nat,
                ));
                lemma_crypto_error_arm(1, e);
            },
        },
        CryptoResponseView::HasherFinalize { res } => match res {
            Ok(digest) => {
                assert(s =~= vlq_bytes(2) + vlq_bytes(0) + enc_bytes(digest));
                lemma_crypto_bytes_ok(2, digest);
            },
            Err(e) => {
                assert(s =~= vlq_bytes(2) + vlq_bytes(1) + vlq_bytes(
                    crypto_error_value(e) as nat,
                ));
                lemma_crypto_error_arm(2, e);
            },
        },
        CryptoResponseView::Secp256k1Recovery { res } => match res {
            Ok(pk) => {
                assert(s =~= vlq_bytes(3) + vlq_bytes(0) + enc_bytes(pk));
                lemma_crypto_bytes_ok(3, pk);
            },
            Err(e) => {
                assert(s =~= vlq_bytes(3) + vlq_bytes(1) + vlq_bytes(
                    crypto_error_value(e) as nat,
                ));
                lemma_crypto_error_arm(3, e);
            },
        },
        CryptoResponseView::Secp256k1Verify { res } => match res {
            Ok(_) => {
                assert(s =~= vlq_bytes(4) + vlq_bytes(0));
                lemma_crypto_unit_ok(4);
            },
            Err(e) => {
                assert(s =~= vlq_bytes(4) + vlq_bytes(1) + vlq_bytes(
                    crypto_error_value(e) as nat,
                ));
                lemma_crypto_error_arm(4, e);
            },
        },
        CryptoResponseView::SchnorrVerify { res } => match res {
            Ok(_) => {
                assert(s =~= vlq_bytes(5) + vlq_bytes(0));
                lemma_crypto_unit_ok(5);
            },
            Err(e) => {
                assert(s =~= vlq_bytes(5) + vlq_bytes(1) + vlq_bytes(
                    crypto_error_value(e) as nat,
                ));
                lemma_crypto_error_arm(5, e);
            },
        },
        CryptoResponseView::Ed25519Verify { res } => match res {
            Ok(_) => {
                assert(s =~= vlq_bytes(6) + vlq_bytes(0));
                lemma_crypto_unit_ok(6);
            },
            Err(e) => {
                assert(s =~= vlq_bytes(6) + vlq_bytes(1) + vlq_bytes(
                    crypto_error_value(e) as nat,
                ));
                lemma_crypto_error_arm(6, e);
            },
        },
    }
}

/// A unit success envelope reads back as success with no value.
proof fn lemma_crypto_unit_ok(tag: u64)
    requires
        1 <= tag <= 6,
        tag != 2 && tag != 3,
    ensures
        crypto_result_dec(vlq_bytes(tag as nat) + vlq_bytes(0), tag) == Some(
            Ok::<(u64, Seq<u8>), CryptoError>((0, Seq::empty())),
        ),
{
    let s = vlq_bytes(tag as nat) + vlq_bytes(0);
    lemma_vlq_decode_prefix(tag, vlq_bytes(0));
    let s1 = s.skip(vlq_used(s));
    assert(s1 =~= vlq_bytes(0) + Seq::<u8>::empty());
    lemma_vlq_decode_prefix(0, Seq::<u8>::empty());
}

/// A byte-string success envelope reads back as success with the bytes.
proof fn lemma_crypto_bytes_ok(tag: u64, bytes: Seq<u8>)
    requires
        tag == 2 || tag == 3,
        bytes.len() <= usize::MAX,
    ensures
        crypto_result_dec(vlq_bytes(tag as nat) + vlq_bytes(0) + enc_bytes(bytes), tag) == Some(
            Ok::<(u64, Seq<u8>), CryptoError>((0, bytes)),
        ),
{
    let s = vlq_bytes(tag as nat) + vlq_bytes(0) + enc_bytes(bytes);
    assert(s =~= vlq_bytes(tag as nat) + (vlq_bytes(0) + enc_bytes(bytes)));
    lemma_vlq_decode_prefix(tag, vlq_bytes(0) + enc_bytes(bytes));
    let s1 = s.skip(vlq_used(s));
    assert(s1 =~= vlq_bytes(0) + enc_bytes(bytes));
    lemma_vlq_decode_prefix(0, enc_bytes(bytes));
    let s2 = s1.skip(vlq_used(s1));
    assert(s2 =~= enc_bytes(bytes) + Seq::<u8>::empty());
    crate::wire::lemma_bytes_round_trip(bytes, Seq::<u8>::empty());
}

/// A failure envelope reads back as the same service error.
proof fn lemma_crypto_error_arm(tag: u64, e: CryptoError)
    requires
        tag <= 6,
    ensures
        crypto_result_dec(
            vlq_bytes(tag as nat) + vlq_bytes(1) + vlq_bytes(crypto_error_value(e) as nat),
            tag,
        ) == Some(Err::<(u64, Seq<u8>), CryptoError>(e)),
{
    let s = vlq_bytes(tag as nat) + vlq_bytes(1) + vlq_bytes(crypto_error_value(e) as nat);
    assert(s =~= vlq_bytes(tag as nat) + (vlq_bytes(1) + vlq_bytes(crypto_error_value(e) as nat)));
    lemma_vlq_decode_prefix(tag, vlq_bytes(1) + vlq_bytes(crypto_error_value(e) as nat));
    let s1 = s.skip(vlq_used(s));
    assert(s1 =~= vlq_bytes(1) + vlq_bytes(crypto_error_value(e) as nat));
    lemma_vlq_decode_prefix(1, vlq_bytes(crypto_error_value(e) as nat));
    let s2 = s1.skip(vlq_used(s1));
    assert(s2 =~= vlq_bytes(crypto_error_value(e) as nat) + Seq::<u8>::empty());
    lemma_vlq_decode_prefix(crypto_error_value(e), Seq::<u8>::empty());
}

} // verus!
