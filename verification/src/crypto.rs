//! The example cryptography service: streaming hashers handed out as opaque
//! integer handles in a server-side arena, plus signature verification and
//! public-key recovery over a closed set of algorithms. A handle is created
//! fresh by `hasher_new`, fed by `hasher_update`, and retired by
//! `hasher_finalize`; a retired or unknown handle is reported as
//! `InvalidContext`, and no handle is ever reused.

use vstd::prelude::*;
use vstd::std_specs::btree::axiom_key_obeys_cmp_spec_meaning;

use std::collections::BTreeMap;

use ed25519_dalek::Verifier as Ed25519Verifier;
use k256::ecdsa::signature::hazmat::PrehashVerifier;
use k256::schnorr::signature::Verifier as SchnorrVerifier;

use crate::io::append_bytes;

verus! {

broadcast use vstd::laws_cmp::group_laws_cmp, axiom_key_obeys_cmp_spec_meaning;

/// A failure of the cryptography service, reported inside the response
/// payload as the method's own error.
#[derive(Debug, Clone, Copy, PartialEq, Eq, Structural)]
pub enum CryptoError {
    /// The handle names no live hasher.
    InvalidContext,
    /// The signature bytes do not parse.
    InvalidSig,
    /// The prehash bytes are unusable.
    InvalidPrehash,
    /// The recovery id is out of range.
    InvalidRecoveryId,
    /// No public key could be recovered.
    RecoveryFailed,
    /// The public-key bytes do not parse.
    InvalidPubkey,
    /// The signature does not verify.
    VerifyFailed,
}

/// The closed set of hash algorithms the service offers.
#[derive(Debug, Clone, Copy, PartialEq, Eq, Structural)]
pub enum HasherType {
    /// 32-byte BLAKE2b with the chain's personalization.
    CkbBlake2b,
    /// Plain 32-byte BLAKE2b.
    Blake2b,
    /// SHA-256.
    Sha256,
    /// RIPEMD-160.
    Ripemd160,
}

/// An opaque handle into the server-side arena of live hashers.
#[derive(Debug, Clone, Copy, PartialEq, Eq, Structural)]
pub struct HasherCtx(pub u64);

/// The cryptography service contract: hashing behind arena handles, plus
/// signature checks. Method results travel inside the response payload; the
/// channel-level error code stays 0 for them. The contract fixes the arena
/// semantics for every implementation, so the dispatcher's answers follow
/// from it.
pub trait CkbCrypto: Sized {
    /// The live hashers by handle: each holds its algorithm and the bytes
    /// absorbed so far.
    spec fn arena(&self) -> Map<u64, (HasherType, Seq<u8>)>;

    /// The handle the next `hasher_new` hands out.
    spec fn next_handle(&self) -> u64;

    /// Opens a fresh hasher of the given algorithm and hands back its
    /// handle: the current counter, which then increases; no earlier handle
    /// is disturbed. Only an exhausted handle space (beyond any real
    /// session) is reported as `InvalidContext`.
    fn hasher_new(&mut self, hash_type: HasherType) -> (r: Result<HasherCtx, CryptoError>)
        ensures
            old(self).next_handle() < u64::MAX ==> {
                &&& r == Ok::<HasherCtx, CryptoError>(HasherCtx(old(self).next_handle()))
                &&& final(self).arena() == old(self).arena().insert(
                    old(self).next_handle(),
                    (hash_type, Seq::<u8>::empty()),
                )
                &&& final(self).next_handle() == old(self).next_handle() + 1
            },
            old(self).next_handle() == u64::MAX ==> {
                &&& r == Err::<HasherCtx, CryptoError>(CryptoError::InvalidContext)
                &&& final(self).arena() == old(self).arena()
                &&& final(self).next_handle() == old(self).next_handle()
            },
    ;

    /// Feeds bytes to a live hasher, appending them to what it absorbed; an
    /// unknown or retired handle is `InvalidContext` and changes nothing.
    fn hasher_update(&mut self, ctx: HasherCtx, data: Vec<u8>) -> (r: Result<(), CryptoError>)
        ensures
            final(self).next_handle() == old(self).next_handle(),
            old(self).arena().contains_key(ctx.0) ==> {
                &&& r == Ok::<(), CryptoError>(())
                &&& final(self).arena() == old(self).arena().insert(
                    ctx.0,
                    (old(self).arena()[ctx.0].0, old(self).arena()[ctx.0].1 + data@),
                )
            },
            !old(self).arena().contains_key(ctx.0) ==> r == Err::<(), CryptoError>(
                CryptoError::InvalidContext,
            ) && final(self).arena() == old(self).arena(),
    ;

    /// Retires a live hasher and hands back the digest of everything it
    /// absorbed; an unknown or retired handle is `InvalidContext` and
    /// changes nothing.
    fn hasher_finalize(&mut self, ctx: HasherCtx) -> (r: Result<Vec<u8>, CryptoError>)
        ensures
            final(self).next_handle() == old(self).next_handle(),
            old(self).arena().contains_key(ctx.0) ==> {
                &&& (r matches Ok(v) && v@ == digest_of(
                    old(self).arena()[ctx.0].0,
                    old(self).arena()[ctx.0].1,
                ))
                &&& final(self).arena() == old(self).arena().remove(ctx.0)
            },
            !old(self).arena().contains_key(ctx.0) ==> r == Err::<Vec<u8>, CryptoError>(
                CryptoError::InvalidContext,
            ) && final(self).arena() == old(self).arena(),
    ;

    /// Recovers the SEC1 public key that signed the prehash; the arena is
    /// untouched.
    fn secp256k1_recovery(
        &mut self,
        prehash: Vec<u8>,
        signature: Vec<u8>,
        recovery_id: u8,
    ) -> (r: Result<Vec<u8>, CryptoError>)
        ensures
            final(self).arena() == old(self).arena(),
            final(self).next_handle() == old(self).next_handle(),
            match r {
                Ok(v) => secp256k1_sig_ok(signature@) && recovery_id < 4 && secp256k1_recover_of(
                    prehash@,
                    signature@,
                    recovery_id,
                ) == Some(v@),
                Err(e) => {
                    ||| (e == CryptoError::InvalidSig && !secp256k1_sig_ok(signature@))
                    ||| (e == CryptoError::InvalidRecoveryId && secp256k1_sig_ok(signature@)
                        && recovery_id >= 4)
                    ||| (e == CryptoError::RecoveryFailed && secp256k1_sig_ok(signature@)
                        && recovery_id < 4 && secp256k1_recover_of(
                        prehash@,
                        signature@,
                        recovery_id,
                    ) is None)
                },
            },
    ;

    /// Verifies an ECDSA signature over a prehash; the arena is untouched.
    fn secp256k1_verify(
        &mut self,
        public_key: Vec<u8>,
        prehash: Vec<u8>,
        signature: Vec<u8>,
    ) -> (r: Result<(), CryptoError>)
        ensures
            final(self).arena() == old(self).arena(),
            final(self).next_handle() == old(self).next_handle(),
            match r {
                Ok(_) => secp256k1_sig_ok(signature@) && secp256k1_pubkey_ok(public_key@)
                    && secp256k1_verify_of(public_key@, prehash@, signature@),
                Err(e) => {
                    ||| (e == CryptoError::InvalidSig && !secp256k1_sig_ok(signature@))
                    ||| (e == CryptoError::InvalidPubkey && secp256k1_sig_ok(signature@)
                        && !secp256k1_pubkey_ok(public_key@))
                    ||| (e == CryptoError::VerifyFailed && secp256k1_sig_ok(signature@)
                        && secp256k1_pubkey_ok(public_key@) && !secp256k1_verify_of(
                        public_key@,
                        prehash@,
                        signature@,
                    ))
                },
            },
    ;

    /// Verifies a Schnorr signature over a message; the arena is untouched.
    fn schnorr_verify(
        &mut self,
        public_key: Vec<u8>,
        message: Vec<u8>,
        signature: Vec<u8>,
    ) -> (r: Result<(), CryptoError>)
        ensures
            final(self).arena() == old(self).arena(),
            final(self).next_handle() == old(self).next_handle(),
            match r {
                Ok(_) => schnorr_sig_ok(signature@) && schnorr_pubkey_ok(public_key@)
                    && schnorr_verify_of(public_key@, message@, signature@),
                Err(e) => {
                    ||| (e == CryptoError::InvalidSig && !schnorr_sig_ok(signature@))
                    ||| (e == CryptoError::InvalidPubkey && schnorr_sig_ok(signature@)
                        && !schnorr_pubkey_ok(public_key@))
                    ||| (e == CryptoError::VerifyFailed && schnorr_sig_ok(signature@)
                        && schnorr_pubkey_ok(public_key@) && !schnorr_verify_of(
                        public_key@,
                        message@,
                        signature@,
                    ))
                },
            },
    ;

    /// Verifies an Ed25519 signature over a message; the arena is untouched.
    fn ed25519_verify(
        &mut self,
        public_key: Vec<u8>,
        message: Vec<u8>,
        signature: Vec<u8>,
    ) -> (r: Result<(), CryptoError>)
        ensures
            final(self).arena() == old(self).arena(),
            final(self).next_handle() == old(self).next_handle(),
            match r {
                Ok(_) => public_key@.len() == 32 && signature@.len() == 64 && ed25519_pubkey_ok(
                    public_key@,
                ) && ed25519_verify_of(public_key@, message@, signature@),
                Err(e) => {
                    ||| (e == CryptoError::InvalidPubkey && public_key@.len() != 32)
                    ||| (e == CryptoError::InvalidSig && public_key@.len() == 32
                        && signature@.len() != 64)
                    ||| (e == CryptoError::InvalidPubkey && public_key@.len() == 32
                        && signature@.len() == 64 && !ed25519_pubkey_ok(public_key@))
                    ||| (e == CryptoError::VerifyFailed && public_key@.len() == 32
                        && signature@.len() == 64 && ed25519_pubkey_ok(public_key@)
                        && !ed25519_verify_of(public_key@, message@, signature@))
                },
            },
    ;
}

/// The digest of the bytes absorbed so far by a 32-byte BLAKE2b hasher with
/// the chain's personalization.
pub uninterp spec fn ckb_blake2b_of(data: Seq<u8>) -> Seq<u8>;

/// The digest of the bytes absorbed so far by a plain 32-byte BLAKE2b hasher.
pub uninterp spec fn blake2b_of(data: Seq<u8>) -> Seq<u8>;

/// The SHA-256 digest of a byte sequence.
pub uninterp spec fn sha256_of(data: Seq<u8>) -> Seq<u8>;

/// The RIPEMD-160 digest of a byte sequence.
pub uninterp spec fn ripemd160_of(data: Seq<u8>) -> Seq<u8>;

/// Whether the bytes parse as an ECDSA/secp256k1 signature.
pub uninterp spec fn secp256k1_sig_ok(sig: Seq<u8>) -> bool;

/// Whether the bytes parse as a SEC1-encoded secp256k1 public key.
pub uninterp spec fn secp256k1_pubkey_ok(pk: Seq<u8>) -> bool;

/// The SEC1 bytes of the public key recovered from a prehash, a signature
/// and a recovery id, where one exists.
pub uninterp spec fn secp256k1_recover_of(prehash: Seq<u8>, sig: Seq<u8>, rid: u8) -> Option<
    Seq<u8>,
>;

/// Whether an ECDSA/secp256k1 signature verifies against a public key and a
/// prehash.
pub uninterp spec fn secp256k1_verify_of(pk: Seq<u8>, prehash: Seq<u8>, sig: Seq<u8>) -> bool;

/// Whether the bytes parse as a Schnorr/secp256k1 signature.
pub uninterp spec fn schnorr_sig_ok(sig: Seq<u8>) -> bool;

/// Whether the bytes parse as an x-only Schnorr public key.
pub uninterp spec fn schnorr_pubkey_ok(pk: Seq<u8>) -> bool;

/// Whether a Schnorr signature verifies against a public key and a message.
pub uninterp spec fn schnorr_verify_of(pk: Seq<u8>, msg: Seq<u8>, sig: Seq<u8>) -> bool;

/// Whether 32 bytes parse as an Ed25519 public key.
pub uninterp spec fn ed25519_pubkey_ok(pk: Seq<u8>) -> bool;

/// Whether an Ed25519 signature verifies against a public key and a message.
pub uninterp spec fn ed25519_verify_of(pk: Seq<u8>, msg: Seq<u8>, sig: Seq<u8>) -> bool;

/// The digest an algorithm yields for the bytes absorbed by a hasher.
pub open spec fn digest_of(t: HasherType, data: Seq<u8>) -> Seq<u8> {
    match t {
        HasherType::CkbBlake2b => ckb_blake2b_of(data),
        HasherType::Blake2b => blake2b_of(data),
        HasherType::Sha256 => sha256_of(data),
        HasherType::Ripemd160 => ripemd160_of(data),
    }
}

/// Relies on blake2b_ref::Blake2bBuilder: a 32-byte BLAKE2b digest under the
/// chain's fixed personalization, a function of the input alone.
#[verifier::external_body]
fn ckb_blake2b_digest(data: &[u8]) -> (r: Vec<u8>)
    ensures
        r@ == ckb_blake2b_of(data@),
        r@.len() == 32,
{
    let mut hasher = blake2b_ref::Blake2bBuilder::new(32).personal(b"ckb-default-hash").build();
    hasher.update(data);
    let mut buf = [0u8; 32];
    hasher.finalize(&mut buf);
    buf.to_vec()
}

/// Relies on blake2b_ref::Blake2bBuilder: a plain 32-byte BLAKE2b digest, a
/// function of the input alone.
#[verifier::external_body]
fn blake2b_digest(data: &[u8]) -> (r: Vec<u8>)
    ensures
        r@ == blake2b_of(data@),
        r@.len() == 32,
{
    let mut hasher = blake2b_ref::Blake2bBuilder::new(32).build();
    hasher.update(data);
    let mut buf = [0u8; 32];
    hasher.finalize(&mut buf);
    buf.to_vec()
}

/// Relies on sha2::Sha256: the 32-byte SHA-256 digest, a function of the
/// input alone.
#[verifier::external_body]
fn sha256_digest(data: &[u8]) -> (r: Vec<u8>)
    ensures
        r@ == sha256_of(data@),
        r@.len() == 32,
{
    let digest = <sha2::Sha256 as sha2::Digest>::digest(data);
    digest.to_vec()
}

/// Relies on ripemd::Ripemd160: the 20-byte RIPEMD-160 digest, a function of
/// the input alone.
#[verifier::external_body]
fn ripemd160_digest(data: &[u8]) -> (r: Vec<u8>)
    ensures
        r@ == ripemd160_of(data@),
        r@.len() == 20,
{
    let digest = <ripemd::Ripemd160 as ripemd::Digest>::digest(data);
    digest.to_vec()
}

/// Relies on k256's ecdsa signature parsing (`Signature::from_slice`),
/// `RecoveryId::from_byte` (in range exactly below 4) and
/// `VerifyingKey::recover_from_prehash`: all functions of the arguments
/// alone.
#[verifier::external_body]
fn secp256k1_recover(prehash: &[u8], signature: &[u8], recovery_id: u8) -> (r: Result<
    Vec<u8>,
    CryptoError,
>)
    ensures
        match r {
            Ok(v) => secp256k1_sig_ok(signature@) && recovery_id < 4 && secp256k1_recover_of(
                prehash@,
                signature@,
                recovery_id,
            ) == Some(v@),
            Err(e) => {
                ||| (e == CryptoError::InvalidSig && !secp256k1_sig_ok(signature@))
                ||| (e == CryptoError::InvalidRecoveryId && secp256k1_sig_ok(signature@)
                    && recovery_id >= 4)
                ||| (e == CryptoError::RecoveryFailed && secp256k1_sig_ok(signature@)
                    && recovery_id < 4 && secp256k1_recover_of(prehash@, signature@, recovery_id)
                    is None)
            },
        },
{
    let sig = match k256::ecdsa::Signature::from_slice(signature) {
        Ok(s) => s,
        Err(_) => return Err(CryptoError::InvalidSig),
    };
    let rid = match k256::ecdsa::RecoveryId::from_byte(recovery_id) {
        Some(r) => r,
        None => return Err(CryptoError::InvalidRecoveryId),
    };
    match k256::ecdsa::VerifyingKey::recover_from_prehash(prehash, &sig, rid) {
        Ok(vk) => Ok(vk.to_sec1_bytes().to_vec()),
        Err(_) => Err(CryptoError::RecoveryFailed),
    }
}

/// Relies on k256's ecdsa signature and SEC1 public-key parsing and
/// `verify_prehash`: all functions of the arguments alone.
#[verifier::external_body]
fn secp256k1_check(public_key: &[u8], prehash: &[u8], signature: &[u8]) -> (r: Result<
    (),
    CryptoError,
>)
    ensures
        match r {
            Ok(_) => secp256k1_sig_ok(signature@) && secp256k1_pubkey_ok(public_key@)
                && secp256k1_verify_of(public_key@, prehash@, signature@),
            Err(e) => {
                ||| (e == CryptoError::InvalidSig && !secp256k1_sig_ok(signature@))
                ||| (e == CryptoError::InvalidPubkey && secp256k1_sig_ok(signature@)
                    && !secp256k1_pubkey_ok(public_key@))
                ||| (e == CryptoError::VerifyFailed && secp256k1_sig_ok(signature@)
                    && secp256k1_pubkey_ok(public_key@) && !secp256k1_verify_of(
                    public_key@,
                    prehash@,
                    signature@,
                ))
            },
        },
{
    let sig = match k256::ecdsa::Signature::from_slice(signature) {
        Ok(s) => s,
        Err(_) => return Err(CryptoError::InvalidSig),
    };
    let vk = match k256::ecdsa::VerifyingKey::from_sec1_bytes(public_key) {
        Ok(k) => k,
        Err(_) => return Err(CryptoError::InvalidPubkey),
    };
    vk.verify_prehash(prehash, &sig).map_err(|_| CryptoError::VerifyFailed)
}

/// Relies on k256's Schnorr signature and x-only public-key parsing and
/// `verify`: all functions of the arguments alone.
#[verifier::external_body]
fn schnorr_check(public_key: &[u8], message: &[u8], signature: &[u8]) -> (r: Result<
    (),
    CryptoError,
>)
    ensures
        match r {
            Ok(_) => schnorr_sig_ok(signature@) && schnorr_pubkey_ok(public_key@)
                && schnorr_verify_of(public_key@, message@, signature@),
            Err(e) => {
                ||| (e == CryptoError::InvalidSig && !schnorr_sig_ok(signature@))
                ||| (e == CryptoError::InvalidPubkey && schnorr_sig_ok(signature@)
                    && !schnorr_pubkey_ok(public_key@))
                ||| (e == CryptoError::VerifyFailed && schnorr_sig_ok(signature@)
                    && schnorr_pubkey_ok(public_key@) && !schnorr_verify_of(
                    public_key@,
                    message@,
                    signature@,
                ))
            },
        },
{
    let sig = match k256::schnorr::Signature::try_from(signature) {
        Ok(s) => s,
        Err(_) => return Err(CryptoError::InvalidSig),
    };
    let vk = match k256::schnorr::VerifyingKey::from_slice(public_key) {
        Ok(k) => k,
        Err(_) => return Err(CryptoError::InvalidPubkey),
    };
    vk.verify(message, &sig).map_err(|_| CryptoError::VerifyFailed)
}

/// Relies on ed25519-dalek: a signature parses exactly when it is 64 bytes;
/// key parsing and `verify` are functions of the arguments alone.
#[verifier::external_body]
fn ed25519_check(public_key: &[u8], message: &[u8], signature: &[u8]) -> (r: Result<
    (),
    CryptoError,
>)
    requires
        public_key@.len() == 32,
    ensures
        match r {
            Ok(_) => signature@.len() == 64 && ed25519_pubkey_ok(public_key@) && ed25519_verify_of(
                public_key@,
                message@,
                signature@,
            ),
            Err(e) => {
                ||| (e == CryptoError::InvalidSig && signature@.len() != 64)
                ||| (e == CryptoError::InvalidPubkey && signature@.len() == 64
                    && !ed25519_pubkey_ok(public_key@))
                ||| (e == CryptoError::VerifyFailed && signature@.len() == 64 && ed25519_pubkey_ok(
                    public_key@,
                ) && !ed25519_verify_of(public_key@, message@, signature@))
            },
        },
{
    let sig = match ed25519_dalek::Signature::from_slice(signature) {
        Ok(s) => s,
        Err(_) => return Err(CryptoError::InvalidSig),
    };
    let mut key = [0u8; 32];
    key.copy_from_slice(public_key);
    let vk = match ed25519_dalek::VerifyingKey::from_bytes(&key) {
        Ok(k) => k,
        Err(_) => return Err(CryptoError::InvalidPubkey),
    };
    vk.verify(message, &sig).map_err(|_| CryptoError::VerifyFailed)
}

/// One live hasher: its algorithm and the bytes absorbed so far.
struct HasherState {
    alg: HasherType,
    data: Vec<u8>,
}

/// The arena of live hashers keyed by handle, with the monotonically
/// increasing next handle.
struct HasherArena {
    hashers: BTreeMap<u64, HasherState>,
    count: u64,
}

impl HasherArena {
    /// Every live handle was allocated before the next one: retired handles
    /// are never reused.
    #[verifier::type_invariant]
    spec fn wf(self) -> bool {
        forall|k: u64| #[trigger] self.hashers@.contains_key(k) ==> k < self.count
    }
}

/// The server-side state of the cryptography service.
pub struct CryptoServer {
    st: HasherArena,
}

impl CryptoServer {
    /// A service with no live hashers.
    pub fn new() -> (r: CryptoServer)
        ensures
            r.arena() == Map::<u64, (HasherType, Seq<u8>)>::empty(),
            r.next_handle() == 0,
    {
        let r = CryptoServer { st: HasherArena { hashers: BTreeMap::new(), count: 0 } };
        proof {
            assert(r.arena() =~= Map::<u64, (HasherType, Seq<u8>)>::empty());
        }
        r
    }
}

impl CkbCrypto for CryptoServer {
    closed spec fn arena(&self) -> Map<u64, (HasherType, Seq<u8>)> {
        self.st.hashers@.map_values(|h: HasherState| (h.alg, h.data@))
    }

    closed spec fn next_handle(&self) -> u64 {
        self.st.count
    }

    /// Freshness, beyond the contract: the handle handed out was never live
    /// before.
    fn hasher_new(&mut self, hash_type: HasherType) -> (r: Result<HasherCtx, CryptoError>)
        ensures
            !old(self).arena().contains_key(old(self).next_handle()),
    {
        proof {
            use_type_invariant(&self.st);
        }
        if self.st.count == u64::MAX {
            return Err(CryptoError::InvalidContext);
        }
        let id = self.st.count;
        let mut m: BTreeMap<u64, HasherState> = BTreeMap::new();
        core::mem::swap(&mut m, &mut self.st.hashers);
        m.insert(id, HasherState { alg: hash_type, data: Vec::new() });
        self.st.count = id + 1;
        core::mem::swap(&mut m, &mut self.st.hashers);
        proof {
            assert(self.arena() =~= old(self).arena().insert(id, (hash_type, Seq::<u8>::empty())));
        }
        Ok(HasherCtx(id))
    }

    fn hasher_update(&mut self, ctx: HasherCtx, data: Vec<u8>) -> (r: Result<(), CryptoError>) {
        proof {
            use_type_invariant(&self.st);
        }
        let mut m: BTreeMap<u64, HasherState> = BTreeMap::new();
        core::mem::swap(&mut m, &mut self.st.hashers);
        let r = match m.remove(&ctx.0) {
            Some(mut h) => {
                append_bytes(&mut h.data, data.as_slice());
                m.insert(ctx.0, h);
                Ok(())
            },
            None => Err(CryptoError::InvalidContext),
        };
        core::mem::swap(&mut m, &mut self.st.hashers);
        proof {
            if old(self).arena().contains_key(ctx.0) {
                assert(self.arena() =~= old(self).arena().insert(
                    ctx.0,
                    (old(self).arena()[ctx.0].0, old(self).arena()[ctx.0].1 + data@),
                ));
            } else {
                assert(self.st.hashers@ =~= old(self).st.hashers@);
                assert(self.arena() =~= old(self).arena());
            }
        }
        r
    }

    fn hasher_finalize(&mut self, ctx: HasherCtx) -> (r: Result<Vec<u8>, CryptoError>) {
        proof {
            use_type_invariant(&self.st);
        }
        let mut m: BTreeMap<u64, HasherState> = BTreeMap::new();
        core::mem::swap(&mut m, &mut self.st.hashers);
        let r = match m.remove(&ctx.0) {
            Some(h) => {
                let digest = match h.alg {
                    HasherType::CkbBlake2b => ckb_blake2b_digest(h.data.as_slice()),
                    HasherType::Blake2b => blake2b_digest(h.data.as_slice()),
                    HasherType::Sha256 => sha256_digest(h.data.as_slice()),
                    HasherType::Ripemd160 => ripemd160_digest(h.data.as_slice()),
                };
                Ok(digest)
            },
            None => Err(CryptoError::InvalidContext),
        };
        core::mem::swap(&mut m, &mut self.st.hashers);
        proof {
            if old(self).arena().contains_key(ctx.0) {
                assert(self.arena() =~= old(self).arena().remove(ctx.0));
            } else {
                assert(self.st.hashers@ =~= old(self).st.hashers@);
                assert(self.arena() =~= old(self).arena());
            }
        }
        r
    }

    fn secp256k1_recovery(
        &mut self,
        prehash: Vec<u8>,
        signature: Vec<u8>,
        recovery_id: u8,
    ) -> (r: Result<Vec<u8>, CryptoError>) {
        secp256k1_recover(prehash.as_slice(), signature.as_slice(), recovery_id)
    }

    fn secp256k1_verify(
        &mut self,
        public_key: Vec<u8>,
        prehash: Vec<u8>,
        signature: Vec<u8>,
    ) -> (r: Result<(), CryptoError>) {
        secp256k1_check(public_key.as_slice(), prehash.as_slice(), signature.as_slice())
    }

    fn schnorr_verify(
        &mut self,
        public_key: Vec<u8>,
        message: Vec<u8>,
        signature: Vec<u8>,
    ) -> (r: Result<(), CryptoError>) {
        schnorr_check(public_key.as_slice(), message.as_slice(), signature.as_slice())
    }

    fn ed25519_verify(
        &mut self,
        public_key: Vec<u8>,
        message: Vec<u8>,
        signature: Vec<u8>,
    ) -> (r: Result<(), CryptoError>) {
        if public_key.len() != 32 {
            return Err(CryptoError::InvalidPubkey);
        }
        ed25519_check(public_key.as_slice(), message.as_slice(), signature.as_slice())
    }
}

} // verus!
