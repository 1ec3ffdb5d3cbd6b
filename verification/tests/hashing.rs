//! The cryptography service: arena handle lifecycle, digests against known
//! vectors, and signature verification against freshly produced signatures.

use ckb_script_ipc::channel::Channel;
use ckb_script_ipc::crypto::{CkbCrypto, CryptoError, CryptoServer, HasherType};
use ckb_script_ipc::crypto_ipc::{CkbCryptoClient, ServeCkbCrypto};
use ckb_script_ipc::error::IpcError;
use ckb_script_ipc::ipc::Serve;
use ed25519_dalek::Signer;
use k256::ecdsa::signature::hazmat::PrehashSigner;
use k256::schnorr::signature::Signer as SchnorrSigner;

fn hex_to_bytes(s: &str) -> Vec<u8> {
    hex::decode(s).unwrap()
}

#[test]
fn test_sha256_known_vector() {
    let mut server = CryptoServer::new();
    let ctx = server.hasher_new(HasherType::Sha256).unwrap();
    server.hasher_update(ctx, b"abc".to_vec()).unwrap();
    let digest = server.hasher_finalize(ctx).unwrap();
    assert_eq!(
        digest,
        hex_to_bytes("ba7816bf8f01cfea414140de5dae2223b00361a396177a9cb410ff61f20015ad")
    );
}

#[test]
fn test_sha256_empty_vector() {
    let mut server = CryptoServer::new();
    let ctx = server.hasher_new(HasherType::Sha256).unwrap();
    let digest = server.hasher_finalize(ctx).unwrap();
    assert_eq!(
        digest,
        hex_to_bytes("e3b0c44298fc1c149afbf4c8996fb92427ae41e4649b934ca495991b7852b855")
    );
}

#[test]
fn test_ripemd160_known_vector() {
    let mut server = CryptoServer::new();
    let ctx = server.hasher_new(HasherType::Ripemd160).unwrap();
    server.hasher_update(ctx, b"abc".to_vec()).unwrap();
    let digest = server.hasher_finalize(ctx).unwrap();
    assert_eq!(digest, hex_to_bytes("8eb208f7e05d987a9b044a8e98c6b087f15a0bfc"));
}

#[test]
fn test_streaming_matches_one_shot() {
    // feeding a hasher piecewise absorbs the concatenation
    let mut server = CryptoServer::new();
    let piecewise = server.hasher_new(HasherType::Blake2b).unwrap();
    server.hasher_update(piecewise, b"a".to_vec()).unwrap();
    server.hasher_update(piecewise, b"bc".to_vec()).unwrap();
    let one_shot = server.hasher_new(HasherType::Blake2b).unwrap();
    server.hasher_update(one_shot, b"abc".to_vec()).unwrap();
    let d1 = server.hasher_finalize(piecewise).unwrap();
    let d2 = server.hasher_finalize(one_shot).unwrap();
    assert_eq!(d1, d2);
    assert_eq!(d1.len(), 32);
}

#[test]
fn test_personalized_blake2b_differs() {
    let mut server = CryptoServer::new();
    let plain = server.hasher_new(HasherType::Blake2b).unwrap();
    let personalized = server.hasher_new(HasherType::CkbBlake2b).unwrap();
    server.hasher_update(plain, b"data".to_vec()).unwrap();
    server.hasher_update(personalized, b"data".to_vec()).unwrap();
    let d1 = server.hasher_finalize(plain).unwrap();
    let d2 = server.hasher_finalize(personalized).unwrap();
    assert_eq!(d1.len(), 32);
    assert_eq!(d2.len(), 32);
    assert_ne!(d1, d2);
}

#[test]
fn test_handles_are_fresh_and_never_reused() {
    let mut server = CryptoServer::new();
    let a = server.hasher_new(HasherType::Sha256).unwrap();
    let b = server.hasher_new(HasherType::Sha256).unwrap();
    assert_ne!(a.0, b.0);
    server.hasher_finalize(a).unwrap();
    // a retired handle is gone for good
    assert!(matches!(
        server.hasher_update(a, b"x".to_vec()),
        Err(CryptoError::InvalidContext)
    ));
    assert!(matches!(
        server.hasher_finalize(a),
        Err(CryptoError::InvalidContext)
    ));
    // and a later handle is fresh, not a reuse of the retired one
    let c = server.hasher_new(HasherType::Sha256).unwrap();
    assert_ne!(c.0, a.0);
    assert_ne!(c.0, b.0);
}

#[test]
fn test_unknown_handle_rejected() {
    let mut server = CryptoServer::new();
    assert!(matches!(
        server.hasher_update(ckb_script_ipc::crypto::HasherCtx(42), b"x".to_vec()),
        Err(CryptoError::InvalidContext)
    ));
}

#[test]
fn test_secp256k1_verify_and_recover() {
    let sk = k256::ecdsa::SigningKey::from_slice(&[1u8; 32]).unwrap();
    let prehash = [0x42u8; 32];
    let (sig, rid) = sk.sign_prehash_recoverable(&prehash);
    let pk_bytes = sk.verifying_key().to_sec1_bytes().to_vec();

    let mut server = CryptoServer::new();
    server
        .secp256k1_verify(pk_bytes.clone(), prehash.to_vec(), sig.to_vec())
        .unwrap();
    // recovery gives the same key back
    let recovered = server
        .secp256k1_recovery(prehash.to_vec(), sig.to_vec(), rid.to_byte())
        .unwrap();
    assert_eq!(recovered, pk_bytes);
    // a corrupted prehash fails verification
    let mut bad = prehash;
    bad[0] ^= 1;
    assert!(matches!(
        server.secp256k1_verify(pk_bytes.clone(), bad.to_vec(), sig.to_vec()),
        Err(CryptoError::VerifyFailed)
    ));
    // unparsable signature bytes
    assert!(matches!(
        server.secp256k1_verify(pk_bytes, prehash.to_vec(), vec![1, 2, 3]),
        Err(CryptoError::InvalidSig)
    ));
    // an out-of-range recovery id
    let _ = PrehashSigner::<k256::ecdsa::Signature>::sign_prehash(&sk, &prehash).unwrap();
    assert!(matches!(
        server.secp256k1_recovery(prehash.to_vec(), sig.to_vec(), 9),
        Err(CryptoError::InvalidRecoveryId)
    ));
}

#[test]
fn test_schnorr_verify() {
    let sk = k256::schnorr::SigningKey::from_bytes((&[1u8; 32]).into()).unwrap();
    let msg = b"schnorr message";
    let sig = SchnorrSigner::sign(&sk, msg);
    let pk = sk.verifying_key().to_bytes().to_vec();
    let mut server = CryptoServer::new();
    server
        .schnorr_verify(pk.clone(), msg.to_vec(), sig.to_bytes().to_vec())
        .unwrap();
    assert!(matches!(
        server.schnorr_verify(pk, b"other message".to_vec(), sig.to_bytes().to_vec()),
        Err(CryptoError::VerifyFailed)
    ));
}

#[test]
fn test_ed25519_verify() {
    let sk = ed25519_dalek::SigningKey::from_bytes(&[7u8; 32]);
    let msg = b"ed25519 message";
    let sig = sk.sign(msg);
    let pk = sk.verifying_key().to_bytes().to_vec();
    let mut server = CryptoServer::new();
    server
        .ed25519_verify(pk.clone(), msg.to_vec(), sig.to_bytes().to_vec())
        .unwrap();
    // a corrupted message fails verification
    assert!(matches!(
        server.ed25519_verify(pk.clone(), b"tampered".to_vec(), sig.to_bytes().to_vec()),
        Err(CryptoError::VerifyFailed)
    ));
    // a signature of the wrong length never parses
    assert!(matches!(
        server.ed25519_verify(pk.clone(), msg.to_vec(), vec![0u8; 63]),
        Err(CryptoError::InvalidSig)
    ));
    // a key of the wrong length never parses
    assert!(matches!(
        server.ed25519_verify(vec![0u8; 31], msg.to_vec(), sig.to_bytes().to_vec()),
        Err(CryptoError::InvalidPubkey)
    ));
}

/// One server turn of the cryptography service: reads one request frame,
/// dispatches it, and hands back the response frame.
fn crypto_server_turn(
    serve: &mut ServeCkbCrypto<CryptoServer>,
    request: &[u8],
) -> Vec<u8> {
    let mut ch = Channel::new(request, Vec::new());
    let req = ch.receive_request().unwrap();
    match serve.serve(&req) {
        Ok(resp) => ch.send_response(&resp).unwrap(),
        Err(e) => ch.send_error_code(e.protocol_code()).unwrap(),
    }
    ch.into_writer()
}

#[test]
fn test_crypto_service_end_to_end() {
    let mut serve = ServeCkbCrypto::new(CryptoServer::new());

    // first pass records the stub's request; the call itself fails on the
    // empty response stream
    let mut probe = CkbCryptoClient::new(&[][..], Vec::new());
    let _ = probe.hasher_new(HasherType::Sha256);
    let request = probe.into_channel().into_writer();
    let responses = crypto_server_turn(&mut serve, &request);
    // second pass makes the same call against the recorded response
    let mut client = CkbCryptoClient::new(&responses[..], Vec::new());
    let ctx = client.hasher_new(HasherType::Sha256).unwrap().unwrap();

    let mut probe = CkbCryptoClient::new(&[][..], Vec::new());
    let _ = probe.hasher_update(ctx, b"abc".to_vec());
    let request = probe.into_channel().into_writer();
    let responses = crypto_server_turn(&mut serve, &request);
    let mut client = CkbCryptoClient::new(&responses[..], Vec::new());
    client.hasher_update(ctx, b"abc".to_vec()).unwrap().unwrap();

    let mut probe = CkbCryptoClient::new(&[][..], Vec::new());
    let _ = probe.hasher_finalize(ctx);
    let request = probe.into_channel().into_writer();
    let responses = crypto_server_turn(&mut serve, &request);
    let mut client = CkbCryptoClient::new(&responses[..], Vec::new());
    let digest = client.hasher_finalize(ctx).unwrap().unwrap();
    assert_eq!(
        digest,
        hex_to_bytes("ba7816bf8f01cfea414140de5dae2223b00361a396177a9cb410ff61f20015ad")
    );

    // the retired handle is rejected through the whole envelope
    let mut probe = CkbCryptoClient::new(&[][..], Vec::new());
    let _ = probe.hasher_finalize(ctx);
    let request = probe.into_channel().into_writer();
    let responses = crypto_server_turn(&mut serve, &request);
    let mut client = CkbCryptoClient::new(&responses[..], Vec::new());
    let err = client.hasher_finalize(ctx).unwrap().unwrap_err();
    assert_eq!(err, CryptoError::InvalidContext);
}

#[test]
fn test_crypto_dispatcher_rejects_garbage() {
    let mut serve = ServeCkbCrypto::new(CryptoServer::new());
    assert!(matches!(
        serve.serve(&[200, 200]),
        Err(IpcError::DeserializeError)
    ));
    // an unknown variant tag
    assert!(matches!(serve.serve(&[9]), Err(IpcError::DeserializeError)));
}
