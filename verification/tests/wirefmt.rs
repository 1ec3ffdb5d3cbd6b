//! The payload codec of the service-contract layer.

use ckb_script_ipc::error::IpcError;
use ckb_script_ipc::ipc::Serve;
use ckb_script_ipc::wire::{
    read_bytes_field, read_str_field, read_u64_field, write_bytes, write_str, write_u64,
};
use ckb_script_ipc::naming::snake_to_camel;
use ckb_script_ipc::world::{World, WorldServer};

#[test]
fn test_snake_to_camel() {
    assert_eq!(snake_to_camel("hello_world"), "HelloWorld");
    assert_eq!(snake_to_camel("hello"), "Hello");
    assert_eq!(snake_to_camel("HELLO_wORLD"), "HelloWorld");
    assert_eq!(snake_to_camel("a_b_c"), "ABC");
    assert_eq!(snake_to_camel(""), "");
}

#[test]
fn test_wire_u64_roundtrip() {
    let mut out = Vec::new();
    write_u64(&mut out, 0);
    write_u64(&mut out, 300);
    write_u64(&mut out, u64::MAX);
    let mut input: &[u8] = &out;
    assert_eq!(read_u64_field(&mut input).unwrap(), 0);
    assert_eq!(read_u64_field(&mut input).unwrap(), 300);
    assert_eq!(read_u64_field(&mut input).unwrap(), u64::MAX);
    assert!(input.is_empty());
}

#[test]
fn test_wire_str_roundtrip() {
    let mut out = Vec::new();
    write_str(&mut out, "hällo wörld");
    write_str(&mut out, "");
    let mut input: &[u8] = &out;
    assert_eq!(read_str_field(&mut input).unwrap(), "hällo wörld");
    assert_eq!(read_str_field(&mut input).unwrap(), "");
    assert!(input.is_empty());
}

#[test]
fn test_wire_str_rejects_invalid_utf8() {
    let mut out = Vec::new();
    write_bytes(&mut out, &[0xff, 0xfe]);
    let mut input: &[u8] = &out;
    assert!(read_str_field(&mut input).is_err());
}

#[test]
fn test_wire_bytes_roundtrip() {
    let mut out = Vec::new();
    write_bytes(&mut out, &[1, 2, 3]);
    write_bytes(&mut out, &[]);
    let mut input: &[u8] = &out;
    assert_eq!(read_bytes_field(&mut input).unwrap(), vec![1, 2, 3]);
    assert_eq!(read_bytes_field(&mut input).unwrap(), Vec::<u8>::new());
    assert!(input.is_empty());
}

#[test]
fn test_wire_bytes_truncated_fails() {
    let mut out = Vec::new();
    write_bytes(&mut out, &[1, 2, 3, 4]);
    let mut input: &[u8] = &out[..3];
    assert!(read_bytes_field(&mut input).is_err());
}

#[test]
fn test_dispatcher_is_total_and_rejects_garbage() {
    let mut serve = WorldServer::new().server();
    // a well-formed request: variant 0, then the name as a length-prefixed
    // string
    let mut req = Vec::new();
    write_u64(&mut req, 0);
    write_str(&mut req, "bob");
    let resp = serve.serve(&req).unwrap();
    // response: variant 0, result tag 0, then the greeting
    let mut input: &[u8] = &resp;
    assert_eq!(read_u64_field(&mut input).unwrap(), 0);
    assert_eq!(read_u64_field(&mut input).unwrap(), 0);
    assert_eq!(read_str_field(&mut input).unwrap(), "hello, bob");
    // an unknown variant tag is a deserialize failure
    let mut bad = Vec::new();
    write_u64(&mut bad, 7);
    assert!(matches!(
        serve.serve(&bad),
        Err(IpcError::DeserializeError)
    ));
    // a truncated request is a deserialize failure
    assert!(matches!(
        serve.serve(&req[..2]),
        Err(IpcError::DeserializeError)
    ));
}
