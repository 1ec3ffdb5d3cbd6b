//! End-to-end request/response scenarios over in-memory transports. The
//! protocol is strictly synchronous, so a session is a transcript: the
//! server side turns a stream of request frames into a stream of response
//! frames, and the client side consumes that stream call by call.

use ckb_script_ipc::channel::Channel;
use ckb_script_ipc::error::{IpcError, ProtocolErrorCode};
use ckb_script_ipc::io::{Read, Write};
use ckb_script_ipc::ipc::Serve;
use ckb_script_ipc::packet::{Packet, ResponsePacket};
use ckb_script_ipc::wire::{write_str, write_u64};
use ckb_script_ipc::world::{World, WorldClient, WorldServer};

/// The canonical request frame for a payload, as the client side sends it.
fn request_frame(payload: &[u8]) -> Vec<u8> {
    let mut ch = Channel::new(&[][..], Vec::new());
    ch.send_request(payload).unwrap();
    ch.into_writer()
}

/// One server turn: reads one request frame from the stream, dispatches it,
/// and hands back the response frame it sends.
fn server_turn<S: Serve>(serve: &mut S, request: &[u8]) -> Vec<u8> {
    let mut ch = Channel::new(request, Vec::new());
    let req = ch.receive_request().unwrap();
    match serve.serve(&req) {
        Ok(resp) => ch.send_response(&resp).unwrap(),
        Err(e) => ch.send_error_code(e.protocol_code()).unwrap(),
    }
    ch.into_writer()
}

/// The request payload of `hello(name)`.
fn hello_payload(name: &str) -> Vec<u8> {
    let mut payload = Vec::new();
    write_u64(&mut payload, 0);
    write_str(&mut payload, name);
    payload
}

#[test]
fn test_hello_world_end_to_end() {
    let mut serve = WorldServer::new().server();
    // the server answers the greeting request
    let responses = server_turn(&mut serve, &request_frame(&hello_payload("world")));
    // the client consumes exactly that response
    let mut client = WorldClient::new(&responses[..], Vec::new());
    let greeting = client.hello("world".to_string()).unwrap();
    assert_eq!(greeting, Ok("hello, world".to_string()));
}

#[test]
fn test_hello_error_is_application_level() {
    let mut serve = WorldServer::new().server();
    let responses = server_turn(&mut serve, &request_frame(&hello_payload("error")));
    // the channel-level error code stays 0: the typed application error 1
    // travels inside the response payload
    let mut stream: &[u8] = &responses;
    let frame = ResponsePacket::read_from(&mut stream).unwrap();
    assert_eq!(frame.error_code(), 0);
    let mut client = WorldClient::new(&responses[..], Vec::new());
    let failure = client.hello("error".to_string()).unwrap();
    assert_eq!(failure, Err(1));
}

struct Trapping;

impl Serve for Trapping {
    fn serve(&mut self, _req: &[u8]) -> Result<Vec<u8>, IpcError> {
        // a handler failing mid-execution surfaces as a protocol error
        Err(IpcError::DeserializeError)
    }
}

#[test]
fn test_trapping_handler_ends_session() {
    // the serve loop dispatches the request, the handler fails, the loop
    // sends the mapped error code and terminates with the failure
    let requests = request_frame(&[1, 2, 3]);
    let ch = Channel::new(&requests[..], Vec::new());
    let mut serve = Trapping;
    let server_result = ch.execute(&mut serve);
    assert!(matches!(server_result, Err(IpcError::DeserializeError)));
    // the in-flight client call sees the protocol error carrying that code
    let error_frame = server_turn(&mut Trapping, &requests);
    let mut client_side = Channel::new(&error_frame[..], Vec::new());
    let result = client_side.call("World.hello", &[1, 2, 3]);
    assert!(matches!(
        result,
        Err(IpcError::ProtocolError(ProtocolErrorCode::DeserializeError))
    ));
}

#[test]
fn test_server_loop_survives_until_stream_ends() {
    // two well-formed requests back to back: the loop serves both, then the
    // closed stream ends the session with an error
    let mut requests = request_frame(&hello_payload("a"));
    requests.extend_from_slice(&request_frame(&hello_payload("b")));
    let ch = Channel::new(&requests[..], Vec::new());
    let mut serve = WorldServer::new().server();
    let r = ch.execute(&mut serve);
    assert!(r.is_err());
}

struct Echo;

impl Serve for Echo {
    fn serve(&mut self, req: &[u8]) -> Result<Vec<u8>, IpcError> {
        Ok(req.to_vec())
    }
}

#[test]
fn test_hundred_sequential_calls() {
    // the server side of 100 strictly sequential exchanges
    let mut serve = Echo;
    let mut responses = Vec::new();
    for i in 0..100u64 {
        let payload = i.to_le_bytes().to_vec();
        let turn = server_turn(&mut serve, &request_frame(&payload));
        responses.extend_from_slice(&turn);
    }
    // the client consumes response N fully before sending request N+1
    let mut channel = Channel::new(&responses[..], Vec::new());
    for i in 0..100u64 {
        let payload = i.to_le_bytes().to_vec();
        let response = channel.call("echo", &payload).unwrap();
        assert_eq!(response, payload);
    }
}

#[test]
fn test_two_instances_no_cross_talk() {
    // two independently served sessions; their calls interleave at the
    // client, yet each channel only ever observes its own pipe pair's bytes
    let mut serve1 = WorldServer::new().server();
    let mut serve2 = Echo;
    let mut responses1 = Vec::new();
    let mut responses2 = Vec::new();
    for round in 0..10u8 {
        let turn1 = server_turn(&mut serve1, &request_frame(&hello_payload("world")));
        responses1.extend_from_slice(&turn1);
        let turn2 = server_turn(&mut serve2, &request_frame(&[round, round]));
        responses2.extend_from_slice(&turn2);
    }
    let mut client1 = WorldClient::new(&responses1[..], Vec::new());
    let mut channel2 = Channel::new(&responses2[..], Vec::new());
    for round in 0..10u8 {
        let greeting = client1.hello("world".to_string()).unwrap();
        assert_eq!(greeting, Ok("hello, world".to_string()));
        let echoed = channel2.call("echo", &[round, round]).unwrap();
        assert_eq!(echoed, vec![round, round]);
    }
}

#[test]
fn test_zero_length_write_no_effect_on_peer() {
    // a zero-length write is short-circuited before any transfer: it
    // succeeds with 0 bytes written even where a real transfer could not
    let (read_end, mut write_end) = ckb_script_ipc::native::Pipe::new_pair();
    drop(read_end);
    assert_eq!(write_end.write(&[]).unwrap(), 0);
    // a nonzero write on the same pipe does attempt the transfer and fails
    assert!(write_end.write(b"x").is_err());
}

#[test]
fn test_closed_end_rejects_io() {
    let (mut read_end, mut write_end) = ckb_script_ipc::native::Pipe::new_pair();
    write_end.close();
    let mut buf = [0u8; 1];
    assert!(read_end.read(&mut buf).is_err());
    assert!(write_end.write(b"x").is_err());
    assert_eq!(write_end.write(&[]).unwrap(), 0);
}

#[test]
fn test_generate() {
    let _ = WorldServer;
    let reader: ckb_script_ipc::pipe::Pipe = 0u64.into();
    let writer: ckb_script_ipc::pipe::Pipe = 1u64.into();
    let _ = WorldClient::new(reader, writer);
}
