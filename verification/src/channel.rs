//! The duplex communication engine: a `Channel` owns one reader transport
//! and one writer transport and drives the request/response exchange. The
//! client side sends one framed request and blocks for one framed response;
//! the server side loops, dispatching each incoming request to a handler and
//! answering with a success frame or a protocol error code. Every failure is
//! terminal for the current call or the whole serve loop: there are no
//! retries.

use vstd::prelude::*;

use crate::bufreader::BufReader;
use crate::error::{spec_protocol_code_of, IpcError, ProtocolErrorCode};
use crate::io::{write_all, Read, Write};
use crate::ipc::Serve;
use crate::packet::{packet_bytes, parse_packet, Packet, RequestPacket, ResponsePacket};

verus! {

/// A communication channel between a client and a server: one buffered
/// reader transport for inbound frames, one writer transport for outbound
/// frames. Stateless between calls other than the reader's buffer.
pub struct Channel<R: Read, W: Write> {
    reader: BufReader<R>,
    writer: W,
}

impl<R: Read, W: Write> Channel<R, W> {
    /// Whether the inbound transport's future output is a function of its
    /// state.
    pub closed spec fn deterministic(&self) -> bool {
        self.reader.deterministic()
    }

    /// The inbound bytes the channel is known to receive next.
    pub closed spec fn stream(&self) -> Seq<u8> {
        self.reader.stream()
    }

    /// Whether the outbound transport records what it accepted.
    pub closed spec fn tracks_sink(&self) -> bool {
        self.writer.tracks_sink()
    }

    /// The outbound bytes the channel has sent.
    pub closed spec fn sink(&self) -> Seq<u8> {
        self.writer.sink()
    }

    /// The outbound transport.
    pub closed spec fn spec_writer(&self) -> W {
        self.writer
    }

    /// Gives the outbound transport back, dropping the channel and any
    /// buffered inbound bytes.
    pub fn into_writer(self) -> (r: W)
        ensures
            r == self.spec_writer(),
            self.tracks_sink() ==> r.sink() == self.sink(),
    {
        self.writer
    }

    /// A channel over a connected pair of transports.
    pub fn new(reader: R, writer: W) -> (r: Channel<R, W>)
        ensures
            r.deterministic() == reader.deterministic(),
            r.stream() == reader.stream(),
            r.tracks_sink() == writer.tracks_sink(),
            r.sink() == writer.sink(),
    {
        let c = Channel { writer, reader: BufReader::new(reader) };
        proof {
            assert(c.stream() =~= c.reader.spec_inner().stream());
        }
        c
    }

    /// Frames the payload as a request (version 0, method id 0) and sends the
    /// whole frame.
    pub fn send_request(&mut self, req: &[u8]) -> (r: Result<(), IpcError>)
        ensures
            final(self).tracks_sink() == old(self).tracks_sink(),
            final(self).deterministic() == old(self).deterministic(),
            final(self).stream() == old(self).stream(),
            r matches Ok(_) && old(self).tracks_sink() ==> final(self).sink() == old(self).sink()
                + packet_bytes(0, 0, req@),
    {
        let packet = RequestPacket::new(slice_to_vec_bytes(req));
        let bytes = packet.serialize();
        if let Err(e) = write_all(&mut self.writer, bytes.as_slice()) {
            return Err(e);
        }
        self.writer.flush()
    }

    /// Frames the payload as a success response (error code 0) and sends the
    /// whole frame.
    pub fn send_response(&mut self, resp: &[u8]) -> (r: Result<(), IpcError>)
        ensures
            final(self).tracks_sink() == old(self).tracks_sink(),
            final(self).deterministic() == old(self).deterministic(),
            final(self).stream() == old(self).stream(),
            r matches Ok(_) && old(self).tracks_sink() ==> final(self).sink() == old(self).sink()
                + packet_bytes(0, 0, resp@),
    {
        let packet = ResponsePacket::new(0, slice_to_vec_bytes(resp));
        let bytes = packet.serialize();
        if let Err(e) = write_all(&mut self.writer, bytes.as_slice()) {
            return Err(e);
        }
        self.writer.flush()
    }

    /// Frames the given error code as a response with an empty payload and
    /// sends the whole frame.
    pub fn send_error_code(&mut self, error_code: ProtocolErrorCode) -> (r: Result<(), IpcError>)
        ensures
            final(self).tracks_sink() == old(self).tracks_sink(),
            final(self).deterministic() == old(self).deterministic(),
            final(self).stream() == old(self).stream(),
            r matches Ok(_) && old(self).tracks_sink() ==> final(self).sink() == old(self).sink()
                + packet_bytes(0, error_code.spec_value(), Seq::<u8>::empty()),
    {
        let payload: Vec<u8> = Vec::new();
        let packet = ResponsePacket::new(error_code.value(), payload);
        let bytes = packet.serialize();
        if let Err(e) = write_all(&mut self.writer, bytes.as_slice()) {
            return Err(e);
        }
        self.writer.flush()
    }

    /// Reads one request frame and hands its payload back. From a
    /// deterministic transport this returns exactly the payload that
    /// `parse_packet` gives for the inbound stream, consuming one frame.
    pub fn receive_request(&mut self) -> (r: Result<Vec<u8>, IpcError>)
        ensures
            final(self).tracks_sink() == old(self).tracks_sink(),
            final(self).deterministic() == old(self).deterministic(),
            old(self).tracks_sink() ==> final(self).sink() == old(self).sink(),
            old(self).deterministic() ==> match parse_packet(old(self).stream()) {
                Ok((v, tag, payload, used)) => r matches Ok(pl) && pl@ == payload
                    && final(self).stream() == old(self).stream().skip(used),
                Err(e) => r == Err::<Vec<u8>, IpcError>(e),
            },
    {
        match RequestPacket::read_from(&mut self.reader) {
            Ok(packet) => Ok(slice_to_vec_bytes(packet.payload())),
            Err(e) => Err(e),
        }
    }

    /// Reads one response frame. A zero error code hands the payload back; a
    /// nonzero code surfaces as `ProtocolError` carrying that code, the
    /// payload being empty by protocol. From a deterministic transport the
    /// outcome is exactly what `parse_packet` gives for the inbound stream.
    pub fn receive_response(&mut self) -> (r: Result<Vec<u8>, IpcError>)
        ensures
            final(self).tracks_sink() == old(self).tracks_sink(),
            final(self).deterministic() == old(self).deterministic(),
            old(self).tracks_sink() ==> final(self).sink() == old(self).sink(),
            old(self).deterministic() ==> match parse_packet(old(self).stream()) {
                Ok((v, tag, payload, used)) => final(self).stream() == old(self).stream().skip(used)
                    && (if tag == 0 {
                    r matches Ok(pl) && pl@ == payload
                } else {
                    r == Err::<Vec<u8>, IpcError>(
                        IpcError::ProtocolError(ProtocolErrorCode::spec_from_value(tag)),
                    )
                }),
                Err(e) => r == Err::<Vec<u8>, IpcError>(e),
            },
    {
        let packet = match ResponsePacket::read_from(&mut self.reader) {
            Ok(p) => p,
            Err(e) => {
                return Err(e);
            },
        };
        let code = ProtocolErrorCode::from_value(packet.error_code());
        if matches!(code, ProtocolErrorCode::Success) {
            Ok(slice_to_vec_bytes(packet.payload()))
        } else {
            Err(IpcError::ProtocolError(code))
        }
    }

    /// One client call: sends the request payload, then blocks for the
    /// matching response. Exactly one call is outstanding at a time; a
    /// nonzero error code in the response short-circuits as `ProtocolError`.
    pub fn call(&mut self, _method_name: &'static str, req: &[u8]) -> (r: Result<Vec<u8>, IpcError>)
        ensures
            final(self).tracks_sink() == old(self).tracks_sink(),
            final(self).deterministic() == old(self).deterministic(),
            r matches Ok(_) && old(self).tracks_sink() ==> final(self).sink() == old(self).sink()
                + packet_bytes(0, 0, req@),
            old(self).deterministic() ==> match r {
                Ok(pl) => parse_packet(old(self).stream()) matches Ok((v, tag, payload, used))
                    && tag == 0 && pl@ == payload
                    && final(self).stream() == old(self).stream().skip(used),
                Err(_) => true,
            },
    {
        if let Err(e) = self.send_request(req) {
            return Err(e);
        }
        self.receive_response()
    }

    /// The server loop: reads one request frame, dispatches its payload to
    /// the handler and answers with a success frame, over and over until the
    /// first failure at any stage. That failure is reported to the peer as a
    /// protocol error code (best effort) and ends the session; the loop's
    /// request budget is far beyond what any real session reaches. The loop
    /// consumes the channel, so only the returned error is observable here:
    /// when the inbound stream is deterministic and its first frame is
    /// already malformed, that exact framing error comes back.
    pub fn execute<S: Serve>(self, serve: &mut S) -> (r: Result<(), IpcError>)
        ensures
            r matches Err(_),
            self.deterministic() ==> match parse_packet(self.stream()) {
                Err(e) => r == Err::<(), IpcError>(e),
                Ok(_) => true,
            },
    {
        let mut channel = self;
        let mut budget: u64 = u64::MAX;
        loop
            invariant
                channel.deterministic() == self.deterministic(),
                self.deterministic() && parse_packet(self.stream()) is Err ==> channel.stream()
                    == self.stream(),
            decreases budget,
        {
            let outcome = match channel.receive_request() {
                Ok(req) => match serve.serve(req.as_slice()) {
                    Ok(resp) => channel.send_response(resp.as_slice()),
                    Err(e) => Err(e),
                },
                Err(e) => Err(e),
            };
            match outcome {
                Ok(_) => {},
                Err(e) => {
                    // notify the client, best effort: the session is over
                    // either way
                    let _ = channel.send_error_code(e.protocol_code());
                    return Err(e);
                },
            }
            if budget == 0 {
                return Err(IpcError::UnexpectedEof);
            }
            budget = budget - 1;
        }
    }
}

/// A byte vector with the bytes of a slice.
fn slice_to_vec_bytes(src: &[u8]) -> (r: Vec<u8>)
    ensures
        r@ == src@,
{
    let mut r: Vec<u8> = Vec::new();
    crate::io::append_bytes(&mut r, src);
    proof {
        assert(r@ =~= src@);
    }
    r
}

} // verus!
