//! The demo service contract: one remote method, `hello`, taking a name and
//! returning a greeting or a numeric application error. From the declared
//! method list the binding layer derives a request union with one variant per
//! method, a response union with one variant per method, a server dispatcher
//! that is total over the request variants, and a client stub that hides the
//! envelope.

use vstd::prelude::*;
use vstd::utf8::{
    decode_utf8, encode_utf8, encode_utf8_decode_utf8, encode_utf8_valid_utf8, valid_utf8,
};

use crate::channel::Channel;
use crate::error::IpcError;
use crate::io::{append_bytes, Read, Write};
use crate::ipc::Serve;
use crate::packet::{packet_bytes, parse_packet};
use crate::vlq::{lemma_vlq_decode_prefix, vlq_bytes, vlq_decode_spec};
use crate::wire::{
    enc_str, lemma_encode_utf8_concat, lemma_str_round_trip, parse_str, read_str_field,
    read_u64_field, string_from_utf8, write_str, write_u64,
};
use crate::packet::vlq_used;

verus! {

/// The request union on the wire: the variant tag, then the variant's
/// fields. `Hello` is variant 0 and carries the name.
pub open spec fn world_request_enc(name: Seq<char>) -> Seq<u8> {
    vlq_bytes(0) + enc_str(name)
}

/// The response union on the wire: the variant tag, then the method's return
/// value. `Hello` is variant 0 and carries a result: 0 and the greeting on
/// success, 1 and the numeric application error otherwise.
pub open spec fn world_response_enc(res: Result<Seq<char>, u64>) -> Seq<u8> {
    match res {
        Ok(s) => vlq_bytes(0) + vlq_bytes(0) + enc_str(s),
        Err(c) => vlq_bytes(0) + vlq_bytes(1) + vlq_bytes(c as nat),
    }
}

/// What a request payload means: the name carried by a well-formed `Hello`
/// request, or nothing. Trailing bytes are ignored.
pub open spec fn world_request_dec(s: Seq<u8>) -> Option<Seq<char>> {
    match vlq_decode_spec(s) {
        Ok(tag) => if tag == 0 {
            match parse_str(s.skip(vlq_used(s))) {
                Some((cs, u)) => Some(cs),
                None => None,
            }
        } else {
            None
        },
        Err(_) => None,
    }
}

/// What a response payload means: the result carried by a well-formed
/// `Hello` response, or nothing. Trailing bytes are ignored.
pub open spec fn world_response_dec(s: Seq<u8>) -> Option<Result<Seq<char>, u64>> {
    match vlq_decode_spec(s) {
        Ok(vtag) => if vtag == 0 {
            let s1 = s.skip(vlq_used(s));
            match vlq_decode_spec(s1) {
                Ok(rtag) => if rtag == 0 {
                    match parse_str(s1.skip(vlq_used(s1))) {
                        Some((cs, u)) => Some(Ok(cs)),
                        None => None,
                    }
                } else if rtag == 1 {
                    match vlq_decode_spec(s1.skip(vlq_used(s1))) {
                        Ok(c) => Some(Err(c)),
                        Err(_) => None,
                    }
                } else {
                    None
                },
                Err(_) => None,
            }
        } else {
            None
        },
        Err(_) => None,
    }
}

/// The value view of a returned result: the string by its characters.
pub open spec fn res_view(r: Result<String, u64>) -> Result<Seq<char>, u64> {
    match r {
        Ok(s) => Ok(s@),
        Err(c) => Err(c),
    }
}

/// Request round trip: decoding an encoded `Hello` request yields the name.
pub proof fn lemma_world_request_round_trip(name: Seq<char>)
    requires
        encode_utf8(name).len() <= usize::MAX,
    ensures
        world_request_dec(world_request_enc(name)) == Some(name),
{
    let s = world_request_enc(name);
    assert(s =~= vlq_bytes(0) + enc_str(name));
    lemma_vlq_decode_prefix(0, enc_str(name));
    assert(s.skip(vlq_used(s)) =~= enc_str(name));
    assert(enc_str(name) =~= enc_str(name) + Seq::<u8>::empty());
    lemma_str_round_trip(name, Seq::<u8>::empty());
}

/// Response round trip: decoding an encoded `Hello` response yields the
/// result.
pub proof fn lemma_world_response_round_trip(res: Result<Seq<char>, u64>)
    requires
        res matches Ok(s) ==> encode_utf8(s).len() <= usize::MAX,
    ensures
        world_response_dec(world_response_enc(res)) == Some(res),
{
    let s = world_response_enc(res);
    match res {
        Ok(cs) => {
            assert(s =~= vlq_bytes(0) + (vlq_bytes(0) + enc_str(cs)));
            lemma_vlq_decode_prefix(0, vlq_bytes(0) + enc_str(cs));
            let s1 = s.skip(vlq_used(s));
            assert(s1 =~= vlq_bytes(0) + enc_str(cs));
            lemma_vlq_decode_prefix(0, enc_str(cs));
            assert(s1.skip(vlq_used(s1)) =~= enc_str(cs) + Seq::<u8>::empty());
            lemma_str_round_trip(cs, Seq::<u8>::empty());
        },
        Err(c) => {
            assert(s =~= vlq_bytes(0) + (vlq_bytes(1) + vlq_bytes(c as nat)));
            lemma_vlq_decode_prefix(0, vlq_bytes(1) + vlq_bytes(c as nat));
            let s1 = s.skip(vlq_used(s));
            assert(s1 =~= vlq_bytes(1) + vlq_bytes(c as nat));
            lemma_vlq_decode_prefix(1, vlq_bytes(c as nat));
            let s2 = s1.skip(vlq_used(s1));
            assert(s2 =~= vlq_bytes(c as nat) + Seq::<u8>::empty());
            lemma_vlq_decode_prefix(c, Seq::<u8>::empty());
        },
    }
}

/// The demo service: greets by name.
pub trait World: Sized {
    /// The result `hello` gives for a name, as a function of the service's
    /// state before the call.
    spec fn hello_spec(&self, name: Seq<char>) -> Result<Seq<char>, u64>;

    /// Greets the name, or reports a numeric application error: exactly what
    /// the service's own `hello_spec` says.
    fn hello(&mut self, name: String) -> (r: Result<String, u64>)
        ensures
            res_view(r) == old(self).hello_spec(name@),
    ;

    /// Wraps the service in its dispatcher.
    fn server(self) -> (r: ServeWorld<Self>)
        ensures
            r.spec_service() == self,
    {
        ServeWorld { service: self }
    }
}

/// The server dispatcher: maps every request variant to exactly one call
/// against the wrapped service and wraps the return value in the matching
/// response variant.
pub struct ServeWorld<S> {
    service: S,
}

impl<S> ServeWorld<S> {
    /// The wrapped service.
    pub closed spec fn spec_service(&self) -> S {
        self.service
    }
}

impl<S: World> Serve for ServeWorld<S> {
    /// Decodes the request union, dispatches to the service, and encodes the
    /// response union: a well-formed request for a name is answered with the
    /// matching response variant wrapping exactly the service's own result
    /// for that name; a payload that does not decode as a request variant is
    /// answered with `DeserializeError`.
    fn serve(&mut self, req: &[u8]) -> (r: Result<Vec<u8>, IpcError>)
        ensures
            match world_request_dec(req@) {
                Some(name) => r matches Ok(resp) && resp@ == world_response_enc(
                    old(self).spec_service().hello_spec(name),
                ),
                None => r == Err::<Vec<u8>, IpcError>(IpcError::DeserializeError),
            },
    {
        let mut input: &[u8] = req;
        let tag = match read_u64_field(&mut input) {
            Ok(t) => t,
            Err(_) => {
                return Err(IpcError::DeserializeError);
            },
        };
        if tag != 0 {
            return Err(IpcError::DeserializeError);
        }
        let name = match read_str_field(&mut input) {
            Ok(s) => s,
            Err(_) => {
                return Err(IpcError::DeserializeError);
            },
        };
        let ret = self.service.hello(name);
        let mut out: Vec<u8> = Vec::new();
        write_u64(&mut out, 0);
        match &ret {
            Ok(s) => {
                write_u64(&mut out, 0);
                write_str(&mut out, s.as_str());
            },
            Err(c) => {
                write_u64(&mut out, 1);
                write_u64(&mut out, *c);
            },
        }
        proof {
            // the handler's own result is the witness for the envelope
            assert(out@ =~= world_response_enc(res_view(ret)));
        }
        Ok(out)
    }
}

/// The client stub: one strongly typed method per remote method, hiding the
/// request/response envelope.
pub struct WorldClient<R: Read, W: Write> {
    channel: Channel<R, W>,
}

impl<R: Read, W: Write> WorldClient<R, W> {
    /// Whether the inbound transport's future output is a function of its
    /// state.
    pub closed spec fn deterministic(&self) -> bool {
        self.channel.deterministic()
    }

    /// The inbound bytes the stub is known to receive next.
    pub closed spec fn stream(&self) -> Seq<u8> {
        self.channel.stream()
    }

    /// Whether the outbound transport records what it accepted.
    pub closed spec fn tracks_sink(&self) -> bool {
        self.channel.tracks_sink()
    }

    /// The outbound bytes the stub has sent.
    pub closed spec fn sink(&self) -> Seq<u8> {
        self.channel.sink()
    }

    /// The wrapped channel.
    pub closed spec fn spec_channel(&self) -> Channel<R, W> {
        self.channel
    }

    /// Gives the wrapped channel back.
    pub fn into_channel(self) -> (r: Channel<R, W>)
        ensures
            r == self.spec_channel(),
            r.tracks_sink() == self.tracks_sink(),
            self.tracks_sink() ==> r.sink() == self.sink(),
    {
        self.channel
    }

    /// A stub over a connected pair of transports.
    pub fn new(reader: R, writer: W) -> (r: WorldClient<R, W>)
        ensures
            r.deterministic() == reader.deterministic(),
            r.stream() == reader.stream(),
            r.tracks_sink() == writer.tracks_sink(),
            r.sink() == writer.sink(),
    {
        WorldClient { channel: Channel::new(reader, writer) }
    }

    /// Calls the remote `hello`: frames an encoded `Hello` request, blocks
    /// for the response, and decodes the matching variant. A channel-level
    /// failure or a response that is not a well-formed `Hello` variant comes
    /// back as the `IpcError`; the inner result is the method's own.
    pub fn hello(&mut self, name: String) -> (r: Result<Result<String, u64>, IpcError>)
        ensures
            final(self).tracks_sink() == old(self).tracks_sink(),
            final(self).deterministic() == old(self).deterministic(),
            r matches Ok(_) && old(self).tracks_sink() ==> final(self).sink() == old(self).sink()
                + packet_bytes(0, 0, world_request_enc(name@)),
            old(self).deterministic() ==> match r {
                Ok(res) => parse_packet(old(self).stream()) matches Ok((v, tag, payload, used))
                    && tag == 0 && world_response_dec(payload) == Some(res_view(res))
                    && final(self).stream() == old(self).stream().skip(used),
                Err(_) => true,
            },
    {
        let mut reqb: Vec<u8> = Vec::new();
        write_u64(&mut reqb, 0);
        write_str(&mut reqb, name.as_str());
        proof {
            assert(reqb@ =~= world_request_enc(name@));
        }
        let resp = match self.channel.call("World.hello", reqb.as_slice()) {
            Ok(v) => v,
            Err(e) => {
                return Err(e);
            },
        };
        let mut input: &[u8] = resp.as_slice();
        let vtag = match read_u64_field(&mut input) {
            Ok(t) => t,
            Err(_) => {
                return Err(IpcError::DeserializeError);
            },
        };
        if vtag != 0 {
            return Err(IpcError::DeserializeError);
        }
        let rtag = match read_u64_field(&mut input) {
            Ok(t) => t,
            Err(_) => {
                return Err(IpcError::DeserializeError);
            },
        };
        if rtag == 0 {
            match read_str_field(&mut input) {
                Ok(s) => Ok(Ok(s)),
                Err(_) => Err(IpcError::DeserializeError),
            }
        } else if rtag == 1 {
            match read_u64_field(&mut input) {
                Ok(c) => Ok(Err(c)),
                Err(_) => Err(IpcError::DeserializeError),
            }
        } else {
            Err(IpcError::DeserializeError)
        }
    }
}

/// The demo server: `hello` greets every name but the designated failing
/// one, for which it reports application error 1.
pub struct WorldServer;

impl WorldServer {
    /// A fresh demo server.
    pub fn new() -> (r: WorldServer) {
        WorldServer
    }
}

impl World for WorldServer {
    /// The greeting `hello, <name>`; the name `error` maps to the
    /// application error 1.
    open spec fn hello_spec(&self, name: Seq<char>) -> Result<Seq<char>, u64> {
        if name == "error"@ {
            Err(1u64)
        } else {
            Ok("hello, "@ + name)
        }
    }

    /// Greets the name: `hello, <name>`; the name `error` instead reports
    /// the application error 1.
    fn hello(&mut self, name: String) -> (r: Result<String, u64>) {
        let trigger: String = "error".to_owned();
        if name == trigger {
            Err(1)
        } else {
            let mut bytes: Vec<u8> = Vec::new();
            append_bytes(&mut bytes, "hello, ".as_bytes());
            append_bytes(&mut bytes, name.as_str().as_bytes());
            proof {
                lemma_encode_utf8_concat("hello, "@, name@);
                encode_utf8_valid_utf8("hello, "@ + name@);
                assert(bytes@ =~= encode_utf8("hello, "@ + name@));
            }
            match string_from_utf8(bytes) {
                Some(s) => {
                    proof {
                        encode_utf8_decode_utf8("hello, "@ + name@);
                        encode_utf8_decode_utf8(s@);
                        assert(s@ == "hello, "@ + name@);
                    }
                    Ok(s)
                },
                None => {
                    proof {
                        assert(false);
                    }
                    Err(1)
                },
            }
        }
    }
}

} // verus!
