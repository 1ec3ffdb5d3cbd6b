//! An inter-process RPC framework for a constrained execution environment in
//! which independently loaded program instances communicate only through
//! paired unidirectional byte pipes.
//!
//! The crate covers the wire protocol that frames requests and responses over
//! a byte stream (variable-length integers and self-delimiting packets), the
//! duplex communication engine (`Channel`) that drives the request/response
//! exchange and the server dispatch loop, the transport abstraction over
//! pipes, and the service-contract layer that turns a set of typed remote
//! methods into request/response tagged unions with client and server
//! bindings.

pub mod bufreader;
pub mod bufwriter;
pub mod channel;
pub mod crypto;
pub mod crypto_ipc;
pub mod def;
pub mod error;
pub mod io;
pub mod ipc;
pub mod io_impl;
pub mod naming;
pub mod native;
pub mod packet;
pub mod pipe;
pub mod vlq;
pub mod wire;
pub mod world;
