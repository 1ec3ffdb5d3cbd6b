//! The service interface the server dispatch loop drives: one call per
//! incoming request payload, producing the response payload. The generated
//! service bindings implement this by decoding the request union, calling the
//! user's handler and encoding the response union.

use vstd::prelude::*;

use crate::error::IpcError;

verus! {

/// A handler of requests: turns one request payload into one response
/// payload, or reports the failure that the dispatch loop then sends to the
/// peer as a protocol-level error code.
pub trait Serve {
    /// Responds to a single request payload.
    fn serve(&mut self, req: &[u8]) -> Result<Vec<u8>, IpcError>;

    /// The method name a request payload addresses, where the service can
    /// tell.
    fn method(&self, _req: &[u8]) -> (r: Option<&'static str>) {
        None
    }
}

} // verus!
