//! Core of a REST gateway that fronts a blockchain validator: the error
//! taxonomy every failure funnels into, the body decoder that turns raw HTTP
//! payloads into well-typed backend requests, and the correlation dispatcher
//! that matches asynchronous backend responses to waiting callers, with
//! bounded retry under backend overload.
//!
//! The HTTP server and the wire transport to the validator are external
//! collaborators; this crate holds the decisions and data they act on.

use vstd::prelude::*;

pub mod decode;
pub mod dispatch;
pub mod envelope;
pub mod errors;
pub mod handlers;
pub mod json;

verus! {

/// Default ceiling on the size of a client request body, in bytes (10 MiB).
pub const MAX_SIZE_DEFAULT: usize = 10485760;

/// Configuration for decoding protobuf-style request bodies: the maximum
/// number of body bytes a client may submit.
pub struct ProtoBufConfig {
    pub client_max_size: usize,
}

impl ProtoBufConfig {
    /// Sets the ceiling on the client request body size.
    pub fn client_max_size(&mut self, client_max_size: usize)
        ensures
            final(self).client_max_size == client_max_size,
    {
        self.client_max_size = client_max_size;
    }
}

impl Default for ProtoBufConfig {
    fn default() -> (config: Self)
        ensures
            config.client_max_size == MAX_SIZE_DEFAULT,
    {
        Self { client_max_size: MAX_SIZE_DEFAULT }
    }
}

} // verus!
