//! The owner socket of `persona-orchestrate`, through which mind's
//! choreography decisions are applied.

use vstd::prelude::*;

use crate::transport::DEFAULT_MAXIMUM_FRAME_BYTES;

verus! {

#[derive(Debug)]
pub struct OwnerEndpoint {
    pub socket: String,
}

impl OwnerEndpoint {
    pub fn new(socket: String) -> (endpoint: Self)
        ensures
            endpoint.socket == socket,
    {
        Self { socket }
    }

    pub fn as_path(&self) -> (path: &str)
        ensures
            path@ == self.socket@,
    {
        self.socket.as_str()
    }
}

#[derive(Debug, Clone, Copy, PartialEq, Eq, Structural)]
pub struct OwnerFrameCodec {
    pub maximum_frame_bytes: usize,
}

impl OwnerFrameCodec {
    pub fn new(maximum_frame_bytes: usize) -> (codec: Self)
        ensures
            codec.maximum_frame_bytes == maximum_frame_bytes,
    {
        Self { maximum_frame_bytes }
    }
}

impl Default for OwnerFrameCodec {
    fn default() -> (codec: Self)
        ensures
            codec.maximum_frame_bytes == DEFAULT_MAXIMUM_FRAME_BYTES,
    {
        Self::new(DEFAULT_MAXIMUM_FRAME_BYTES)
    }
}

/// A client of the owner socket.
#[derive(Debug)]
pub struct OwnerClient {
    pub endpoint: OwnerEndpoint,
    pub codec: OwnerFrameCodec,
}

impl OwnerClient {
    pub fn new(endpoint: OwnerEndpoint) -> (client: Self)
        ensures
            client.endpoint == endpoint,
            client.codec.maximum_frame_bytes == DEFAULT_MAXIMUM_FRAME_BYTES,
    {
        Self { endpoint, codec: OwnerFrameCodec::new(DEFAULT_MAXIMUM_FRAME_BYTES) }
    }
}

/// The actor that calls the owner socket.
#[derive(Debug)]
pub struct MindOrchestrateCaller {
    pub client: OwnerClient,
}

impl MindOrchestrateCaller {
    pub fn new(client: OwnerClient) -> (caller: Self)
        ensures
            caller.client == client,
    {
        Self { client }
    }
}

} // verus!
