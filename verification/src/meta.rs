//! The owner-only meta socket of mind: its endpoint, its codec, and the
//! checks made on a decoded meta request.

use vstd::prelude::*;

use crate::frame::{FrameBody, FrameError, single_operation};
use crate::transport::DEFAULT_MAXIMUM_FRAME_BYTES;

verus! {

/// The meta socket used when `MIND_META_SOCKET` is not set.
pub const DEFAULT_META_MIND_SOCKET: &'static str = "/tmp/meta-mind.sock";

#[derive(Debug)]
pub struct MetaMindEndpoint {
    pub socket: String,
}

impl MetaMindEndpoint {
    pub fn new(socket: String) -> (endpoint: Self)
        ensures
            endpoint.socket == socket,
    {
        Self { socket }
    }

    pub fn as_path(&self) -> (path: &str)
        ensures
            path@ == self.socket@,
    {
        self.socket.as_str()
    }
}

#[derive(Debug, Clone, Copy, PartialEq, Eq, Structural)]
pub struct MetaMindFrameCodec {
    pub maximum_frame_bytes: usize,
}

/// Why bytes read on the meta socket are not a meta request.
#[derive(Debug)]
pub enum MetaMindFrameDecode {
    /// The bytes are not a meta frame at all.
    NotMeta,
    UnexpectedFrame(&'static str),
    UnexpectedSubReply(String),
}

impl MetaMindFrameCodec {
    pub fn new(maximum_frame_bytes: usize) -> (codec: Self)
        ensures
            codec.maximum_frame_bytes == maximum_frame_bytes,
    {
        Self { maximum_frame_bytes }
    }

    /// The single operation of a meta request; `decoded` is `None` when the
    /// bytes did not decode as a meta frame.
    pub fn decode_request_frame<Operation, Payload>(
        &self,
        decoded: Option<FrameBody<Operation, Payload>>,
    ) -> (operation: Result<Operation, MetaMindFrameDecode>)
        ensures
            match decoded {
                None => operation == Err::<Operation, MetaMindFrameDecode>(MetaMindFrameDecode::NotMeta),
                Some(FrameBody::Request(request)) => if request.operations@.len() == 1 {
                    operation == Ok::<Operation, MetaMindFrameDecode>(request.operations@[0])
                } else {
                    operation == Err::<Operation, MetaMindFrameDecode>(
                        MetaMindFrameDecode::UnexpectedFrame("expected one meta mind operation"),
                    )
                },
                Some(FrameBody::Reply(_)) => operation == Err::<Operation, MetaMindFrameDecode>(
                    MetaMindFrameDecode::UnexpectedFrame("expected meta mind request operation"),
                ),
            },
    {
        let frame = match decoded {
            Some(frame) => frame,
            None => return Err(MetaMindFrameDecode::NotMeta),
        };
        match single_operation(frame, "expected one meta mind operation", "expected meta mind request operation") {
            Ok(operation) => Ok(operation),
            Err(FrameError::UnexpectedFrame(expected)) => Err(MetaMindFrameDecode::UnexpectedFrame(expected)),
            Err(FrameError::UnexpectedSubReply(text)) => Err(MetaMindFrameDecode::UnexpectedSubReply(text)),
            Err(_) => Err(MetaMindFrameDecode::NotMeta),
        }
    }
}

impl Default for MetaMindFrameCodec {
    fn default() -> (codec: Self)
        ensures
            codec.maximum_frame_bytes == DEFAULT_MAXIMUM_FRAME_BYTES,
    {
        Self::new(DEFAULT_MAXIMUM_FRAME_BYTES)
    }
}

/// A client of the meta socket.
#[derive(Debug)]
pub struct MetaMindClient {
    pub endpoint: MetaMindEndpoint,
    pub codec: MetaMindFrameCodec,
}

impl MetaMindClient {
    pub fn new(endpoint: MetaMindEndpoint) -> (client: Self)
        ensures
            client.endpoint == endpoint,
            client.codec.maximum_frame_bytes == DEFAULT_MAXIMUM_FRAME_BYTES,
    {
        Self { endpoint, codec: MetaMindFrameCodec::new(DEFAULT_MAXIMUM_FRAME_BYTES) }
    }
}

/// What the `meta-mind` command reads from its environment.
#[derive(Debug)]
pub struct MetaMindCommandEnvironment {
    pub socket: String,
}

impl MetaMindCommandEnvironment {
    pub fn new(socket: String) -> (environment: Self)
        ensures
            environment.socket == socket,
    {
        Self { socket }
    }

    /// The environment given the value of `MIND_META_SOCKET`.
    pub fn from_values(socket: Option<String>) -> (environment: Self)
        ensures
            match socket {
                Some(path) => environment.socket == path,
                None => environment.socket@ == DEFAULT_META_MIND_SOCKET@,
            },
    {
        match socket {
            Some(path) => Self::new(path),
            None => Self::new(String::from_str(DEFAULT_META_MIND_SOCKET)),
        }
    }

    pub fn endpoint(&self) -> (endpoint: MetaMindEndpoint)
        ensures
            endpoint.socket == self.socket,
    {
        MetaMindEndpoint::new(self.socket.clone())
    }
}

/// The NOTA text of one meta operation, as given to the command.
#[derive(Debug)]
pub struct MetaMindOperationSource {
    pub text: String,
}

impl MetaMindOperationSource {
    pub fn new(text: String) -> (source: Self)
        ensures
            source.text == text,
    {
        Self { text }
    }
}

} // verus!
