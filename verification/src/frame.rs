//! Length-prefixed frames and the shape checks made on decoded frames.
//!
//! On the wire a frame is a four-byte big-endian length followed by that many
//! bytes.  A reader refuses a frame whose announced length exceeds its limit
//! before reading the body.  Decoded frames are requests (with an optional
//! caller identity and one or more operations) or replies (accepted, with the
//! outcome of the first operation, or rejected with a reason).

use vstd::prelude::*;

verus! {

/// The errors of frame reading and frame shape.
#[derive(Debug)]
pub enum FrameError {
    FrameTooLarge { found: usize, limit: usize },
    UnexpectedFrame(&'static str),
    UnexpectedSubReply(String),
    FrameReplyRejected(String),
    MissingCallerIdentity,
}

/// The length that a four-byte prefix announces.
pub open spec fn announced_length(prefix: Seq<u8>) -> nat {
    ((prefix[0] as nat * 256 + prefix[1] as nat) * 256 + prefix[2] as nat) * 256 + prefix[3] as nat
}

/// Reads the announced length of a frame and checks it against the limit.
pub fn frame_body_length(prefix: &[u8; 4], maximum_frame_bytes: usize) -> (length: Result<usize, FrameError>)
    ensures
        announced_length(prefix@) <= maximum_frame_bytes ==> length == Ok::<usize, FrameError>(
            announced_length(prefix@) as usize,
        ),
        announced_length(prefix@) > maximum_frame_bytes ==> (length matches Err(FrameError::FrameTooLarge { found, limit })
            && found as nat == announced_length(prefix@) && limit == maximum_frame_bytes),
{
    let length: u64 = (((prefix[0] as u64) * 256 + prefix[1] as u64) * 256 + prefix[2] as u64) * 256 + prefix[3] as u64;
    if length > maximum_frame_bytes as u64 {
        // A length above the limit may not fit a 32-bit `usize`; it is
        // reported capped at the largest one.
        let found = if length > usize::MAX as u64 {
            usize::MAX
        } else {
            length as usize
        };
        proof {
            assert(announced_length(prefix@) <= 4294967295);
            assert(usize::MAX >= 4294967295);
        }
        return Err(FrameError::FrameTooLarge { found, limit: maximum_frame_bytes });
    }
    Ok(length as usize)
}

/// The raw bytes of one frame, length prefix included.
#[derive(Debug, Clone, PartialEq, Eq)]
pub struct LengthPrefixedFrameBytes {
    bytes: Vec<u8>,
}

impl LengthPrefixedFrameBytes {
    pub closed spec fn view_bytes(&self) -> Seq<u8> {
        self.bytes@
    }

    /// Joins a frame's prefix and the body read after it.
    pub fn from_parts(prefix: &[u8; 4], body: Vec<u8>) -> (frame: Self)
        ensures
            frame.view_bytes() == prefix@ + body@,
    {
        let mut bytes: Vec<u8> = Vec::new();
        bytes.push(prefix[0]);
        bytes.push(prefix[1]);
        bytes.push(prefix[2]);
        bytes.push(prefix[3]);
        let mut rest = body;
        bytes.append(&mut rest);
        proof {
            assert(bytes@ =~= prefix@ + body@);
        }
        Self { bytes }
    }

    pub fn as_slice(&self) -> (bytes: &[u8])
        ensures
            bytes@ == self.view_bytes(),
    {
        self.bytes.as_slice()
    }
}

/// A decoded request: the caller identity its signal frame carries, and its
/// operations.
#[derive(Debug)]
pub struct FrameRequest<Operation> {
    pub caller_identity: Option<String>,
    pub operations: Vec<Operation>,
}

/// The outcome of the first operation of an accepted reply.
#[derive(Debug)]
pub enum SubReply<Payload> {
    /// The operation completed with this payload.
    Completed(Payload),
    /// Any other outcome, in its debug rendering.
    Other(String),
}

#[derive(Debug)]
pub enum FrameReply<Payload> {
    Accepted { first: SubReply<Payload> },
    Rejected { reason: String },
}

#[derive(Debug)]
pub enum FrameBody<Operation, Payload> {
    Request(FrameRequest<Operation>),
    Reply(FrameReply<Payload>),
}

/// A request's caller identity and its first operation: what enters mind.
#[derive(Debug)]
pub struct Envelope<Operation> {
    pub actor: String,
    pub request: Operation,
}

/// The envelope of a working request frame.  The caller identity must come
/// from the signal frame: a frame without one is refused.
pub fn envelope_from_frame<Operation, Payload>(frame: FrameBody<Operation, Payload>) -> (envelope: Result<Envelope<Operation>, FrameError>)
    ensures
        match frame {
            FrameBody::Request(request) => match request.caller_identity {
                Some(actor) => if request.operations@.len() > 0 {
                    envelope == Ok::<Envelope<Operation>, FrameError>(
                        Envelope { actor, request: request.operations@[0] },
                    )
                } else {
                    envelope == Err::<Envelope<Operation>, FrameError>(
                        FrameError::UnexpectedFrame("expected mind request operation"),
                    )
                },
                None => envelope == Err::<Envelope<Operation>, FrameError>(FrameError::MissingCallerIdentity),
            },
            FrameBody::Reply(_) => envelope == Err::<Envelope<Operation>, FrameError>(
                FrameError::UnexpectedFrame("expected mind request operation"),
            ),
        },
        envelope is Ok ==> frame is Request && frame->Request_0.operations@.len() > 0,
{
    match frame {
        FrameBody::Request(request) => {
            let actor = match request.caller_identity {
                Some(actor) => actor,
                None => return Err(FrameError::MissingCallerIdentity),
            };
            let mut operations = request.operations;
            if operations.len() == 0 {
                return Err(FrameError::UnexpectedFrame("expected mind request operation"));
            }
            let first = operations.remove(0);
            Ok(Envelope { actor, request: first })
        },
        FrameBody::Reply(_) => Err(FrameError::UnexpectedFrame("expected mind request operation")),
    }
}

/// The payload of a reply frame.
pub fn reply_from_frame<Operation, Payload>(frame: FrameBody<Operation, Payload>, expected: &'static str) -> (reply: Result<Payload, FrameError>)
    ensures
        match frame {
            FrameBody::Reply(FrameReply::Accepted { first: SubReply::Completed(payload) }) => reply == Ok::<Payload, FrameError>(payload),
            FrameBody::Reply(FrameReply::Accepted { first: SubReply::Other(text) }) => reply == Err::<Payload, FrameError>(
                FrameError::UnexpectedSubReply(text),
            ),
            FrameBody::Reply(FrameReply::Rejected { reason }) => reply == Err::<Payload, FrameError>(
                FrameError::FrameReplyRejected(reason),
            ),
            FrameBody::Request(_) => reply == Err::<Payload, FrameError>(FrameError::UnexpectedFrame(expected)),
        },
{
    match frame {
        FrameBody::Reply(FrameReply::Accepted { first }) => match first {
            SubReply::Completed(payload) => Ok(payload),
            SubReply::Other(text) => Err(FrameError::UnexpectedSubReply(text)),
        },
        FrameBody::Reply(FrameReply::Rejected { reason }) => Err(FrameError::FrameReplyRejected(reason)),
        FrameBody::Request(_) => Err(FrameError::UnexpectedFrame(expected)),
    }
}

/// The single operation of a request frame; owner-only protocols accept
/// exactly one operation per request.
pub fn single_operation<Operation, Payload>(
    frame: FrameBody<Operation, Payload>,
    one_expected: &'static str,
    request_expected: &'static str,
) -> (operation: Result<Operation, FrameError>)
    ensures
        match frame {
            FrameBody::Request(request) => if request.operations@.len() == 1 {
                operation == Ok::<Operation, FrameError>(request.operations@[0])
            } else {
                operation == Err::<Operation, FrameError>(FrameError::UnexpectedFrame(one_expected))
            },
            FrameBody::Reply(_) => operation == Err::<Operation, FrameError>(FrameError::UnexpectedFrame(request_expected)),
        },
{
    match frame {
        FrameBody::Request(request) => {
            let mut operations = request.operations;
            if operations.len() != 1 {
                return Err(FrameError::UnexpectedFrame(one_expected));
            }
            Ok(operations.remove(0))
        },
        FrameBody::Reply(_) => Err(FrameError::UnexpectedFrame(request_expected)),
    }
}

} // verus!
