//! The working socket of the mind daemon: where it listens, with which mode,
//! and the frame limit of its codec.

use vstd::prelude::*;

use crate::octal::{parse_octal, parsed_octal};
use crate::supervision::{environment_listener_mode, SupervisionListener, SupervisionProfile};

verus! {

/// The largest frame the codecs read unless told otherwise: one mebibyte.
pub const DEFAULT_MAXIMUM_FRAME_BYTES: usize = 1048576;

/// Where the durable `mind.sema` store lives.
#[derive(Debug)]
pub struct StoreLocation {
    pub path: String,
}

impl StoreLocation {
    pub fn new(path: String) -> (location: Self)
        ensures
            location.path == path,
    {
        Self { path }
    }
}

/// The socket path of the mind daemon.
#[derive(Debug)]
pub struct MindDaemonEndpoint {
    pub socket: String,
}

impl MindDaemonEndpoint {
    pub fn new(socket: String) -> (endpoint: Self)
        ensures
            endpoint.socket == socket,
    {
        Self { socket }
    }

    pub fn as_path(&self) -> (path: &str)
        ensures
            path@ == self.socket@,
    {
        self.socket.as_str()
    }
}

/// The file mode given to the working socket.
#[derive(Debug, Clone, Copy, PartialEq, Eq, Structural)]
pub struct MindSocketMode(pub u32);

impl MindSocketMode {
    pub fn new(value: u32) -> (mode: Self)
        ensures
            mode.0 == value,
    {
        Self(value)
    }

    /// The mode that `PERSONA_SOCKET_MODE` configures, given its value.
    pub fn from_environment_value(value: Option<String>) -> (mode: Option<Self>)
        ensures
            mode == match value {
                Some(text) => match parsed_octal(text@) {
                    Some(bits) => Some(MindSocketMode(bits)),
                    None => None::<MindSocketMode>,
                },
                None => None::<MindSocketMode>,
            },
    {
        match value {
            Some(text) => match parse_octal(text.as_str()) {
                Some(bits) => Some(Self::new(bits)),
                None => None,
            },
            None => None,
        }
    }

    pub fn as_octal(self) -> (value: u32)
        ensures
            value == self.0,
    {
        self.0
    }
}

/// The frame limit of the working protocol.
#[derive(Debug, Clone, Copy, PartialEq, Eq, Structural)]
pub struct MindFrameCodec {
    pub maximum_frame_bytes: usize,
}

impl MindFrameCodec {
    pub fn new(maximum_frame_bytes: usize) -> (codec: Self)
        ensures
            codec.maximum_frame_bytes == maximum_frame_bytes,
    {
        Self { maximum_frame_bytes }
    }
}

impl Default for MindFrameCodec {
    fn default() -> (codec: Self)
        ensures
            codec.maximum_frame_bytes == DEFAULT_MAXIMUM_FRAME_BYTES,
    {
        Self::new(DEFAULT_MAXIMUM_FRAME_BYTES)
    }
}

/// A daemon before it binds: its endpoint and store, the working socket's
/// mode, and the supervision listener, if any.
#[derive(Debug)]
pub struct MindDaemon {
    pub endpoint: MindDaemonEndpoint,
    pub store: StoreLocation,
    pub socket_mode: Option<MindSocketMode>,
    pub supervision: Option<SupervisionListener>,
    pub codec: MindFrameCodec,
}

impl MindDaemon {
    /// A daemon with no socket mode and no supervision listener.
    pub fn new(endpoint: MindDaemonEndpoint, store: StoreLocation) -> (daemon: Self)
        ensures
            daemon.endpoint == endpoint,
            daemon.store == store,
            daemon.socket_mode is None,
            daemon.supervision is None,
            daemon.codec.maximum_frame_bytes == DEFAULT_MAXIMUM_FRAME_BYTES,
    {
        Self { endpoint, store, socket_mode: None, supervision: None, codec: MindFrameCodec::new(DEFAULT_MAXIMUM_FRAME_BYTES) }
    }

    /// A daemon configured by the process environment, given the values of
    /// `PERSONA_SOCKET_MODE`, `PERSONA_SUPERVISION_SOCKET_PATH` and
    /// `PERSONA_SUPERVISION_SOCKET_MODE`.
    pub fn from_environment_values(
        endpoint: MindDaemonEndpoint,
        store: StoreLocation,
        socket_mode: Option<String>,
        supervision_socket: Option<String>,
        supervision_mode: Option<String>,
    ) -> (daemon: Self)
        ensures
            daemon.endpoint == endpoint,
            daemon.store == store,
            daemon.socket_mode == match socket_mode {
                Some(text) => match parsed_octal(text@) {
                    Some(bits) => Some(MindSocketMode(bits)),
                    None => None::<MindSocketMode>,
                },
                None => None::<MindSocketMode>,
            },
            match supervision_socket {
                Some(path) => daemon.supervision matches Some(l) && l.socket == path && l.mode.0
                    == environment_listener_mode(supervision_mode),
                None => daemon.supervision is None,
            },
            daemon.codec.maximum_frame_bytes == DEFAULT_MAXIMUM_FRAME_BYTES,
    {
        let profile = SupervisionProfile::mind();
        Self {
            endpoint,
            store,
            socket_mode: MindSocketMode::from_environment_value(socket_mode),
            supervision: SupervisionListener::from_environment_values(&profile, supervision_socket, supervision_mode),
            codec: MindFrameCodec::new(DEFAULT_MAXIMUM_FRAME_BYTES),
        }
    }

    pub fn with_socket_mode(self, socket_mode: MindSocketMode) -> (daemon: Self)
        ensures
            daemon.socket_mode == Some(socket_mode),
            daemon.endpoint == self.endpoint,
            daemon.store == self.store,
            daemon.supervision == self.supervision,
            daemon.codec == self.codec,
    {
        let mut daemon = self;
        daemon.socket_mode = Some(socket_mode);
        daemon
    }

    pub fn with_supervision_listener(self, supervision: SupervisionListener) -> (daemon: Self)
        ensures
            daemon.supervision == Some(supervision),
            daemon.endpoint == self.endpoint,
            daemon.store == self.store,
            daemon.socket_mode == self.socket_mode,
            daemon.codec == self.codec,
    {
        let mut daemon = self;
        daemon.supervision = Some(supervision);
        daemon
    }
}

/// The marker type of mind's daemon process.
#[derive(Debug)]
pub struct MindProcessDaemon;

} // verus!
