//! The owner-only engine-management (supervision) surface: the socket it
//! listens on and the answers mind gives to a supervisor's requests.

use vstd::prelude::*;

use crate::octal::{parse_octal, parsed_octal};

verus! {

/// The mode a supervision socket gets when none is configured.
pub const DEFAULT_SUPERVISION_SOCKET_MODE: u32 = 0o600;

#[derive(Debug, Clone, Copy, PartialEq, Eq, Structural)]
pub struct SupervisionSocketMode(pub u32);

impl SupervisionSocketMode {
    pub fn from_octal(value: u32) -> (mode: Self)
        ensures
            mode.0 == value,
    {
        Self(value)
    }

    pub fn as_octal(self) -> (value: u32)
        ensures
            value == self.0,
    {
        self.0
    }
}

/// The kind of component a supervisor talks to.
#[derive(Debug, Clone, Copy, PartialEq, Eq, Structural)]
pub enum ComponentKind {
    Mind,
    /// Another component, by the contract's tag.
    Other(u64),
}

#[derive(Debug, Clone, Copy, PartialEq, Eq, Structural)]
pub enum ComponentHealth {
    Running,
    Failed,
    /// Another health state, by the contract's tag.
    Other(u64),
}

/// Who mind says it is to a supervisor.
#[derive(Debug)]
pub struct SupervisionProfile {
    pub name: String,
    pub kind: ComponentKind,
    pub health: ComponentHealth,
}

impl SupervisionProfile {
    pub fn mind() -> (profile: Self)
        ensures
            profile.name@ == "mind"@,
            profile.kind == ComponentKind::Mind,
            profile.health == ComponentHealth::Running,
    {
        Self { name: String::from_str("mind"), kind: ComponentKind::Mind, health: ComponentHealth::Running }
    }
}

/// Where the supervision socket is bound, and with which mode.
#[derive(Debug)]
pub struct SupervisionListener {
    pub socket: String,
    pub mode: SupervisionSocketMode,
}

/// The listener that the environment configures: the socket path, and the
/// mode as octal text (owner-only when absent or unreadable).
pub open spec fn environment_listener_mode(mode: Option<String>) -> u32 {
    match mode {
        Some(text) => match parsed_octal(text@) {
            Some(value) => value,
            None => DEFAULT_SUPERVISION_SOCKET_MODE,
        },
        None => DEFAULT_SUPERVISION_SOCKET_MODE,
    }
}

impl SupervisionListener {
    pub fn new(socket: String, mode: SupervisionSocketMode) -> (listener: Self)
        ensures
            listener.socket == socket,
            listener.mode == mode,
    {
        Self { socket, mode }
    }

    /// The listener configured by `PERSONA_SUPERVISION_SOCKET_PATH` and
    /// `PERSONA_SUPERVISION_SOCKET_MODE`, given their values; none without a
    /// socket path.
    pub fn from_environment_values(
        _profile: &SupervisionProfile,
        socket: Option<String>,
        mode: Option<String>,
    ) -> (listener: Option<Self>)
        ensures
            match socket {
                Some(path) => listener matches Some(l) && l.socket == path && l.mode.0 == environment_listener_mode(mode),
                None => listener is None,
            },
    {
        let socket = match socket {
            Some(path) => path,
            None => return None,
        };
        let value = match &mode {
            Some(text) => match parse_octal(text.as_str()) {
                Some(value) => value,
                None => DEFAULT_SUPERVISION_SOCKET_MODE,
            },
            None => DEFAULT_SUPERVISION_SOCKET_MODE,
        };
        Some(Self::new(socket, SupervisionSocketMode::from_octal(value)))
    }

    pub fn socket(&self) -> (socket: &str)
        ensures
            socket@ == self.socket@,
    {
        self.socket.as_str()
    }
}

/// The frame limit of the supervision protocol.
#[derive(Debug, Clone, Copy, PartialEq, Eq, Structural)]
pub struct SupervisionFrameCodec {
    pub maximum_frame_bytes: usize,
}

impl SupervisionFrameCodec {
    pub fn new(maximum_frame_bytes: usize) -> (codec: Self)
        ensures
            codec.maximum_frame_bytes == maximum_frame_bytes,
    {
        Self { maximum_frame_bytes }
    }
}

/// A supervisor's request.
#[derive(Debug, Clone, Copy, PartialEq, Eq, Structural)]
pub enum SupervisionRequest {
    Announce,
    ReadinessStatus,
    HealthStatus,
    Stop,
}

/// Mind's answer to a supervisor.
#[derive(Debug)]
pub enum SupervisionReply {
    Identified {
        name: String,
        kind: ComponentKind,
        engine_management_protocol_version: u64,
        last_fatal_startup_error: Option<String>,
    },
    Ready { component_started_at: Option<u64> },
    HealthReport { health: ComponentHealth },
    StopAcknowledged { drain_completed_at: Option<u64> },
}

/// The engine-management protocol version mind speaks.
pub const ENGINE_MANAGEMENT_PROTOCOL_VERSION: u64 = 1;

/// Answers supervision requests from the profile and counts them.
#[derive(Debug)]
pub struct SupervisionPhase {
    pub profile: SupervisionProfile,
    pub request_count: u64,
}

impl SupervisionPhase {
    pub fn new(profile: SupervisionProfile) -> (phase: Self)
        ensures
            phase.profile == profile,
            phase.request_count == 0,
    {
        Self { profile, request_count: 0 }
    }

    pub fn reply(&mut self, request: SupervisionRequest) -> (reply: SupervisionReply)
        ensures
            final(self).profile == old(self).profile,
            final(self).request_count == if old(self).request_count == u64::MAX { u64::MAX as int } else { old(self).request_count + 1 },
            reply == match request {
                SupervisionRequest::Announce => SupervisionReply::Identified {
                    name: old(self).profile.name,
                    kind: old(self).profile.kind,
                    engine_management_protocol_version: ENGINE_MANAGEMENT_PROTOCOL_VERSION,
                    last_fatal_startup_error: None,
                },
                SupervisionRequest::ReadinessStatus => SupervisionReply::Ready { component_started_at: None },
                SupervisionRequest::HealthStatus => SupervisionReply::HealthReport { health: old(self).profile.health },
                SupervisionRequest::Stop => SupervisionReply::StopAcknowledged { drain_completed_at: None },
            },
    {
        self.request_count = self.request_count.saturating_add(1);
        match request {
            SupervisionRequest::Announce => SupervisionReply::Identified {
                name: self.profile.name.clone(),
                kind: self.profile.kind,
                engine_management_protocol_version: ENGINE_MANAGEMENT_PROTOCOL_VERSION,
                last_fatal_startup_error: None,
            },
            SupervisionRequest::ReadinessStatus => SupervisionReply::Ready { component_started_at: None },
            SupervisionRequest::HealthStatus => SupervisionReply::HealthReport { health: self.profile.health },
            SupervisionRequest::Stop => SupervisionReply::StopAcknowledged { drain_completed_at: None },
        }
    }

    /// Answers a handled request, wrapped as the phase's reply.
    pub fn handle(&mut self, message: HandleSupervisionRequest) -> (reply: SupervisionPhaseReply)
        ensures
            final(self).profile == old(self).profile,
            final(self).request_count == if old(self).request_count == u64::MAX { u64::MAX as int } else { old(self).request_count + 1 },
            reply.reply == match message.request {
                SupervisionRequest::Announce => SupervisionReply::Identified {
                    name: old(self).profile.name,
                    kind: old(self).profile.kind,
                    engine_management_protocol_version: ENGINE_MANAGEMENT_PROTOCOL_VERSION,
                    last_fatal_startup_error: None,
                },
                SupervisionRequest::ReadinessStatus => SupervisionReply::Ready { component_started_at: None },
                SupervisionRequest::HealthStatus => SupervisionReply::HealthReport { health: old(self).profile.health },
                SupervisionRequest::Stop => SupervisionReply::StopAcknowledged { drain_completed_at: None },
            },
    {
        SupervisionPhaseReply { reply: self.reply(message.request) }
    }
}

/// What the supervision phase is started with.
#[derive(Debug)]
pub struct SupervisionArguments {
    pub profile: SupervisionProfile,
}

impl SupervisionArguments {
    pub fn new(profile: SupervisionProfile) -> (arguments: Self)
        ensures
            arguments.profile == profile,
    {
        Self { profile }
    }
}

/// One supervision request handed to the phase.
#[derive(Debug)]
pub struct HandleSupervisionRequest {
    pub request: SupervisionRequest,
}

impl HandleSupervisionRequest {
    pub fn new(request: SupervisionRequest) -> (message: Self)
        ensures
            message.request == request,
    {
        Self { request }
    }
}

/// The phase's answer to one request.
#[derive(Debug)]
pub struct SupervisionPhaseReply {
    pub reply: SupervisionReply,
}

impl SupervisionPhaseReply {
    /// The answer given when the supervision phase cannot be reached: the
    /// component reports itself failed.
    pub fn unavailable() -> (reply: Self)
        ensures
            reply.reply == (SupervisionReply::HealthReport { health: ComponentHealth::Failed }),
    {
        Self { reply: SupervisionReply::HealthReport { health: ComponentHealth::Failed } }
    }

    pub fn into_reply(self) -> (reply: SupervisionReply)
        ensures
            reply == self.reply,
    {
        self.reply
    }
}

} // verus!
