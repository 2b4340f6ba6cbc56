//! What the `mind` command reads from its environment: the daemon socket and
//! the caller name it speaks as.

use vstd::prelude::*;

use crate::transport::MindDaemonEndpoint;

verus! {

/// The daemon socket used when `MIND_SOCKET` is not set.
pub const DEFAULT_MIND_SOCKET: &'static str = "/tmp/mind.sock";

/// The caller name used when `MIND_ACTOR` is not set.
pub const DEFAULT_MIND_ACTOR: &'static str = "operator";

#[derive(Debug)]
pub struct MindCommandEnvironment {
    pub socket: String,
    pub actor: String,
}

impl MindCommandEnvironment {
    pub fn new(socket: String, actor: String) -> (environment: Self)
        ensures
            environment.socket == socket,
            environment.actor == actor,
    {
        Self { socket, actor }
    }

    /// The environment given the values of `MIND_SOCKET` and `MIND_ACTOR`.
    pub fn from_values(socket: Option<String>, actor: Option<String>) -> (environment: Self)
        ensures
            match socket {
                Some(path) => environment.socket == path,
                None => environment.socket@ == DEFAULT_MIND_SOCKET@,
            },
            match actor {
                Some(name) => environment.actor == name,
                None => environment.actor@ == DEFAULT_MIND_ACTOR@,
            },
    {
        let socket = match socket {
            Some(path) => path,
            None => String::from_str(DEFAULT_MIND_SOCKET),
        };
        let actor = match actor {
            Some(name) => name,
            None => String::from_str(DEFAULT_MIND_ACTOR),
        };
        Self { socket, actor }
    }

    pub fn endpoint(&self) -> (endpoint: MindDaemonEndpoint)
        ensures
            endpoint.socket == self.socket,
    {
        MindDaemonEndpoint::new(self.socket.clone())
    }

    pub fn actor(&self) -> (actor: String)
        ensures
            actor == self.actor,
    {
        self.actor.clone()
    }
}

/// The NOTA text of one request, as given to the command.
#[derive(Debug)]
pub struct CommandInputSource {
    pub text: String,
}

impl CommandInputSource {
    pub fn new(text: String) -> (source: Self)
        ensures
            source.text == text,
    {
        Self { text }
    }

    pub fn text(&self) -> (text: &str)
        ensures
            text@ == self.text@,
    {
        self.text.as_str()
    }
}

} // verus!
