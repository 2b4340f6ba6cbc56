//! The startup configuration of the `mind` daemon: the durable store, the
//! working socket, the owner-only meta socket, and which knowledge judge
//! admission consults.  The daemon reads it as one binary archive; both
//! listener sockets are created owner-only.

use vstd::prelude::*;

verus! {

/// The mode of both listener sockets: readable and writable by the owner
/// only (`0o600`).
pub const OWNER_ONLY_SOCKET_MODE: u32 = 384;

/// How many requests the daemon serves at once.
pub const MAXIMUM_CONCURRENT_REQUESTS: usize = 64;

/// The judge timeout used when a configuration names none.
pub const DEFAULT_MIND_JUDGE_TIMEOUT_MILLISECONDS: u64 = 5000;

/// Where admission sends a knowledge submission for judgment.
#[derive(Debug)]
pub enum MindKnowledgeJudgeConfiguration {
    /// The built-in fixture judge.
    Fixture,
    /// The mind-judge service behind a socket.
    MindJudge(MindKnowledgeJudgeSocketConfiguration),
}

/// The mind-judge socket and how long one judgment may take.
#[derive(Debug)]
pub struct MindKnowledgeJudgeSocketConfiguration {
    pub socket_path: String,
    pub timeout_milliseconds: u64,
}

impl MindKnowledgeJudgeSocketConfiguration {
    pub const DEFAULT_TIMEOUT_MILLISECONDS: u64 = DEFAULT_MIND_JUDGE_TIMEOUT_MILLISECONDS;

    pub fn new(socket_path: String, timeout_milliseconds: u64) -> (judge: Self)
        ensures
            judge == (Self { socket_path, timeout_milliseconds }),
    {
        Self { socket_path, timeout_milliseconds }
    }
}

#[derive(Debug)]
pub struct MindDaemonConfiguration {
    pub store_path: String,
    pub socket_path: String,
    pub meta_socket_path: String,
    pub knowledge_judge: MindKnowledgeJudgeConfiguration,
}

/// Why a configuration could not be read or written.
#[derive(Debug)]
pub enum ConfigurationError {
    /// The configuration file could not be read; the reason as text.
    Read(String),
    ArchiveEncode,
    ArchiveDecode,
}

impl MindDaemonConfiguration {
    /// A configuration that admits knowledge with the fixture judge.
    pub fn new(store_path: String, socket_path: String, meta_socket_path: String) -> (configuration: Self)
        ensures
            configuration == (Self {
                store_path,
                socket_path,
                meta_socket_path,
                knowledge_judge: MindKnowledgeJudgeConfiguration::Fixture,
            }),
    {
        Self { store_path, socket_path, meta_socket_path, knowledge_judge: MindKnowledgeJudgeConfiguration::Fixture }
    }

    /// The same configuration, judging with the mind-judge socket.
    pub fn with_mind_judge(self, knowledge_judge: MindKnowledgeJudgeSocketConfiguration) -> (configuration: Self)
        ensures
            configuration == (Self {
                knowledge_judge: MindKnowledgeJudgeConfiguration::MindJudge(knowledge_judge),
                ..self
            }),
    {
        Self { knowledge_judge: MindKnowledgeJudgeConfiguration::MindJudge(knowledge_judge), ..self }
    }

    /// Every configuration that can be built is valid.
    pub fn validate(&self) -> (checked: Result<(), ConfigurationError>)
        ensures
            checked is Ok,
    {
        Ok(())
    }

    pub fn socket_path(&self) -> (path: &str)
        ensures
            path@ == self.socket_path@,
    {
        self.socket_path.as_str()
    }

    pub fn socket_mode(&self) -> (mode: Option<u32>)
        ensures
            mode == Some(OWNER_ONLY_SOCKET_MODE),
    {
        Some(OWNER_ONLY_SOCKET_MODE)
    }

    pub fn request_concurrency_limit(&self) -> (limit: usize)
        ensures
            limit == MAXIMUM_CONCURRENT_REQUESTS,
    {
        MAXIMUM_CONCURRENT_REQUESTS
    }

    pub fn meta_socket_path(&self) -> (path: Option<&str>)
        ensures
            path matches Some(p) && p@ == self.meta_socket_path@,
    {
        Some(self.meta_socket_path.as_str())
    }

    pub fn meta_socket_mode(&self) -> (mode: Option<u32>)
        ensures
            mode == Some(OWNER_ONLY_SOCKET_MODE),
    {
        Some(OWNER_ONLY_SOCKET_MODE)
    }

    pub fn database_path(&self) -> (path: &str)
        ensures
            path@ == self.store_path@,
    {
        self.store_path.as_str()
    }
}

} // verus!
