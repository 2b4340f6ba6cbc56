//! The configuration writer: it reads one NOTA configuration request and
//! builds the daemon configuration that the deploy step archives.
//!
//! A request is `(ConfigurationWriteRequest <socket> <meta-socket> <store>
//! <output>)`, optionally followed by the knowledge judge:
//! `(FixtureKnowledgeJudge)` or `(MindJudge <socket> <timeout-milliseconds>)`.
//! Without one, admission uses the fixture judge.

use vstd::prelude::*;

use crate::configuration::{
    MindDaemonConfiguration, MindKnowledgeJudgeConfiguration, MindKnowledgeJudgeSocketConfiguration,
};
use crate::nota_block::{atom_text, decoded_count, decoded_text, record_entries, NotaBlock};
use crate::text::NotaDecodeError;
use crate::text_build::str_equal;

verus! {

/// The text of one configuration request.
#[derive(Debug)]
pub struct ConfigurationWriterInput {
    pub text: String,
}

impl ConfigurationWriterInput {
    pub fn new(text: String) -> (input: Self)
        ensures
            input.text == text,
    {
        Self { text }
    }
}

/// A path named by a configuration request.
#[derive(Debug)]
pub struct ConfigurationWriterPath(pub String);

impl ConfigurationWriterPath {
    pub fn as_path(&self) -> (path: &str)
        ensures
            path@ == self.0@,
    {
        self.0.as_str()
    }

    pub fn path_buf(&self) -> (path: String)
        ensures
            path == self.0,
    {
        self.0.clone()
    }
}

/// The knowledge judge a request selects.
#[derive(Debug)]
pub enum ConfigurationWriterKnowledgeJudge {
    FixtureKnowledgeJudge,
    MindJudge { socket_path: ConfigurationWriterPath, timeout_milliseconds: u64 },
}

#[derive(Debug)]
pub struct ConfigurationWriteRequest {
    pub socket_path: ConfigurationWriterPath,
    pub meta_socket_path: ConfigurationWriterPath,
    pub store_path: ConfigurationWriterPath,
    pub output_path: ConfigurationWriterPath,
    pub knowledge_judge: ConfigurationWriterKnowledgeJudge,
}

/// What the writer reports once the archive is written.
#[derive(Debug)]
pub struct ConfigurationWriteOutput {
    pub output_path: ConfigurationWriterPath,
}

/// What reading a path from `block` gives.
pub open spec fn decoded_path(block: NotaBlock) -> Result<ConfigurationWriterPath, NotaDecodeError> {
    match decoded_text(block, "ConfigurationWriterPath") {
        Ok(text) => Ok(ConfigurationWriterPath(text)),
        Err(error) => Err(error),
    }
}

/// What reading the knowledge judge record `block` gives.
pub open spec fn decoded_knowledge_judge(block: NotaBlock) -> Result<ConfigurationWriterKnowledgeJudge, NotaDecodeError> {
    match record_entries(block) {
        None => Err(NotaDecodeError::ExpectedRecord { kind_name: "KnowledgeJudge" }),
        Some(objects) => if objects.len() == 0 {
            Err(NotaDecodeError::ExpectedRootCount { kind_name: "KnowledgeJudge", expected: 1, found: 0 })
        } else {
            match atom_text(objects[0]) {
                None => Err(NotaDecodeError::ExpectedAtom { kind_name: "KnowledgeJudge" }),
                Some(head) => if head@ == "FixtureKnowledgeJudge"@ && objects.len() == 1 {
                    Ok(ConfigurationWriterKnowledgeJudge::FixtureKnowledgeJudge)
                } else if head@ == "MindJudge"@ && objects.len() == 3 {
                    match decoded_path(objects[1]) {
                        Err(error) => Err(error),
                        Ok(socket_path) => match decoded_count(objects[2], "MindJudgeTimeoutMilliseconds") {
                            Err(error) => Err(error),
                            Ok(timeout_milliseconds) => Ok(
                                ConfigurationWriterKnowledgeJudge::MindJudge { socket_path, timeout_milliseconds },
                            ),
                        },
                    }
                } else {
                    Err(NotaDecodeError::UnknownVariant { enum_name: "KnowledgeJudge", variant: head })
                },
            }
        },
    }
}

/// What reading the configuration request `block` gives.
pub open spec fn decoded_write_request(block: NotaBlock) -> Result<ConfigurationWriteRequest, NotaDecodeError> {
    match record_entries(block) {
        None => Err(NotaDecodeError::ExpectedRecord { kind_name: "ConfigurationWriteRequest" }),
        Some(objects) => if !(objects.len() == 5 || objects.len() == 6) {
            Err(
                NotaDecodeError::ExpectedRootCount {
                    kind_name: "ConfigurationWriteRequest",
                    expected: 5,
                    found: objects.len() as usize,
                },
            )
        } else {
            match atom_text(objects[0]) {
                None => Err(NotaDecodeError::ExpectedAtom { kind_name: "ConfigurationWriteRequest" }),
                Some(head) => if head@ != "ConfigurationWriteRequest"@ {
                    Err(NotaDecodeError::UnknownVariant { enum_name: "ConfigurationWriteRequest", variant: head })
                } else {
                    match (decoded_path(objects[1]), decoded_path(objects[2]), decoded_path(objects[3]), decoded_path(objects[4])) {
                        (Err(error), _, _, _) => Err(error),
                        (Ok(_), Err(error), _, _) => Err(error),
                        (Ok(_), Ok(_), Err(error), _) => Err(error),
                        (Ok(_), Ok(_), Ok(_), Err(error)) => Err(error),
                        (Ok(socket_path), Ok(meta_socket_path), Ok(store_path), Ok(output_path)) => {
                            let judge = if objects.len() == 6 {
                                decoded_knowledge_judge(objects[5])
                            } else {
                                Ok(ConfigurationWriterKnowledgeJudge::FixtureKnowledgeJudge)
                            };
                            match judge {
                                Err(error) => Err(error),
                                Ok(knowledge_judge) => Ok(
                                    ConfigurationWriteRequest {
                                        socket_path,
                                        meta_socket_path,
                                        store_path,
                                        output_path,
                                        knowledge_judge,
                                    },
                                ),
                            }
                        },
                    }
                },
            }
        },
    }
}

/// The daemon configuration a request describes.
pub open spec fn requested_configuration(request: ConfigurationWriteRequest) -> MindDaemonConfiguration {
    MindDaemonConfiguration {
        store_path: request.store_path.0,
        socket_path: request.socket_path.0,
        meta_socket_path: request.meta_socket_path.0,
        knowledge_judge: match request.knowledge_judge {
            ConfigurationWriterKnowledgeJudge::FixtureKnowledgeJudge => MindKnowledgeJudgeConfiguration::Fixture,
            ConfigurationWriterKnowledgeJudge::MindJudge { socket_path, timeout_milliseconds } => {
                MindKnowledgeJudgeConfiguration::MindJudge(
                    MindKnowledgeJudgeSocketConfiguration { socket_path: socket_path.0, timeout_milliseconds },
                )
            },
        },
    }
}

impl ConfigurationWriterPath {
    pub fn from_nota_block(block: &NotaBlock) -> (path: Result<Self, NotaDecodeError>)
        ensures
            path == decoded_path(*block),
    {
        match block.decode_text("ConfigurationWriterPath") {
            Ok(text) => Ok(ConfigurationWriterPath(text)),
            Err(error) => Err(error),
        }
    }
}

impl ConfigurationWriterKnowledgeJudge {
    pub fn from_nota_block(block: &NotaBlock) -> (judge: Result<Self, NotaDecodeError>)
        ensures
            judge == decoded_knowledge_judge(*block),
    {
        let objects = match block.expect_record("KnowledgeJudge") {
            Ok(objects) => objects,
            Err(error) => return Err(error),
        };
        if objects.len() == 0 {
            return Err(NotaDecodeError::ExpectedRootCount { kind_name: "KnowledgeJudge", expected: 1, found: 0 });
        }
        let head = match objects[0].demote_to_string() {
            Some(head) => head,
            None => return Err(NotaDecodeError::ExpectedAtom { kind_name: "KnowledgeJudge" }),
        };
        if str_equal(head.as_str(), "FixtureKnowledgeJudge") && objects.len() == 1 {
            Ok(ConfigurationWriterKnowledgeJudge::FixtureKnowledgeJudge)
        } else if str_equal(head.as_str(), "MindJudge") && objects.len() == 3 {
            let socket_path = match ConfigurationWriterPath::from_nota_block(&objects[1]) {
                Ok(path) => path,
                Err(error) => return Err(error),
            };
            let timeout_milliseconds = match objects[2].decode_count("MindJudgeTimeoutMilliseconds") {
                Ok(count) => count,
                Err(error) => return Err(error),
            };
            Ok(ConfigurationWriterKnowledgeJudge::MindJudge { socket_path, timeout_milliseconds })
        } else {
            Err(NotaDecodeError::UnknownVariant { enum_name: "KnowledgeJudge", variant: head.clone() })
        }
    }
}

impl ConfigurationWriteRequest {
    pub fn from_nota_block(block: &NotaBlock) -> (request: Result<Self, NotaDecodeError>)
        ensures
            request == decoded_write_request(*block),
    {
        let objects = match block.expect_record("ConfigurationWriteRequest") {
            Ok(objects) => objects,
            Err(error) => return Err(error),
        };
        let count = objects.len();
        if !(count == 5 || count == 6) {
            return Err(
                NotaDecodeError::ExpectedRootCount { kind_name: "ConfigurationWriteRequest", expected: 5, found: count },
            );
        }
        let head = match objects[0].demote_to_string() {
            Some(head) => head,
            None => return Err(NotaDecodeError::ExpectedAtom { kind_name: "ConfigurationWriteRequest" }),
        };
        if !str_equal(head.as_str(), "ConfigurationWriteRequest") {
            return Err(NotaDecodeError::UnknownVariant { enum_name: "ConfigurationWriteRequest", variant: head.clone() });
        }
        let socket_path = match ConfigurationWriterPath::from_nota_block(&objects[1]) {
            Ok(path) => path,
            Err(error) => return Err(error),
        };
        let meta_socket_path = match ConfigurationWriterPath::from_nota_block(&objects[2]) {
            Ok(path) => path,
            Err(error) => return Err(error),
        };
        let store_path = match ConfigurationWriterPath::from_nota_block(&objects[3]) {
            Ok(path) => path,
            Err(error) => return Err(error),
        };
        let output_path = match ConfigurationWriterPath::from_nota_block(&objects[4]) {
            Ok(path) => path,
            Err(error) => return Err(error),
        };
        let knowledge_judge = if count == 6 {
            match ConfigurationWriterKnowledgeJudge::from_nota_block(&objects[5]) {
                Ok(judge) => judge,
                Err(error) => return Err(error),
            }
        } else {
            ConfigurationWriterKnowledgeJudge::FixtureKnowledgeJudge
        };
        Ok(ConfigurationWriteRequest { socket_path, meta_socket_path, store_path, output_path, knowledge_judge })
    }

    /// The daemon configuration this request describes.
    pub fn configuration(self) -> (configuration: MindDaemonConfiguration)
        ensures
            configuration == requested_configuration(self),
    {
        let configuration = MindDaemonConfiguration::new(self.store_path.0, self.socket_path.0, self.meta_socket_path.0);
        match self.knowledge_judge {
            ConfigurationWriterKnowledgeJudge::FixtureKnowledgeJudge => configuration,
            ConfigurationWriterKnowledgeJudge::MindJudge { socket_path, timeout_milliseconds } => {
                configuration.with_mind_judge(MindKnowledgeJudgeSocketConfiguration::new(socket_path.0, timeout_milliseconds))
            },
        }
    }
}

} // verus!
